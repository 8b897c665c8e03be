//! Protocol engine of a driver station for competition robots.
//!
//! The crate holds the byte-exact codecs of the control and status datagrams and of the
//! reliable stream, the send, receive and reliable substates with their mutators, the
//! backoff bookkeeping of the sender, and the decisions of the connection tasks. Sockets,
//! timers, locks and callbacks live with the caller: each task hands the events it sees to
//! the functions of this crate and carries out the actions they return.

pub mod ds;
pub mod error;
pub mod ext;
pub mod proto;
pub mod text;
pub mod util;

pub use self::ds::state::Mode;
pub use self::ds::DriverStation;
pub use self::ds::JoystickValue;
pub use self::proto::tcp::inbound::Stdout;
pub use self::proto::tcp::inbound::TcpPacket;
pub use self::proto::udp::outbound::types::Alliance;
pub use self::proto::udp::outbound::types::Control;
pub use self::proto::udp::outbound::types::Request;
