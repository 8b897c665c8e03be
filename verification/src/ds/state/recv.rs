//! What the controller last reported, and the state of the reliable stream.

use vstd::prelude::*;
use vstd::utf8::encode_utf8;
use crate::error::DsError;
use crate::proto::tcp::inbound::TcpPacket;
use crate::proto::tcp::outbound::tag_views;
use crate::proto::tcp::outbound::GameData;
use crate::proto::tcp::outbound::TcpTag;
use crate::proto::tcp::outbound::TcpTagView;
use crate::proto::udp::inbound::types::Trace;
use crate::proto::udp::inbound::Voltage;

verus! {

/// The receive substate as a plain value.
pub struct RecvStateView {
    pub battery_voltage: Voltage,
    pub trace: u8,
}

impl RecvStateView {
    /// What is known of a controller that has not been heard: no voltage, no trace bit.
    pub open spec fn cleared() -> RecvStateView {
        RecvStateView { battery_voltage: Voltage { high: 0, low: 0 }, trace: 0 }
    }
}

/// What the last status datagram said, as far as the send substate does not hold it.
pub struct RecvState {
    /// The battery voltage.
    battery_voltage: Voltage,
    /// What the controller is and what its code is doing.
    trace: Trace,
}

impl View for RecvState {
    type V = RecvStateView;

    closed spec fn view(&self) -> RecvStateView {
        RecvStateView { battery_voltage: self.battery_voltage, trace: self.trace@ }
    }
}

impl RecvState {
    pub fn new() -> (r: RecvState)
        ensures
            r@ == RecvStateView::cleared(),
    {
        RecvState { battery_voltage: Voltage { high: 0, low: 0 }, trace: Trace::empty() }
    }

    /// Forgets what the controller reported.
    pub fn reset(&mut self)
        ensures
            final(self)@ == RecvStateView::cleared(),
    {
        self.battery_voltage = Voltage { high: 0, low: 0 };
        self.trace = Trace::empty();
    }

    pub fn battery_voltage(&self) -> (r: Voltage)
        ensures
            r == self@.battery_voltage,
    {
        self.battery_voltage
    }

    pub fn set_battery_voltage(&mut self, voltage: Voltage)
        ensures
            final(self)@ == (RecvStateView { battery_voltage: voltage, ..old(self)@ }),
    {
        self.battery_voltage = voltage;
    }

    pub fn trace(&self) -> (r: &Trace)
        ensures
            r@ == self@.trace,
    {
        &self.trace
    }

    pub fn set_trace(&mut self, trace: Trace)
        ensures
            final(self)@ == (RecvStateView { trace: trace@, ..old(self)@ }),
    {
        self.trace = trace;
    }
}

/// The reliable substate as a plain value.
pub struct TcpStateView {
    /// Whether the caller has registered a consumer of inbound packets.
    pub consumer: bool,
    /// The tags that wait to be written, while a reliable stream is bound.
    pub pending_tcp: Option<Seq<TcpTagView>>,
}

impl TcpStateView {
    /// What queueing a tag gives: the tag goes behind those that wait, if a reliable
    /// stream is bound.
    pub open spec fn queue(self, tag: TcpTagView) -> Result<TcpStateView, DsError> {
        match self.pending_tcp {
            Some(pending) => Ok(TcpStateView { pending_tcp: Some(pending.push(tag)), ..self }),
            None => Err(DsError::ReliableChannelUnavailable),
        }
    }

    /// What setting the game-specific message gives. The message must take exactly
    /// three bytes.
    pub open spec fn game_specific_message(self, message: Seq<char>) -> Result<
        TcpStateView,
        DsError,
    > {
        if encode_utf8(message).len() != 3 {
            Err(DsError::InvalidArgument)
        } else {
            self.queue(TcpTagView::GameData { gsm: message })
        }
    }
}

/// Game-specific message: while a reliable stream is bound, setting a message of three
/// bytes queues exactly one tag, and what the controller receives for it is one frame
/// with the length 4, the id `0x0e` and the message.
pub proof fn lemma_game_specific_message(state: TcpStateView, message: Seq<char>)
    requires
        state.pending_tcp is Some,
        encode_utf8(message).len() == 3,
    ensures
        state.game_specific_message(message) == Ok::<TcpStateView, DsError>(
            TcpStateView {
                pending_tcp: Some(
                    state.pending_tcp.unwrap().push(TcpTagView::GameData { gsm: message }),
                ),
                ..state
            },
        ),
        (TcpTagView::GameData { gsm: message }).wire() == seq![0u8, 4u8, 0x0eu8] + encode_utf8(
            message,
        ),
{
    assert((TcpTagView::GameData { gsm: message }).payload() == encode_utf8(message));
}

/// The state of the reliable stream: whether inbound packets have a consumer, and the
/// tags that wait to be written.
pub struct TcpState {
    /// Whether the caller has registered a consumer of inbound packets. The consumer
    /// itself stays with the caller.
    tcp_consumer: bool,
    /// The tags that the task of the reliable stream has yet to write. `None` while no
    /// stream is bound.
    pending_tcp: Option<Vec<TcpTag>>,
}

impl View for TcpState {
    type V = TcpStateView;

    closed spec fn view(&self) -> TcpStateView {
        TcpStateView {
            consumer: self.tcp_consumer,
            pending_tcp: match self.pending_tcp {
                Some(pending) => Some(tag_views(pending@)),
                None => None,
            },
        }
    }
}

impl TcpState {
    pub fn new() -> (r: TcpState)
        ensures
            r@ == (TcpStateView { consumer: false, pending_tcp: None }),
    {
        TcpState { tcp_consumer: false, pending_tcp: None }
    }

    /// Queues a tag for the reliable stream. It fails while no stream is bound.
    pub fn queue_tcp(&mut self, tag: TcpTag) -> (r: Result<(), DsError>)
        ensures
            match old(self)@.queue(tag@) {
                Ok(next) => r is Ok && final(self)@ == next,
                Err(e) => r == Err::<(), DsError>(e) && final(self)@ == old(self)@,
            },
    {
        match &mut self.pending_tcp {
            Some(pending) => {
                let ghost before = pending@;
                pending.push(tag);
                assert(tag_views(pending@) =~= tag_views(before).push(tag@));
                Ok(())
            },
            None => Err(DsError::ReliableChannelUnavailable),
        }
    }

    /// Sets the game-specific message that the robot code reads during the autonomous
    /// period: queues one game data tag with the message.
    pub fn set_game_specific_message(&mut self, message: &str) -> (r: Result<(), DsError>)
        ensures
            match old(self)@.game_specific_message(message@) {
                Ok(next) => r is Ok && final(self)@ == next,
                Err(e) => r == Err::<(), DsError>(e) && final(self)@ == old(self)@,
            },
    {
        if message.as_bytes().len() != 3 {
            return Err(DsError::InvalidArgument);
        }
        self.queue_tcp(TcpTag::GameData(GameData { gsm: message.to_owned() }))
    }

    /// Binds the reliable stream, with nothing queued, or unbinds it. What was queued
    /// and not written is dropped either way.
    pub fn set_tcp_tx(&mut self, bound: bool)
        ensures
            final(self)@ == (TcpStateView {
                pending_tcp: if bound {
                    Some(Seq::empty())
                } else {
                    None
                },
                ..old(self)@
            }),
    {
        if bound {
            let pending: Vec<TcpTag> = Vec::new();
            assert(tag_views(pending@) =~= Seq::empty());
            self.pending_tcp = Some(pending);
        } else {
            self.pending_tcp = None;
        }
    }

    /// Notes that the caller has registered a consumer of inbound packets.
    pub fn set_tcp_consumer(&mut self)
        ensures
            final(self)@ == (TcpStateView { consumer: true, ..old(self)@ }),
    {
        self.tcp_consumer = true;
    }

    /// Hands out the tags that wait to be written, in the order in which they were
    /// queued, and leaves the queue empty. Without a bound stream there is nothing.
    pub fn take_pending(&mut self) -> (r: Vec<TcpTag>)
        ensures
            tag_views(r@) == match old(self)@.pending_tcp {
                Some(pending) => pending,
                None => Seq::empty(),
            },
            final(self)@ == (TcpStateView {
                pending_tcp: match old(self)@.pending_tcp {
                    Some(_) => Some(Seq::empty()),
                    None => None,
                },
                ..old(self)@
            }),
    {
        let mut out: Vec<TcpTag> = Vec::new();
        assert(tag_views(out@) =~= Seq::empty());
        match &mut self.pending_tcp {
            Some(pending) => {
                core::mem::swap(pending, &mut out);
            },
            None => {},
        }
        out
    }

    /// Decides what becomes of a decoded inbound packet: it goes to the consumer, if
    /// there is one, and is dropped otherwise.
    pub fn deliver(&self, packet: TcpPacket) -> (r: Option<TcpPacket>)
        ensures
            r == if self@.consumer {
                Some(packet)
            } else {
                None
            },
    {
        if self.tcp_consumer {
            Some(packet)
        } else {
            None
        }
    }
}

} // verus!
