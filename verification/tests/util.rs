use ds::util::ip_from_team_number;
use ds::util::reverse_byte;
use ds::util::to_u8_vec;

#[test]
fn reverse_byte_mirrors_bits() {
    assert_eq!(reverse_byte(0b0000_0001), 0b1000_0000);
    assert_eq!(reverse_byte(0b1100_0100), 0b0010_0011);
    assert_eq!(reverse_byte(0xFF), 0xFF);
    assert_eq!(reverse_byte(0), 0);
}

#[test]
fn buttons_pack_least_significant_first() {
    assert_eq!(to_u8_vec(&[true, true, false, false, false, true, false]), vec![0x23]);
    assert_eq!(to_u8_vec(&[]), Vec::<u8>::new());
    let mut ten = [false; 10];
    ten[0] = true;
    ten[9] = true;
    assert_eq!(to_u8_vec(&ten), vec![0x02, 0x01]);
}

#[test]
fn team_address_by_digit_count() {
    assert_eq!(ip_from_team_number(7), "10.0.7.2");
    assert_eq!(ip_from_team_number(42), "10.0.42.2");
    assert_eq!(ip_from_team_number(0), "10.0.0.2");
    assert_eq!(ip_from_team_number(123), "10.1.23.2");
    assert_eq!(ip_from_team_number(105), "10.1.05.2");
    assert_eq!(ip_from_team_number(4069), "10.40.69.2");
    assert_eq!(ip_from_team_number(1001), "10.10.01.2");
    assert_eq!(ip_from_team_number(9999), "10.99.99.2");
}
