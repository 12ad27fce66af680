use thatte_mk::cap::Cap;
use thatte_mk::msg::MsgType;

#[test]
fn nil_equals_itself_and_all_zero_ids() {
    assert_eq!(Cap::nil(), Cap::nil());
    assert_eq!(Cap::new([0u8; 16]), Cap::nil());
}

#[test]
fn nil_differs_from_every_nonzero_id() {
    assert_ne!(Cap::new([0xFFu8; 16]), Cap::nil());
    let mut one_bit = [0u8; 16];
    one_bit[15] = 1;
    assert_ne!(Cap::new(one_bit), Cap::nil());
    let mut first = [0u8; 16];
    first[0] = 0x80;
    assert_ne!(Cap::new(first), Cap::nil());
}

#[test]
fn equality_is_byte_wise() {
    let a = [3u8; 16];
    let mut b = [3u8; 16];
    assert_eq!(Cap::new(a), Cap::new(b));
    b[7] = 4;
    assert_ne!(Cap::new(a), Cap::new(b));
}

#[test]
fn bytes_returns_the_constructed_array() {
    let raw = [
        9u8, 8, 7, 6, 5, 4, 3, 2, 1, 0, 0xAB, 0xCD, 0xEF, 0x01, 0x23, 0x45,
    ];
    let c = Cap::new(raw);
    assert_eq!(c.bytes(), &raw);
    assert_eq!(Cap::nil().bytes(), &[0u8; 16]);
}

#[test]
fn registry_tags_are_stable() {
    assert_eq!(MsgType::Ping.tag(), 1);
    assert_eq!(MsgType::GetTime.tag(), 2);
    assert_eq!(MsgType::MapShared.tag(), 3);
}

#[test]
fn from_tag_round_trips_registered_kinds() {
    for m in [MsgType::Ping, MsgType::GetTime, MsgType::MapShared] {
        assert_eq!(MsgType::from_tag(m.tag()), Some(m));
    }
}

#[test]
fn from_tag_reports_unregistered_tags() {
    assert_eq!(MsgType::from_tag(0), None);
    assert_eq!(MsgType::from_tag(4), None);
    assert_eq!(MsgType::from_tag(u16::MAX), None);
}
