use nexsock_protocol_core::frame::Frame;
use nexsock_protocol_core::traits::MessageBody;
use std::collections::hash_map::DefaultHasher;
use std::hash::{Hash, Hasher};

#[derive(Debug, Clone, PartialEq, Eq, PartialOrd, Ord, Hash)]
struct Note(u32);

impl MessageBody for Note {}

fn hash_of<T: Hash>(value: &T) -> u64 {
    let mut hasher = DefaultHasher::new();
    value.hash(&mut hasher);
    hasher.finish()
}

#[test]
fn frame_gives_back_what_it_was_made_of() {
    let frame = Frame::new([1u8, 2, 3], Note(7));
    assert_eq!(frame.header(), [1, 2, 3]);
    assert_eq!(frame.body(), &Note(7));
}

#[test]
fn frame_of_no_header_bytes() {
    let frame: Frame<0, ()> = Frame::new([], ());
    assert_eq!(frame.header(), [0u8; 0]);
    assert_eq!(frame.body(), &());
}

#[test]
fn to_frame_binds_body_and_header() {
    let frame = Note(9).to_frame([4u8; 15]);
    assert_eq!(frame, Frame::new([4u8; 15], Note(9)));
    let unit = ().to_frame([0u8; 2]);
    assert_eq!(unit.header(), [0, 0]);
}

#[test]
fn frames_compare_field_by_field() {
    let a = Frame::new([1u8, 2], Note(5));
    let b = Frame::new([1u8, 2], Note(5));
    let c = Frame::new([1u8, 3], Note(0));
    let d = Frame::new([1u8, 2], Note(6));
    assert_eq!(a, b);
    assert_ne!(a, c);
    assert_ne!(a, d);
    assert!(a < c);
    assert!(a < d);
    assert!(d < c);
    assert_eq!(hash_of(&a), hash_of(&b));
}
