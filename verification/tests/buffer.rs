use someip_gateway::buffer::{WriteBuf, PAYLOAD_CAPACITY};

#[test]
fn new_buffer_is_empty() {
    let buffer = WriteBuf::new(8);
    assert_eq!(buffer.capacity(), 8);
    assert_eq!(buffer.filled_len(), 0);
    assert_eq!(buffer.remaining(), 8);
    assert!(buffer.filled().is_empty());
    assert_eq!(PAYLOAD_CAPACITY, 1500);
}

#[test]
fn put_appends_behind_what_is_filled() {
    let mut buffer = WriteBuf::new(4);
    assert!(buffer.put_u8(7).is_ok());
    assert!(buffer.put_slice(&[8, 9]).is_ok());
    assert_eq!(buffer.filled(), &[7u8, 8, 9][..]);
    assert_eq!(buffer.remaining(), 1);
    assert!(buffer.put_slice(&[1, 2]).is_err());
    assert_eq!(buffer.filled(), &[7u8, 8, 9][..]);
    assert!(buffer.put_u8(10).is_ok());
    assert!(buffer.put_u8(11).is_err());
    assert_eq!(buffer.filled(), &[7u8, 8, 9, 10][..]);
}

#[test]
fn advance_appends_zero_bytes() {
    let mut buffer = WriteBuf::new(4);
    assert!(buffer.put_u8(7).is_ok());
    buffer.truncate(0);
    assert!(buffer.advance_filled(2).is_ok());
    assert_eq!(buffer.filled(), &[0u8, 0][..]);
    assert!(buffer.advance_filled(3).is_err());
    assert_eq!(buffer.filled_len(), 2);
}

#[test]
fn insert_moves_the_bytes_behind() {
    let mut buffer = WriteBuf::new(5);
    assert!(buffer.put_slice(&[1, 2, 3]).is_ok());
    assert!(buffer.insert_byte(1, 9).is_ok());
    assert_eq!(buffer.filled(), &[1u8, 9, 2, 3][..]);
    assert!(buffer.insert_byte(4, 8).is_ok());
    assert_eq!(buffer.filled(), &[1u8, 9, 2, 3, 8][..]);
    assert!(buffer.insert_byte(0, 7).is_err());
    let mut other = WriteBuf::new(5);
    assert!(other.insert_byte(1, 7).is_err());
    assert!(other.insert_byte(0, 7).is_ok());
    assert_eq!(other.filled(), &[7u8][..]);
}

#[test]
fn set_and_truncate_touch_only_what_is_filled() {
    let mut buffer = WriteBuf::new(5);
    assert!(buffer.put_slice(&[1, 2, 3]).is_ok());
    assert!(buffer.set_byte(2, 9).is_ok());
    assert!(buffer.set_byte(3, 9).is_err());
    assert_eq!(buffer.filled(), &[1u8, 2, 9][..]);
    buffer.truncate(4);
    assert_eq!(buffer.filled(), &[1u8, 2, 9][..]);
    buffer.truncate(1);
    assert_eq!(buffer.filled(), &[1u8][..]);
    assert_eq!(buffer.capacity(), 5);
}
