use torustiq_common::ffi::types::buffer::{free_buf, ByteBuffer};
use torustiq_common::ffi::types::traits::ShallowCopy;

#[test]
fn buffer_keeps_bytes_with_zeros() {
    let bytes: Vec<u8> = vec![1, 0, 2, 0, 0, 255];
    let buf = ByteBuffer::from(bytes.clone());
    assert_eq!(buf.len(), 6);
    assert_eq!(buf.to_byte_vec(), bytes);
    assert_eq!(buf.get_bytes_as_const_ptr(), &bytes[..]);
}

#[test]
fn buffer_of_nothing_is_empty() {
    let buf = ByteBuffer::from(Vec::<u8>::new());
    assert_eq!(buf.len(), 0);
    assert_eq!(buf.to_byte_vec(), Vec::<u8>::new());
    assert_eq!(buf.to_string(), "");
}

#[test]
fn buffer_of_every_byte_value() {
    let bytes: Vec<u8> = (0..=255u8).collect();
    let buf = ByteBuffer::from(bytes.clone());
    assert_eq!(buf.len(), 256);
    assert_eq!(buf.to_byte_vec(), bytes);
}

#[test]
fn buffer_from_string_holds_utf8() {
    let buf = ByteBuffer::from(String::from("héllo"));
    assert_eq!(buf.len(), 6);
    assert_eq!(buf.to_byte_vec(), vec![b'h', 0xC3, 0xA9, b'l', b'l', b'o']);
    assert_eq!(buf.to_string(), "héllo");
}

#[test]
fn buffer_to_string_reads_valid_text() {
    let buf = ByteBuffer::from(b"Hello, World!".to_vec());
    assert_eq!(buf.to_string(), String::from("Hello, World!"));
}

#[test]
fn buffer_to_string_is_lossy_on_invalid_bytes() {
    let buf = ByteBuffer::from(vec![b'H', 0xFF, b'i']);
    assert_eq!(buf.to_string(), "H\u{FFFD}i");
}

#[test]
fn buffer_to_string_keeps_a_zero() {
    let buf = ByteBuffer::from(vec![b'a', 0, b'b']);
    assert_eq!(buf.to_string(), "a\0b");
}

#[test]
fn buffer_clone_has_the_same_bytes() {
    let buf = ByteBuffer::from(vec![9, 8, 7]);
    let copy = buf.clone();
    assert_eq!(copy.len(), 3);
    assert_eq!(copy.to_byte_vec(), vec![9, 8, 7]);
    assert_eq!(buf.to_byte_vec(), vec![9, 8, 7]);
}

#[test]
fn buffer_clone_outlives_its_source() {
    let mut buf = ByteBuffer::from(vec![9, 8, 7]);
    let copy = buf.clone();
    buf.free_contents();
    assert_eq!(buf.len(), 0);
    assert_eq!(copy.to_byte_vec(), vec![9, 8, 7]);
    free_buf(buf);
    assert_eq!(copy.len(), 3);
}

#[test]
fn buffer_shallow_copy_shows_the_same_bytes() {
    let buf = ByteBuffer::from(vec![4, 0, 4]);
    let seen = buf.shallow_copy();
    assert_eq!(seen.len(), 3);
    assert_eq!(seen.to_byte_vec(), vec![4, 0, 4]);
    assert_eq!(buf.to_byte_vec(), vec![4, 0, 4]);
}

#[test]
fn buffer_shallow_copy_shares_the_region() {
    let buf = ByteBuffer::from(vec![4, 0, 4]);
    let seen = buf.shallow_copy();
    assert_eq!(
        buf.get_bytes_as_const_ptr().as_ptr(),
        seen.get_bytes_as_const_ptr().as_ptr()
    );
    let copy = buf.clone();
    assert_ne!(
        buf.get_bytes_as_const_ptr().as_ptr(),
        copy.get_bytes_as_const_ptr().as_ptr()
    );
}

#[test]
fn buffer_free_contents_empties() {
    let mut buf = ByteBuffer::from(vec![1, 2, 3]);
    buf.free_contents();
    assert_eq!(buf.len(), 0);
    assert_eq!(buf.to_byte_vec(), Vec::<u8>::new());
    buf.free_contents();
    assert_eq!(buf.len(), 0);
}
