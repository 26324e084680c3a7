use aetherlink::buffer::AlignedBuffer;

#[test]
fn test_buffer_starts_empty() {
    let buffer: AlignedBuffer<64> = AlignedBuffer::new();
    assert_eq!(buffer.len(), 0);
    assert!(buffer.is_empty());
    assert_eq!(buffer.as_slice(), &[] as &[u8]);
}

#[test]
fn test_copy_from_slice_and_clear() {
    let mut buffer: AlignedBuffer<8> = AlignedBuffer::new();
    let copied = buffer.copy_from_slice(&[1, 2, 3]);
    assert_eq!(copied, 3);
    assert_eq!(buffer.len(), 3);
    assert!(!buffer.is_empty());
    assert_eq!(buffer.as_slice(), &[1, 2, 3]);

    buffer.clear();
    assert_eq!(buffer.len(), 0);
    assert!(buffer.is_empty());
}

#[test]
fn test_copy_from_slice_truncates_to_capacity() {
    let mut buffer: AlignedBuffer<4> = AlignedBuffer::new();
    let copied = buffer.copy_from_slice(&[9, 8, 7, 6, 5, 4]);
    assert_eq!(copied, 4);
    assert_eq!(buffer.as_slice(), &[9, 8, 7, 6]);
}

#[test]
fn test_set_len_exposes_prefix() {
    let mut buffer: AlignedBuffer<8> = AlignedBuffer::new();
    buffer.copy_from_slice(&[1, 2, 3, 4, 5]);
    buffer.set_len(2);
    assert_eq!(buffer.as_slice(), &[1, 2]);
    buffer.set_len(5);
    assert_eq!(buffer.as_slice(), &[1, 2, 3, 4, 5]);
}
