use hyped_boards_stm32f767zi::logging::{
    deserialize_descriptor_block, deserialize_log_entry, deserialize_message_at,
    serialize_descriptor_block, serialize_log_entry, serialize_message_at, DescriptorBlock,
    DeserializeError, LogBufWriter, LogEntryDescriptor, Message, SerializeError, MAGIC,
    MESSAGE_SIZE_RAW,
};

#[test]
fn magic_spells_log_disc() {
    assert_eq!(&MAGIC, b"LOG DISC");
}

#[test]
fn default_descriptor_block_is_a_fresh_card() {
    let d = DescriptorBlock::default();
    assert_eq!(d.magic, MAGIC);
    assert_eq!(d.current_trial_id, 0);
    assert_eq!(d.first_free_block, 1);
    assert_eq!(d.last_log_start, 0);
}

#[test]
fn descriptor_block_layout_is_fields_in_order_little_endian() {
    let d = DescriptorBlock {
        magic: MAGIC,
        current_trial_id: 0x0403_0201,
        first_free_block: 7,
        last_log_start: 0x1122_3344,
    };
    let mut buf = [0xEEu8; 24];
    assert_eq!(serialize_descriptor_block(&d, &mut buf), Ok(20));
    let mut expected = Vec::new();
    expected.extend_from_slice(b"LOG DISC");
    expected.extend_from_slice(&[1, 2, 3, 4, 7, 0, 0, 0, 0x44, 0x33, 0x22, 0x11]);
    assert_eq!(&buf[..20], &expected[..]);
    // the bytes after the record are left alone
    assert_eq!(&buf[20..], &[0xEE; 4]);
    assert_eq!(deserialize_descriptor_block(&buf), Ok((d, 20)));
}

#[test]
fn short_buffers_are_refused() {
    let d = DescriptorBlock::default();
    let mut small = [9u8; 19];
    assert_eq!(serialize_descriptor_block(&d, &mut small), Err(SerializeError::BufferTooSmall));
    // the fields that fit whole are written: magic, trial id, first free block
    let mut expected = Vec::new();
    expected.extend_from_slice(b"LOG DISC");
    expected.extend_from_slice(&[0, 0, 0, 0, 1, 0, 0, 0, 9, 9, 9]);
    assert_eq!(&small[..], &expected[..]);
    assert_eq!(deserialize_descriptor_block(&small), Err(DeserializeError::WrongBufferSize));

    let mut seven = [9u8; 7];
    assert_eq!(serialize_descriptor_block(&d, &mut seven), Err(SerializeError::BufferTooSmall));
    assert_eq!(seven, [9u8; 7]);

    let e = LogEntryDescriptor { last_log_start: 1, next_log_start: 2 };
    let mut tiny = [0xAAu8; 7];
    assert_eq!(serialize_log_entry(&e, &mut tiny), Err(SerializeError::BufferTooSmall));
    assert_eq!(tiny, [1, 0, 0, 0, 0xAA, 0xAA, 0xAA]);
    assert_eq!(deserialize_log_entry(&tiny), Err(DeserializeError::WrongBufferSize));

    let m = Message { time_sec: 1, time_milli: 2, time_micro: 3, message: [7; MESSAGE_SIZE_RAW] };
    let mut block = [0xEEu8; 512];
    assert_eq!(serialize_message_at(&m, &mut block, 257), Err(SerializeError::BufferTooSmall));
    // the three timestamps fit, the text does not
    assert_eq!(&block[..257], &[0xEE; 257][..]);
    assert_eq!(&block[257..265], &1u64.to_le_bytes());
    assert_eq!(&block[265..273], &2u64.to_le_bytes());
    assert_eq!(&block[273..281], &3u64.to_le_bytes());
    assert_eq!(&block[281..], &[0xEE; 231][..]);
    assert_eq!(deserialize_message_at(&block, 300), Err(DeserializeError::WrongBufferSize));
}

#[test]
fn log_entry_roundtrip() {
    let e = LogEntryDescriptor { last_log_start: 3, next_log_start: 0xFFFF_FFFF };
    let mut buf = [0u8; 8];
    assert_eq!(serialize_log_entry(&e, &mut buf), Ok(8));
    assert_eq!(buf, [3, 0, 0, 0, 0xFF, 0xFF, 0xFF, 0xFF]);
    assert_eq!(deserialize_log_entry(&buf), Ok((e, 8)));
}

#[test]
fn message_roundtrip_at_an_offset() {
    let mut text = [0u8; MESSAGE_SIZE_RAW];
    text[0] = b'h';
    text[1] = b'i';
    text[MESSAGE_SIZE_RAW - 1] = 0x7F;
    let m = Message { time_sec: 12, time_milli: 345, time_micro: 678, message: text };
    let mut block = [0u8; 512];
    assert_eq!(serialize_message_at(&m, &mut block, 256), Ok(256));
    assert_eq!(&block[256..264], &12u64.to_le_bytes());
    assert_eq!(&block[264..272], &345u64.to_le_bytes());
    assert_eq!(&block[272..280], &678u64.to_le_bytes());
    assert_eq!(block[280], b'h');
    assert_eq!(block[511], 0x7F);
    assert_eq!(&block[..256], &[0u8; 256][..]);
    assert_eq!(deserialize_message_at(&block, 256), Ok((m, 256)));
}

#[test]
fn log_buf_writer_starts_empty() {
    let w = LogBufWriter::new();
    assert_eq!(w.ind, 0);
    assert_eq!(w.buf, [0u8; MESSAGE_SIZE_RAW]);
    let d = LogBufWriter::default();
    assert_eq!(d.ind, 0);
}

#[test]
fn log_buf_writer_appends_and_truncates() {
    let mut w = LogBufWriter::new();
    w.write_str("hello ");
    w.write_str("world");
    assert_eq!(w.ind, 11);
    assert_eq!(&w.buf[..11], b"hello world");
    assert_eq!(w.buf[11], 0);

    let long = "x".repeat(300);
    w.write_str(&long);
    assert_eq!(w.ind, MESSAGE_SIZE_RAW);
    assert_eq!(&w.buf[..11], b"hello world");
    assert!(w.buf[11..].iter().all(|b| *b == b'x'));
    // a full writer takes nothing more
    w.write_str("more");
    assert_eq!(w.ind, MESSAGE_SIZE_RAW);
}

#[test]
fn log_buf_writer_pieces_equal_whole() {
    let mut a = LogBufWriter::new();
    a.write_str("temperature=");
    a.write_str("21");
    let mut b = LogBufWriter::new();
    b.write_str("temperature=21");
    assert_eq!(a.ind, b.ind);
    assert_eq!(a.buf, b.buf);
}

#[test]
fn log_buf_writer_keeps_utf8_bytes() {
    let mut w = LogBufWriter::new();
    w.write_str("m/s²");
    assert_eq!(w.ind, "m/s²".len());
    assert_eq!(&w.buf[..w.ind], "m/s²".as_bytes());
}
