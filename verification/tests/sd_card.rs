use hyped_boards_stm32f767zi::logging::{
    deserialize_descriptor_block, deserialize_log_entry, deserialize_message_at,
    DescriptorBlock, LogEntryDescriptor, Message, MAGIC, MESSAGE_SIZE_RAW,
};
use hyped_boards_stm32f767zi::sdmmc::{
    advance_free_block, block_count_for_size, block_index_at, block_messages,
    ensure_logs_available, cleared_descriptor_block, decode_descriptor_block_in,
    decode_log_entry_in, descriptor_block_image, descriptor_for_start, log_entry_block_count,
    log_entry_image, message_timestamp, plan_log_start, previous_log_block, zeroed_block, Block,
    BlockCount, BlockIdx, HypedSdmmcError, HypedSdmmcTimeSource, LogWriter,
};
use std::collections::HashMap;

fn descriptor(trial: u32, first_free: u32, last: u32) -> DescriptorBlock {
    DescriptorBlock { magic: MAGIC, current_trial_id: trial, first_free_block: first_free, last_log_start: last }
}

fn message(sec: u64, text: &[u8]) -> Message {
    let mut m = [0u8; MESSAGE_SIZE_RAW];
    m[..text.len()].copy_from_slice(text);
    Message { time_sec: sec, time_milli: 1, time_micro: 2, message: m }
}

#[test]
fn card_size_gives_block_count() {
    assert_eq!(block_count_for_size(0), Ok(BlockCount(0)));
    assert_eq!(block_count_for_size(1023), Ok(BlockCount(1)));
    assert_eq!(block_count_for_size(u32::MAX as u64), Ok(BlockCount(u32::MAX / 512)));
    assert_eq!(block_count_for_size(u32::MAX as u64 + 1), Err(HypedSdmmcError::DriveSizeTooLarge));
}

#[test]
fn fresh_card_gets_default_descriptor_written() {
    let blank = zeroed_block();
    let (d, write) = descriptor_for_start(&blank);
    assert_eq!(d, DescriptorBlock::default());
    let b = write.expect("a fresh card gets a descriptor");
    assert_eq!(&b.0[..8], b"LOG DISC");
    assert_eq!(deserialize_descriptor_block(&b.0), Ok((DescriptorBlock::default(), 20)));
    assert!(b.0[20..].iter().all(|x| *x == 0));
}

#[test]
fn formatted_card_keeps_its_descriptor() {
    let d = descriptor(4, 9, 5);
    let (got, write) = descriptor_for_start(&descriptor_block_image(&d));
    assert_eq!(got, d);
    assert_eq!(write, None);
}

#[test]
fn opening_a_log_links_the_chain() {
    let d = descriptor(4, 9, 5);
    let prev = log_entry_image(&LogEntryDescriptor { last_log_start: 2, next_log_start: 0 });
    let w = plan_log_start(&d, &prev);
    assert_eq!(w.started, d);
    assert_eq!(w.previous_entry.0, BlockIdx(5));
    assert_eq!(
        decode_log_entry_in(&w.previous_entry.1),
        LogEntryDescriptor { last_log_start: 2, next_log_start: 9 }
    );
    assert_eq!(w.new_entry.0, BlockIdx(9));
    assert_eq!(
        decode_log_entry_in(&w.new_entry.1),
        LogEntryDescriptor { last_log_start: 5, next_log_start: 0 }
    );
    assert_eq!(decode_descriptor_block_in(&w.descriptor), descriptor(5, 10, 9));
}

#[test]
fn opening_the_first_log_on_a_fresh_card() {
    // block 0 is the previous "entry" on a fresh card; the descriptor written last wins
    let mut disk: HashMap<u32, Block> = HashMap::new();
    let blank = zeroed_block();
    let (d, write) = descriptor_for_start(&blank);
    disk.insert(0, write.unwrap());
    let prev = disk[&d.last_log_start];
    let w = plan_log_start(&d, &prev);
    disk.insert(w.previous_entry.0 .0, w.previous_entry.1);
    disk.insert(w.new_entry.0 .0, w.new_entry.1);
    disk.insert(0, w.descriptor);
    assert_eq!(decode_descriptor_block_in(&disk[&0]), descriptor(1, 2, 1));
    assert_eq!(
        decode_log_entry_in(&disk[&1]),
        LogEntryDescriptor { last_log_start: 0, next_log_start: 0 }
    );
}

#[test]
fn clearing_keeps_trial_and_resets_chain() {
    let b = descriptor_block_image(&descriptor(7, 40, 33));
    let cleared = cleared_descriptor_block(&b).expect("magic present");
    assert_eq!(decode_descriptor_block_in(&cleared), descriptor(7, 1, 0));
    assert_eq!(cleared_descriptor_block(&zeroed_block()), Err(HypedSdmmcError::MagicMismatch));
}

#[test]
fn reading_requires_magic_and_a_log() {
    assert_eq!(ensure_logs_available(&DescriptorBlock { magic: [0; 8], ..descriptor(0, 1, 3) }), Err(HypedSdmmcError::MagicMismatch));
    assert_eq!(ensure_logs_available(&descriptor(0, 1, 0)), Err(HypedSdmmcError::NoLogsAvailable));
    assert_eq!(ensure_logs_available(&descriptor(0, 5, 3)), Ok(()));
}

#[test]
fn log_extent_and_previous_log() {
    let d = descriptor(3, 20, 12);
    let last = LogEntryDescriptor { last_log_start: 4, next_log_start: 0 };
    assert_eq!(log_entry_block_count(&last, &d, 12), 8);
    let middle = LogEntryDescriptor { last_log_start: 1, next_log_start: 12 };
    assert_eq!(log_entry_block_count(&middle, &d, 4), 8);
    assert_eq!(previous_log_block(&last), Some(4));
    assert_eq!(previous_log_block(&LogEntryDescriptor { last_log_start: 0, next_log_start: 4 }), None);
}

#[test]
fn writer_places_messages_in_reader_slots() {
    let log_start = descriptor(0, 9, 0);
    let mut w = LogWriter::new();
    assert_eq!(w.bytes_written_count, 256);
    assert_eq!(w.message_block(&log_start), BlockIdx(9));

    // first block: the entry, then one message
    let mut block = log_entry_image(&LogEntryDescriptor { last_log_start: 0, next_log_start: 0 });
    w.place_message(&mut block, &message(1, b"first"));
    assert!(w.message_written());
    assert_eq!((w.blocks_written_count, w.bytes_written_count), (1, 0));
    assert_eq!(decode_log_entry_in(&block), LogEntryDescriptor { last_log_start: 0, next_log_start: 0 });
    let read = block_messages(&block, true);
    assert_eq!(read, vec![message(1, b"first")]);

    // second block: two messages
    assert_eq!(w.message_block(&log_start), BlockIdx(10));
    let mut block2 = zeroed_block();
    w.place_message(&mut block2, &message(2, b"second"));
    assert!(!w.message_written());
    assert_eq!(block_messages(&block2, false), vec![message(2, b"second")]);
    w.place_message(&mut block2, &message(3, b"third"));
    assert!(w.message_written());
    assert_eq!(block_messages(&block2, false), vec![message(2, b"second"), message(3, b"third")]);
    assert_eq!(w.message_block(&log_start), BlockIdx(11));
}

#[test]
fn reading_stops_at_an_unused_slot() {
    let mut block = zeroed_block();
    let w = LogWriter { blocks_written_count: 1, bytes_written_count: 256 };
    w.place_message(&mut block, &message(5, b"late"));
    // slot 0 is unused, so the message in slot 1 is not read
    assert_eq!(block_messages(&block, false), vec![]);
    assert_eq!(deserialize_message_at(&block.0, 256).unwrap().0, message(5, b"late"));
}

#[test]
fn full_block_moves_first_free_block() {
    let d = descriptor(2, 14, 13);
    let b = advance_free_block(&d);
    assert_eq!(decode_descriptor_block_in(&b), descriptor(2, 15, 13));
}

#[test]
fn timestamps_split_units() {
    assert_eq!(message_timestamp(3, 3_456, 3_456_789), (3, 456, 789));
    assert_eq!(message_timestamp(0, 999, 999), (0, 999, 999));
}

#[test]
fn block_runs_and_fixed_clock() {
    assert_eq!(block_index_at(BlockIdx(10), 3), BlockIdx(13));
    let t = HypedSdmmcTimeSource.get_timestamp();
    assert_eq!(t.year_since_1970, 53);
    assert_eq!((t.zero_indexed_month, t.zero_indexed_day, t.hours, t.minutes, t.seconds), (0, 0, 0, 0, 0));
}

#[test]
fn decoding_a_block_reads_its_prefix() {
    let b = descriptor_block_image(&descriptor(1, 2, 3));
    assert_eq!(deserialize_log_entry(&b.0).unwrap().0.last_log_start, u32::from_le_bytes(*b"LOG "));
}

#[test]
fn logs_span_up_to_the_first_free_block() {
    // after opening a log at block 9 the previous log ends at 9 and the new one spans one block
    let d = descriptor(4, 9, 5);
    let w = plan_log_start(&d, &log_entry_image(&LogEntryDescriptor { last_log_start: 2, next_log_start: 0 }));
    let after = decode_descriptor_block_in(&w.descriptor);
    let new_entry = decode_log_entry_in(&w.new_entry.1);
    let prev_entry = decode_log_entry_in(&w.previous_entry.1);
    assert_eq!(log_entry_block_count(&new_entry, &after, 9), 1);
    assert_eq!(log_entry_block_count(&prev_entry, &after, 5), 4);
    // after one full block the log spans two
    let after2 = decode_descriptor_block_in(&advance_free_block(&after));
    assert_eq!(log_entry_block_count(&new_entry, &after2, 9), 2);
}

#[test]
fn message_k_lands_in_block_half_k_plus_one() {
    let log_start = descriptor(0, 20, 0);
    let mut w = LogWriter::new();
    for k in 0u32..9 {
        assert_eq!(w.message_block(&log_start), BlockIdx(20 + (k + 1) / 2));
        assert_eq!(w.bytes_written_count, 256 * ((k + 1) % 2));
        let full = w.message_written();
        assert_eq!(full, k % 2 == 0);
    }
}
