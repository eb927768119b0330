//! Bookkeeping of the log card: what each step of opening, writing,
//! reading and clearing the logs writes to or reads from the blocks.
//! The block reads and writes themselves are the caller's.
use crate::logging::{
    decodes_descriptor_block, decodes_log_entry, descriptor_block_bytes, deserialize_descriptor_block,
    deserialize_log_entry, log_entry_bytes, serialize_descriptor_block, serialize_log_entry,
    DescriptorBlock, LogEntryDescriptor, default_descriptor_block, magic_matches, Message,
    message_bytes, overwrite, serialize_message_at, deserialize_message_at, decodes_message,
    LOG_ENTRY_DESCRIPTOR_SIZE, MESSAGE_SIZE, MESSAGE_LEN,
};
use vstd::bytes::{spec_u64_from_le_bytes, spec_u64_to_le_bytes};
use vstd::prelude::*;

verus! {

broadcast use vstd::array::group_array_axioms;

/// Bytes in one card block.
pub const BLOCK_SIZE: usize = 512;

/// One card block.
#[derive(Clone, Copy, PartialEq, Eq, PartialOrd, Ord, Debug)]
pub struct Block(pub [u8; BLOCK_SIZE]);

/// The index of a card block.
#[derive(Clone, Copy, PartialEq, Eq, PartialOrd, Ord, Debug)]
pub struct BlockIdx(pub u32);

/// A number of card blocks.
#[derive(Clone, Copy, PartialEq, Eq, PartialOrd, Ord, Debug)]
pub struct BlockCount(pub u32);

/// What can go wrong with the log card.
#[derive(Clone, Copy, PartialEq, Eq, Debug)]
pub enum HypedSdmmcError {
    /// The card driver reported an error.
    Sdmmc,
    /// The card holds more bytes than a `u32` counts.
    DriveSizeTooLarge,
    /// A record did not fit its buffer.
    SerializationError,
    /// Block 0 does not start with the magic.
    MagicMismatch,
    /// The card holds no log.
    NoLogsAvailable,
}

/// A block that holds `bytes` followed by zeros.
pub open spec fn block_holding(bytes: Seq<u8>) -> Seq<u8> {
    bytes + Seq::new((BLOCK_SIZE - bytes.len()) as nat, |i: int| 0u8)
}

/// The descriptor block that opening a new log writes back: the new log
/// starts at the first free block, which moves one on, and the trial count
/// goes up by one.
pub open spec fn started_descriptor(d: DescriptorBlock) -> DescriptorBlock {
    DescriptorBlock {
        magic: d.magic,
        current_trial_id: (d.current_trial_id + 1) as u32,
        first_free_block: (d.first_free_block + 1) as u32,
        last_log_start: d.first_free_block,
    }
}

/// The descriptor block that clearing the logs writes back.
pub open spec fn cleared_descriptor(d: DescriptorBlock) -> DescriptorBlock {
    DescriptorBlock {
        magic: d.magic,
        current_trial_id: d.current_trial_id,
        first_free_block: 1,
        last_log_start: 0,
    }
}

/// The descriptor after a full block of messages: the first free block
/// moves one on.
pub open spec fn advanced_descriptor(d: DescriptorBlock) -> DescriptorBlock {
    DescriptorBlock { first_free_block: (d.first_free_block + 1) as u32, ..d }
}

/// The entry of a new log: it points back at the previous log and at no
/// next one.
pub open spec fn new_log_entry(d: DescriptorBlock) -> LogEntryDescriptor {
    LogEntryDescriptor { last_log_start: d.last_log_start, next_log_start: 0 }
}

/// The previous log's entry, now pointing on at the new log.
pub open spec fn linked_log_entry(e: LogEntryDescriptor, d: DescriptorBlock) -> LogEntryDescriptor {
    LogEntryDescriptor { last_log_start: e.last_log_start, next_log_start: d.first_free_block }
}

/// A block of zeros.
pub fn zeroed_block() -> (b: Block)
    ensures
        b.0@ == Seq::new(BLOCK_SIZE as nat, |i: int| 0u8),
{
    let b = Block([0u8; BLOCK_SIZE]);
    assert(b.0@ =~= Seq::new(BLOCK_SIZE as nat, |i: int| 0u8));
    b
}

/// A zeroed block with the descriptor block written at its start.
pub fn descriptor_block_image(d: &DescriptorBlock) -> (b: Block)
    ensures
        b.0@ == block_holding(descriptor_block_bytes(*d)),
{
    let mut b = zeroed_block();
    let _ = serialize_descriptor_block(d, &mut b.0);
    assert(b.0@ =~= block_holding(descriptor_block_bytes(*d)));
    b
}

/// A zeroed block with the log entry descriptor written at its start.
pub fn log_entry_image(e: &LogEntryDescriptor) -> (b: Block)
    ensures
        b.0@ == block_holding(log_entry_bytes(*e)),
{
    let mut b = zeroed_block();
    let _ = serialize_log_entry(e, &mut b.0);
    assert(b.0@ =~= block_holding(log_entry_bytes(*e)));
    b
}

/// The descriptor block at the start of a block.
pub fn decode_descriptor_block_in(b: &Block) -> (d: DescriptorBlock)
    ensures
        decodes_descriptor_block(b.0@, d),
{
    match deserialize_descriptor_block(b.0.as_slice()) {
        Ok((d, _)) => d,
        Err(_) => {
            assert(false);
            DescriptorBlock::default()
        },
    }
}

/// The log entry descriptor at the start of a block.
pub fn decode_log_entry_in(b: &Block) -> (e: LogEntryDescriptor)
    ensures
        decodes_log_entry(b.0@, e),
{
    match deserialize_log_entry(b.0.as_slice()) {
        Ok((e, _)) => e,
        Err(_) => {
            assert(false);
            LogEntryDescriptor { last_log_start: 0, next_log_start: 0 }
        },
    }
}

/// The number of blocks of a card of `size` bytes; a size that a `u32`
/// cannot hold is refused.
pub fn block_count_for_size(size: u64) -> (r: Result<BlockCount, HypedSdmmcError>)
    ensures
        size <= u32::MAX ==> r == Ok::<BlockCount, HypedSdmmcError>(
            BlockCount((size / (BLOCK_SIZE as u64)) as u32),
        ),
        size > u32::MAX ==> r == Err::<BlockCount, HypedSdmmcError>(
            HypedSdmmcError::DriveSizeTooLarge,
        ),
{
    if size > u32::MAX as u64 {
        return Err(HypedSdmmcError::DriveSizeTooLarge);
    }
    let size32 = size as u32;
    Ok(BlockCount(size32 / (BLOCK_SIZE as u32)))
}

/// The descriptor the logs go on with, read from block 0 as the card holds
/// it. A block 0 without the magic is a fresh card: it gets the default
/// descriptor, and the block to write at block 0 for it comes back too.
pub fn descriptor_for_start(block0: &Block) -> (r: (DescriptorBlock, Option<Block>))
    ensures
        forall|d: DescriptorBlock|
            decodes_descriptor_block(block0.0@, d) ==> if d.has_magic() {
                r == (d, None::<Block>)
            } else {
                &&& r.0 == default_descriptor_block()
                &&& r.1 matches Some(b) && b.0@ == block_holding(
                    descriptor_block_bytes(default_descriptor_block()),
                )
            },
{
    let d = decode_descriptor_block_in(block0);
    proof {
        lemma_decodes_descriptor_unique_here(block0.0@, d);
    }
    if magic_matches(&d.magic) {
        (d, None)
    } else {
        let fresh = DescriptorBlock::default();
        let image = descriptor_block_image(&fresh);
        (fresh, Some(image))
    }
}

proof fn lemma_decodes_descriptor_unique_here(s: Seq<u8>, d: DescriptorBlock)
    requires
        decodes_descriptor_block(s, d),
    ensures
        forall|d2: DescriptorBlock| decodes_descriptor_block(s, d2) ==> d2 == d,
{
    assert forall|d2: DescriptorBlock| decodes_descriptor_block(s, d2) implies d2 == d by {
        crate::logging::lemma_descriptor_block_decode_unique(s, d, d2);
    }
}

/// The blocks that opening a new log writes, in the order written.
#[derive(Clone, Copy, PartialEq, Eq, Debug)]
pub struct LogStartWrites {
    /// The previous log's entry, now pointing on at the new log.
    pub previous_entry: (BlockIdx, Block),
    /// The new log's entry, at the first free block.
    pub new_entry: (BlockIdx, Block),
    /// The updated descriptor, at block 0.
    pub descriptor: Block,
    /// The descriptor the new log was opened from.
    pub started: DescriptorBlock,
}

/// `w` is what opening a new log writes, on a card whose descriptor is `d`
/// and whose block at `d.last_log_start` holds `previous`.
pub open spec fn is_log_start_plan(d: DescriptorBlock, previous: Seq<u8>, w: LogStartWrites) -> bool {
    &&& w.started == d
    &&& forall|e: LogEntryDescriptor|
        decodes_log_entry(previous, e) ==> w.previous_entry.1.0@ == block_holding(
            log_entry_bytes(linked_log_entry(e, d)),
        )
    &&& w.previous_entry.0 == BlockIdx(d.last_log_start)
    &&& w.new_entry.0 == BlockIdx(d.first_free_block)
    &&& w.new_entry.1.0@ == block_holding(log_entry_bytes(new_log_entry(d)))
    &&& w.descriptor.0@ == block_holding(descriptor_block_bytes(started_descriptor(d)))
}

/// The card's blocks after the writes of opening a log, made in their order.
pub open spec fn after_log_start(disk: Map<int, Seq<u8>>, w: LogStartWrites) -> Map<int, Seq<u8>> {
    disk.insert(w.previous_entry.0.0 as int, w.previous_entry.1.0@).insert(
        w.new_entry.0.0 as int,
        w.new_entry.1.0@,
    ).insert(0, w.descriptor.0@)
}

/// Opening a log links it into the chain: block 0 then names the new log as
/// the last one and the block after it as the first free one, and counts one
/// more trial; the new log's entry points back at the previous log and on at
/// none; and the previous log's entry, unless there was none, points on at
/// the new log.
pub proof fn lemma_log_start_links_chain(
    disk: Map<int, Seq<u8>>,
    d: DescriptorBlock,
    e: LogEntryDescriptor,
    w: LogStartWrites,
)
    requires
        d.first_free_block != 0,
        d.last_log_start != d.first_free_block,
        d.first_free_block < u32::MAX,
        d.current_trial_id < u32::MAX,
        decodes_log_entry(disk[d.last_log_start as int], e),
        is_log_start_plan(d, disk[d.last_log_start as int], w),
    ensures
        decodes_descriptor_block(after_log_start(disk, w)[0], started_descriptor(d)),
        started_descriptor(d).last_log_start == d.first_free_block,
        started_descriptor(d).first_free_block == d.first_free_block + 1,
        started_descriptor(d).current_trial_id == d.current_trial_id + 1,
        decodes_log_entry(after_log_start(disk, w)[d.first_free_block as int], new_log_entry(d)),
        new_log_entry(d).last_log_start == d.last_log_start,
        new_log_entry(d).next_log_start == 0,
        d.last_log_start != 0 ==> decodes_log_entry(
            after_log_start(disk, w)[d.last_log_start as int],
            linked_log_entry(e, d),
        ),
        linked_log_entry(e, d).next_log_start == d.first_free_block,
        linked_log_entry(e, d).last_log_start == e.last_log_start,
        log_end_block(new_log_entry(d), started_descriptor(d)) == d.first_free_block + 1,
        log_end_block(linked_log_entry(e, d), started_descriptor(d)) == d.first_free_block,
{
    vstd::bytes::lemma_auto_spec_u32_to_from_le_bytes();
    let z1 = Seq::new((BLOCK_SIZE - 20) as nat, |i: int| 0u8);
    let z2 = Seq::new((BLOCK_SIZE - 8) as nat, |i: int| 0u8);
    assert(descriptor_block_bytes(started_descriptor(d)).len() == 20);
    assert(block_holding(descriptor_block_bytes(started_descriptor(d))) =~= descriptor_block_bytes(
        started_descriptor(d),
    ) + z1);
    assert(block_holding(log_entry_bytes(new_log_entry(d))) =~= log_entry_bytes(new_log_entry(d))
        + z2);
    assert(block_holding(log_entry_bytes(linked_log_entry(e, d))) =~= log_entry_bytes(
        linked_log_entry(e, d),
    ) + z2);
    crate::logging::lemma_descriptor_block_roundtrip(started_descriptor(d), z1, z1);
    crate::logging::lemma_log_entry_roundtrip(new_log_entry(d), z2, z2);
    crate::logging::lemma_log_entry_roundtrip(linked_log_entry(e, d), z2, z2);
}

/// Clearing the logs leaves the descriptor of a fresh card, but for the
/// trial count, which is kept.
pub proof fn lemma_cleared_is_fresh_but_for_trials(d: DescriptorBlock)
    requires
        d.has_magic(),
    ensures
        cleared_descriptor(d) == (DescriptorBlock {
            current_trial_id: d.current_trial_id,
            ..default_descriptor_block()
        }),
{
    crate::logging::lemma_magic_constant();
    assert(d.magic =~= crate::logging::MAGIC);
}

/// The writer's next message goes into a slot that reading the block
/// visits, after the log's entry in the first block, and reads back as the
/// message written there.
pub proof fn lemma_placed_message_reads_back(w: LogWriter, block: Seq<u8>, m: Message)
    requires
        w.wf(),
        block.len() == BLOCK_SIZE,
    ensures
        first_slot(w.blocks_written_count == 0) <= w.bytes_written_count,
        (w.bytes_written_count - first_slot(w.blocks_written_count == 0)) % (MESSAGE_LEN as int)
            == 0,
        w.bytes_written_count + MESSAGE_LEN <= BLOCK_SIZE,
        decodes_message(
            overwrite(block, w.bytes_written_count as int, message_bytes(m)).subrange(
                w.bytes_written_count as int,
                BLOCK_SIZE as int,
            ),
            m,
        ),
{
    vstd::bytes::lemma_auto_spec_u64_to_from_le_bytes();
    assert(message_bytes(m).len() == MESSAGE_LEN);
    let off = w.bytes_written_count as int;
    let b2 = overwrite(block, off, message_bytes(m));
    let rest = block.subrange(off + MESSAGE_LEN, BLOCK_SIZE as int);
    assert(b2.subrange(off, BLOCK_SIZE as int) =~= message_bytes(m) + rest);
    crate::logging::lemma_message_roundtrip(m, rest, rest);
}


/// Opens a new log on a card whose descriptor is `d` and whose block at
/// `d.last_log_start` holds `previous`: the previous log's entry is
/// rewritten (on a zeroed block) to point on at the new log, the new log's
/// entry goes at the first free block, and the descriptor moves on.
pub fn plan_log_start(d: &DescriptorBlock, previous: &Block) -> (r: LogStartWrites)
    requires
        d.first_free_block < u32::MAX,
        d.current_trial_id < u32::MAX,
    ensures
        is_log_start_plan(*d, previous.0@, r),
{
    let prev = decode_log_entry_in(previous);
    proof {
        assert forall|e: LogEntryDescriptor| decodes_log_entry(previous.0@, e) implies e == prev by {
            crate::logging::lemma_log_entry_decode_unique(previous.0@, e, prev);
        }
    }
    let linked = LogEntryDescriptor {
        last_log_start: prev.last_log_start,
        next_log_start: d.first_free_block,
    };
    let entry = LogEntryDescriptor { last_log_start: d.last_log_start, next_log_start: 0 };
    let next = DescriptorBlock {
        magic: d.magic,
        current_trial_id: d.current_trial_id + 1,
        first_free_block: d.first_free_block + 1,
        last_log_start: d.first_free_block,
    };
    LogStartWrites {
        previous_entry: (BlockIdx(d.last_log_start), log_entry_image(&linked)),
        new_entry: (BlockIdx(d.first_free_block), log_entry_image(&entry)),
        descriptor: descriptor_block_image(&next),
        started: *d,
    }
}

/// The block 0 that clearing the logs writes: the same magic and trial
/// count, no log, and block 1 free. A block 0 without the magic is refused.
pub fn cleared_descriptor_block(block0: &Block) -> (r: Result<Block, HypedSdmmcError>)
    ensures
        forall|d: DescriptorBlock|
            decodes_descriptor_block(block0.0@, d) ==> if d.has_magic() {
                r matches Ok(b) && b.0@ == block_holding(descriptor_block_bytes(cleared_descriptor(d)))
            } else {
                r == Err::<Block, HypedSdmmcError>(HypedSdmmcError::MagicMismatch)
            },
{
    let d = decode_descriptor_block_in(block0);
    proof {
        lemma_decodes_descriptor_unique_here(block0.0@, d);
    }
    if !magic_matches(&d.magic) {
        return Err(HypedSdmmcError::MagicMismatch);
    }
    let cleared = DescriptorBlock {
        magic: d.magic,
        current_trial_id: d.current_trial_id,
        first_free_block: 1,
        last_log_start: 0,
    };
    Ok(descriptor_block_image(&cleared))
}

/// Where the logging task puts the next message: the block, counted from
/// the first block of the log, and the byte offset in it. The first block
/// of a log starts with the log's entry, so its messages start after it.
#[derive(Clone, Copy, PartialEq, Eq, Debug)]
pub struct LogWriter {
    pub blocks_written_count: u32,
    pub bytes_written_count: u32,
}

impl LogWriter {
    /// The offset is that of a message slot: after the entry in the first
    /// block, either slot in the others.
    pub open spec fn wf(self) -> bool {
        if self.blocks_written_count == 0 {
            self.bytes_written_count == LOG_ENTRY_DESCRIPTOR_SIZE
        } else {
            self.bytes_written_count == 0 || self.bytes_written_count == MESSAGE_SIZE
        }
    }

    /// A writer at the first message slot of a new log.
    pub fn new() -> (w: Self)
        ensures
            w.wf(),
            w.blocks_written_count == 0,
            w.bytes_written_count == LOG_ENTRY_DESCRIPTOR_SIZE,
    {
        LogWriter { blocks_written_count: 0, bytes_written_count: LOG_ENTRY_DESCRIPTOR_SIZE }
    }

    /// The card block that the next message goes into, for a log opened from
    /// the descriptor `log_start`.
    pub fn message_block(&self, log_start: &DescriptorBlock) -> (b: BlockIdx)
        requires
            log_start.first_free_block + self.blocks_written_count <= u32::MAX,
        ensures
            b == BlockIdx((log_start.first_free_block + self.blocks_written_count) as u32),
    {
        BlockIdx(log_start.first_free_block + self.blocks_written_count)
    }

    /// Writes the message into its slot of the block read from the card.
    pub fn place_message(&self, block: &mut Block, message: &Message)
        requires
            self.wf(),
        ensures
            final(block).0@ == overwrite(
                old(block).0@,
                self.bytes_written_count as int,
                message_bytes(*message),
            ),
    {
        let _ = serialize_message_at(message, &mut block.0, self.bytes_written_count as usize);
    }

    /// Moves past the message just written. Returns whether it filled its
    /// block, so that the descriptor's first free block must move on.
    pub fn message_written(&mut self) -> (block_full: bool)
        requires
            old(self).wf(),
            old(self).blocks_written_count < u32::MAX,
        ensures
            final(self).wf(),
            *final(self) == writer_after_message(*old(self)),
            block_full == (old(self).bytes_written_count + MESSAGE_SIZE >= BLOCK_SIZE),
            block_full ==> final(self).blocks_written_count == old(self).blocks_written_count + 1
                && final(self).bytes_written_count == (old(self).bytes_written_count
                + MESSAGE_SIZE) % (BLOCK_SIZE as int),
            !block_full ==> final(self).blocks_written_count == old(self).blocks_written_count
                && final(self).bytes_written_count == old(self).bytes_written_count + MESSAGE_SIZE,
    {
        self.bytes_written_count = self.bytes_written_count + MESSAGE_SIZE;
        if self.bytes_written_count >= BLOCK_SIZE as u32 {
            self.bytes_written_count = self.bytes_written_count % (BLOCK_SIZE as u32);
            self.blocks_written_count = self.blocks_written_count + 1;
            true
        } else {
            false
        }
    }
}

/// The writer after a message: the next slot, in the next block when the
/// message filled its block.
pub open spec fn writer_after_message(w: LogWriter) -> LogWriter {
    if w.bytes_written_count + MESSAGE_SIZE >= BLOCK_SIZE {
        LogWriter {
            blocks_written_count: (w.blocks_written_count + 1) as u32,
            bytes_written_count: ((w.bytes_written_count + MESSAGE_SIZE) % (BLOCK_SIZE as int)) as u32,
        }
    } else {
        LogWriter {
            blocks_written_count: w.blocks_written_count,
            bytes_written_count: (w.bytes_written_count + MESSAGE_SIZE) as u32,
        }
    }
}

/// The writer of a new log after `k` messages.
pub open spec fn writer_after_messages(k: nat) -> LogWriter
    decreases k,
{
    if k == 0 {
        LogWriter { blocks_written_count: 0, bytes_written_count: LOG_ENTRY_DESCRIPTOR_SIZE }
    } else {
        writer_after_message(writer_after_messages((k - 1) as nat))
    }
}

/// Where the messages of a log go: after `k` messages the writer stands at
/// block `(k + 1) / 2` of the log, at byte `256 * ((k + 1) % 2)`; so message
/// `k`, counted from 0, takes the slot after the log's entry in the log's
/// first block when `k` is 0, and else the first slot of block `(k + 1) / 2`
/// when `k` is odd and its second slot when `k` is even. Every message thus
/// gets a slot of its own, and the card's first free block, one past the
/// writer's block, moves on once every two messages.
pub proof fn lemma_message_placement(k: nat)
    requires
        (k + 1) / 2 <= u32::MAX,
    ensures
        writer_after_messages(k) == (LogWriter {
            blocks_written_count: ((k + 1) / 2) as u32,
            bytes_written_count: (256 * ((k + 1) % 2)) as u32,
        }),
        writer_after_messages(k).wf(),
    decreases k,
{
    if k > 0 {
        lemma_message_placement((k - 1) as nat);
    }
}

/// The block 0 that a full block of messages writes: the descriptor `d`
/// read from the card, with its first free block moved one on.
pub fn advance_free_block(d: &DescriptorBlock) -> (b: Block)
    requires
        d.first_free_block < u32::MAX,
    ensures
        b.0@ == block_holding(descriptor_block_bytes(advanced_descriptor(*d))),
{
    let next = DescriptorBlock { first_free_block: d.first_free_block + 1, ..*d };
    descriptor_block_image(&next)
}

/// The timestamp of a message from the time since logging started, given
/// in whole seconds, whole milliseconds and whole microseconds: the seconds,
/// then the milliseconds and microseconds within the next unit up.
pub fn message_timestamp(as_secs: u64, as_millis: u64, as_micros: u64) -> (t: (u64, u64, u64))
    ensures
        t == (as_secs, as_millis % 1000, as_micros % 1000),
{
    (as_secs, as_millis % 1000, as_micros % 1000)
}

/// Refuses a card that holds no logs to read: it must carry the magic and
/// name a last log.
pub fn ensure_logs_available(d: &DescriptorBlock) -> (r: Result<(), HypedSdmmcError>)
    ensures
        !d.has_magic() ==> r == Err::<(), HypedSdmmcError>(HypedSdmmcError::MagicMismatch),
        d.has_magic() && d.last_log_start == 0 ==> r == Err::<(), HypedSdmmcError>(
            HypedSdmmcError::NoLogsAvailable,
        ),
        d.has_magic() && d.last_log_start != 0 ==> r == Ok::<(), HypedSdmmcError>(()),
{
    if !magic_matches(&d.magic) {
        return Err(HypedSdmmcError::MagicMismatch);
    }
    if d.last_log_start == 0 {
        return Err(HypedSdmmcError::NoLogsAvailable);
    }
    Ok(())
}

/// The block after the last block of a log: the next log's start, or the
/// first free block for the last log.
pub open spec fn log_end_block(entry: LogEntryDescriptor, d: DescriptorBlock) -> u32 {
    if entry.next_log_start == 0 {
        d.first_free_block
    } else {
        entry.next_log_start
    }
}

/// The block after the last block of the log of `entry`.
pub fn log_end_block_index(entry: &LogEntryDescriptor, d: &DescriptorBlock) -> (b: u32)
    ensures
        b == log_end_block(*entry, *d),
{
    if entry.next_log_start == 0 {
        d.first_free_block
    } else {
        entry.next_log_start
    }
}

/// The number of blocks of the log whose entry `entry` is at block `start`.
pub fn log_entry_block_count(entry: &LogEntryDescriptor, d: &DescriptorBlock, start: u32) -> (n:
    u32)
    requires
        log_end_block(*entry, *d) >= start,
    ensures
        n == log_end_block(*entry, *d) - start,
{
    let next_block = log_end_block_index(entry, d);
    next_block - start
}

/// The log before the one whose entry is `entry`, if any.
pub fn previous_log_block(entry: &LogEntryDescriptor) -> (r: Option<u32>)
    ensures
        entry.last_log_start == 0 ==> r == None::<u32>,
        entry.last_log_start != 0 ==> r == Some(entry.last_log_start),
{
    if entry.last_log_start == 0 {
        None
    } else {
        Some(entry.last_log_start)
    }
}

/// The offset of the first message slot of a block of a log.
pub open spec fn first_slot(first_block: bool) -> int {
    if first_block {
        LOG_ENTRY_DESCRIPTOR_SIZE as int
    } else {
        0
    }
}

/// The slot at `off` holds no message: its three timestamps are zero.
pub open spec fn slot_is_unused(s: Seq<u8>, off: int) -> bool {
    &&& spec_u64_from_le_bytes(s.subrange(off, off + 8)) == 0
    &&& spec_u64_from_le_bytes(s.subrange(off + 8, off + 16)) == 0
    &&& spec_u64_from_le_bytes(s.subrange(off + 16, off + 24)) == 0
}

/// The offsets of the messages that reading a block finds from `off` on:
/// each slot in turn, up to the first unused one or the end of the block.
pub open spec fn message_slots(s: Seq<u8>, off: int) -> Seq<int>
    decreases BLOCK_SIZE - off,
{
    if off < 0 || off + MESSAGE_LEN > BLOCK_SIZE {
        Seq::empty()
    } else if slot_is_unused(s, off) {
        Seq::empty()
    } else {
        seq![off] + message_slots(s, off + MESSAGE_LEN)
    }
}

/// The messages of a block of a log, in slot order, stopping at the first
/// unused slot.
pub fn block_messages(block: &Block, first_block: bool) -> (r: Vec<Message>)
    ensures
        r@.len() == message_slots(block.0@, first_slot(first_block)).len(),
        forall|i: int|
            0 <= i < r@.len() ==> decodes_message(
                block.0@.subrange(
                    #[trigger] message_slots(block.0@, first_slot(first_block))[i],
                    BLOCK_SIZE as int,
                ),
                r@[i],
            ),
{
    let ghost s = block.0@;
    let ghost start = first_slot(first_block);
    let mut offset: usize = if first_block {
        LOG_ENTRY_DESCRIPTOR_SIZE as usize
    } else {
        0
    };
    let mut out: Vec<Message> = Vec::new();
    let ghost mut slots: Seq<int> = Seq::empty();
    while offset + MESSAGE_LEN <= BLOCK_SIZE
        invariant
            s == block.0@,
            s.len() == BLOCK_SIZE,
            start == first_slot(first_block),
            offset <= BLOCK_SIZE,
            message_slots(s, start) == slots + message_slots(s, offset as int),
            out@.len() == slots.len(),
            forall|i: int|
                0 <= i < slots.len() ==> decodes_message(
                    s.subrange(#[trigger] slots[i], BLOCK_SIZE as int),
                    out@[i],
                ),
        decreases BLOCK_SIZE - offset,
    {
        let (m, _) = match deserialize_message_at(block.0.as_slice(), offset) {
            Ok(x) => x,
            Err(_) => {
                assert(false);
                return out;
            },
        };
        let ghost rest = s.subrange(offset as int, BLOCK_SIZE as int);
        assert(rest.subrange(0, 8) =~= s.subrange(offset as int, offset + 8));
        assert(rest.subrange(8, 16) =~= s.subrange(offset + 8, offset + 16));
        assert(rest.subrange(16, 24) =~= s.subrange(offset + 16, offset + 24));
        if m.time_sec == 0 && m.time_milli == 0 && m.time_micro == 0 {
            assert(message_slots(s, offset as int) =~= Seq::<int>::empty());
            assert(slots + Seq::<int>::empty() =~= slots);
            return out;
        }
        proof {
            assert(message_slots(s, offset as int) == seq![offset as int] + message_slots(
                s,
                offset + MESSAGE_LEN,
            ));
            assert(slots + message_slots(s, offset as int) =~= slots.push(offset as int)
                + message_slots(s, offset + MESSAGE_LEN));
            slots = slots.push(offset as int);
        }
        out.push(m);
        offset = offset + MESSAGE_LEN;
    }
    assert(message_slots(s, offset as int) =~= Seq::<int>::empty());
    assert(slots + Seq::<int>::empty() =~= slots);
    out
}


/// The index of the `i`-th block of a run of blocks from `start`.
pub fn block_index_at(start: BlockIdx, i: usize) -> (b: BlockIdx)
    requires
        start.0 + i <= u32::MAX,
    ensures
        b == BlockIdx((start.0 + i) as u32),
{
    BlockIdx(start.0 + i as u32)
}

/// A FAT timestamp.
#[derive(Clone, Copy, PartialEq, Eq, Structural, Debug)]
pub struct Timestamp {
    pub year_since_1970: u8,
    pub zero_indexed_month: u8,
    pub zero_indexed_day: u8,
    pub hours: u8,
    pub minutes: u8,
    pub seconds: u8,
}

/// The clock of the card's file system. The board has no real-time clock
/// yet, so every file is stamped with the start of 2023.
#[derive(Clone, Copy, PartialEq, Eq, Structural, Debug)]
pub struct HypedSdmmcTimeSource;

impl HypedSdmmcTimeSource {
    /// The time to stamp files with: midnight, 1 January 2023.
    pub fn get_timestamp(&self) -> (t: Timestamp)
        ensures
            t == (Timestamp {
                year_since_1970: 53,
                zero_indexed_month: 0,
                zero_indexed_day: 0,
                hours: 0,
                minutes: 0,
                seconds: 0,
            }),
    {
        Timestamp {
            year_since_1970: 53,
            zero_indexed_month: 0,
            zero_indexed_day: 0,
            hours: 0,
            minutes: 0,
            seconds: 0,
        }
    }
}


/// The blocks that reading the last log visits cover every block the
/// logging task has written to. Opening the log leaves the card's first free
/// block just past the log's first block, and each block the writer fills
/// moves it on by one, so while the writer is at block `k` of the log the
/// card's first free block is `k + 1` blocks past the log's start: reading
/// the log visits its blocks up to and including the one the next message
/// goes into.
pub proof fn lemma_written_blocks_are_read(
    log_start: DescriptorBlock,
    on_card: DescriptorBlock,
    w: LogWriter,
    block_full: bool,
)
    requires
        w.wf(),
        on_card.first_free_block == log_start.first_free_block + 1 + w.blocks_written_count,
        on_card.first_free_block < u32::MAX,
    ensures
        log_end_block(new_log_entry(log_start), on_card) - log_start.first_free_block
            == w.blocks_written_count + 1,
        log_start.first_free_block + w.blocks_written_count < log_end_block(
            new_log_entry(log_start),
            on_card,
        ),
        block_full ==> advanced_descriptor(on_card).first_free_block == log_start.first_free_block
            + 1 + (w.blocks_written_count + 1),
        started_descriptor(log_start).first_free_block == log_start.first_free_block + 1 + 0,
{
}


/// A message whose timestamp is not all zero, which reading tells apart
/// from an unused slot.
pub open spec fn is_stamped(m: Message) -> bool {
    !(m.time_sec == 0 && m.time_milli == 0 && m.time_micro == 0)
}

proof fn lemma_slot_holds_message(s: Seq<u8>, off: int, m: Message)
    requires
        s.len() == BLOCK_SIZE,
        0 <= off,
        off + MESSAGE_LEN <= BLOCK_SIZE,
    ensures
        ({
            let t = overwrite(s, off, message_bytes(m));
            &&& t.len() == BLOCK_SIZE
            &&& decodes_message(t.subrange(off, BLOCK_SIZE as int), m)
            &&& (slot_is_unused(t, off) <==> !is_stamped(m))
            &&& t.subrange(0, off) == s.subrange(0, off)
            &&& t.subrange(off + MESSAGE_LEN, BLOCK_SIZE as int) == s.subrange(
                off + MESSAGE_LEN,
                BLOCK_SIZE as int,
            )
        }),
{
    vstd::bytes::lemma_auto_spec_u64_to_from_le_bytes();
    let t = overwrite(s, off, message_bytes(m));
    assert(message_bytes(m).len() == MESSAGE_LEN);
    let rest = s.subrange(off + MESSAGE_LEN, BLOCK_SIZE as int);
    assert(t.subrange(off, BLOCK_SIZE as int) =~= message_bytes(m) + rest);
    crate::logging::lemma_message_roundtrip(m, rest, rest);
    assert(t.subrange(off, off + 8) =~= spec_u64_to_le_bytes(m.time_sec));
    assert(t.subrange(off + 8, off + 16) =~= spec_u64_to_le_bytes(m.time_milli));
    assert(t.subrange(off + 16, off + 24) =~= spec_u64_to_le_bytes(m.time_micro));
    assert(t.subrange(0, off) =~= s.subrange(0, off));
    assert(t.subrange(off + MESSAGE_LEN, BLOCK_SIZE as int) =~= rest);
}

/// Reading a block gives back, in order, the messages the logging task
/// wrote into it: the one message after the log's entry in the first block,
/// and the two messages of any other block. Messages with an all-zero
/// timestamp are the exception: reading takes them for unused slots.
pub proof fn lemma_block_reads_back_writes(s: Seq<u8>, m1: Message, m2: Message)
    requires
        s.len() == BLOCK_SIZE,
        is_stamped(m1),
        is_stamped(m2),
    ensures
        message_slots(overwrite(s, 256, message_bytes(m1)), first_slot(true)) == seq![256int],
        ({
            let t = overwrite(overwrite(s, 0, message_bytes(m1)), 256, message_bytes(m2));
            &&& message_slots(t, first_slot(false)) == seq![0int, 256int]
            &&& decodes_message(t.subrange(0, BLOCK_SIZE as int), m1)
            &&& decodes_message(t.subrange(256, BLOCK_SIZE as int), m2)
        }),
{
    let a = overwrite(s, 256, message_bytes(m1));
    lemma_slot_holds_message(s, 256, m1);
    assert(message_slots(a, 512) == Seq::<int>::empty());
    assert(message_slots(a, 256) =~= seq![256int]);

    let b = overwrite(s, 0, message_bytes(m1));
    lemma_slot_holds_message(s, 0, m1);
    let t = overwrite(b, 256, message_bytes(m2));
    lemma_slot_holds_message(b, 256, m2);
    assert(t.subrange(0, 256) == b.subrange(0, 256));
    assert(b.subrange(0, 256) =~= b.subrange(0, BLOCK_SIZE as int).subrange(0, 256));
    // the first slot of t is the first slot of b
    assert forall|i: int| 0 <= i < 24 implies t[i] == b[i] by {
        assert(t.subrange(0, 256)[i] == b.subrange(0, 256)[i]);
    }
    assert(t.subrange(0, 8) =~= b.subrange(0, 8));
    assert(t.subrange(8, 16) =~= b.subrange(8, 16));
    assert(t.subrange(16, 24) =~= b.subrange(16, 24));
    assert(!slot_is_unused(t, 0));
    assert(message_slots(t, 512) == Seq::<int>::empty());
    assert(message_slots(t, 256) =~= seq![256int]);
    assert(message_slots(t, 0) =~= seq![0int, 256int]);
    // the message at 0 is still m1 in t
    let mb = b.subrange(0, BLOCK_SIZE as int);
    let mt = t.subrange(0, BLOCK_SIZE as int);
    assert(mt.subrange(0, 256) =~= mb.subrange(0, 256));
    assert forall|i: int| 0 <= i < 256 implies mt[i] == mb[i] by {
        assert(mt.subrange(0, 256)[i] == mb.subrange(0, 256)[i]);
    }
    assert(mt.subrange(0, 8) =~= mb.subrange(0, 8));
    assert(mt.subrange(8, 16) =~= mb.subrange(8, 16));
    assert(mt.subrange(16, 24) =~= mb.subrange(16, 24));
    assert(mt.subrange(24, 256) =~= mb.subrange(24, 256));
}

} // verus!
