//! On-card log format: the descriptor block at block 0, the log entry
//! descriptors that start each log, and the fixed-size timestamped messages.
//! Every record is written field by field, integers little-endian, arrays
//! byte by byte, with no padding between fields.
use vstd::bytes::*;
use vstd::prelude::*;
use vstd::string::StringSliceAdditionalSpecFns;

verus! {

broadcast use vstd::array::group_array_axioms;

/// The magic is "LOG DISC".
pub const MAGIC: [u8; 8] = [76, 79, 71, 32, 68, 73, 83, 67];

/// Bytes reserved for a log entry descriptor at the start of its block.
pub const LOG_ENTRY_DESCRIPTOR_SIZE: u32 = 256;

/// Bytes taken by one message slot.
pub const MESSAGE_SIZE: u32 = 256;

/// Bytes of text in a message: the slot less its three timestamps.
pub const MESSAGE_SIZE_RAW: usize = 232;

/// Encoded length of a `DescriptorBlock`.
pub const DESCRIPTOR_BLOCK_LEN: usize = 20;

/// Encoded length of a `LogEntryDescriptor`.
pub const LOG_ENTRY_DESCRIPTOR_LEN: usize = 8;

/// Encoded length of a `Message`.
pub const MESSAGE_LEN: usize = 256;

/// The header of the card, kept at block 0.
#[derive(Clone, Copy, Debug, PartialEq, Eq)]
pub struct DescriptorBlock {
    pub magic: [u8; 8],
    pub current_trial_id: u32,
    pub first_free_block: u32,
    /// set to 0 if there is none
    pub last_log_start: u32,
}

/// The header of one log; the log's messages follow it.
#[derive(Clone, Copy, Debug, PartialEq, Eq)]
pub struct LogEntryDescriptor {
    /// set to 0 if it's the first log entry
    pub last_log_start: u32,
    /// set to 0 if it's the last log entry
    pub next_log_start: u32,
}

/// One timestamped log message.
#[derive(Clone, Copy, Debug, PartialEq, Eq)]
pub struct Message {
    pub time_sec: u64,
    pub time_milli: u64,
    pub time_micro: u64,
    pub message: [u8; MESSAGE_SIZE_RAW],
}

/// A target buffer shorter than the record.
#[derive(Clone, Copy, Debug, PartialEq, Eq)]
pub enum SerializeError {
    BufferTooSmall,
}

/// An input buffer shorter than the record.
#[derive(Clone, Copy, Debug, PartialEq, Eq)]
pub enum DeserializeError {
    WrongBufferSize,
}

/// The eight magic bytes.
pub open spec fn magic_bytes() -> Seq<u8> {
    seq![76u8, 79u8, 71u8, 32u8, 68u8, 73u8, 83u8, 67u8]
}

/// The descriptor block written on a fresh card.
pub open spec fn default_descriptor_block() -> DescriptorBlock {
    DescriptorBlock {
        magic: MAGIC,
        current_trial_id: 0,
        first_free_block: 1,
        last_log_start: 0,
    }
}

/// The encoding of a descriptor block.
pub open spec fn descriptor_block_bytes(d: DescriptorBlock) -> Seq<u8> {
    d.magic@ + spec_u32_to_le_bytes(d.current_trial_id) + spec_u32_to_le_bytes(
        d.first_free_block,
    ) + spec_u32_to_le_bytes(d.last_log_start)
}

/// The encoding of a log entry descriptor.
pub open spec fn log_entry_bytes(e: LogEntryDescriptor) -> Seq<u8> {
    spec_u32_to_le_bytes(e.last_log_start) + spec_u32_to_le_bytes(e.next_log_start)
}

/// The encoding of a message.
pub open spec fn message_bytes(m: Message) -> Seq<u8> {
    spec_u64_to_le_bytes(m.time_sec) + spec_u64_to_le_bytes(m.time_milli) + spec_u64_to_le_bytes(
        m.time_micro,
    ) + m.message@
}

/// `d` is what the first bytes of `s` hold.
pub open spec fn decodes_descriptor_block(s: Seq<u8>, d: DescriptorBlock) -> bool {
    &&& s.len() >= DESCRIPTOR_BLOCK_LEN
    &&& d.magic@ == s.subrange(0, 8)
    &&& d.current_trial_id == spec_u32_from_le_bytes(s.subrange(8, 12))
    &&& d.first_free_block == spec_u32_from_le_bytes(s.subrange(12, 16))
    &&& d.last_log_start == spec_u32_from_le_bytes(s.subrange(16, 20))
}

/// `e` is what the first bytes of `s` hold.
pub open spec fn decodes_log_entry(s: Seq<u8>, e: LogEntryDescriptor) -> bool {
    &&& s.len() >= LOG_ENTRY_DESCRIPTOR_LEN
    &&& e.last_log_start == spec_u32_from_le_bytes(s.subrange(0, 4))
    &&& e.next_log_start == spec_u32_from_le_bytes(s.subrange(4, 8))
}

/// `m` is what the first bytes of `s` hold.
pub open spec fn decodes_message(s: Seq<u8>, m: Message) -> bool {
    &&& s.len() >= MESSAGE_LEN
    &&& m.time_sec == spec_u64_from_le_bytes(s.subrange(0, 8))
    &&& m.time_milli == spec_u64_from_le_bytes(s.subrange(8, 16))
    &&& m.time_micro == spec_u64_from_le_bytes(s.subrange(16, 24))
    &&& m.message@ == s.subrange(24, 256)
}

/// `target` after `src` is copied over it from `offset` on.
pub open spec fn overwrite(target: Seq<u8>, offset: int, src: Seq<u8>) -> Seq<u8> {
    target.subrange(0, offset) + src + target.subrange(offset + src.len(), target.len() as int)
}

/// The text buffer of a message, all zero.
pub open spec fn zero_text() -> Seq<u8> {
    Seq::new(MESSAGE_SIZE_RAW as nat, |i: int| 0u8)
}

impl DescriptorBlock {
    /// The magic field holds "LOG DISC".
    pub open spec fn has_magic(self) -> bool {
        self.magic@ == magic_bytes()
    }
}

/// The magic constant holds the eight magic bytes.
pub proof fn lemma_magic_constant()
    ensures
        MAGIC@ == magic_bytes(),
{
    assert(MAGIC@ =~= magic_bytes());
}

/// Copies `src` over `target` from `offset` on.
fn write_at(target: &mut [u8], offset: usize, src: &[u8])
    requires
        offset + src@.len() <= old(target)@.len(),
    ensures
        final(target)@ == overwrite(old(target)@, offset as int, src@),
{
    let n = src.len();
    let tl = target.len();
    let mut i: usize = 0;
    while i < n
        invariant
            n == src@.len(),
            tl == target@.len(),
            offset + n <= target@.len(),
            target@.len() == old(target)@.len(),
            i <= n,
            target@ =~= old(target)@.subrange(0, offset as int) + src@.subrange(0, i as int)
                + old(target)@.subrange(offset + i, old(target)@.len() as int),
        decreases n - i,
    {
        target[offset + i] = src[i];
        i = i + 1;
    }
    assert(src@.subrange(0, n as int) =~= src@);
}

/// Tells whether a magic field holds "LOG DISC".
pub fn magic_matches(magic: &[u8; 8]) -> (r: bool)
    ensures
        r == (magic@ == magic_bytes()),
{
    proof {
        lemma_magic_constant();
    }
    let mut i: usize = 0;
    while i < 8
        invariant
            i <= 8,
            forall|j: int| 0 <= j < i ==> magic@[j] == magic_bytes()[j],
        decreases 8 - i,
    {
        if magic[i] != MAGIC[i] {
            return false;
        }
        i = i + 1;
    }
    assert(magic@ =~= magic_bytes());
    true
}

impl Default for DescriptorBlock {
    fn default() -> (d: Self)
        ensures
            d == default_descriptor_block(),
    {
        DescriptorBlock { magic: MAGIC, current_trial_id: 0, first_free_block: 1, last_log_start: 0 }
    }
}

/// How many bytes of a descriptor block a target of `avail` bytes takes:
/// its fields are written in order while each fits whole.
pub open spec fn descriptor_fields_that_fit(avail: int) -> int {
    if avail >= 20 {
        20
    } else if avail >= 16 {
        16
    } else if avail >= 12 {
        12
    } else if avail >= 8 {
        8
    } else {
        0
    }
}

/// How many bytes of a log entry descriptor a target of `avail` bytes
/// takes: its fields are written in order while each fits whole.
pub open spec fn log_entry_fields_that_fit(avail: int) -> int {
    if avail >= 8 {
        8
    } else if avail >= 4 {
        4
    } else {
        0
    }
}

/// How many bytes of a message a target of `avail` bytes takes: its fields
/// are written in order while each fits whole.
pub open spec fn message_fields_that_fit(avail: int) -> int {
    if avail >= 256 {
        256
    } else if avail >= 24 {
        24
    } else if avail >= 16 {
        16
    } else if avail >= 8 {
        8
    } else {
        0
    }
}

/// Writing `a` and then `b` right after it is writing `a + b`.
proof fn lemma_overwrite_extend(t: Seq<u8>, off: int, a: Seq<u8>, b: Seq<u8>)
    requires
        0 <= off,
        off + a.len() + b.len() <= t.len(),
    ensures
        overwrite(overwrite(t, off, a), off + a.len(), b) == overwrite(t, off, a + b),
{
    assert(overwrite(overwrite(t, off, a), off + a.len(), b) =~= overwrite(t, off, a + b));
}

/// Writes a descriptor block at the start of `target`, field by field while
/// each field fits; returns the bytes written when all fit.
pub fn serialize_descriptor_block(d: &DescriptorBlock, target: &mut [u8]) -> (r: Result<
    usize,
    SerializeError,
>)
    ensures
        r == (if old(target)@.len() >= DESCRIPTOR_BLOCK_LEN {
            Ok::<usize, SerializeError>(DESCRIPTOR_BLOCK_LEN)
        } else {
            Err::<usize, SerializeError>(SerializeError::BufferTooSmall)
        }),
        final(target)@ == overwrite(
            old(target)@,
            0,
            descriptor_block_bytes(*d).subrange(
                0,
                descriptor_fields_that_fit(old(target)@.len() as int),
            ),
        ),
        old(target)@.len() >= DESCRIPTOR_BLOCK_LEN ==> final(target)@ == overwrite(
            old(target)@,
            0,
            descriptor_block_bytes(*d),
        ),
{
    let ghost t0 = target@;
    let ghost full = descriptor_block_bytes(*d);
    let tl = target.len();
    let v1 = u32_to_le_bytes(d.current_trial_id);
    let v2 = u32_to_le_bytes(d.first_free_block);
    let v3 = u32_to_le_bytes(d.last_log_start);
    assert(full.len() == 20);
    assert(full.subrange(0, 8) =~= d.magic@);
    assert(full.subrange(0, 12) =~= full.subrange(0, 8) + v1@);
    assert(full.subrange(0, 16) =~= full.subrange(0, 12) + v2@);
    assert(full.subrange(0, 20) =~= full.subrange(0, 16) + v3@);
    assert(full.subrange(0, 20) =~= full);
    if tl < 8 {
        assert(overwrite(t0, 0, full.subrange(0, 0)) =~= t0);
        return Err(SerializeError::BufferTooSmall);
    }
    write_at(target, 0, &d.magic);
    if tl < 12 {
        return Err(SerializeError::BufferTooSmall);
    }
    write_at(target, 8, v1.as_slice());
    proof {
        lemma_overwrite_extend(t0, 0, full.subrange(0, 8), v1@);
    }
    if tl < 16 {
        return Err(SerializeError::BufferTooSmall);
    }
    write_at(target, 12, v2.as_slice());
    proof {
        lemma_overwrite_extend(t0, 0, full.subrange(0, 12), v2@);
    }
    if tl < 20 {
        return Err(SerializeError::BufferTooSmall);
    }
    write_at(target, 16, v3.as_slice());
    proof {
        lemma_overwrite_extend(t0, 0, full.subrange(0, 16), v3@);
    }
    Ok(DESCRIPTOR_BLOCK_LEN)
}

/// Reads a descriptor block from the start of `input`; on success also
/// returns the bytes read.
pub fn deserialize_descriptor_block(input: &[u8]) -> (r: Result<
    (DescriptorBlock, usize),
    DeserializeError,
>)
    ensures
        r is Ok <==> input@.len() >= DESCRIPTOR_BLOCK_LEN,
        r is Err ==> r == Err::<(DescriptorBlock, usize), DeserializeError>(
            DeserializeError::WrongBufferSize,
        ),
        r matches Ok((d, n)) ==> n == DESCRIPTOR_BLOCK_LEN && decodes_descriptor_block(input@, d),
{
    if input.len() < DESCRIPTOR_BLOCK_LEN {
        return Err(DeserializeError::WrongBufferSize);
    }
    let mut magic = [0u8; 8];
    let mut i: usize = 0;
    while i < 8
        invariant
            i <= 8,
            input@.len() >= DESCRIPTOR_BLOCK_LEN,
            forall|j: int| 0 <= j < i ==> magic@[j] == input@[j],
        decreases 8 - i,
    {
        magic[i] = input[i];
        i = i + 1;
    }
    assert(magic@ =~= input@.subrange(0, 8));
    let current_trial_id = u32_from_le_bytes(&input[8..12]);
    let first_free_block = u32_from_le_bytes(&input[12..16]);
    let last_log_start = u32_from_le_bytes(&input[16..20]);
    Ok((DescriptorBlock { magic, current_trial_id, first_free_block, last_log_start }, DESCRIPTOR_BLOCK_LEN))
}

/// Writes a log entry descriptor at the start of `target`, field by field
/// while each field fits; returns the bytes written when all fit.
pub fn serialize_log_entry(e: &LogEntryDescriptor, target: &mut [u8]) -> (r: Result<
    usize,
    SerializeError,
>)
    ensures
        r == (if old(target)@.len() >= LOG_ENTRY_DESCRIPTOR_LEN {
            Ok::<usize, SerializeError>(LOG_ENTRY_DESCRIPTOR_LEN)
        } else {
            Err::<usize, SerializeError>(SerializeError::BufferTooSmall)
        }),
        final(target)@ == overwrite(
            old(target)@,
            0,
            log_entry_bytes(*e).subrange(0, log_entry_fields_that_fit(old(target)@.len() as int)),
        ),
        old(target)@.len() >= LOG_ENTRY_DESCRIPTOR_LEN ==> final(target)@ == overwrite(
            old(target)@,
            0,
            log_entry_bytes(*e),
        ),
{
    let ghost t0 = target@;
    let ghost full = log_entry_bytes(*e);
    let tl = target.len();
    let v1 = u32_to_le_bytes(e.last_log_start);
    let v2 = u32_to_le_bytes(e.next_log_start);
    assert(full.len() == 8);
    assert(full.subrange(0, 4) =~= v1@);
    assert(full.subrange(0, 8) =~= full.subrange(0, 4) + v2@);
    assert(full.subrange(0, 8) =~= full);
    if tl < 4 {
        assert(overwrite(t0, 0, full.subrange(0, 0)) =~= t0);
        return Err(SerializeError::BufferTooSmall);
    }
    write_at(target, 0, v1.as_slice());
    if tl < 8 {
        return Err(SerializeError::BufferTooSmall);
    }
    write_at(target, 4, v2.as_slice());
    proof {
        lemma_overwrite_extend(t0, 0, full.subrange(0, 4), v2@);
    }
    Ok(LOG_ENTRY_DESCRIPTOR_LEN)
}

/// Reads a log entry descriptor from the start of `input`; on success also
/// returns the bytes read.
pub fn deserialize_log_entry(input: &[u8]) -> (r: Result<
    (LogEntryDescriptor, usize),
    DeserializeError,
>)
    ensures
        r is Ok <==> input@.len() >= LOG_ENTRY_DESCRIPTOR_LEN,
        r is Err ==> r == Err::<(LogEntryDescriptor, usize), DeserializeError>(
            DeserializeError::WrongBufferSize,
        ),
        r matches Ok((e, n)) ==> n == LOG_ENTRY_DESCRIPTOR_LEN && decodes_log_entry(input@, e),
{
    if input.len() < LOG_ENTRY_DESCRIPTOR_LEN {
        return Err(DeserializeError::WrongBufferSize);
    }
    let last_log_start = u32_from_le_bytes(&input[0..4]);
    let next_log_start = u32_from_le_bytes(&input[4..8]);
    Ok((LogEntryDescriptor { last_log_start, next_log_start }, LOG_ENTRY_DESCRIPTOR_LEN))
}

/// Writes a message into `target` from `offset` on, field by field while
/// each field fits; returns the bytes written when all fit.
pub fn serialize_message_at(m: &Message, target: &mut [u8], offset: usize) -> (r: Result<
    usize,
    SerializeError,
>)
    requires
        offset <= old(target)@.len(),
    ensures
        r == (if old(target)@.len() - offset >= MESSAGE_LEN {
            Ok::<usize, SerializeError>(MESSAGE_LEN)
        } else {
            Err::<usize, SerializeError>(SerializeError::BufferTooSmall)
        }),
        final(target)@ == overwrite(
            old(target)@,
            offset as int,
            message_bytes(*m).subrange(0, message_fields_that_fit(old(target)@.len() - offset)),
        ),
        old(target)@.len() - offset >= MESSAGE_LEN ==> final(target)@ == overwrite(
            old(target)@,
            offset as int,
            message_bytes(*m),
        ),
{
    let ghost t0 = target@;
    let ghost full = message_bytes(*m);
    let avail = target.len() - offset;
    let v1 = u64_to_le_bytes(m.time_sec);
    let v2 = u64_to_le_bytes(m.time_milli);
    let v3 = u64_to_le_bytes(m.time_micro);
    assert(full.len() == 256);
    assert(full.subrange(0, 8) =~= v1@);
    assert(full.subrange(0, 16) =~= full.subrange(0, 8) + v2@);
    assert(full.subrange(0, 24) =~= full.subrange(0, 16) + v3@);
    assert(full.subrange(0, 256) =~= full.subrange(0, 24) + m.message@);
    assert(full.subrange(0, 256) =~= full);
    if avail < 8 {
        assert(overwrite(t0, offset as int, full.subrange(0, 0)) =~= t0);
        return Err(SerializeError::BufferTooSmall);
    }
    write_at(target, offset, v1.as_slice());
    if avail < 16 {
        return Err(SerializeError::BufferTooSmall);
    }
    write_at(target, offset + 8, v2.as_slice());
    proof {
        lemma_overwrite_extend(t0, offset as int, full.subrange(0, 8), v2@);
    }
    if avail < 24 {
        return Err(SerializeError::BufferTooSmall);
    }
    write_at(target, offset + 16, v3.as_slice());
    proof {
        lemma_overwrite_extend(t0, offset as int, full.subrange(0, 16), v3@);
    }
    if avail < MESSAGE_LEN {
        return Err(SerializeError::BufferTooSmall);
    }
    write_at(target, offset + 24, &m.message);
    proof {
        lemma_overwrite_extend(t0, offset as int, full.subrange(0, 24), m.message@);
    }
    Ok(MESSAGE_LEN)
}

/// Reads a message from `input` from `offset` on; on success also returns
/// the bytes read.
pub fn deserialize_message_at(input: &[u8], offset: usize) -> (r: Result<
    (Message, usize),
    DeserializeError,
>)
    requires
        offset <= input@.len(),
    ensures
        r is Ok <==> input@.len() - offset >= MESSAGE_LEN,
        r is Err ==> r == Err::<(Message, usize), DeserializeError>(
            DeserializeError::WrongBufferSize,
        ),
        r matches Ok((m, n)) ==> n == MESSAGE_LEN && decodes_message(
            input@.subrange(offset as int, input@.len() as int),
            m,
        ),
{
    if input.len() - offset < MESSAGE_LEN {
        return Err(DeserializeError::WrongBufferSize);
    }
    let time_sec = u64_from_le_bytes(&input[offset..offset + 8]);
    let time_milli = u64_from_le_bytes(&input[offset + 8..offset + 16]);
    let time_micro = u64_from_le_bytes(&input[offset + 16..offset + 24]);
    let mut message = [0u8; MESSAGE_SIZE_RAW];
    let il = input.len();
    let mut i: usize = 0;
    while i < MESSAGE_SIZE_RAW
        invariant
            i <= MESSAGE_SIZE_RAW,
            il == input@.len(),
            offset + MESSAGE_LEN <= input@.len(),
            forall|j: int| 0 <= j < i ==> message@[j] == input@[offset + 24 + j],
        decreases MESSAGE_SIZE_RAW - i,
    {
        message[i] = input[offset + 24 + i];
        i = i + 1;
    }
    let ghost s = input@.subrange(offset as int, input@.len() as int);
    assert(message@ =~= s.subrange(24, 256));
    assert(input@.subrange(offset as int, offset + 8) =~= s.subrange(0, 8));
    assert(input@.subrange(offset + 8, offset + 16) =~= s.subrange(8, 16));
    assert(input@.subrange(offset + 16, offset + 24) =~= s.subrange(16, 24));
    Ok((Message { time_sec, time_milli, time_micro, message }, MESSAGE_LEN))
}

/// A descriptor block reads back as the block that was written, whatever
/// bytes follow it; and bytes that read as a block are that block's encoding.
pub proof fn lemma_descriptor_block_roundtrip(d: DescriptorBlock, rest: Seq<u8>, s: Seq<u8>)
    ensures
        decodes_descriptor_block(descriptor_block_bytes(d) + rest, d),
        decodes_descriptor_block(s, d) ==> s.subrange(0, DESCRIPTOR_BLOCK_LEN as int)
            == descriptor_block_bytes(d),
{
    lemma_auto_spec_u32_to_from_le_bytes();
    let b = descriptor_block_bytes(d) + rest;
    assert(b.subrange(0, 8) =~= d.magic@);
    assert(b.subrange(8, 12) =~= spec_u32_to_le_bytes(d.current_trial_id));
    assert(b.subrange(12, 16) =~= spec_u32_to_le_bytes(d.first_free_block));
    assert(b.subrange(16, 20) =~= spec_u32_to_le_bytes(d.last_log_start));
    if decodes_descriptor_block(s, d) {
        assert(s.subrange(0, 20) =~= s.subrange(0, 8) + s.subrange(8, 12) + s.subrange(12, 16)
            + s.subrange(16, 20));
    }
}

/// Bytes read as a descriptor block determine it.
pub proof fn lemma_descriptor_block_decode_unique(
    s: Seq<u8>,
    d1: DescriptorBlock,
    d2: DescriptorBlock,
)
    requires
        decodes_descriptor_block(s, d1),
        decodes_descriptor_block(s, d2),
    ensures
        d1 == d2,
{
    assert(d1.magic =~= d2.magic);
}

/// A log entry descriptor reads back as the one that was written, whatever
/// bytes follow it; and bytes that read as an entry are that entry's encoding.
pub proof fn lemma_log_entry_roundtrip(e: LogEntryDescriptor, rest: Seq<u8>, s: Seq<u8>)
    ensures
        decodes_log_entry(log_entry_bytes(e) + rest, e),
        decodes_log_entry(s, e) ==> s.subrange(0, LOG_ENTRY_DESCRIPTOR_LEN as int)
            == log_entry_bytes(e),
{
    lemma_auto_spec_u32_to_from_le_bytes();
    let b = log_entry_bytes(e) + rest;
    assert(b.subrange(0, 4) =~= spec_u32_to_le_bytes(e.last_log_start));
    assert(b.subrange(4, 8) =~= spec_u32_to_le_bytes(e.next_log_start));
    if decodes_log_entry(s, e) {
        assert(s.subrange(0, 8) =~= s.subrange(0, 4) + s.subrange(4, 8));
    }
}

/// Bytes read as a log entry descriptor determine it.
pub proof fn lemma_log_entry_decode_unique(
    s: Seq<u8>,
    e1: LogEntryDescriptor,
    e2: LogEntryDescriptor,
)
    requires
        decodes_log_entry(s, e1),
        decodes_log_entry(s, e2),
    ensures
        e1 == e2,
{
}

/// A message reads back as the one that was written, whatever bytes follow
/// it; and bytes that read as a message are that message's encoding.
pub proof fn lemma_message_roundtrip(m: Message, rest: Seq<u8>, s: Seq<u8>)
    ensures
        decodes_message(message_bytes(m) + rest, m),
        decodes_message(s, m) ==> s.subrange(0, MESSAGE_LEN as int) == message_bytes(m),
{
    lemma_auto_spec_u64_to_from_le_bytes();
    let b = message_bytes(m) + rest;
    assert(b.subrange(0, 8) =~= spec_u64_to_le_bytes(m.time_sec));
    assert(b.subrange(8, 16) =~= spec_u64_to_le_bytes(m.time_milli));
    assert(b.subrange(16, 24) =~= spec_u64_to_le_bytes(m.time_micro));
    assert(b.subrange(24, 256) =~= m.message@);
    if decodes_message(s, m) {
        assert(s.subrange(0, 256) =~= s.subrange(0, 8) + s.subrange(8, 16) + s.subrange(16, 24)
            + s.subrange(24, 256));
    }
}

/// Bytes read as a message determine it.
pub proof fn lemma_message_decode_unique(s: Seq<u8>, m1: Message, m2: Message)
    requires
        decodes_message(s, m1),
        decodes_message(s, m2),
    ensures
        m1 == m2,
{
    assert(m1.message =~= m2.message);
}

/// A message text being filled; bytes past the end of the buffer are dropped.
pub struct LogBufWriter {
    pub ind: usize,
    pub buf: [u8; MESSAGE_SIZE_RAW],
}

impl View for LogBufWriter {
    type V = (Seq<u8>, int);

    /// The buffer's bytes and the index of the next byte to fill.
    open spec fn view(&self) -> (Seq<u8>, int) {
        (self.buf@, self.ind as int)
    }
}

/// How many of `len` bytes fit from index `ind` on.
pub open spec fn bytes_that_fit(ind: int, len: int) -> int {
    if ind >= MESSAGE_SIZE_RAW {
        0
    } else if len <= MESSAGE_SIZE_RAW - ind {
        len
    } else {
        MESSAGE_SIZE_RAW - ind
    }
}

/// A writer's state after the bytes `t` are written to it: the bytes that
/// fit are stored from the index on, and the index moves past them.
pub open spec fn after_write(w: (Seq<u8>, int), t: Seq<u8>) -> (Seq<u8>, int) {
    if w.1 >= MESSAGE_SIZE_RAW {
        w
    } else {
        let k = bytes_that_fit(w.1, t.len() as int);
        (overwrite(w.0, w.1, t.subrange(0, k)), w.1 + k)
    }
}

impl Default for LogBufWriter {
    fn default() -> (w: Self)
        ensures
            w@ == (zero_text(), 0int),
    {
        Self::new()
    }
}

impl LogBufWriter {
    /// An empty writer: zeroed text, index 0.
    pub fn new() -> (w: Self)
        ensures
            w@ == (zero_text(), 0int),
    {
        let w = LogBufWriter { ind: 0, buf: [0; MESSAGE_SIZE_RAW] };
        assert(w.buf@ =~= zero_text());
        w
    }

    /// Appends the UTF-8 bytes of `s`, dropping those that do not fit.
    pub fn write_str(&mut self, s: &str)
        ensures
            final(self)@ == after_write(old(self)@, s.spec_bytes()),
    {
        let bytes = s.as_bytes();
        let n = bytes.len();
        let ghost w0 = self@;
        let ghost k = bytes_that_fit(w0.1, n as int);
        proof {
            if w0.1 < MESSAGE_SIZE_RAW {
                assert(overwrite(w0.0, w0.1, bytes@.subrange(0, 0)) =~= w0.0);
            }
        }
        let mut j: usize = 0;
        while j < n
            invariant
                n == bytes@.len(),
                bytes@ == s.spec_bytes(),
                w0 == old(self)@,
                k == bytes_that_fit(w0.1, n as int),
                0 <= j <= n,
                j <= k ==> self@ == after_write(w0, bytes@.subrange(0, j as int)),
                j > k ==> self@ == after_write(w0, bytes@),
            decreases n - j,
        {
            if self.ind < MESSAGE_SIZE_RAW {
                let ghost before = self.buf@;
                self.buf[self.ind] = bytes[j];
                self.ind = self.ind + 1;
                assert(self.buf@ =~= overwrite(w0.0, w0.1, bytes@.subrange(0, j + 1))) by {
                    assert(before =~= overwrite(w0.0, w0.1, bytes@.subrange(0, j as int)));
                }
            }
            j = j + 1;
            proof {
                if j <= k {
                } else {
                    assert(bytes@.subrange(0, k) =~= bytes@.subrange(0, k));
                }
            }
        }
        assert(bytes@.subrange(0, n as int) =~= bytes@);
    }
}

/// Writing two pieces one after the other leaves the writer as writing
/// their concatenation once.
pub proof fn lemma_write_concat(w: (Seq<u8>, int), a: Seq<u8>, b: Seq<u8>)
    requires
        w.0.len() == MESSAGE_SIZE_RAW,
        0 <= w.1,
    ensures
        after_write(after_write(w, a), b) == after_write(w, a + b),
{
    if w.1 < MESSAGE_SIZE_RAW {
        let k1 = bytes_that_fit(w.1, a.len() as int);
        let w1 = after_write(w, a);
        let k2 = bytes_that_fit(w1.1, b.len() as int);
        let k = bytes_that_fit(w.1, (a + b).len() as int);
        if k1 < a.len() {
            assert(k == k1);
            assert((a + b).subrange(0, k) =~= a.subrange(0, k1));
        } else {
            assert(k == k1 + k2);
            assert((a + b).subrange(0, k) =~= a.subrange(0, k1) + b.subrange(0, k2));
            if w1.1 < MESSAGE_SIZE_RAW {
                assert(overwrite(w1.0, w1.1, b.subrange(0, k2)) =~= overwrite(
                    w.0,
                    w.1,
                    (a + b).subrange(0, k),
                ));
            } else {
                assert(k2 == 0);
                assert((a + b).subrange(0, k) =~= a.subrange(0, k1));
            }
        }
    }
}

/// The index never passes the end of the buffer by writing.
pub proof fn lemma_write_index_bound(w: (Seq<u8>, int), t: Seq<u8>)
    requires
        0 <= w.1 <= MESSAGE_SIZE_RAW,
    ensures
        w.1 <= after_write(w, t).1 <= MESSAGE_SIZE_RAW,
{
}

#[verifier::external_type_specification]
#[verifier::external_body]
pub struct ExFormatArguments<'a>(core::fmt::Arguments<'a>);

/// Calls `core::fmt::write`, which renders the formatting arguments and
/// appends the text to `text`; the error it returns when a formatting impl
/// fails is ignored, so it never panics. What was in `text` stays at its
/// start; nothing more is stated of the text appended: it is whatever the
/// `Display` and `Debug` impls named in the arguments write, and after a
/// failed impl only what was written before it.
#[verifier::external_body]
fn render_arguments(text: &mut String, args: core::fmt::Arguments)
    ensures
        final(text)@.len() >= old(text)@.len(),
        final(text)@.subrange(0, old(text)@.len() as int) == old(text)@,
{
    let _ = core::fmt::write(text, args);
}

/// Formats `args` into the writer, dropping the bytes that do not fit.
pub fn _to_msg_buf(writer: &mut LogBufWriter, args: core::fmt::Arguments)
    ensures
        exists|t: Seq<u8>| final(writer)@ == after_write(old(writer)@, t),
{
    let mut text = String::new();
    render_arguments(&mut text, args);
    writer.write_str(text.as_str());
}

} // verus!
