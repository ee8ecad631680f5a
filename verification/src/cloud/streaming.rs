//! The part buffer of a streaming S3 upload: written data is gathered in a
//! `bytes::BytesMut` and handed out as numbered parts once enough has come
//! together.
use vstd::prelude::*;
use bytes::{Bytes, BytesMut};
use crate::constants::MIB;
use crate::cloud::streaming_target::StreamingTarget;
use crate::text::{chars_of, string_of, append_str};

verus! {

/// A growable byte buffer of the `bytes` crate.
#[verifier::external_type_specification]
#[verifier::external_body]
pub struct ExBytesMut(BytesMut);

/// A shared, immutable byte buffer of the `bytes` crate.
#[verifier::external_type_specification]
#[verifier::external_body]
pub struct ExBytes(Bytes);

/// The bytes a `BytesMut` holds.
pub uninterp spec fn buffered(b: BytesMut) -> Seq<u8>;

/// The bytes a `Bytes` holds.
pub uninterp spec fn frozen(b: Bytes) -> Seq<u8>;

/// An empty buffer with room for `capacity` bytes.
///
/// Calls `BytesMut::with_capacity`, which holds no bytes.
#[verifier::external_body]
fn empty_buffer(capacity: usize) -> (b: BytesMut)
    ensures
        buffered(b) == Seq::<u8>::empty(),
{
    BytesMut::with_capacity(capacity)
}

/// Appends `data` to `b`.
///
/// Calls `BytesMut::extend_from_slice`, which grows the buffer where needed
/// (it panics only where the new length would not fit in memory, which the
/// `requires` leaves out) and appends the bytes.
#[verifier::external_body]
fn append_bytes(b: &mut BytesMut, data: &[u8])
    requires
        buffered(*old(b)).len() + data@.len() <= isize::MAX,
    ensures
        buffered(*final(b)) == buffered(*old(b)) + data@,
{
    b.extend_from_slice(data)
}

/// The number of bytes in `b`.
///
/// Calls `BytesMut::len`.
#[verifier::external_body]
fn buffer_len(b: &BytesMut) -> (n: usize)
    ensures
        n == buffered(*b).len(),
{
    b.len()
}

/// Takes every byte out of `b`.
///
/// Calls `BytesMut::split`, which hands out all the bytes and leaves `b` empty.
#[verifier::external_body]
fn take_buffer(b: &mut BytesMut) -> (taken: BytesMut)
    ensures
        buffered(taken) == buffered(*old(b)),
        buffered(*final(b)) == Seq::<u8>::empty(),
{
    b.split()
}

/// Makes `b` immutable.
///
/// Calls `BytesMut::freeze`, which keeps the bytes.
#[verifier::external_body]
fn freeze_buffer(b: BytesMut) -> (f: Bytes)
    ensures
        frozen(f) == buffered(b),
{
    b.freeze()
}

/// A new buffer holding the bytes of `part`.
///
/// Calls `BytesMut::from` on the bytes of `part`, which copies them.
#[verifier::external_body]
fn buffer_from(part: &Bytes) -> (b: BytesMut)
    ensures
        buffered(b) == frozen(*part),
{
    BytesMut::from(&part[..])
}

/// The buffer of a streaming upload: at least `buffer_size_mb` MiB, and
/// never under 5 MiB, the smallest part S3 accepts.
pub open spec fn stream_buffer_size(buffer_size_mb: nat) -> nat {
    ((if buffer_size_mb >= 5 { buffer_size_mb } else { 5 }) * MIB) as nat
}

/// The buffer size of a streaming upload, as `stream_buffer_size` says.
pub fn buffer_size_for(buffer_size_mb: usize) -> (r: usize)
    requires
        (if buffer_size_mb >= 5 { buffer_size_mb } else { 5 }) * MIB <= usize::MAX,
    ensures
        r == stream_buffer_size(buffer_size_mb as nat),
{
    let mb = if buffer_size_mb >= 5 { buffer_size_mb } else { 5 };
    mb * MIB
}

/// The delay before retrying a part after its attempt number `attempt`
/// failed: 250 ms doubled `attempt` times.
pub fn part_retry_delay_ms(attempt: u32) -> (r: u64)
    requires
        attempt < 56,
    ensures
        r == crate::cloud::retry::backoff(250, attempt as nat, u64::MAX as nat),
{
    crate::cloud::retry::backoff_delay_ms(250, attempt, u64::MAX)
}

/// The attempts at one part of a multipart upload are at most this many.
pub const PART_UPLOAD_ATTEMPTS: u32 = 3;

/// What an attempt to upload a part came to: S3 took it (with the entity
/// tag it answered, if any), or the request failed.
pub enum PartOutcome {
    Accepted(Option<String>),
    Failed,
}

/// What follows an attempt at a part: the part is done, with its record
/// for the completion request; it is tried again after `delay_ms`
/// milliseconds (0: at once); or the upload gives up, either because every
/// request failed or because no answer carried an entity tag.
pub enum PartStep {
    Done(CompletedPartRecord),
    RetryAfter(u64),
    GiveUpFailed,
    GiveUpNoTag,
}

/// A part that S3 took: its entity tag and number, as the completion
/// request lists them.
pub struct CompletedPartRecord {
    pub e_tag: Option<String>,
    pub part_number: Option<i64>,
}

/// The attempts made so far at the part numbered `part_number`.
pub struct PartAttempts {
    pub part_number: u64,
    pub attempts: u32,
}

/// The step after attempt number `attempts` (counted from 1) at part
/// `part_number` came to `outcome`.
pub open spec fn part_step(part_number: u64, attempts: u32, outcome: PartOutcome) -> PartStep {
    match outcome {
        PartOutcome::Accepted(Some(tag)) => PartStep::Done(
            CompletedPartRecord { e_tag: Some(tag), part_number: Some(part_number as i64) },
        ),
        PartOutcome::Accepted(None) => if attempts < PART_UPLOAD_ATTEMPTS {
            PartStep::RetryAfter(0)
        } else {
            PartStep::GiveUpNoTag
        },
        PartOutcome::Failed => if attempts >= PART_UPLOAD_ATTEMPTS {
            PartStep::GiveUpFailed
        } else {
            PartStep::RetryAfter(
                crate::cloud::retry::backoff(250, attempts as nat, u64::MAX as nat) as u64,
            )
        },
    }
}

impl PartAttempts {
    /// No attempt made yet at part `part_number`.
    pub fn new(part_number: u64) -> (p: Self)
        ensures
            p.part_number == part_number,
            p.attempts == 0,
    {
        PartAttempts { part_number, attempts: 0 }
    }

    /// Whether another attempt is made: fewer than `PART_UPLOAD_ATTEMPTS`
    /// were made so far.  The caller then counts it with `start_attempt`.
    pub fn may_attempt(&self) -> (r: bool)
        ensures
            r == (self.attempts < PART_UPLOAD_ATTEMPTS),
    {
        self.attempts < PART_UPLOAD_ATTEMPTS
    }

    /// Counts an attempt that is about to be made.
    pub fn start_attempt(&mut self)
        requires
            old(self).attempts < PART_UPLOAD_ATTEMPTS,
        ensures
            final(self).attempts == old(self).attempts + 1,
            final(self).part_number == old(self).part_number,
    {
        self.attempts = self.attempts + 1;
    }

    /// The step after the latest attempt came to `outcome`, as `part_step`
    /// says; a part number beyond `i64` is recorded wrapped, as a cast does.
    pub fn after_attempt(&self, outcome: PartOutcome) -> (step: PartStep)
        requires
            1 <= self.attempts <= PART_UPLOAD_ATTEMPTS,
        ensures
            step == part_step(self.part_number, self.attempts, outcome),
    {
        match outcome {
            PartOutcome::Accepted(Some(tag)) => PartStep::Done(
                CompletedPartRecord { e_tag: Some(tag), part_number: Some(self.part_number as i64) },
            ),
            PartOutcome::Accepted(None) => if self.attempts < PART_UPLOAD_ATTEMPTS {
                PartStep::RetryAfter(0)
            } else {
                PartStep::GiveUpNoTag
            },
            PartOutcome::Failed => if self.attempts >= PART_UPLOAD_ATTEMPTS {
                PartStep::GiveUpFailed
            } else {
                PartStep::RetryAfter(part_retry_delay_ms(self.attempts))
            },
        }
    }
}

/// The number by which completed parts are ordered: the part number, or 0
/// where there is none.
pub open spec fn part_key(p: CompletedPartRecord) -> int {
    match p.part_number {
        Some(n) => n as int,
        None => 0,
    }
}

/// Whether `parts` are in order of their numbers.
pub open spec fn parts_in_order(parts: Seq<CompletedPartRecord>) -> bool {
    forall|i: int, j: int| 0 <= i < j < parts.len() ==> part_key(parts[i]) <= part_key(parts[j])
}

/// The number of a completed part, as `part_key` says.
fn part_key_exec(p: &CompletedPartRecord) -> (k: i64)
    ensures
        k == part_key(*p),
{
    match p.part_number {
        Some(n) => n,
        None => 0,
    }
}

/// Whether a completed part has the number `k` (0 standing for none).
pub open spec fn numbered(k: int) -> spec_fn(CompletedPartRecord) -> bool {
    |p: CompletedPartRecord| part_key(p) == k
}

/// Inserting `x` at `pos`, where every part before `pos` has a smaller
/// number, puts `x` first among the parts of its number.
proof fn lemma_insert_keeps_number_order(s: Seq<CompletedPartRecord>, pos: int, x: CompletedPartRecord, k: int)
    requires
        0 <= pos <= s.len(),
        forall|i: int| 0 <= i < pos ==> part_key(s[i]) < part_key(x),
    ensures
        s.insert(pos, x).filter(numbered(k)) == seq![x].filter(numbered(k)) + s.filter(numbered(k)),
{
    let f = numbered(k);
    let a = s.subrange(0, pos);
    let b = s.subrange(pos, s.len() as int);
    assert(s.insert(pos, x) =~= a + seq![x] + b);
    assert(s =~= a + b);
    Seq::filter_distributes_over_add(a + seq![x], b, f);
    Seq::filter_distributes_over_add(a, seq![x], f);
    Seq::filter_distributes_over_add(a, b, f);
    reveal_with_fuel(Seq::filter, 2);
    assert(seq![x].drop_last() =~= Seq::<CompletedPartRecord>::empty());
    if f(x) {
        assert(a.all(|y: CompletedPartRecord| !f(y))) by {
            assert forall|i: int| 0 <= i < a.len() implies !f(a[i]) by {
                assert(a[i] == s[i]);
            }
        }
        a.lemma_all_neg_filter_empty(f);
        assert(a.filter(f) =~= Seq::<CompletedPartRecord>::empty());
    } else {
        assert(seq![x].filter(f) =~= Seq::<CompletedPartRecord>::empty());
    }
}

/// The completed parts in order of their numbers, as the completion request
/// lists them: the same parts, each as often as before, and parts of one
/// number in the order they had.
pub fn sort_completed_parts(parts: Vec<CompletedPartRecord>) -> (sorted: Vec<CompletedPartRecord>)
    ensures
        sorted@.to_multiset() == parts@.to_multiset(),
        parts_in_order(sorted@),
        forall|k: int| #[trigger] sorted@.filter(numbered(k)) == parts@.filter(numbered(k)),
{
    broadcast use vstd::seq_lib::group_to_multiset_ensures;

    let ghost all = parts@;
    let mut rest = parts;
    let mut out: Vec<CompletedPartRecord> = Vec::new();
    assert(all.subrange(all.len() as int, all.len() as int) =~= out@);
    while rest.len() > 0
        invariant
            rest@.to_multiset().add(out@.to_multiset()) == all.to_multiset(),
            parts_in_order(out@),
            rest@.len() <= all.len(),
            rest@ == all.subrange(0, rest@.len() as int),
            forall|k: int| #[trigger] out@.filter(numbered(k)) == all.subrange(rest@.len() as int, all.len() as int).filter(
                numbered(k),
            ),
        decreases rest.len(),
    {
        let ghost before = rest@;
        let x = rest.pop().unwrap();
        proof {
            assert(before =~= rest@.push(x));
            assert(rest@ =~= all.subrange(0, rest@.len() as int));
        }
        let k = part_key_exec(&x);
        let mut pos: usize = 0;
        while pos < out.len() && part_key_exec(&out[pos]) < k
            invariant
                pos <= out@.len(),
                forall|i: int| 0 <= i < pos ==> part_key(out@[i]) < k,
            decreases out.len() - pos,
        {
            pos += 1;
        }
        let ghost old_out = out@;
        out.insert(pos, x);
        proof {
            assert(out@ == old_out.insert(pos as int, x));
            vstd::seq_lib::to_multiset_build(rest@, x);
            vstd::seq_lib::to_multiset_insert(old_out, pos as int, x);
            assert(before.to_multiset() == rest@.to_multiset().insert(x));
            assert(out@.to_multiset() == old_out.to_multiset().insert(x));
            assert(rest@.to_multiset().add(out@.to_multiset()) =~= before.to_multiset().add(old_out.to_multiset()));
            let r = rest@.len() as int;
            assert(all[r] == x);
            assert(all.subrange(r, all.len() as int) =~= seq![x] + all.subrange(r + 1, all.len() as int));
            assert forall|k: int| #[trigger] out@.filter(numbered(k)) == all.subrange(r, all.len() as int).filter(
                numbered(k),
            ) by {
                lemma_insert_keeps_number_order(old_out, pos as int, x, k);
                Seq::filter_distributes_over_add(seq![x], all.subrange(r + 1, all.len() as int), numbered(k));
            }
            assert forall|i: int, j: int| 0 <= i < j < out@.len() implies part_key(out@[i]) <= part_key(out@[j]) by {
                if j < pos {
                } else if j == pos {
                } else if i < pos {
                    assert(out@[j] == old_out[j - 1]);
                    if pos < old_out.len() {
                        assert(part_key(old_out[pos as int]) >= k);
                    }
                } else if i == pos {
                    assert(part_key(old_out[pos as int]) >= k);
                    assert(out@[j] == old_out[j - 1]);
                } else {
                    assert(out@[j] == old_out[j - 1]);
                    assert(out@[i] == old_out[i - 1]);
                }
            }
        }
    }
    assert(rest@.to_multiset() =~= vstd::multiset::Multiset::<CompletedPartRecord>::empty());
    assert(all.subrange(0, all.len() as int) =~= all);
    out
}

/// The name of a streaming S3 target: `s3://bucket/key`.
pub open spec fn s3_target_name(bucket: Seq<char>, key: Seq<char>) -> Seq<char> {
    "s3://"@ + bucket + seq!['/'] + key
}

/// The name of a streaming SFTP target: `sftp://` and the remote path.
pub open spec fn sftp_target_name(remote_path: Seq<char>) -> Seq<char> {
    "sftp://"@ + remote_path
}

/// The buffer of a streaming SFTP upload: `buffer_size_mb` MiB, at least 1 MiB.
pub open spec fn sftp_buffer_size(buffer_size_mb: nat) -> nat {
    ((if buffer_size_mb >= 1 { buffer_size_mb } else { 1 }) * MIB) as nat
}

/// What one write does to the bytes of a part buffer: where the buffered
/// bytes `pending` and `data` together reach `threshold`, they go out as one
/// part and nothing stays buffered; otherwise all of them stay buffered.
pub open spec fn buffer_write(pending: Seq<u8>, threshold: nat, data: Seq<u8>) -> (Option<Seq<u8>>, Seq<u8>) {
    if pending.len() + data.len() >= threshold {
        (Some(pending + data), Seq::empty())
    } else {
        (None, pending + data)
    }
}

/// The parts that the writes `writes`, one after the other, hand out from a
/// buffer that holds `pending`, and what stays buffered after the last one.
pub open spec fn stream_parts(pending: Seq<u8>, threshold: nat, writes: Seq<Seq<u8>>) -> (Seq<Seq<u8>>, Seq<u8>)
    decreases writes.len(),
{
    if writes.len() == 0 {
        (Seq::empty(), pending)
    } else {
        let (part, kept) = buffer_write(pending, threshold, writes[0]);
        let (later, last) = stream_parts(kept, threshold, writes.drop_first());
        match part {
            Some(p) => (seq![p] + later, last),
            None => (later, last),
        }
    }
}

/// The parts that the writes `writes` hand out, each with the number it is
/// handed out under, from a buffer that holds `pending` and whose next part
/// number is `next`: each write that hands out a part takes the next number.
pub open spec fn numbered_parts(pending: Seq<u8>, threshold: nat, next: int, writes: Seq<Seq<u8>>) -> Seq<(int, Seq<u8>)>
    decreases writes.len(),
{
    if writes.len() == 0 {
        Seq::empty()
    } else {
        let (part, kept) = buffer_write(pending, threshold, writes[0]);
        match part {
            Some(p) => seq![(next, p)] + numbered_parts(kept, threshold, next + 1, writes.drop_first()),
            None => numbered_parts(kept, threshold, next, writes.drop_first()),
        }
    }
}

/// The buffered side of a streaming upload: the bytes not yet sent, the
/// number of the next part and the bytes the target has accepted.
pub struct PartBuffer {
    name: String,
    buffer: BytesMut,
    min_part_size: usize,
    next_part_number: u64,
    bytes_uploaded: u64,
}

impl PartBuffer {
    /// The bytes not yet handed out as a part.
    pub closed spec fn pending(&self) -> Seq<u8> {
        buffered(self.buffer)
    }

    /// The number the next part gets.
    pub closed spec fn next_part(&self) -> nat {
        self.next_part_number as nat
    }

    /// The size at which the buffered bytes are handed out as a part.
    pub closed spec fn threshold(&self) -> nat {
        self.min_part_size as nat
    }

    /// The bytes S3 has accepted.
    pub closed spec fn accepted(&self) -> nat {
        self.bytes_uploaded as nat
    }

    /// The name of the upload target.
    pub closed spec fn target(&self) -> Seq<char> {
        self.name@
    }

    /// A buffer for the object `key` of `bucket` that gathers
    /// `stream_buffer_size(buffer_size_mb)` bytes (the buffer size, at least
    /// 5 MiB, the smallest part S3 accepts) before it hands out a part:
    /// nothing buffered, parts numbered from 1, nothing accepted yet.
    pub fn new(bucket: &str, key: &str, buffer_size_mb: usize) -> (p: Self)
        requires
            (if buffer_size_mb >= 5 { buffer_size_mb } else { 5 }) * MIB <= usize::MAX,
        ensures
            p.pending() == Seq::<u8>::empty(),
            p.next_part() == 1,
            p.threshold() == stream_buffer_size(buffer_size_mb as nat),
            p.accepted() == 0,
            p.target() == s3_target_name(bucket@, key@),
    {
        let capacity = buffer_size_for(buffer_size_mb);
        let mut v = chars_of("s3://");
        append_str(&mut v, bucket);
        v.push('/');
        append_str(&mut v, key);
        assert(v@ =~= s3_target_name(bucket@, key@));
        PartBuffer {
            name: string_of(&v),
            buffer: empty_buffer(capacity),
            min_part_size: capacity,
            next_part_number: 1,
            bytes_uploaded: 0,
        }
    }

    /// A buffer for the remote file `remote_path` of an SFTP upload: nothing
    /// buffered, data handed out once `sftp_buffer_size(buffer_size_mb)`
    /// bytes have come together, chunks numbered from 1, nothing accepted yet.
    pub fn for_sftp(remote_path: &str, buffer_size_mb: usize) -> (p: Self)
        requires
            (if buffer_size_mb >= 1 { buffer_size_mb } else { 1 }) * MIB <= usize::MAX,
        ensures
            p.pending() == Seq::<u8>::empty(),
            p.next_part() == 1,
            p.threshold() == sftp_buffer_size(buffer_size_mb as nat),
            p.accepted() == 0,
            p.target() == sftp_target_name(remote_path@),
    {
        let mb = if buffer_size_mb >= 1 { buffer_size_mb } else { 1 };
        let size = mb * MIB;
        let mut v = chars_of("sftp://");
        append_str(&mut v, remote_path);
        PartBuffer {
            name: string_of(&v),
            buffer: empty_buffer(size),
            min_part_size: size,
            next_part_number: 1,
            bytes_uploaded: 0,
        }
    }

    /// Takes `data` in.  Once the buffered bytes reach the part size they are
    /// all handed out, with the next part number, and the buffer is empty
    /// again; otherwise they stay buffered.  No byte is lost or reordered:
    /// the part and what stays buffered are what was buffered followed by `data`.
    pub fn write(&mut self, data: &[u8]) -> (part: Option<(u64, Bytes)>)
        requires
            old(self).pending().len() + data@.len() <= isize::MAX,
            old(self).next_part() < u64::MAX,
        ensures
            final(self).threshold() == old(self).threshold(),
            final(self).accepted() == old(self).accepted(),
            final(self).target() == old(self).target(),
            buffer_write(old(self).pending(), old(self).threshold(), data@) == (
                match part {
                    Some((_, bytes)) => Some(frozen(bytes)),
                    None => None::<Seq<u8>>,
                },
                final(self).pending(),
            ),
            match part {
                Some((n, bytes)) => {
                    &&& old(self).pending().len() + data@.len() >= old(self).threshold()
                    &&& n == old(self).next_part()
                    &&& final(self).next_part() == old(self).next_part() + 1
                    &&& frozen(bytes) == old(self).pending() + data@
                    &&& final(self).pending() == Seq::<u8>::empty()
                },
                None => {
                    &&& old(self).pending().len() + data@.len() < old(self).threshold()
                    &&& final(self).next_part() == old(self).next_part()
                    &&& final(self).pending() == old(self).pending() + data@
                },
            },
    {
        append_bytes(&mut self.buffer, data);
        if buffer_len(&self.buffer) >= self.min_part_size {
            let number = self.next_part_number;
            self.next_part_number = number + 1;
            let taken = take_buffer(&mut self.buffer);
            Some((number, freeze_buffer(taken)))
        } else {
            None
        }
    }

    /// Hands out what is still buffered as the last part, if anything is.
    pub fn finish(&mut self) -> (part: Option<(u64, Bytes)>)
        requires
            old(self).next_part() < u64::MAX,
        ensures
            final(self).threshold() == old(self).threshold(),
            final(self).accepted() == old(self).accepted(),
            final(self).target() == old(self).target(),
            final(self).pending() == Seq::<u8>::empty(),
            match part {
                Some((n, bytes)) => {
                    &&& old(self).pending().len() > 0
                    &&& n == old(self).next_part()
                    &&& final(self).next_part() == old(self).next_part() + 1
                    &&& frozen(bytes) == old(self).pending()
                },
                None => {
                    &&& old(self).pending().len() == 0
                    &&& final(self).next_part() == old(self).next_part()
                },
            },
    {
        if buffer_len(&self.buffer) > 0 {
            let number = self.next_part_number;
            self.next_part_number = number + 1;
            let taken = take_buffer(&mut self.buffer);
            Some((number, freeze_buffer(taken)))
        } else {
            None
        }
    }

    /// Puts a part that could not be sent back into the buffer, in place of
    /// what it holds; its part number stays used.
    pub fn put_back(&mut self, part: &Bytes)
        ensures
            final(self).pending() == frozen(*part),
            final(self).next_part() == old(self).next_part(),
            final(self).threshold() == old(self).threshold(),
            final(self).accepted() == old(self).accepted(),
            final(self).target() == old(self).target(),
    {
        self.buffer = buffer_from(part);
    }

    /// Counts a part of `size` bytes that S3 accepted (wrapping around as an
    /// atomic counter does).
    pub fn part_accepted(&mut self, size: u64)
        ensures
            final(self).accepted() == (old(self).accepted() + size) % 0x1_0000_0000_0000_0000,
            final(self).pending() == old(self).pending(),
            final(self).next_part() == old(self).next_part(),
            final(self).threshold() == old(self).threshold(),
            final(self).target() == old(self).target(),
    {
        self.bytes_uploaded = self.bytes_uploaded.wrapping_add(size);
    }
}

impl StreamingTarget for PartBuffer {
    open spec fn name_of(&self) -> Seq<char> {
        self.target()
    }

    open spec fn uploaded_of(&self) -> nat {
        self.accepted()
    }

    fn target_name(&self) -> (r: String) {
        self.name.clone()
    }

    fn bytes_uploaded(&self) -> (r: u64) {
        self.bytes_uploaded
    }
}

} // verus!
