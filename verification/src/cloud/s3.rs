//! S3 uploads: object keys, the split of a large file into parts, and the
//! batches in which the parts are sent.
use vstd::prelude::*;
use crate::constants::{S3_UPLOAD_CHUNK_SIZE, LARGE_FILE_THRESHOLD};
use crate::cloud::sftp::{chunks_for, lemma_ceil_div};
use crate::text::{chars_of, string_of, append_str};
use crate::config::collection_config::opt_view;
use crate::cloud::streaming::{CompletedPartRecord, PartAttempts, PartOutcome, PartStep, PART_UPLOAD_ATTEMPTS};

verus! {

/// The key of an uploaded file: the prefix, `/` and the file name.
pub open spec fn object_key(prefix: Seq<char>, filename: Seq<char>) -> Seq<char> {
    prefix + seq!['/'] + filename
}

/// The key under which a file named `filename` is uploaded, as `object_key` says.
pub fn s3_object_key(prefix: &str, filename: &str) -> (r: String)
    ensures
        r@ == object_key(prefix@, filename@),
{
    let mut v = chars_of(prefix);
    v.push('/');
    append_str(&mut v, filename);
    string_of(&v)
}

/// Whether a file of `file_size` bytes is uploaded in parts: above 50 MiB.
pub fn is_multipart_upload(file_size: u64) -> (r: bool)
    ensures
        r == (file_size > LARGE_FILE_THRESHOLD),
{
    file_size > LARGE_FILE_THRESHOLD
}

/// The number of parts a file of `file_size` bytes is uploaded in: 8 MiB
/// each, the last one shorter.
pub fn part_count(file_size: u64) -> (r: u64)
    requires
        file_size + S3_UPLOAD_CHUNK_SIZE <= u64::MAX,
    ensures
        r == chunks_for(file_size as nat, S3_UPLOAD_CHUNK_SIZE as nat),
{
    let chunk = S3_UPLOAD_CHUNK_SIZE as u64;
    proof {
        lemma_ceil_div(file_size as int, chunk as int);
    }
    (file_size + chunk - 1) / chunk
}

/// The first byte of part `part_number` (counted from 1).
pub open spec fn part_start(part_number: nat) -> nat {
    ((part_number - 1) * S3_UPLOAD_CHUNK_SIZE) as nat
}

/// The byte after part `part_number` of a file of `file_size` bytes.
pub open spec fn part_end(part_number: nat, file_size: nat) -> nat {
    if part_number * S3_UPLOAD_CHUNK_SIZE <= file_size {
        (part_number * S3_UPLOAD_CHUNK_SIZE) as nat
    } else {
        file_size
    }
}

/// The byte range of part `part_number` of a file of `file_size` bytes:
/// its first byte and the byte after it.
pub fn part_range(part_number: u64, file_size: u64) -> (r: (u64, u64))
    requires
        1 <= part_number,
        part_number * S3_UPLOAD_CHUNK_SIZE <= u64::MAX,
    ensures
        r.0 == part_start(part_number as nat),
        r.1 == part_end(part_number as nat, file_size as nat),
{
    let chunk = S3_UPLOAD_CHUNK_SIZE as u64;
    let start = (part_number - 1) * chunk;
    let end = part_number * chunk;
    let end = if end <= file_size { end } else { file_size };
    (start, end)
}

/// The parts of a multipart upload cover the file exactly: part 1 begins at
/// byte 0, each part ends where the next begins, the last part ends at the
/// end of the file, and every part holds between 1 and 8 MiB.
pub proof fn lemma_parts_cover_file(file_size: nat)
    requires
        file_size > 0,
    ensures
        part_start(1) == 0,
        part_end(chunks_for(file_size, S3_UPLOAD_CHUNK_SIZE as nat), file_size) == file_size,
        forall|k: nat|
            1 <= k < chunks_for(file_size, S3_UPLOAD_CHUNK_SIZE as nat) ==> #[trigger] part_end(k, file_size)
                == part_start(k + 1),
        forall|k: nat|
            1 <= k <= chunks_for(file_size, S3_UPLOAD_CHUNK_SIZE as nat) ==> part_start(k) < #[trigger] part_end(
                k,
                file_size,
            ) && part_end(k, file_size) - part_start(k) <= S3_UPLOAD_CHUNK_SIZE,
{
    let c = S3_UPLOAD_CHUNK_SIZE as int;
    let n = chunks_for(file_size, c as nat) as int;
    let q = file_size as int / c;
    let m = file_size as int % c;
    assert(file_size == q * c + m && 0 <= m < c) by (nonlinear_arith)
        requires
            q == file_size as int / c,
            m == file_size as int % c,
            c > 0,
    ;
    assert(n * c >= file_size && (n - 1) * c < file_size) by (nonlinear_arith)
        requires
            file_size == q * c + m,
            0 <= m < c,
            n == (if m == 0 { q } else { q + 1 }),
            file_size > 0,
            c > 0,
    ;
    assert forall|k: nat| 1 <= k < n implies #[trigger] part_end(k, file_size) == part_start(k + 1) by {
        assert(k * c <= (n - 1) * c) by (nonlinear_arith)
            requires
                k <= n - 1,
                c > 0,
        ;
        assert(((k + 1) - 1) * c == k * c);
    }
    assert forall|k: nat| 1 <= k <= n implies part_start(k) < #[trigger] part_end(k, file_size) && part_end(
        k,
        file_size,
    ) - part_start(k) <= c by {
        assert((k - 1) * c <= (n - 1) * c) by (nonlinear_arith)
            requires
                k <= n,
                c > 0,
        ;
        assert(k * c == (k - 1) * c + c) by (nonlinear_arith);
    }
}

/// The batches in which `num_parts` parts are sent, at most `limit` at a
/// time: part numbers from 1 on, each batch given by its first and last part.
pub open spec fn batches(num_parts: nat, limit: nat, first: nat) -> Seq<(u64, u64)>
    decreases num_parts + limit - first,
{
    if first > num_parts || limit == 0 {
        Seq::empty()
    } else {
        let last: nat = if first + limit - 1 <= num_parts { (first + limit - 1) as nat } else { num_parts };
        seq![(first as u64, last as u64)] + batches(num_parts, limit, first + limit)
    }
}

/// The batches in which `num_parts` parts are sent, at most `limit` at a time.
pub fn part_batches(num_parts: u64, limit: u64) -> (r: Vec<(u64, u64)>)
    requires
        limit >= 1,
        num_parts + limit <= u64::MAX,
    ensures
        r@ == batches(num_parts as nat, limit as nat, 1),
{
    let mut r: Vec<(u64, u64)> = Vec::new();
    let mut first: u64 = 1;
    while first <= num_parts
        invariant
            limit >= 1,
            num_parts + limit <= u64::MAX,
            1 <= first <= num_parts + limit,
            r@ + batches(num_parts as nat, limit as nat, first as nat) == batches(num_parts as nat, limit as nat, 1),
        decreases num_parts + limit - first,
    {
        let last = if first + limit - 1 <= num_parts { first + limit - 1 } else { num_parts };
        let ghost before = r@;
        r.push((first, last));
        assert(r@ + batches(num_parts as nat, limit as nat, (first + limit) as nat) =~= before + batches(
            num_parts as nat,
            limit as nat,
            first as nat,
        ));
        first = first + limit;
    }
    assert(r@ + batches(num_parts as nat, limit as nat, first as nat) =~= r@);
    r
}

/// The step after attempt number `attempts` (counted from 1) at part
/// `part_number` of a file upload came to `outcome`: an answer with an
/// entity tag finishes the part, an answer without one fails the upload at
/// once, and a failed request is tried again after 250 ms doubled
/// `attempts` times, until the attempts are used up.
pub open spec fn file_part_step(part_number: u64, attempts: u32, outcome: PartOutcome) -> PartStep {
    match outcome {
        PartOutcome::Accepted(Some(tag)) => PartStep::Done(
            CompletedPartRecord { e_tag: Some(tag), part_number: Some(part_number as i64) },
        ),
        PartOutcome::Accepted(None) => PartStep::GiveUpNoTag,
        PartOutcome::Failed => if attempts >= PART_UPLOAD_ATTEMPTS {
            PartStep::GiveUpFailed
        } else {
            PartStep::RetryAfter(crate::cloud::retry::backoff(250, attempts as nat, u64::MAX as nat) as u64)
        },
    }
}

/// The step after the latest attempt at a part of a file upload came to
/// `outcome`, as `file_part_step` says.
pub fn file_part_step_after(attempts: &PartAttempts, outcome: PartOutcome) -> (step: PartStep)
    requires
        1 <= attempts.attempts <= PART_UPLOAD_ATTEMPTS,
    ensures
        step == file_part_step(attempts.part_number, attempts.attempts, outcome),
{
    match outcome {
        PartOutcome::Accepted(Some(tag)) => PartStep::Done(
            CompletedPartRecord { e_tag: Some(tag), part_number: Some(attempts.part_number as i64) },
        ),
        PartOutcome::Accepted(None) => PartStep::GiveUpNoTag,
        PartOutcome::Failed => if attempts.attempts >= PART_UPLOAD_ATTEMPTS {
            PartStep::GiveUpFailed
        } else {
            PartStep::RetryAfter(crate::cloud::retry::backoff_delay_ms(250, attempts.attempts, u64::MAX))
        },
    }
}

/// The canonical name of the AWS region that `name` names, if it names one.
pub uninterp spec fn named_region(name: Seq<char>) -> Option<Seq<char>>;

/// Parses `name` with `rusoto_core::Region`'s `FromStr` and gives the
/// parsed region's `name()`, or `None` where parsing fails.
///
/// The crate lower-cases `name` and looks it up in a fixed table of region
/// names; the contract names the result as a function of `name` alone.
#[verifier::external_body]
fn parse_region_name(name: &str) -> (r: Option<String>)
    ensures
        opt_view(r) == named_region(name@),
{
    match name.parse::<rusoto_core::Region>() {
        Ok(region) => Some(region.name().to_string()),
        Err(_) => None,
    }
}

/// The region an S3 upload is made in: one named by its canonical name,
/// the environment's default because the given name names no region, or
/// the environment's default because no name was given.
#[derive(Debug, Clone, PartialEq, Eq)]
pub enum RegionChoice {
    Named(String),
    DefaultAfterInvalid,
    Default,
}

/// The region chosen for a given name, from what parsing it gave: the
/// parsed region where there is one, else the default after an invalid name.
pub fn region_choice(parsed: Option<String>) -> (r: RegionChoice)
    ensures
        match parsed {
            Some(t) => r == RegionChoice::Named(t),
            None => r == RegionChoice::DefaultAfterInvalid,
        },
{
    match parsed {
        Some(t) => RegionChoice::Named(t),
        None => RegionChoice::DefaultAfterInvalid,
    }
}

/// The region of an upload given an optional region name: the default
/// where none is given; the named region where the name parses; otherwise
/// the default after an invalid name.
pub fn choose_region(region_name: Option<&str>) -> (r: RegionChoice)
    ensures
        region_name is None ==> r == RegionChoice::Default,
        region_name matches Some(n) ==> match named_region(n@) {
            Some(s) => r matches RegionChoice::Named(t) && t@ == s,
            None => r == RegionChoice::DefaultAfterInvalid,
        },
{
    match region_name {
        None => RegionChoice::Default,
        Some(n) => region_choice(parse_region_name(n)),
    }
}

/// The records of a batch of parts that all succeeded, in order.
pub open spec fn batch_records(batch: Seq<Option<CompletedPartRecord>>) -> Seq<CompletedPartRecord> {
    batch.map_values(|b: Option<CompletedPartRecord>| b->0)
}

/// Takes in the outcomes of one batch of part uploads, in part order
/// (`None` for a part that failed). Where every part succeeded, their
/// records are added to `records` in order and the upload goes on (`None`);
/// otherwise the upload is aborted at the first failed part, whose position
/// is returned, after the records of the parts before it.
pub fn take_batch(records: &mut Vec<CompletedPartRecord>, batch: Vec<Option<CompletedPartRecord>>) -> (abort_at: Option<usize>)
    ensures
        abort_at is None <==> forall|k: int| 0 <= k < batch@.len() ==> (#[trigger] batch@[k]) is Some,
        abort_at is None ==> final(records)@ == old(records)@ + batch_records(batch@),
        abort_at matches Some(k) ==> {
            &&& k < batch@.len()
            &&& batch@[k as int] is None
            &&& forall|j: int| 0 <= j < k ==> (#[trigger] batch@[j]) is Some
            &&& final(records)@ == old(records)@ + batch_records(batch@.take(k as int))
        },
{
    let ghost all = batch@;
    let n = batch.len();
    let mut rest = batch;
    let mut i: usize = 0;
    let mut failed: bool = false;
    while !failed && rest.len() > 0
        invariant
            all.len() == n,
            i <= n,
            !failed ==> i + rest@.len() == n && rest@ == all.subrange(i as int, n as int),
            failed ==> i < n && all[i as int] is None,
            forall|j: int| 0 <= j < i ==> (#[trigger] all[j]) is Some,
            records@ == old(records)@ + batch_records(all.take(i as int)),
        decreases rest.len(),
    {
        let item = rest.remove(0);
        assert(item == all[i as int]);
        match item {
            Some(r) => {
                records.push(r);
                proof {
                    assert(batch_records(all.take(i + 1)) =~= batch_records(all.take(i as int)).push(all[i as int]->0));
                }
                i += 1;
                assert(rest@ =~= all.subrange(i as int, n as int));
            },
            None => {
                failed = true;
            },
        }
    }
    if failed {
        return Some(i);
    }
    assert(all.take(n as int) =~= all);
    None
}

} // verus!
