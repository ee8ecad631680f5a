//! What the collector learns of the machine it runs on, and the concurrency
//! it allows itself there.
use vstd::prelude::*;

verus! {

/// The number of logical CPUs available to this process.
///
/// Calls `num_cpus::get`, whose documentation promises at least 1; the
/// number depends on the machine, its scheduling affinity and its cgroups,
/// so nothing more is claimed.
#[verifier::external_body]
pub(crate) fn cpu_count() -> (n: usize)
    ensures
        n >= 1,
{
    num_cpus::get()
}

/// How many artifacts are collected at once on a machine with `cpus` CPUs:
/// two per CPU, at most 32.
pub fn collection_concurrency_for(cpus: usize) -> (r: usize)
    ensures
        r == (if 2 * cpus <= 32 { 2 * cpus } else { 32 }),
{
    if cpus <= 16 {
        cpus * 2
    } else {
        32
    }
}

/// How many artifacts are collected at once on this machine.
pub fn collection_concurrency() -> (r: usize)
    ensures
        2 <= r <= 32,
{
    collection_concurrency_for(cpu_count())
}

/// How many parts of one S3 upload are sent at once on a machine with
/// `cpus` CPUs: one per CPU, at most 4.
pub fn upload_concurrency_for(cpus: usize) -> (r: usize)
    ensures
        r == (if cpus <= 4 { cpus } else { 4 }),
{
    if cpus <= 4 {
        cpus
    } else {
        4
    }
}

/// How many parts of one S3 upload are sent at once on this machine.
pub fn upload_concurrency() -> (r: usize)
    ensures
        1 <= r <= 4,
{
    upload_concurrency_for(cpu_count())
}

} // verus!
