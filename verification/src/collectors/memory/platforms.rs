//! The memory sources of each platform: whether one is available, how a
//! Linux process's regions are read from its memory map, and how a large
//! region is read in chunks.
use vstd::prelude::*;
use crate::constants::{MEMORY_CHUNK_SIZE, LARGE_REGION_SIZE, MAX_CHUNK_FAILURES};
use crate::collectors::memory::models::{MemoryProtection, MemoryRegionInfo, MemoryRegionType};
use crate::collectors::memory::maps::{parse_memory_maps, maps_regions, lines_of, region_fields};
use crate::config::collection_config::opt_view;

verus! {

/// The message of a memory source that this build does not include.
pub open spec fn not_enabled_message() -> Seq<char> {
    "Memory collection is not enabled. Recompile with the 'memory_collection' feature."@
}

/// The collector over the MemProcFS library.  This build does not include
/// the library, so no such collector can be made.
#[derive(Debug)]
pub struct MemProcFSCollector {
    unavailable: (),
}

/// Makes the MemProcFS collector; this build always fails with
/// `not_enabled_message`.
pub fn create_collector() -> (r: Result<MemProcFSCollector, String>)
    ensures
        r matches Err(e) && e@ == not_enabled_message(),
{
    Err(String::from_str("Memory collection is not enabled. Recompile with the 'memory_collection' feature."))
}

/// Whether process memory can be collected with this build: it cannot, as
/// it includes no memory source.
pub fn is_memory_collection_available() -> (r: bool)
    ensures
        !r,
{
    false
}

/// The Windows memory source.  This build does not include MemProcFS, which
/// it reads through, so it cannot be made.
#[derive(Debug)]
pub struct WindowsMemoryCollector {
    unavailable: (),
}

impl WindowsMemoryCollector {
    /// Makes the Windows memory source; this build always fails with
    /// `not_enabled_message`.
    pub fn new() -> (r: Result<WindowsMemoryCollector, String>)
        ensures
            r matches Err(e) && e@ == not_enabled_message(),
    {
        Err(String::from_str("Memory collection is not enabled. Recompile with the 'memory_collection' feature."))
    }
}

/// How a region is read.
#[derive(Debug, Clone, Copy, PartialEq, Eq, Structural)]
pub enum ReadStrategy {
    /// In one read.
    Whole,
    /// Chunk by chunk.
    Chunked,
}

/// The Linux memory source, which reads `/proc`.
#[derive(Debug, Clone, Copy)]
pub struct LinuxMemoryCollector;

impl LinuxMemoryCollector {
    /// Makes the Linux memory source, which needs `/proc` to be mounted.
    pub fn new(proc_mounted: bool) -> (r: Result<LinuxMemoryCollector, String>)
        ensures
            r is Ok <==> proc_mounted,
            r matches Err(e) ==> e@
                == "Cannot access /proc filesystem. Memory collection requires /proc to be mounted."@,
    {
        if proc_mounted {
            Ok(LinuxMemoryCollector)
        } else {
            Err(String::from_str("Cannot access /proc filesystem. Memory collection requires /proc to be mounted."))
        }
    }

    /// The regions of a process whose `/proc/<pid>/maps` reads `maps`, as
    /// `parse_memory_maps` says.
    pub fn regions_from_maps(&self, maps: &str) -> (r: Result<Vec<MemoryRegionInfo>, String>)
        ensures
            match maps_regions(lines_of(maps@)) {
                Ok(f) => r matches Ok(v) && v@.len() == f.len() && forall|k: int|
                    0 <= k < f.len() ==> region_fields(#[trigger] v@[k]) == f[k] && opt_view(v@[k].name)
                        == opt_view(v@[k].mapped_file) && !v@[k].dumped && v@[k].dump_path is None,
                Err(()) => r is Err,
            },
    {
        parse_memory_maps(maps)
    }

    /// How a region of `size` bytes is read: in chunks above 10 MiB.
    pub fn read_strategy(size: usize) -> (r: ReadStrategy)
        ensures
            r == (if size > LARGE_REGION_SIZE { ReadStrategy::Chunked } else { ReadStrategy::Whole }),
    {
        if size > LARGE_REGION_SIZE {
            ReadStrategy::Chunked
        } else {
            ReadStrategy::Whole
        }
    }
}

/// The reading of a large region chunk by chunk: the chunks follow one
/// another from the start of the region, each at most `MEMORY_CHUNK_SIZE`
/// bytes, and the reading gives up after more than five failed chunks.
#[derive(Debug, Clone, Copy)]
pub struct ChunkedRead {
    address: u64,
    size: usize,
    offset: usize,
    failures: u32,
    collected: usize,
    stopped: bool,
}

impl ChunkedRead {
    /// The first address of the region.
    pub closed spec fn start(&self) -> nat {
        self.address as nat
    }

    /// The size of the region.
    pub closed spec fn length(&self) -> nat {
        self.size as nat
    }

    /// How far into the region the reading has come.
    pub closed spec fn position(&self) -> nat {
        self.offset as nat
    }

    /// How many chunks failed.
    pub closed spec fn failed(&self) -> nat {
        self.failures as nat
    }

    /// How many bytes were read.
    pub closed spec fn bytes_read(&self) -> nat {
        self.collected as nat
    }

    /// Whether the reading gave up.
    pub closed spec fn given_up(&self) -> bool {
        self.stopped
    }

    /// Whether the reading is over: the whole region was tried, or it gave up.
    pub open spec fn finished(&self) -> bool {
        self.given_up() || self.position() >= self.length()
    }

    /// The reading of the `size` bytes from `address` on; nothing read yet.
    pub fn new(address: u64, size: usize) -> (c: Self)
        requires
            address + size <= u64::MAX,
        ensures
            c.start() == address,
            c.length() == size,
            c.position() == 0,
            c.failed() == 0,
            c.bytes_read() == 0,
            !c.given_up(),
    {
        ChunkedRead { address, size, offset: 0, failures: 0, collected: 0, stopped: false }
    }

    /// The next chunk to read, as its address and length: it begins where
    /// the reading has come to and holds at most `MEMORY_CHUNK_SIZE` bytes of
    /// the rest of the region; none once the reading is over.
    pub fn next_chunk(&self) -> (r: Option<(u64, usize)>)
        requires
            self.start() + self.length() <= u64::MAX,
            self.position() <= self.length(),
        ensures
            self.finished() ==> r is None,
            !self.finished() ==> (r matches Some((a, n)) && a == self.start() + self.position() && n == (if MEMORY_CHUNK_SIZE
                <= self.length() - self.position() {
                MEMORY_CHUNK_SIZE as int
            } else {
                self.length() - self.position()
            })),
    {
        if self.stopped || self.offset >= self.size {
            return None;
        }
        let rest = self.size - self.offset;
        let n = if MEMORY_CHUNK_SIZE <= rest { MEMORY_CHUNK_SIZE } else { rest };
        Some((self.address + self.offset as u64, n))
    }

    /// Moves past the current chunk.
    fn advance(&mut self)
        requires
            old(self).position() <= old(self).length(),
        ensures
            final(self).position() == (if MEMORY_CHUNK_SIZE <= old(self).length() - old(self).position() {
                old(self).position() + MEMORY_CHUNK_SIZE
            } else {
                old(self).length() as int
            }),
            final(self).start() == old(self).start(),
            final(self).length() == old(self).length(),
            final(self).failed() == old(self).failed(),
            final(self).bytes_read() == old(self).bytes_read(),
            final(self).given_up() == old(self).given_up(),
    {
        let rest = self.size - self.offset;
        if MEMORY_CHUNK_SIZE <= rest {
            self.offset = self.offset + MEMORY_CHUNK_SIZE;
        } else {
            self.offset = self.size;
        }
    }

    /// Records that the current chunk gave `n` bytes, and moves past it.
    pub fn chunk_read(&mut self, n: usize)
        requires
            !old(self).finished(),
            old(self).position() <= old(self).length(),
            old(self).bytes_read() + n <= usize::MAX,
        ensures
            final(self).bytes_read() == old(self).bytes_read() + n,
            final(self).failed() == old(self).failed(),
            final(self).given_up() == old(self).given_up(),
            final(self).position() == (if MEMORY_CHUNK_SIZE <= old(self).length() - old(self).position() {
                old(self).position() + MEMORY_CHUNK_SIZE
            } else {
                old(self).length() as int
            }),
            final(self).start() == old(self).start(),
            final(self).length() == old(self).length(),
    {
        self.collected = self.collected + n;
        self.advance();
    }

    /// Records that the current chunk could not be read: the reading gives
    /// up once more than five chunks failed, and otherwise moves past it.
    pub fn chunk_failed(&mut self)
        requires
            !old(self).finished(),
            old(self).position() <= old(self).length(),
            old(self).failed() <= MAX_CHUNK_FAILURES,
        ensures
            final(self).failed() == old(self).failed() + 1,
            final(self).given_up() == (old(self).failed() + 1 > MAX_CHUNK_FAILURES),
            final(self).bytes_read() == old(self).bytes_read(),
            final(self).start() == old(self).start(),
            final(self).length() == old(self).length(),
            !final(self).given_up() ==> final(self).position() == (if MEMORY_CHUNK_SIZE <= old(self).length()
                - old(self).position() {
                old(self).position() + MEMORY_CHUNK_SIZE
            } else {
                old(self).length() as int
            }),
            final(self).given_up() ==> final(self).position() == old(self).position(),
    {
        self.failures = self.failures + 1;
        if self.failures > MAX_CHUNK_FAILURES {
            self.stopped = true;
        } else {
            self.advance();
        }
    }

    /// Whether the reading succeeded: some bytes were read.
    pub fn succeeded(&self) -> (r: bool)
        ensures
            r == (self.bytes_read() > 0),
    {
        self.collected > 0
    }
}

/// The read bit of a Mach `vm_prot_t`.
pub const VM_PROT_READ: i32 = 1;

/// The write bit of a Mach `vm_prot_t`.
pub const VM_PROT_WRITE: i32 = 2;

/// The execute bit of a Mach `vm_prot_t`.
pub const VM_PROT_EXECUTE: i32 = 4;

/// Regions at or above this address are taken for stacks on macOS.
pub const MACOS_STACK_START: u64 = 0x7fff00000000;

/// The kind of a macOS region with Mach protection `protection` at
/// `address`: executable regions are code; else high regions are stacks;
/// else writable regions are heap; anything else is other.
pub open spec fn macos_region_kind(protection: i32, address: u64) -> MemoryRegionType {
    if protection & VM_PROT_EXECUTE != 0 {
        MemoryRegionType::Code
    } else if address >= MACOS_STACK_START {
        MemoryRegionType::Stack
    } else if protection & VM_PROT_WRITE != 0 {
        MemoryRegionType::Heap
    } else {
        MemoryRegionType::Other
    }
}

/// The kind of a macOS region, as `macos_region_kind` says.
pub fn macos_region_type(protection: i32, address: u64) -> (t: MemoryRegionType)
    ensures
        t == macos_region_kind(protection, address),
{
    if protection & VM_PROT_EXECUTE != 0 {
        MemoryRegionType::Code
    } else if address >= MACOS_STACK_START {
        MemoryRegionType::Stack
    } else if protection & VM_PROT_WRITE != 0 {
        MemoryRegionType::Heap
    } else {
        MemoryRegionType::Other
    }
}

/// The access that a Mach protection allows: one flag per bit.
pub fn macos_protection(protection: i32) -> (p: MemoryProtection)
    ensures
        p.read == (protection & VM_PROT_READ != 0),
        p.write == (protection & VM_PROT_WRITE != 0),
        p.execute == (protection & VM_PROT_EXECUTE != 0),
{
    MemoryProtection {
        read: protection & VM_PROT_READ != 0,
        write: protection & VM_PROT_WRITE != 0,
        execute: protection & VM_PROT_EXECUTE != 0,
    }
}

} // verus!
