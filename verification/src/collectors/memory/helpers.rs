//! Conversions from what a memory source reports to the collection's own
//! records, and the text form of a memory dump.
use vstd::prelude::*;
use crate::collectors::memory::models::{MemoryProtection, MemoryRegionType};
use crate::text::{chars_of, string_of, append_chars, decimal, decimal_exec, contains_sub, ends_with, str_contains, str_ends_with};

verus! {

/// The access given by Windows-style protection flags: bit 0 read, bit 1
/// write, bit 2 execute.
pub open spec fn protection_of(protection: u32) -> MemoryProtection {
    MemoryProtection {
        read: protection & 1 != 0,
        write: protection & 2 != 0,
        execute: protection & 4 != 0,
    }
}

/// Converts protection flags as `protection_of` says.
pub fn convert_protection(protection: u32) -> (r: MemoryProtection)
    ensures
        r == protection_of(protection),
{
    MemoryProtection {
        read: protection & 1 != 0,
        write: protection & 2 != 0,
        execute: protection & 4 != 0,
    }
}

/// The region type told by a region's description: a stack or a heap where
/// it says so, code for an executable or library image, a mapped file for
/// any other description, and other memory where there is none.
pub open spec fn region_type_of_info(info: Seq<char>) -> MemoryRegionType {
    if contains_sub(info, "Stack"@) {
        MemoryRegionType::Stack
    } else if contains_sub(info, "Heap"@) {
        MemoryRegionType::Heap
    } else if info.len() > 0 && (ends_with(info, ".exe"@) || ends_with(info, ".dll"@)) {
        MemoryRegionType::Code
    } else if info.len() > 0 {
        MemoryRegionType::MappedFile
    } else {
        MemoryRegionType::Other
    }
}

/// Converts a region description as `region_type_of_info` says.
pub fn convert_region_type(info: &str) -> (r: MemoryRegionType)
    ensures
        r == region_type_of_info(info@),
{
    let empty = chars_of(info).len() == 0;
    if str_contains(info, "Stack") {
        MemoryRegionType::Stack
    } else if str_contains(info, "Heap") {
        MemoryRegionType::Heap
    } else if !empty && (str_ends_with(info, ".exe") || str_ends_with(info, ".dll")) {
        MemoryRegionType::Code
    } else if !empty {
        MemoryRegionType::MappedFile
    } else {
        MemoryRegionType::Other
    }
}

/// The bytes of `s` in decimal, separated by ", ".
pub open spec fn byte_list(s: Seq<u8>) -> Seq<char>
    decreases s.len(),
{
    if s.len() == 0 {
        Seq::empty()
    } else if s.len() == 1 {
        decimal(s[0] as nat)
    } else {
        byte_list(s.drop_last()) + ", "@ + decimal(s.last() as nat)
    }
}

/// The debug form of a byte list, such as `[1, 2, 255]`.
pub open spec fn debug_bytes(s: Seq<u8>) -> Seq<char> {
    "["@ + byte_list(s) + "]"@
}

/// The first `max_length` bytes of `data` (all of them when there are
/// fewer) in debug form.
pub fn format_memory_dump(data: &[u8], max_length: usize) -> (r: String)
    ensures
        r@ == debug_bytes(
            if data@.len() > max_length {
                data@.take(max_length as int)
            } else {
                data@
            },
        ),
{
    let n = if data.len() > max_length { max_length } else { data.len() };
    let ghost shown = if data@.len() > max_length { data@.take(max_length as int) } else { data@ };
    assert(shown =~= data@.take(n as int));
    let mut out: Vec<char> = Vec::new();
    out.push('[');
    let mut i: usize = 0;
    while i < n
        invariant
            n <= data@.len(),
            i <= n,
            out@ == seq!['['] + byte_list(data@.take(i as int)),
        decreases n - i,
    {
        proof {
            assert(data@.take(i + 1).drop_last() =~= data@.take(i as int));
            reveal_strlit(", ");
        }
        if i > 0 {
            out.push(',');
            out.push(' ');
        }
        let digits = decimal_exec(data[i] as u64);
        append_chars(&mut out, &digits);
        assert(out@ =~= seq!['['] + byte_list(data@.take(i + 1)));
        i += 1;
    }
    out.push(']');
    proof {
        reveal_strlit("[");
        reveal_strlit("]");
        assert(out@ =~= "["@ + byte_list(shown) + "]"@);
    }
    string_of(&out)
}

} // verus!
