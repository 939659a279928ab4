use vstd::prelude::*;

verus! {

/// A region of the 16-bit address space, from `START_ADDR` to `END_ADDR`, both included.
pub struct MemoryMap<const START_ADDR: u16, const END_ADDR: u16>();

impl<const START_ADDR: u16, const END_ADDR: u16> MemoryMap<START_ADDR, END_ADDR> {
    pub open spec fn spec_contains(addr: u16) -> bool {
        START_ADDR <= addr <= END_ADDR
    }

    /// The number of addresses in the region.
    pub open spec fn spec_size() -> int {
        if START_ADDR <= END_ADDR {
            END_ADDR - START_ADDR + 1
        } else {
            0
        }
    }

    pub fn start() -> (r: u16)
        ensures
            r == START_ADDR,
    {
        START_ADDR
    }

    pub fn end() -> (r: u16)
        ensures
            r == END_ADDR,
    {
        END_ADDR
    }

    pub fn size() -> (r: usize)
        ensures
            r == Self::spec_size(),
    {
        if START_ADDR <= END_ADDR {
            (END_ADDR - START_ADDR) as usize + 1
        } else {
            0
        }
    }

    pub fn contains(addr: u16) -> (r: bool)
        ensures
            r == Self::spec_contains(addr),
    {
        addr >= START_ADDR && addr <= END_ADDR
    }
}

/// The size of a region is the number of addresses that it contains.
pub proof fn lemma_size_counts_addresses<const START_ADDR: u16, const END_ADDR: u16>()
    ensures
        Set::new(|a: int| 0 <= a <= 0xFFFF && MemoryMap::<START_ADDR, END_ADDR>::spec_contains(a as u16)).len()
            == MemoryMap::<START_ADDR, END_ADDR>::spec_size(),
        Set::new(|a: int| 0 <= a <= 0xFFFF && MemoryMap::<START_ADDR, END_ADDR>::spec_contains(a as u16)).finite(),
{
    let s = Set::new(|a: int| 0 <= a <= 0xFFFF && MemoryMap::<START_ADDR, END_ADDR>::spec_contains(a as u16));
    if START_ADDR <= END_ADDR {
        let r = vstd::set_lib::set_int_range(START_ADDR as int, END_ADDR + 1);
        vstd::set_lib::lemma_int_range(START_ADDR as int, END_ADDR + 1);
        assert(s =~= r);
    } else {
        assert(s =~= Set::<int>::empty());
    }
}

} // verus!
