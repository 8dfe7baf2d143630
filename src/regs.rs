use vstd::prelude::*;

verus! {

/// The four registers returned by one CPUID query at a given leaf and sub-leaf.
#[derive(Debug, Clone, Copy, PartialEq, Eq, Structural)]
pub struct Regs {
    pub eax: u32,
    pub ebx: u32,
    pub ecx: u32,
    pub edx: u32,
}

impl Regs {
    /// All four registers zero: the value used for a leaf that was not queried.
    pub fn zero() -> (r: Regs)
        ensures
            r == (Regs { eax: 0, ebx: 0, ecx: 0, edx: 0 }),
    {
        Regs { eax: 0, ebx: 0, ecx: 0, edx: 0 }
    }
}

/// True when bit `i` of `x` is set.
pub open spec fn bit(x: u32, i: u32) -> bool {
    (x >> i) & 1u32 == 1u32
}

} // verus!
