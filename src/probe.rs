use vstd::prelude::*;
use crate::regs::Regs;
use crate::simd::xsave_field;

verus! {

/// First extended leaf; its `eax` is the highest extended leaf.
pub const EXT_BASE: u32 = 0x8000_0000;

/// True when `leaf` may be queried on a processor whose leaf 0 reports
/// `max_std` and whose leaf 0x80000000 reports `max_ext`: the two baseline
/// leaves always, any other only up to the maximum of its range.
pub open spec fn leaf_supported(max_std: u32, max_ext: u32, leaf: u32) -> bool {
    ||| leaf == 0
    ||| leaf == EXT_BASE
    ||| leaf < EXT_BASE && leaf <= max_std
    ||| leaf >= EXT_BASE && leaf <= max_ext
}

/// Which leaves a processor answers, from the maxima of leaves 0 and
/// 0x80000000.
#[derive(Debug, Clone, Copy, PartialEq, Eq, Structural)]
pub struct LeafGate {
    pub max_std: u32,
    pub max_ext: u32,
}

impl LeafGate {
    /// Admits the leaves up to the two maxima.
    pub fn new(max_std: u32, max_ext: u32) -> (r: LeafGate)
        ensures
            r.max_std == max_std,
            r.max_ext == max_ext,
    {
        LeafGate { max_std, max_ext }
    }

    /// True when `leaf` may be queried.
    pub fn supports(&self, leaf: u32) -> (r: bool)
        ensures
            r == leaf_supported(self.max_std, self.max_ext, leaf),
    {
        if leaf == 0 || leaf == EXT_BASE {
            true
        } else if leaf < EXT_BASE {
            leaf <= self.max_std
        } else {
            leaf <= self.max_ext
        }
    }
}

/// The registers of every leaf that decoding reads. A leaf that was not
/// queried holds zeros.
#[derive(Debug, Clone, Copy, PartialEq, Eq, Structural)]
pub struct CpuidSnapshot {
    /// Leaf 0: highest standard leaf and vendor ID.
    pub leaf0: Regs,
    /// Leaf 0x80000000: highest extended leaf.
    pub ext0: Regs,
    /// Leaf 1: family, model and feature bits.
    pub leaf1: Regs,
    /// Extended control register 0.
    pub xcr0: u64,
    /// Leaf 7, sub-leaf 0.
    pub leaf7: Regs,
    /// Leaf 7, sub-leaf 1.
    pub leaf7_1: Regs,
    /// Leaf 0x16: frequencies.
    pub leaf16: Regs,
    /// Leaf 0x17, sub-leaf 0: vendor and product ID.
    pub leaf17: Regs,
    /// Leaf 0x17, sub-leaves 1 to 3: vendor brand.
    pub leaf17_1: Regs,
    pub leaf17_2: Regs,
    pub leaf17_3: Regs,
    /// Leaf 0x80000001: long mode and extended feature bits.
    pub ext1: Regs,
    /// Leaves 0x80000002 to 0x80000004: processor brand.
    pub ext2: Regs,
    pub ext3: Regs,
    pub ext4: Regs,
}

impl CpuidSnapshot {
    /// A snapshot of the two baseline leaves; every other leaf zero.
    pub fn new(leaf0: Regs, ext0: Regs) -> (r: CpuidSnapshot)
        ensures
            r == blank_snapshot(leaf0, ext0),
    {
        let z = Regs::zero();
        CpuidSnapshot {
            leaf0,
            ext0,
            leaf1: z,
            xcr0: 0,
            leaf7: z,
            leaf7_1: z,
            leaf16: z,
            leaf17: z,
            leaf17_1: z,
            leaf17_2: z,
            leaf17_3: z,
            ext1: z,
            ext2: z,
            ext3: z,
            ext4: z,
        }
    }
}

/// The baseline leaves with every other leaf zero.
pub open spec fn blank_snapshot(leaf0: Regs, ext0: Regs) -> CpuidSnapshot {
    let z = Regs { eax: 0, ebx: 0, ecx: 0, edx: 0 };
    CpuidSnapshot {
        leaf0,
        ext0,
        leaf1: z,
        xcr0: 0,
        leaf7: z,
        leaf7_1: z,
        leaf16: z,
        leaf17: z,
        leaf17_1: z,
        leaf17_2: z,
        leaf17_3: z,
        ext1: z,
        ext2: z,
        ext3: z,
        ext4: z,
    }
}

/// One query of the hardware.
#[derive(Debug, Clone, Copy, PartialEq, Eq, Structural)]
pub enum Query {
    /// CPUID at `leaf`, sub-leaf `sub`.
    Leaf { leaf: u32, sub: u32 },
    /// Read of extended control register `index`.
    ControlRegister { index: u32 },
}

/// Number of slots; slot `SLOTS` means that nothing is left to query.
pub const SLOTS: u32 = 14;

/// The query that fills slot `s`, in the order they are made.
pub open spec fn slot_query(s: u32) -> Query {
    if s == 0 {
        Query::Leaf { leaf: 1, sub: 0 }
    } else if s == 1 {
        Query::ControlRegister { index: 0 }
    } else if s == 2 || s == 3 {
        Query::Leaf { leaf: 7, sub: (s - 2) as u32 }
    } else if s == 4 {
        Query::Leaf { leaf: 0x16, sub: 0 }
    } else if 5 <= s <= 8 {
        Query::Leaf { leaf: 0x17, sub: (s - 5) as u32 }
    } else if s == 9 || s == 10 {
        Query::Leaf { leaf: (EXT_BASE + (s - 9)) as u32, sub: 0 }
    } else {
        Query::Leaf { leaf: (0x8000_0002 + (s - 11)) as u32, sub: 0 }
    }
}

/// True when slot `s` is to be queried, given what the snapshot holds of
/// the leaves before it: nothing at all where leaf 0 reports no further
/// leaf; each leaf only where its range reaches it; the control register
/// only where leaf 1 shows the OS has enabled XSAVE; and as many brand
/// sub-leaves of leaf 0x17 as the low byte of its `eax` counts, at most three.
pub open spec fn slot_needed(snap: CpuidSnapshot, s: u32) -> bool {
    let lo = snap.leaf0.eax;
    let hi = snap.ext0.eax;
    if s == 0 {
        lo >= 1
    } else if s == 1 {
        lo >= 1 && xsave_field(snap.leaf1.ecx) == 0b111
    } else if s == 2 || s == 3 {
        lo >= 7
    } else if s == 4 {
        lo >= 0x16
    } else if s == 5 {
        lo >= 0x17
    } else if 6 <= s <= 8 {
        lo >= 0x17 && snap.leaf17.eax & 0xFF >= s - 5
    } else if s == 9 {
        lo >= 1
    } else if s == 10 {
        lo >= 1 && hi >= 0x8000_0001
    } else if 11 <= s <= 13 {
        lo >= 1 && hi >= 0x8000_0004
    } else {
        false
    }
}

/// The snapshot with slot `s` filled by `regs` (leaf slots) or `v` (the
/// control register slot).
pub open spec fn fill_slot(snap: CpuidSnapshot, s: u32, regs: Regs, v: u64) -> CpuidSnapshot {
    if s == 0 {
        CpuidSnapshot { leaf1: regs, ..snap }
    } else if s == 1 {
        CpuidSnapshot { xcr0: v, ..snap }
    } else if s == 2 {
        CpuidSnapshot { leaf7: regs, ..snap }
    } else if s == 3 {
        CpuidSnapshot { leaf7_1: regs, ..snap }
    } else if s == 4 {
        CpuidSnapshot { leaf16: regs, ..snap }
    } else if s == 5 {
        CpuidSnapshot { leaf17: regs, ..snap }
    } else if s == 6 {
        CpuidSnapshot { leaf17_1: regs, ..snap }
    } else if s == 7 {
        CpuidSnapshot { leaf17_2: regs, ..snap }
    } else if s == 8 {
        CpuidSnapshot { leaf17_3: regs, ..snap }
    } else if s == 9 {
        CpuidSnapshot { ext0: regs, ..snap }
    } else if s == 10 {
        CpuidSnapshot { ext1: regs, ..snap }
    } else if s == 11 {
        CpuidSnapshot { ext2: regs, ..snap }
    } else if s == 12 {
        CpuidSnapshot { ext3: regs, ..snap }
    } else if s == 13 {
        CpuidSnapshot { ext4: regs, ..snap }
    } else {
        snap
    }
}

/// First slot from `from` on that is to be queried, or `SLOTS`.
pub open spec fn next_slot(snap: CpuidSnapshot, from: u32) -> u32
    decreases SLOTS - from,
{
    if from >= SLOTS {
        SLOTS
    } else if slot_needed(snap, from) {
        from
    } else {
        next_slot(snap, (from + 1) as u32)
    }
}

} // verus!

verus! {

proof fn lemma_next_slot(snap: CpuidSnapshot, from: u32)
    ensures
        next_slot(snap, from) <= SLOTS,
        next_slot(snap, from) < SLOTS ==> from <= next_slot(snap, from) && slot_needed(
            snap,
            next_slot(snap, from),
        ),
    decreases SLOTS - from,
{
    if from < SLOTS && !slot_needed(snap, from) {
        lemma_next_slot(snap, (from + 1) as u32);
    }
}

/// Decides, one query at a time, which leaves of the hardware to read, and
/// collects their registers into a [`CpuidSnapshot`].
///
/// The caller asks [`Probe::next_query`], performs the query, and hands the
/// answer back through [`Probe::supply`] or
/// [`Probe::supply_control_register`], until `next_query` returns `None`.
/// No query is ever asked for a leaf past the maxima the processor reports,
/// and none at all where leaf 0 reports no further leaf.
#[derive(Debug, Clone, Copy)]
pub struct Probe {
    snap: CpuidSnapshot,
    step: u32,
}

impl Probe {
    /// The registers collected so far.
    pub closed spec fn spec_snapshot(&self) -> CpuidSnapshot {
        self.snap
    }

    /// The first slot not yet decided on.
    pub closed spec fn spec_step(&self) -> u32 {
        self.step
    }

    /// The slot that the next query fills, or `SLOTS` when none is left.
    pub open spec fn pending(&self) -> u32 {
        next_slot(self.spec_snapshot(), self.spec_step())
    }

    /// A probe that knows leaf 0, the one leaf that may always be queried.
    /// Leaf 0x80000000 is asked for only where leaf 0 reports further leaves.
    pub fn new(leaf0: Regs) -> (r: Probe)
        ensures
            r.spec_snapshot() == blank_snapshot(leaf0, Regs { eax: 0, ebx: 0, ecx: 0, edx: 0 }),
            r.spec_step() == 0,
    {
        Probe { snap: CpuidSnapshot::new(leaf0, Regs::zero()), step: 0 }
    }

    fn needed(&self, s: u32) -> (r: bool)
        ensures
            r == slot_needed(self.snap, s),
    {
        let lo = self.snap.leaf0.eax;
        let hi = self.snap.ext0.eax;
        if s == 0 {
            lo >= 1
        } else if s == 1 {
            lo >= 1 && (self.snap.leaf1.ecx >> 26) & 0b111 == 0b111
        } else if s == 2 || s == 3 {
            lo >= 7
        } else if s == 4 {
            lo >= 0x16
        } else if s == 5 {
            lo >= 0x17
        } else if 6 <= s && s <= 8 {
            lo >= 0x17 && self.snap.leaf17.eax & 0xFF >= s - 5
        } else if s == 9 {
            lo >= 1
        } else if s == 10 {
            lo >= 1 && hi >= 0x8000_0001
        } else if 11 <= s && s <= 13 {
            lo >= 1 && hi >= 0x8000_0004
        } else {
            false
        }
    }

    fn next(&self) -> (r: u32)
        ensures
            r == self.pending(),
    {
        let mut s = self.step;
        while s < SLOTS
            invariant
                next_slot(self.snap, s) == next_slot(self.snap, self.step),
            decreases SLOTS - s,
        {
            if self.needed(s) {
                return s;
            }
            s = s + 1;
        }
        SLOTS
    }

    /// The next query to make, or `None` when the snapshot is complete.
    /// A leaf query is always within the reported maxima; the control
    /// register is asked for only where leaf 1 shows the OS has enabled it.
    pub fn next_query(&self) -> (r: Option<Query>)
        ensures
            self.pending() < SLOTS ==> r == Some(slot_query(self.pending())),
            self.pending() >= SLOTS ==> r is None,
            r is Some ==> self.spec_snapshot().leaf0.eax >= 1,
            r matches Some(Query::Leaf { leaf, sub }) ==> leaf_supported(
                self.spec_snapshot().leaf0.eax,
                self.spec_snapshot().ext0.eax,
                leaf,
            ),
            r matches Some(Query::ControlRegister { index }) ==> index == 0 && xsave_field(
                self.spec_snapshot().leaf1.ecx,
            ) == 0b111,
    {
        let s = self.next();
        proof {
            lemma_next_slot(self.snap, self.step);
        }
        if s >= SLOTS {
            None
        } else if s == 0 {
            Some(Query::Leaf { leaf: 1, sub: 0 })
        } else if s == 1 {
            Some(Query::ControlRegister { index: 0 })
        } else if s == 2 || s == 3 {
            Some(Query::Leaf { leaf: 7, sub: s - 2 })
        } else if s == 4 {
            Some(Query::Leaf { leaf: 0x16, sub: 0 })
        } else if s <= 8 {
            Some(Query::Leaf { leaf: 0x17, sub: s - 5 })
        } else if s == 9 || s == 10 {
            Some(Query::Leaf { leaf: EXT_BASE + (s - 9), sub: 0 })
        } else {
            Some(Query::Leaf { leaf: 0x8000_0002 + (s - 11), sub: 0 })
        }
    }

    /// Hands back the registers of the pending leaf query: they fill its
    /// slot and the probe moves past it. Where no leaf query is pending
    /// nothing changes.
    pub fn supply(&mut self, regs: Regs)
        ensures
            old(self).pending() < SLOTS && old(self).pending() != 1 ==> final(self).spec_snapshot()
                == fill_slot(old(self).spec_snapshot(), old(self).pending(), regs, 0)
                && final(self).spec_step() == old(self).pending() + 1,
            old(self).pending() >= SLOTS || old(self).pending() == 1 ==> *final(self) == *old(self),
    {
        let s = self.next();
        if s >= SLOTS || s == 1 {
            return;
        }
        if s == 0 {
            self.snap.leaf1 = regs;
        } else if s == 2 {
            self.snap.leaf7 = regs;
        } else if s == 3 {
            self.snap.leaf7_1 = regs;
        } else if s == 4 {
            self.snap.leaf16 = regs;
        } else if s == 5 {
            self.snap.leaf17 = regs;
        } else if s == 6 {
            self.snap.leaf17_1 = regs;
        } else if s == 7 {
            self.snap.leaf17_2 = regs;
        } else if s == 8 {
            self.snap.leaf17_3 = regs;
        } else if s == 9 {
            self.snap.ext0 = regs;
        } else if s == 10 {
            self.snap.ext1 = regs;
        } else if s == 11 {
            self.snap.ext2 = regs;
        } else if s == 12 {
            self.snap.ext3 = regs;
        } else {
            self.snap.ext4 = regs;
        }
        self.step = s + 1;
    }

    /// Hands back the value of the pending control register read. Where no
    /// such read is pending nothing changes.
    pub fn supply_control_register(&mut self, value: u64)
        ensures
            old(self).pending() == 1 ==> final(self).spec_snapshot() == fill_slot(
                old(self).spec_snapshot(),
                1,
                Regs { eax: 0, ebx: 0, ecx: 0, edx: 0 },
                value,
            ) && final(self).spec_step() == 2,
            old(self).pending() != 1 ==> *final(self) == *old(self),
    {
        let s = self.next();
        if s == 1 {
            self.snap.xcr0 = value;
            self.step = 2;
        }
    }

    /// The registers collected so far.
    pub fn snapshot(&self) -> (r: CpuidSnapshot)
        ensures
            r == self.spec_snapshot(),
    {
        self.snap
    }
}

} // verus!

verus! {

proof fn lemma_nothing_needed(snap: CpuidSnapshot, from: u32)
    requires
        forall|s: u32| from <= s < SLOTS ==> !slot_needed(snap, s),
    ensures
        next_slot(snap, from) == SLOTS,
    decreases SLOTS - from,
{
    if from < SLOTS {
        lemma_nothing_needed(snap, (from + 1) as u32);
    }
}

/// A processor whose leaf 0 reports no further leaf (`eax == 0`) is asked
/// nothing beyond leaf 0, whatever the probe has been handed since.
pub proof fn lemma_no_leaves_no_queries(p: Probe, q: Option<Query>)
    requires
        p.spec_snapshot().leaf0.eax == 0,
        call_ensures(Probe::next_query, (&p,), q),
    ensures
        q is None,
{
    lemma_nothing_needed(p.spec_snapshot(), p.spec_step());
}

} // verus!
