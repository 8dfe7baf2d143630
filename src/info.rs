use vstd::prelude::*;
use vstd::utf8::{valid_utf8, decode_utf8};
use crate::brand::{
    ascii_chars, brand_string, brand_text, lemma_ascii_text, nul_terminated, printable_ascii,
    register_bytes,
};
use crate::model::Model;
use crate::probe::CpuidSnapshot;
use crate::regs::{Regs, bit};
use crate::simd::SIMDFlags;
use crate::uarch::CPUModel;
use crate::vendor::CPUVendor;

verus! {

/// Three leaves' registers as a 12-register buffer, `eax, ebx, ecx, edx` each.
pub open spec fn regs_words(a: Regs, b: Regs, c: Regs) -> Seq<u32> {
    seq![a.eax, a.ebx, a.ecx, a.edx, b.eax, b.ebx, b.ecx, b.edx, c.eax, c.ebx, c.ecx, c.edx]
}

/// Sub-leaf `k` (1 to 3) of leaf 0x17 where the low byte of its `eax`
/// counts at least `k` brand sub-leaves, else zeros.
pub open spec fn brand_sub_leaf(snap: CpuidSnapshot, k: u32, regs: Regs) -> Regs {
    if snap.leaf17.eax & 0xFF >= k {
        regs
    } else {
        Regs { eax: 0, ebx: 0, ecx: 0, edx: 0 }
    }
}

/// The 12-register buffer of leaf 0x17's brand sub-leaves.
pub open spec fn vendor_brand_words(snap: CpuidSnapshot) -> Seq<u32> {
    regs_words(
        brand_sub_leaf(snap, 1, snap.leaf17_1),
        brand_sub_leaf(snap, 2, snap.leaf17_2),
        brand_sub_leaf(snap, 3, snap.leaf17_3),
    )
}

/// The 12-register buffer of leaves 0x80000002 to 0x80000004.
pub open spec fn processor_brand_words(snap: CpuidSnapshot) -> Seq<u32> {
    regs_words(snap.ext2, snap.ext3, snap.ext4)
}

/// The bytes of a 12-register buffer before its first NUL byte.
pub open spec fn brand_bytes(words: Seq<u32>) -> Seq<u8> {
    nul_terminated(register_bytes(words))
}

/// True where the vendor brand is read: leaf 0x17 is reached.
pub open spec fn has_vendor_brand(snap: CpuidSnapshot) -> bool {
    snap.leaf0.eax >= 0x17
}

/// True where the processor brand is read: leaf 0 reports further leaves
/// and the extended range reaches 0x80000004.
pub open spec fn has_processor_brand(snap: CpuidSnapshot) -> bool {
    snap.leaf0.eax != 0 && snap.ext0.eax >= 0x8000_0004
}

/// Vendor brand: the text of leaf 0x17's brand sub-leaves, where leaf 0x17
/// is reached; else empty.
pub open spec fn vendor_brand_of(snap: CpuidSnapshot) -> Seq<char> {
    if has_vendor_brand(snap) {
        brand_text(vendor_brand_words(snap))
    } else {
        Seq::empty()
    }
}

/// Processor brand: the text of leaves 0x80000002 to 0x80000004, where
/// leaf 0 reports further leaves and the extended range reaches 0x80000004;
/// else empty.
pub open spec fn processor_brand_of(snap: CpuidSnapshot) -> Seq<char> {
    if has_processor_brand(snap) {
        brand_text(processor_brand_words(snap))
    } else {
        Seq::empty()
    }
}

/// Base and maximum frequency from leaf 0x16, where it is reached.
pub open spec fn freq_of(snap: CpuidSnapshot) -> (u32, u32) {
    if snap.leaf0.eax >= 0x16 {
        (snap.leaf16.eax, snap.leaf16.ebx)
    } else {
        (0, 0)
    }
}

/// Vendor and product ID from leaf 0x17, where it is reached.
pub open spec fn ids_of(snap: CpuidSnapshot) -> (u32, u32) {
    if snap.leaf0.eax >= 0x17 {
        (snap.leaf17.ebx, snap.leaf17.ecx)
    } else {
        (0, 0)
    }
}

/// Long mode: bit 29 of leaf 0x80000001's `edx`, where leaf 0 reports
/// further leaves and the extended range reaches 0x80000001.
pub open spec fn x64_of(snap: CpuidSnapshot) -> bool {
    snap.leaf0.eax != 0 && snap.ext0.eax >= 0x8000_0001 && bit(snap.ext1.edx, 29)
}

fn words_of(a: &Regs, b: &Regs, c: &Regs) -> (r: [u32; 12])
    ensures
        r@ == regs_words(*a, *b, *c),
{
    let r = [a.eax, a.ebx, a.ecx, a.edx, b.eax, b.ebx, b.ecx, b.edx, c.eax, c.ebx, c.ecx, c.edx];
    assert(r@ =~= regs_words(*a, *b, *c));
    r
}

/// Everything known of the processor: width, frequencies, vendor and model,
/// brand strings, and vendor and product ID.
#[derive(Debug, Clone)]
pub struct CPUInfo {
    /// x86 or x64 architecture.
    x64: bool,
    /// Base CPU frequency.
    base: u32,
    /// Max CPU frequency.
    max: u32,
    /// Vendor and microarchitecture.
    model: Model,
    /// Vendor brand.
    vbrand: String,
    /// Processor brand.
    pbrand: String,
    /// Vendor ID.
    vid: u32,
    /// Product ID.
    pid: u32,
}

impl CPUInfo {
    /// Long mode support held.
    pub closed spec fn spec_x64(&self) -> bool {
        self.x64
    }

    /// Frequencies held.
    pub closed spec fn spec_freq(&self) -> (u32, u32) {
        (self.base, self.max)
    }

    /// Vendor and model held.
    pub closed spec fn spec_model(&self) -> Model {
        self.model
    }

    /// Vendor brand held.
    pub closed spec fn spec_vbrand(&self) -> Seq<char> {
        self.vbrand@
    }

    /// Processor brand held.
    pub closed spec fn spec_pbrand(&self) -> Seq<char> {
        self.pbrand@
    }

    /// Vendor and product ID held.
    pub closed spec fn spec_ids(&self) -> (u32, u32) {
        (self.vid, self.pid)
    }

    /// Returns the frequencies of the CPU.
    pub fn freq(&self) -> (r: (u32, u32))
        ensures
            r == self.spec_freq(),
    {
        (self.base, self.max)
    }

    /// Returns the vendor brand of the CPU.
    pub fn vbrand(&self) -> (r: String)
        ensures
            r@ == self.spec_vbrand(),
    {
        self.vbrand.clone()
    }

    /// Returns the processor brand of the CPU.
    pub fn pbrand(&self) -> (r: String)
        ensures
            r@ == self.spec_pbrand(),
    {
        self.pbrand.clone()
    }

    /// Returns the model of the CPU.
    pub fn model(&self) -> (r: Model)
        ensures
            r == self.spec_model(),
    {
        self.model
    }

    /// Returns the vendor ID and product ID of the CPU.
    pub fn ids(&self) -> (r: (u32, u32))
        ensures
            r == self.spec_ids(),
    {
        (self.vid, self.pid)
    }

    /// Returns whether the CPU supports long mode (x64).
    pub fn x64(&self) -> (r: bool)
        ensures
            r == self.spec_x64(),
    {
        self.x64
    }

    /// Decodes the processor description from a snapshot. Each leaf is read
    /// only where the maximum of its range reaches it; what an unreached leaf
    /// would supply stays zero or empty.
    pub fn read(snap: &CpuidSnapshot) -> (r: CPUInfo)
        ensures
            r.spec_x64() == x64_of(*snap),
            r.spec_freq() == freq_of(*snap),
            r.spec_ids() == ids_of(*snap),
            r.spec_vbrand() == vendor_brand_of(*snap),
            r.spec_pbrand() == processor_brand_of(*snap),
            has_vendor_brand(*snap) && valid_utf8(brand_bytes(vendor_brand_words(*snap)))
                ==> r.spec_vbrand() == decode_utf8(brand_bytes(vendor_brand_words(*snap))),
            has_processor_brand(*snap) && valid_utf8(brand_bytes(processor_brand_words(*snap)))
                ==> r.spec_pbrand() == decode_utf8(brand_bytes(processor_brand_words(*snap))),
            r.spec_model().spec_vendor() == crate::model::snapshot_vendor(*snap),
            r.spec_model().spec_model() == crate::model::snapshot_model(*snap),
    {
        let lo = snap.leaf0.eax;
        let hi = snap.ext0.eax;
        let mut x64 = false;
        let mut base: u32 = 0;
        let mut max: u32 = 0;
        let mut vid: u32 = 0;
        let mut pid: u32 = 0;
        let mut vbrand = String::new();
        let mut pbrand = String::new();
        if lo >= 0x16 {
            base = snap.leaf16.eax;
            max = snap.leaf16.ebx;
        }
        if lo >= 0x17 {
            vid = snap.leaf17.ebx;
            pid = snap.leaf17.ecx;
            let n = snap.leaf17.eax & 0xFF;
            let z = Regs::zero();
            let a = if n >= 1 { snap.leaf17_1 } else { z };
            let b = if n >= 2 { snap.leaf17_2 } else { z };
            let c = if n >= 3 { snap.leaf17_3 } else { z };
            let words = words_of(&a, &b, &c);
            vbrand = brand_string(&words);
        }
        if lo != 0 && hi >= 0x8000_0001 {
            x64 = (snap.ext1.edx >> 29) & 1 == 1;
        }
        if lo != 0 && hi >= 0x8000_0004 {
            let words = words_of(&snap.ext2, &snap.ext3, &snap.ext4);
            pbrand = brand_string(&words);
        }
        CPUInfo { x64, model: Model::read(snap), base, max, vbrand, pbrand, vid, pid }
    }
}

} // verus!

verus! {

/// A processor whose leaf 0 reports no further leaf (`eax == 0`) is
/// described by the defaults, whatever the other leaves hold: unknown vendor, `Unknown(0)` model, zero frequencies and
/// IDs, no long mode, empty brand strings and empty SIMD masks.
pub proof fn lemma_no_leaves_defaults(snap: CpuidSnapshot, info: CPUInfo, simd: SIMDFlags)
    requires
        snap.leaf0.eax == 0,
        call_ensures(CPUInfo::read, (&snap,), info),
        call_ensures(SIMDFlags::read, (&snap,), simd),
    ensures
        info.spec_model().spec_vendor() == CPUVendor::Unknown,
        info.spec_model().spec_model() == CPUModel::Unknown(0),
        info.spec_freq() == (0u32, 0u32),
        info.spec_ids() == (0u32, 0u32),
        !info.spec_x64(),
        info.spec_vbrand().len() == 0,
        info.spec_pbrand().len() == 0,
        simd.spec_simd() == 0,
        simd.spec_avx512() == 0,
{
}

/// Where a brand's bytes before the first NUL are printable ASCII, the
/// description holds exactly those characters: at most 48, none of them NUL.
pub proof fn lemma_ascii_brands(snap: CpuidSnapshot, info: CPUInfo)
    requires
        call_ensures(CPUInfo::read, (&snap,), info),
    ensures
        has_vendor_brand(snap) && printable_ascii(brand_bytes(vendor_brand_words(snap))) ==> {
            &&& info.spec_vbrand() == ascii_chars(brand_bytes(vendor_brand_words(snap)))
            &&& info.spec_vbrand().len() <= 48
            &&& forall|i: int| 0 <= i < info.spec_vbrand().len() ==> info.spec_vbrand()[i] != '\0'
        },
        has_processor_brand(snap) && printable_ascii(brand_bytes(processor_brand_words(snap)))
            ==> {
            &&& info.spec_pbrand() == ascii_chars(brand_bytes(processor_brand_words(snap)))
            &&& info.spec_pbrand().len() <= 48
            &&& forall|i: int| 0 <= i < info.spec_pbrand().len() ==> info.spec_pbrand()[i] != '\0'
        },
{
    if has_vendor_brand(snap) && printable_ascii(brand_bytes(vendor_brand_words(snap))) {
        lemma_ascii_text(vendor_brand_words(snap));
    }
    if has_processor_brand(snap) && printable_ascii(brand_bytes(processor_brand_words(snap))) {
        lemma_ascii_text(processor_brand_words(snap));
    }
}

} // verus!
