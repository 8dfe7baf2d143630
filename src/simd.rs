use vstd::prelude::*;
use vstd::string::StringExecFns;
use crate::regs::{Regs, bit};
use crate::probe::CpuidSnapshot;

verus! {

/// `f` when `c` holds, else no bit.
pub open spec fn flag(c: bool, f: u32) -> u32 {
    if c {
        f
    } else {
        0
    }
}

/// The XSAVE / OSXSAVE / AVX field: bits 26..29 of leaf 1's `ecx`.
pub open spec fn xsave_field(ecx: u32) -> u32 {
    (ecx >> 26) & 0b111
}

/// Wide-vector flags that the operating system has enabled, by the low byte
/// of extended control register 0 masked with `0xE6`.
pub open spec fn os_vector_flags(xcr0: u64) -> u32 {
    if xcr0 & 0xE6 == 0xE6 {
        SIMDFlags::AVX | SIMDFlags::AVX512
    } else if xcr0 & 0xE6 == 0x6 {
        SIMDFlags::AVX
    } else {
        0
    }
}

/// Flags of the XSAVE field; AVX and AVX-512 only where the field shows the
/// OS has opted in (`0b111`) and the control register enables the state.
pub open spec fn xsave_flags(ecx: u32, xcr0: u64) -> u32 {
    let f = xsave_field(ecx);
    if f == 0b111 {
        SIMDFlags::OSXSAVE | SIMDFlags::XSAVE | os_vector_flags(xcr0)
    } else if f == 0b011 {
        SIMDFlags::OSXSAVE | SIMDFlags::XSAVE
    } else if f == 0b001 {
        SIMDFlags::XSAVE
    } else {
        0
    }
}

/// General SIMD flags of leaf 1.
pub open spec fn leaf1_simd(ecx: u32, edx: u32, xcr0: u64) -> u32 {
    flag(bit(ecx, 0), SIMDFlags::SSE3) | flag(bit(ecx, 9), SIMDFlags::SSSE3) | flag(
        bit(ecx, 19),
        SIMDFlags::SSE41,
    ) | flag(bit(ecx, 20), SIMDFlags::SSE42) | flag(bit(edx, 23), SIMDFlags::MMX)
        | flag(bit(edx, 25), SIMDFlags::SSE1) | flag(bit(edx, 26), SIMDFlags::SSE2)
        | xsave_flags(ecx, xcr0)
}

/// General SIMD flags of leaf 7, sub-leaf 0.
pub open spec fn leaf7_simd(ebx: u32) -> u32 {
    flag(bit(ebx, 3), SIMDFlags::AVX2)
}

/// AVX-512 flags of leaf 7, sub-leaves 0 and 1.
pub open spec fn leaf7_avx512(ebx: u32, ecx: u32, edx: u32, eax_1: u32) -> u32 {
    flag(bit(ebx, 16), SIMDFlags::AVX512F) | flag(bit(ebx, 17), SIMDFlags::AVX512DQ)
        | flag(bit(ebx, 21), SIMDFlags::AVX512IFMA) | flag(
        bit(ebx, 26),
        SIMDFlags::AVX512PF,
    ) | flag(bit(ebx, 27), SIMDFlags::AVX512ER) | flag(
        bit(ebx, 28),
        SIMDFlags::AVX512CD,
    ) | flag(bit(ebx, 30), SIMDFlags::AVX512BW) | flag(
        bit(ebx, 31),
        SIMDFlags::AVX512VL,
    ) | flag(bit(ecx, 1), SIMDFlags::AVX512VBMI) | flag(
        bit(ecx, 6),
        SIMDFlags::AVX512VBMI2,
    ) | flag(bit(ecx, 11), SIMDFlags::AVX512VNNI) | flag(
        bit(ecx, 12),
        SIMDFlags::AVX512BITALG,
    ) | flag(bit(ecx, 14), SIMDFlags::AVX512VPOPCNTDQ) | flag(
        bit(edx, 2),
        SIMDFlags::AVX5124VNNIW,
    ) | flag(bit(edx, 3), SIMDFlags::AVX5124FMAPS) | flag(
        bit(edx, 8),
        SIMDFlags::AVX512VP2INTERSECT,
    ) | flag(bit(eax_1, 5), SIMDFlags::AVX512BF16)
}

/// General SIMD flags of extended leaf 0x80000001.
pub open spec fn ext1_simd(ecx: u32, edx: u32) -> u32 {
    flag(bit(ecx, 6), SIMDFlags::SSE4A) | flag(bit(ecx, 11), SIMDFlags::XOP) | flag(
        bit(ecx, 16),
        SIMDFlags::FMA4,
    ) | flag(bit(edx, 23), SIMDFlags::MMX)
}

/// The general SIMD mask, stage by stage: nothing without leaf 1, leaf 7
/// only where the standard maximum reaches it, and the extended leaf only
/// after leaf 7 and where the extended maximum reaches it.
pub open spec fn simd_mask(
    max_std: u32,
    max_ext: u32,
    leaf1: Regs,
    xcr0: u64,
    leaf7: Regs,
    ext1: Regs,
) -> u32 {
    if max_std < 1 {
        0
    } else if max_std < 7 {
        leaf1_simd(leaf1.ecx, leaf1.edx, xcr0)
    } else if max_ext < 0x8000_0001 {
        leaf1_simd(leaf1.ecx, leaf1.edx, xcr0) | leaf7_simd(leaf7.ebx)
    } else {
        leaf1_simd(leaf1.ecx, leaf1.edx, xcr0) | leaf7_simd(leaf7.ebx) | ext1_simd(ext1.ecx, ext1.edx)
    }
}

/// The AVX-512 mask: only leaf 7 supplies it.
pub open spec fn avx512_mask(max_std: u32, leaf7: Regs, leaf7_1: Regs) -> u32 {
    if max_std < 7 {
        0
    } else {
        leaf7_avx512(leaf7.ebx, leaf7.ecx, leaf7.edx, leaf7_1.eax)
    }
}

/// `text` where any bit of `f` is in `mask`, else nothing.
pub open spec fn line_if(mask: u32, f: u32, text: Seq<char>) -> Seq<char> {
    if mask & f != 0 {
        text
    } else {
        Seq::empty()
    }
}

/// Listing of the extensions of a general SIMD mask, by vector width.
pub open spec fn simd_report(mask: u32) -> Seq<char> {
    "CPU SIMD features\n"@
        + line_if(mask, SIMDFlags::MMX, "  MMX\n\n"@)
        + "SIMD 128-bit:\n"@
        + line_if(mask, SIMDFlags::SSE1, "  SSE    (Streaming SIMD Extensions)\n"@)
        + line_if(mask, SIMDFlags::SSE2, "  SSE2   (Streaming SIMD Extensions) (Instruction Set   2)\n"@)
        + line_if(mask, SIMDFlags::SSE3, "  SSE3   (Streaming SIMD Extensions) (Instruction Set   3)\n"@)
        + line_if(mask, SIMDFlags::SSE41, "  SSE4.1 (Streaming SIMD Extensions) (Instruction Set 4.1)\n"@)
        + line_if(mask, SIMDFlags::SSE42, "  SSE4.2 (Streaming SIMD Extensions) (Instruction Set 4.2)\n"@)
        + line_if(mask, SIMDFlags::SSE4A, "  SSE4.A (Streaming SIMD Extensions) (Instruction Set 4.A)\n"@)
        + line_if(mask, SIMDFlags::SSE5, "  SSE5   (Streaming SIMD Extensions) (Instruction Set   5)\n"@)
        + line_if(mask, SIMDFlags::SSSE3, "  SSSE3  (Supplemental Streaming SIMD Extensions) (Instruction Set 3)\n\n"@)
        + line_if(mask, SIMDFlags::XOP, "  XOP (eXtended Operations) (AMD)\n\n"@)
        + "SIMD 256-bit:\n"@
        + line_if(mask, SIMDFlags::AVX, "  AVX    (Advanced Vector Extensions)\n"@)
        + line_if(mask, SIMDFlags::AVX2, "  AVX2   (Advanced Vector Extensions) (Instruction Set 2)\n\n"@)
        + "SIMD 512-bit:\n"@
        + line_if(mask, SIMDFlags::AVX512, "  AVX512 (Advanced Vector Extensions)\n\n"@)
}

/// SIMD capabilities of the processor: a general mask and an AVX-512 mask.
#[derive(Debug, Clone, Copy, PartialEq, Eq, Structural)]
pub struct SIMDFlags {
    /// AVX-512 extensions flags.
    avx512: u32,
    /// Standard SIMD flags.
    simd: u32,
}

/// `f` when bit `i` of `x` is set, else 0.
fn flag_if(x: u32, i: u32, f: u32) -> (r: u32)
    requires
        i < 32,
    ensures
        r == flag(bit(x, i), f),
{
    if (x >> i) & 1 == 1 {
        f
    } else {
        0
    }
}

impl SIMDFlags {
    /// FMA (floating-point multiply accumulate).
    pub const FMA: u32 = 1 << 0;
    /// FMA2.
    pub const FMA2: u32 = 1 << 1;
    /// FMA3.
    pub const FMA3: u32 = 1 << 2;
    /// FMA4.
    pub const FMA4: u32 = 1 << 3;
    /// MMX vector extension.
    pub const MMX: u32 = 1 << 4;
    /// SSE vector extension.
    pub const SSE1: u32 = 1 << 5;
    /// SSE2 vector extension.
    pub const SSE2: u32 = 1 << 6;
    /// SSE3 vector extension.
    pub const SSE3: u32 = 1 << 7;
    /// SSSE3 vector extension.
    pub const SSSE3: u32 = 1 << 8;
    /// SSE4.1 vector extension.
    pub const SSE41: u32 = 1 << 9;
    /// SSE4.2 vector extension.
    pub const SSE42: u32 = 1 << 10;
    /// SSE4.A vector extension.
    pub const SSE4A: u32 = 1 << 11;
    /// SSE5 vector extension.
    pub const SSE5: u32 = 1 << 12;
    /// XOP vector extension.
    pub const XOP: u32 = 1 << 14;
    /// AVX vector extension.
    pub const AVX: u32 = 1 << 16;
    /// AVX2 vector extension.
    pub const AVX2: u32 = 1 << 17;
    /// AVX-512 vector extension.
    pub const AVX512: u32 = 1 << 18;
    /// XSAVE instruction.
    pub const XSAVE: u32 = 1 << 24;
    /// OS enabled XSAVE.
    pub const OSXSAVE: u32 = 1 << 25;

    pub const AVX512F: u32 = 1 << 1;
    pub const AVX512DQ: u32 = 1 << 2;
    pub const AVX512IFMA: u32 = 1 << 3;
    pub const AVX512PF: u32 = 1 << 4;
    pub const AVX512ER: u32 = 1 << 5;
    pub const AVX512CD: u32 = 1 << 6;
    pub const AVX512BW: u32 = 1 << 7;
    pub const AVX512VL: u32 = 1 << 8;
    pub const AVX512GFNI: u32 = 1 << 9;
    pub const AVX512VBMI: u32 = 1 << 10;
    pub const AVX512VBMI2: u32 = 1 << 11;
    pub const AVX512VNNI: u32 = 1 << 12;
    pub const AVX512BITALG: u32 = 1 << 13;
    pub const AVX512VPOPCNTDQ: u32 = 1 << 14;
    pub const AVX5124VNNIW: u32 = 1 << 16;
    pub const AVX5124FMAPS: u32 = 1 << 17;
    pub const AVX512VP2INTERSECT: u32 = 1 << 18;
    pub const AVX512BF16: u32 = 1 << 24;
    pub const AVX512VPCLMUL: u32 = 1 << 28;

    /// The general SIMD mask held.
    pub closed spec fn spec_simd(&self) -> u32 {
        self.simd
    }

    /// The AVX-512 mask held.
    pub closed spec fn spec_avx512(&self) -> u32 {
        self.avx512
    }

    /// Returns `true` if any bit of the general SIMD flag `f` is present.
    pub fn simd(&self, f: u32) -> (r: bool)
        ensures
            r == (self.spec_simd() & f != 0),
    {
        (self.simd & f) != 0
    }

    /// Returns `true` if any bit of the AVX-512 flag `f` is present.
    pub fn avx512(&self, f: u32) -> (r: bool)
        ensures
            r == (self.spec_avx512() & f != 0),
    {
        (self.avx512 & f) != 0
    }

    /// Lists the extensions present, grouped by vector width.
    pub fn report(&self) -> (r: String)
        ensures
            r@ == simd_report(self.spec_simd()),
    {
        let ghost mask = self.simd;
        let mut s = String::from_str("CPU SIMD features\n");
        if self.simd(Self::MMX) {
            s.append("  MMX\n\n");
        }
        s.append("SIMD 128-bit:\n");
        if self.simd(Self::SSE1) {
            s.append("  SSE    (Streaming SIMD Extensions)\n");
        }
        if self.simd(Self::SSE2) {
            s.append("  SSE2   (Streaming SIMD Extensions) (Instruction Set   2)\n");
        }
        if self.simd(Self::SSE3) {
            s.append("  SSE3   (Streaming SIMD Extensions) (Instruction Set   3)\n");
        }
        if self.simd(Self::SSE41) {
            s.append("  SSE4.1 (Streaming SIMD Extensions) (Instruction Set 4.1)\n");
        }
        if self.simd(Self::SSE42) {
            s.append("  SSE4.2 (Streaming SIMD Extensions) (Instruction Set 4.2)\n");
        }
        if self.simd(Self::SSE4A) {
            s.append("  SSE4.A (Streaming SIMD Extensions) (Instruction Set 4.A)\n");
        }
        if self.simd(Self::SSE5) {
            s.append("  SSE5   (Streaming SIMD Extensions) (Instruction Set   5)\n");
        }
        if self.simd(Self::SSSE3) {
            s.append("  SSSE3  (Supplemental Streaming SIMD Extensions) (Instruction Set 3)\n\n");
        }
        if self.simd(Self::XOP) {
            s.append("  XOP (eXtended Operations) (AMD)\n\n");
        }
        s.append("SIMD 256-bit:\n");
        if self.simd(Self::AVX) {
            s.append("  AVX    (Advanced Vector Extensions)\n");
        }
        if self.simd(Self::AVX2) {
            s.append("  AVX2   (Advanced Vector Extensions) (Instruction Set 2)\n\n");
        }
        s.append("SIMD 512-bit:\n");
        if self.simd(Self::AVX512) {
            s.append("  AVX512 (Advanced Vector Extensions)\n\n");
        }
        assert(s@ =~= simd_report(mask));
        s
    }

    /// Reads both masks from a snapshot; see [`SIMDFlags::decode`].
    pub fn read(snap: &CpuidSnapshot) -> (r: SIMDFlags)
        ensures
            r.spec_simd() == simd_mask(
                snap.leaf0.eax,
                snap.ext0.eax,
                snap.leaf1,
                snap.xcr0,
                snap.leaf7,
                snap.ext1,
            ),
            r.spec_avx512() == avx512_mask(snap.leaf0.eax, snap.leaf7, snap.leaf7_1),
    {
        Self::decode(
            snap.leaf0.eax,
            snap.ext0.eax,
            &snap.leaf1,
            snap.xcr0,
            &snap.leaf7,
            &snap.leaf7_1,
            &snap.ext1,
        )
    }

    /// Assembles both masks from the registers of leaves 1, 7 (sub-leaves 0
    /// and 1) and 0x80000001, and from extended control register 0. Each leaf
    /// is read only where `max_std` (leaf 0's `eax`) or `max_ext` (leaf
    /// 0x80000000's `eax`) reaches it; `xcr0` only where leaf 1's XSAVE field
    /// is `0b111`.
    pub fn decode(
        max_std: u32,
        max_ext: u32,
        leaf1: &Regs,
        xcr0: u64,
        leaf7: &Regs,
        leaf7_1: &Regs,
        ext1: &Regs,
    ) -> (r: SIMDFlags)
        ensures
            r.spec_simd() == simd_mask(max_std, max_ext, *leaf1, xcr0, *leaf7, *ext1),
            r.spec_avx512() == avx512_mask(max_std, *leaf7, *leaf7_1),
    {
        let mut simd: u32 = 0;
        let mut avx512: u32 = 0;
        if max_std < 0x1 {
            return SIMDFlags { simd, avx512 };
        }
        let ecx = leaf1.ecx;
        let edx = leaf1.edx;
        let field: u32 = (ecx >> 26) & 0b111;
        let xsave: u32 = if field == 0b111 {
            let os: u32 = if xcr0 & 0xE6 == 0xE6 {
                Self::AVX | Self::AVX512
            } else if xcr0 & 0xE6 == 0x6 {
                Self::AVX
            } else {
                0
            };
            Self::OSXSAVE | Self::XSAVE | os
        } else if field == 0b011 {
            Self::OSXSAVE | Self::XSAVE
        } else if field == 0b001 {
            Self::XSAVE
        } else {
            0
        };
        simd = flag_if(ecx, 0, Self::SSE3) | flag_if(ecx, 9, Self::SSSE3) | flag_if(
            ecx,
            19,
            Self::SSE41,
        ) | flag_if(ecx, 20, Self::SSE42) | flag_if(edx, 23, Self::MMX) | flag_if(
            edx,
            25,
            Self::SSE1,
        ) | flag_if(edx, 26, Self::SSE2) | xsave;
        if max_std < 0x7 {
            return SIMDFlags { simd, avx512 };
        }
        simd = simd | flag_if(leaf7.ebx, 3, Self::AVX2);
        let b = leaf7.ebx;
        let c = leaf7.ecx;
        let d = leaf7.edx;
        avx512 = flag_if(b, 16, Self::AVX512F) | flag_if(b, 17, Self::AVX512DQ) | flag_if(
            b,
            21,
            Self::AVX512IFMA,
        ) | flag_if(b, 26, Self::AVX512PF) | flag_if(b, 27, Self::AVX512ER) | flag_if(
            b,
            28,
            Self::AVX512CD,
        ) | flag_if(b, 30, Self::AVX512BW) | flag_if(b, 31, Self::AVX512VL) | flag_if(
            c,
            1,
            Self::AVX512VBMI,
        ) | flag_if(c, 6, Self::AVX512VBMI2) | flag_if(c, 11, Self::AVX512VNNI) | flag_if(
            c,
            12,
            Self::AVX512BITALG,
        ) | flag_if(c, 14, Self::AVX512VPOPCNTDQ) | flag_if(d, 2, Self::AVX5124VNNIW) | flag_if(
            d,
            3,
            Self::AVX5124FMAPS,
        ) | flag_if(d, 8, Self::AVX512VP2INTERSECT) | flag_if(leaf7_1.eax, 5, Self::AVX512BF16);
        if max_ext < 0x8000_0001 {
            return SIMDFlags { simd, avx512 };
        }
        let e = ext1.ecx;
        simd = simd | (flag_if(e, 6, Self::SSE4A) | flag_if(e, 11, Self::XOP) | flag_if(
            e,
            16,
            Self::FMA4,
        ) | flag_if(ext1.edx, 23, Self::MMX));
        SIMDFlags { simd, avx512 }
    }
}

} // verus!

verus! {

/// Without leaf 7 (`max_std < 7`) the AVX-512 mask is empty and no flag of
/// leaf 7 or of extended leaf 0x80000001 (AVX2, SSE4A, XOP, FMA4) is set,
/// whatever registers were supplied for those leaves: both masks are the
/// same for any other choice of them.
pub proof fn lemma_leaf7_gate(
    max_std: u32,
    max_ext: u32,
    leaf1: Regs,
    xcr0: u64,
    leaf7: Regs,
    leaf7_1: Regs,
    ext1: Regs,
    other7: Regs,
    other7_1: Regs,
    other_ext1: Regs,
)
    requires
        max_std < 7,
    ensures
        avx512_mask(max_std, leaf7, leaf7_1) == 0,
        simd_mask(max_std, max_ext, leaf1, xcr0, leaf7, ext1) & (SIMDFlags::AVX2 | SIMDFlags::SSE4A
            | SIMDFlags::XOP | SIMDFlags::FMA4) == 0,
        simd_mask(max_std, max_ext, leaf1, xcr0, leaf7, ext1) == simd_mask(
            max_std,
            max_ext,
            leaf1,
            xcr0,
            other7,
            other_ext1,
        ),
        avx512_mask(max_std, leaf7, leaf7_1) == avx512_mask(max_std, other7, other7_1),
{
    lemma_gate_bits(leaf1.ecx, leaf1.edx, xcr0);
}

/// AVX is set exactly where leaf 1 is reached, its XSAVE field is `0b111`
/// and extended control register 0 masked with `0xE6` is `0xE6` or `0x6`;
/// AVX-512 exactly where, in addition, that masked value is `0xE6`.
pub proof fn lemma_avx_needs_os_support(
    max_std: u32,
    max_ext: u32,
    leaf1: Regs,
    xcr0: u64,
    leaf7: Regs,
    ext1: Regs,
)
    ensures
        simd_mask(max_std, max_ext, leaf1, xcr0, leaf7, ext1) & SIMDFlags::AVX != 0 ==> max_std >= 1
            && xsave_field(leaf1.ecx) == 0b111 && (xcr0 & 0xE6 == 0xE6 || xcr0 & 0xE6 == 0x6),
        simd_mask(max_std, max_ext, leaf1, xcr0, leaf7, ext1) & SIMDFlags::AVX512 != 0 ==> max_std
            >= 1 && xsave_field(leaf1.ecx) == 0b111 && xcr0 & 0xE6 == 0xE6,
        max_std >= 1 && xsave_field(leaf1.ecx) == 0b111 && (xcr0 & 0xE6 == 0xE6 || xcr0 & 0xE6
            == 0x6) ==> simd_mask(max_std, max_ext, leaf1, xcr0, leaf7, ext1) & SIMDFlags::AVX != 0,
        max_std >= 1 && xsave_field(leaf1.ecx) == 0b111 && xcr0 & 0xE6 == 0xE6 ==> simd_mask(
            max_std,
            max_ext,
            leaf1,
            xcr0,
            leaf7,
            ext1,
        ) & SIMDFlags::AVX512 != 0,
{
    lemma_avx_bits(leaf1.ecx, leaf1.edx, xcr0, leaf7.ebx, ext1.ecx, ext1.edx);
}

proof fn lemma_gate_bits(ecx: u32, edx: u32, xcr0: u64)
    by (bit_vector)
    ensures
        leaf1_simd(ecx, edx, xcr0) & (SIMDFlags::AVX2 | SIMDFlags::SSE4A | SIMDFlags::XOP
            | SIMDFlags::FMA4) == 0,
        0u32 & (SIMDFlags::AVX2 | SIMDFlags::SSE4A | SIMDFlags::XOP | SIMDFlags::FMA4) == 0,
{
}

proof fn lemma_avx_bits(ecx: u32, edx: u32, xcr0: u64, ebx: u32, e_ecx: u32, e_edx: u32)
    by (bit_vector)
    ensures
        ({
            let l1 = leaf1_simd(ecx, edx, xcr0);
            let l7 = leaf7_simd(ebx);
            let e1 = ext1_simd(e_ecx, e_edx);
            let os = xsave_field(ecx) == 0b111;
            &&& 0u32 & SIMDFlags::AVX == 0
            &&& 0u32 & SIMDFlags::AVX512 == 0
            &&& (l1 & SIMDFlags::AVX != 0 || (l1 | l7) & SIMDFlags::AVX != 0 || (l1 | l7 | e1)
                & SIMDFlags::AVX != 0) ==> os && (xcr0 & 0xE6 == 0xE6 || xcr0 & 0xE6 == 0x6)
            &&& (l1 & SIMDFlags::AVX512 != 0 || (l1 | l7) & SIMDFlags::AVX512 != 0 || (l1 | l7
                | e1) & SIMDFlags::AVX512 != 0) ==> os && xcr0 & 0xE6 == 0xE6
            &&& os && (xcr0 & 0xE6 == 0xE6 || xcr0 & 0xE6 == 0x6) ==> l1 & SIMDFlags::AVX != 0 && (l1
                | l7) & SIMDFlags::AVX != 0 && (l1 | l7 | e1) & SIMDFlags::AVX != 0
            &&& os && xcr0 & 0xE6 == 0xE6 ==> l1 & SIMDFlags::AVX512 != 0 && (l1 | l7)
                & SIMDFlags::AVX512 != 0 && (l1 | l7 | e1) & SIMDFlags::AVX512 != 0
        }),
{
}

} // verus!
