use cpuinfo::{brand_string, CPUInfo, CPUModel, CPUVendor, CpuidSnapshot, LeafGate, Probe, Query, Regs, SIMDFlags};

fn regs(eax: u32, ebx: u32, ecx: u32, edx: u32) -> Regs {
    Regs { eax, ebx, ecx, edx }
}

const ALL: Regs = Regs { eax: 0xFFFF_FFFF, ebx: 0xFFFF_FFFF, ecx: 0xFFFF_FFFF, edx: 0xFFFF_FFFF };

/// A simulated processor: a table of leaves, and a log of every query made.
struct Sim {
    leaves: Vec<((u32, u32), Regs)>,
    xcr0: u64,
    log: Vec<Query>,
}

impl Sim {
    fn query(&mut self, leaf: u32, sub: u32) -> Regs {
        self.log.push(Query::Leaf { leaf, sub });
        for (k, r) in self.leaves.iter() {
            if *k == (leaf, sub) {
                return *r;
            }
        }
        panic!("leaf {:#x}/{} is not simulated", leaf, sub)
    }

    fn run(&mut self) -> CpuidSnapshot {
        let leaf0 = self.query(0, 0);
        let mut p = Probe::new(leaf0);
        while let Some(q) = p.next_query() {
            match q {
                Query::Leaf { leaf, sub } => {
                    let r = self.query(leaf, sub);
                    p.supply(r);
                }
                Query::ControlRegister { index } => {
                    assert_eq!(index, 0);
                    self.log.push(q);
                    p.supply_control_register(self.xcr0);
                }
            }
        }
        p.snapshot()
    }
}

fn pack(text: &[u8]) -> [u32; 12] {
    let mut bytes = [0u8; 48];
    bytes[..text.len()].copy_from_slice(text);
    let mut words = [0u32; 12];
    for i in 0..12 {
        words[i] = u32::from_le_bytes([bytes[4 * i], bytes[4 * i + 1], bytes[4 * i + 2], bytes[4 * i + 3]]);
    }
    words
}

fn leaf(words: &[u32; 12], k: usize) -> Regs {
    regs(words[4 * k], words[4 * k + 1], words[4 * k + 2], words[4 * k + 3])
}

/// Leaf 1's ecx with XSAVE, OSXSAVE and AVX set (the field is 0b111).
const XSAVE_ALL: u32 = 0b111 << 26;

#[test]
fn os_enablement_gates_avx() {
    let leaf1 = regs(0, 0, XSAVE_ALL, 0);
    let z = regs(0, 0, 0, 0);

    let f = SIMDFlags::decode(1, 0, &leaf1, 0x6, &z, &z, &z);
    assert!(f.simd(SIMDFlags::AVX));
    assert!(!f.simd(SIMDFlags::AVX512));
    assert!(f.simd(SIMDFlags::XSAVE) && f.simd(SIMDFlags::OSXSAVE));

    let f = SIMDFlags::decode(1, 0, &leaf1, 0xE6, &z, &z, &z);
    assert!(f.simd(SIMDFlags::AVX));
    assert!(f.simd(SIMDFlags::AVX512));

    let f = SIMDFlags::decode(1, 0, &leaf1, 0x0, &z, &z, &z);
    assert!(!f.simd(SIMDFlags::AVX));
    assert!(!f.simd(SIMDFlags::AVX512));
    assert!(f.simd(SIMDFlags::XSAVE) && f.simd(SIMDFlags::OSXSAVE));

    // Bits of the control register outside the 0xE6 mask do not matter.
    let f = SIMDFlags::decode(1, 0, &leaf1, 0xFF07, &z, &z, &z);
    assert!(f.simd(SIMDFlags::AVX));
    assert!(!f.simd(SIMDFlags::AVX512));
}

#[test]
fn xsave_field_without_os_support() {
    let z = regs(0, 0, 0, 0);
    // OSXSAVE and XSAVE, no AVX bit: the control register is ignored.
    let f = SIMDFlags::decode(1, 0, &regs(0, 0, 0b011 << 26, 0), 0xE6, &z, &z, &z);
    assert!(f.simd(SIMDFlags::XSAVE) && f.simd(SIMDFlags::OSXSAVE));
    assert!(!f.simd(SIMDFlags::AVX) && !f.simd(SIMDFlags::AVX512));
    let f = SIMDFlags::decode(1, 0, &regs(0, 0, 0b001 << 26, 0), 0xE6, &z, &z, &z);
    assert!(f.simd(SIMDFlags::XSAVE) && !f.simd(SIMDFlags::OSXSAVE));
    let f = SIMDFlags::decode(1, 0, &regs(0, 0, 0b110 << 26, 0), 0xE6, &z, &z, &z);
    assert!(!f.simd(SIMDFlags::XSAVE | SIMDFlags::OSXSAVE | SIMDFlags::AVX));
}

#[test]
fn leaf1_feature_bits() {
    let z = regs(0, 0, 0, 0);
    let ecx = 1 | (1 << 9) | (1 << 19) | (1 << 20);
    let edx = (1 << 23) | (1 << 25) | (1 << 26);
    let f = SIMDFlags::decode(1, 0, &regs(0, 0, ecx, edx), 0, &z, &z, &z);
    for flag in [SIMDFlags::SSE3, SIMDFlags::SSSE3, SIMDFlags::SSE41, SIMDFlags::SSE42, SIMDFlags::MMX, SIMDFlags::SSE1, SIMDFlags::SSE2] {
        assert!(f.simd(flag));
    }
    assert!(!f.simd(SIMDFlags::AVX2 | SIMDFlags::XSAVE | SIMDFlags::FMA4));
    // Only SSE2.
    let f = SIMDFlags::decode(1, 0, &regs(0, 0, 0, 1 << 26), 0, &z, &z, &z);
    assert!(f.simd(SIMDFlags::SSE2));
    assert!(!f.simd(SIMDFlags::SSE1 | SIMDFlags::MMX | SIMDFlags::SSE3));
}

#[test]
fn leaf7_and_extended_bits() {
    let z = regs(0, 0, 0, 0);
    let leaf7 = regs(0, (1 << 3) | (1 << 16) | (1 << 31), (1 << 1) | (1 << 14), 1 << 8);
    let leaf7_1 = regs(1 << 5, 0, 0, 0);
    let ext1 = regs(0, 0, (1 << 6) | (1 << 11) | (1 << 16), 1 << 23);
    let f = SIMDFlags::decode(7, 0x8000_0001, &z, 0, &leaf7, &leaf7_1, &ext1);
    assert!(f.simd(SIMDFlags::AVX2));
    assert!(f.simd(SIMDFlags::SSE4A) && f.simd(SIMDFlags::XOP) && f.simd(SIMDFlags::FMA4));
    assert!(f.simd(SIMDFlags::MMX));
    for flag in [SIMDFlags::AVX512F, SIMDFlags::AVX512VL, SIMDFlags::AVX512VBMI, SIMDFlags::AVX512VPOPCNTDQ, SIMDFlags::AVX512VP2INTERSECT, SIMDFlags::AVX512BF16] {
        assert!(f.avx512(flag));
    }
    assert!(!f.avx512(SIMDFlags::AVX512DQ | SIMDFlags::AVX512GFNI | SIMDFlags::AVX512VPCLMUL));
    // The extended leaf is not read below its maximum.
    let f = SIMDFlags::decode(7, 0x8000_0000, &z, 0, &leaf7, &leaf7_1, &ext1);
    assert!(f.simd(SIMDFlags::AVX2));
    assert!(!f.simd(SIMDFlags::SSE4A | SIMDFlags::XOP | SIMDFlags::FMA4 | SIMDFlags::MMX));
}

#[test]
fn only_leaf_one_reports_no_later_features() {
    // Leaves 7 and 0x80000001 hold all ones, but the CPU reports leaf 1 as its
    // highest standard leaf and no extended leaf: they are never queried.
    let mut sim = Sim {
        leaves: vec![
            ((0, 0), regs(1, 0x756E6547, 0x6C65746E, 0x49656E69)),
            ((0x8000_0000, 0), regs(0x8000_0000, 0, 0, 0)),
            ((1, 0), regs(0x0005_06E3, 0, XSAVE_ALL | 1, 1 << 26)),
            ((7, 0), ALL),
            ((7, 1), ALL),
            ((0x8000_0001, 0), ALL),
        ],
        xcr0: 0xE6,
        log: Vec::new(),
    };
    let snap = sim.run();
    let f = SIMDFlags::read(&snap);
    for bit in 0..32 {
        assert!(!f.avx512(1 << bit));
    }
    assert!(!f.simd(SIMDFlags::FMA4 | SIMDFlags::XOP | SIMDFlags::SSE4A | SIMDFlags::AVX2));
    assert!(f.simd(SIMDFlags::SSE3) && f.simd(SIMDFlags::SSE2) && f.simd(SIMDFlags::AVX512));
    assert_eq!(
        sim.log,
        vec![
            Query::Leaf { leaf: 0, sub: 0 },
            Query::Leaf { leaf: 1, sub: 0 },
            Query::ControlRegister { index: 0 },
            Query::Leaf { leaf: 0x8000_0000, sub: 0 },
        ]
    );
    // Decoding leaf-7 and extended registers directly with max leaf 1 agrees.
    let direct = SIMDFlags::decode(1, 0x8000_0001, &snap.leaf1, 0xE6, &ALL, &ALL, &ALL);
    assert!(!direct.simd(SIMDFlags::FMA4 | SIMDFlags::XOP | SIMDFlags::SSE4A));
    assert!(!direct.avx512(0xFFFF_FFFF));
}

#[test]
fn no_leaves_gives_defaults() {
    let mut sim = Sim {
        leaves: vec![
            ((0, 0), regs(0, 0x756E6547, 0x6C65746E, 0x49656E69)),
            ((0x8000_0000, 0), regs(0, 0, 0, 0)),
        ],
        xcr0: 0xE6,
        log: Vec::new(),
    };
    let snap = sim.run();
    assert_eq!(sim.log, vec![Query::Leaf { leaf: 0, sub: 0 }]);
    let info = CPUInfo::read(&snap);
    assert_eq!(info.model().vendor(), CPUVendor::Unknown);
    assert_eq!(info.model().model(), CPUModel::Unknown(0x00));
    assert_eq!(info.freq(), (0, 0));
    assert_eq!(info.ids(), (0, 0));
    assert!(!info.x64());
    assert_eq!(info.vbrand(), "");
    assert_eq!(info.pbrand(), "");
    let f = SIMDFlags::read(&snap);
    assert!(!f.simd(0xFFFF_FFFF));
    assert!(!f.avx512(0xFFFF_FFFF));
}

#[test]
fn brand_ascii_then_zero_register() {
    let text = b"Intel(R) Core(TM) i7-8700K CPU @ 3.70GHz";
    let words = pack(text);
    let s = brand_string(&words);
    assert_eq!(s, "Intel(R) Core(TM) i7-8700K CPU @ 3.70GHz");
    assert!(s.len() <= 48);
    assert_eq!(brand_string(&words), s);
}

#[test]
fn brand_edge_cases() {
    assert_eq!(brand_string(&[0u32; 12]), "");
    let full = [u32::from_le_bytes(*b"ABCD"); 12];
    let s = brand_string(&full);
    assert_eq!(s.len(), 48);
    assert_eq!(&s[..8], "ABCDABCD");
    // A NUL in the middle of a register ends the text.
    let mut w = [0u32; 12];
    w[0] = u32::from_le_bytes(*b"AB\0D");
    w[1] = u32::from_le_bytes(*b"EFGH");
    assert_eq!(brand_string(&w), "AB");
    // Bytes that are not UTF-8 are replaced, not trusted.
    let mut w = [0u32; 12];
    w[0] = u32::from_le_bytes([b'A', 0xFF, b'B', 0]);
    assert_eq!(brand_string(&w), "A\u{FFFD}B");
}

#[test]
fn full_descriptor_from_simulated_cpu() {
    let pbrand = pack(b"AMD Ryzen 9 3900X 12-Core Processor");
    let vbrand = pack(b"SimVendor Brand");
    let mut sim = Sim {
        leaves: vec![
            ((0, 0), regs(0x17, 0x68747541, 0x444D4163, 0x69746E65)),
            ((0x8000_0000, 0), regs(0x8000_0004, 0, 0, 0)),
            ((1, 0), regs(0x0087_0F10, 0, 0b011 << 26, 1 << 23)),
            ((7, 0), regs(0, 1 << 3, 0, 0)),
            ((7, 1), regs(0, 0, 0, 0)),
            ((0x16, 0), regs(3800, 4600, 100, 0)),
            ((0x17, 0), regs(2, 0x1022, 0x3900, 0)),
            ((0x17, 1), leaf(&vbrand, 0)),
            ((0x17, 2), leaf(&vbrand, 1)),
            ((0x17, 3), regs(0x4141_4141, 0, 0, 0)),
            ((0x8000_0001, 0), regs(0, 0, 1 << 6, 1 << 29)),
            ((0x8000_0002, 0), leaf(&pbrand, 0)),
            ((0x8000_0003, 0), leaf(&pbrand, 1)),
            ((0x8000_0004, 0), leaf(&pbrand, 2)),
        ],
        xcr0: 0xE6,
        log: Vec::new(),
    };
    let snap = sim.run();
    // Leaf 0x17 counts two brand sub-leaves: the third is never read, and
    // the control register is not read without the OS-enabled pattern.
    assert!(!sim.log.contains(&Query::Leaf { leaf: 0x17, sub: 3 }));
    assert!(!sim.log.contains(&Query::ControlRegister { index: 0 }));
    assert_eq!(sim.log.len(), 13);
    let info = CPUInfo::read(&snap);
    assert_eq!(info.freq(), (3800, 4600));
    assert_eq!(info.ids(), (0x1022, 0x3900));
    assert!(info.x64());
    assert_eq!(info.vbrand(), "SimVendor Brand");
    assert_eq!(info.pbrand(), "AMD Ryzen 9 3900X 12-Core Processor");
    assert_eq!(info.model().vendor(), CPUVendor::AMD);
    assert_eq!(info.model().model(), CPUModel::Zen2(0x71));
    let f = SIMDFlags::read(&snap);
    assert!(f.simd(SIMDFlags::AVX2) && f.simd(SIMDFlags::SSE4A) && f.simd(SIMDFlags::MMX));
    assert!(!f.simd(SIMDFlags::AVX));
}

#[test]
fn vendor_brand_count_is_clamped_to_three() {
    let mut snap = CpuidSnapshot::new(regs(0x17, 0, 0, 0), regs(0, 0, 0, 0));
    snap.leaf17 = regs(9, 0, 0, 0);
    snap.leaf17_1 = regs(u32::from_le_bytes(*b"abcd"), 0, 0, 0);
    snap.leaf17_3 = regs(u32::from_le_bytes(*b"wxyz"), 0, 0, 0);
    assert_eq!(CPUInfo::read(&snap).vbrand(), "abcd");
    let mut p = Probe::new(regs(0x17, 0, 0, 0));
    let mut asked = Vec::new();
    while let Some(q) = p.next_query() {
        asked.push(q);
        let r = if q == (Query::Leaf { leaf: 0x17, sub: 0 }) { regs(9, 0, 0, 0) } else { regs(0, 0, 0, 0) };
        p.supply(r);
    }
    let subs: Vec<u32> = asked
        .iter()
        .filter_map(|q| match q {
            Query::Leaf { leaf: 0x17, sub } => Some(*sub),
            _ => None,
        })
        .collect();
    assert_eq!(subs, vec![0, 1, 2, 3]);
}

#[test]
fn leaf_gate_ranges() {
    let g = LeafGate::new(0x16, 0x8000_0004);
    assert!(g.supports(0) && g.supports(1) && g.supports(0x16));
    assert!(!g.supports(0x17));
    assert!(g.supports(0x8000_0000) && g.supports(0x8000_0004));
    assert!(!g.supports(0x8000_0005));
    let none = LeafGate::new(0, 0);
    assert!(none.supports(0) && none.supports(0x8000_0000));
    assert!(!none.supports(1) && !none.supports(0x8000_0001));
}

#[test]
fn supply_out_of_turn_changes_nothing() {
    let mut p = Probe::new(regs(1, 0, 0, 0));
    p.supply_control_register(0xE6);
    assert_eq!(p.snapshot().xcr0, 0);
    assert_eq!(p.next_query(), Some(Query::Leaf { leaf: 1, sub: 0 }));
    p.supply(regs(0, 0, 0, 0));
    assert_eq!(p.next_query(), Some(Query::Leaf { leaf: 0x8000_0000, sub: 0 }));
    p.supply(regs(0, 0, 0, 0));
    assert_eq!(p.next_query(), None);
    p.supply(ALL);
    assert_eq!(p.snapshot().leaf1, regs(0, 0, 0, 0));
}

#[test]
fn simd_report_lists_present_extensions() {
    let z = regs(0, 0, 0, 0);
    let empty = SIMDFlags::decode(0, 0, &z, 0, &z, &z, &z);
    assert_eq!(empty.report(), "CPU SIMD features\nSIMD 128-bit:\nSIMD 256-bit:\nSIMD 512-bit:\n");
    let f = SIMDFlags::decode(1, 0, &regs(0, 0, XSAVE_ALL, (1 << 23) | (1 << 25)), 0x6, &z, &z, &z);
    assert_eq!(
        f.report(),
        "CPU SIMD features\n  MMX\n\nSIMD 128-bit:\n  SSE    (Streaming SIMD Extensions)\nSIMD 256-bit:\n  AVX    (Advanced Vector Extensions)\nSIMD 512-bit:\n"
    );
}

#[test]
fn no_leaves_ignores_extended_range() {
    // Leaf 0 reports no further leaf; the extended range would reach the
    // brand leaves, but nothing past leaf 0 is queried or decoded.
    let pbrand = pack(b"Some Brand");
    let mut sim = Sim {
        leaves: vec![
            ((0, 0), regs(0, 0x756E6547, 0x6C65746E, 0x49656E69)),
            ((0x8000_0000, 0), regs(0x8000_0004, 0, 0, 0)),
            ((0x8000_0001, 0), ALL),
            ((0x8000_0002, 0), leaf(&pbrand, 0)),
            ((0x8000_0003, 0), leaf(&pbrand, 1)),
            ((0x8000_0004, 0), leaf(&pbrand, 2)),
        ],
        xcr0: 0xE6,
        log: Vec::new(),
    };
    let snap = sim.run();
    assert_eq!(sim.log, vec![Query::Leaf { leaf: 0, sub: 0 }]);
    // Decoding a snapshot that does hold the extended leaves still gives
    // the defaults.
    let mut full = snap;
    full.ext0 = regs(0x8000_0004, 0, 0, 0);
    full.ext1 = ALL;
    full.ext2 = leaf(&pbrand, 0);
    full.ext3 = leaf(&pbrand, 1);
    full.ext4 = leaf(&pbrand, 2);
    for s in [snap, full] {
        let info = CPUInfo::read(&s);
        assert_eq!(info.vbrand(), "");
        assert_eq!(info.pbrand(), "");
        assert!(!info.x64());
        assert_eq!(info.freq(), (0, 0));
        assert_eq!(info.ids(), (0, 0));
        assert_eq!(info.model().vendor(), CPUVendor::Unknown);
        assert_eq!(info.model().model(), CPUModel::Unknown(0x00));
        let f = SIMDFlags::read(&s);
        assert!(!f.simd(0xFFFF_FFFF) && !f.avx512(0xFFFF_FFFF));
    }
}

#[test]
fn vendor_brand_count_is_the_low_byte() {
    let mut snap = CpuidSnapshot::new(regs(0x17, 0, 0, 0), regs(0, 0, 0, 0));
    snap.leaf17 = regs(0x100, 0, 0, 0);
    snap.leaf17_1 = regs(u32::from_le_bytes(*b"A\0\0\0"), 0, 0, 0);
    assert_eq!(CPUInfo::read(&snap).vbrand(), "");
    snap.leaf17 = regs(0x101, 0, 0, 0);
    assert_eq!(CPUInfo::read(&snap).vbrand(), "A");
    // The probe asks for no brand sub-leaf when the low byte is zero.
    let mut p = Probe::new(regs(0x17, 0, 0, 0));
    let mut asked = Vec::new();
    while let Some(q) = p.next_query() {
        asked.push(q);
        let r = if q == (Query::Leaf { leaf: 0x17, sub: 0 }) { regs(0x300, 0, 0, 0) } else { regs(0, 0, 0, 0) };
        p.supply(r);
    }
    assert!(asked.contains(&Query::Leaf { leaf: 0x17, sub: 0 }));
    assert!(!asked.contains(&Query::Leaf { leaf: 0x17, sub: 1 }));
}

#[test]
fn brand_reassembles_to_itself() {
    let s = brand_string(&pack(b"Genuine Brand 3.0GHz"));
    let again = brand_string(&pack(s.as_bytes()));
    assert_eq!(again, s);
    assert!(!s.contains('\0'));
}
