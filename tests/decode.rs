use cpuinfo::{CPUModel, CPUVendor, CpuidSnapshot, Model, Regs};

fn regs(eax: u32, ebx: u32, ecx: u32, edx: u32) -> Regs {
    Regs { eax, ebx, ecx, edx }
}

#[test]
fn vendor_table_entries() {
    let table: [((u32, u32, u32), CPUVendor); 18] = [
        ((0x756E6547, 0x49656E69, 0x6C65746E), CPUVendor::Intel),
        ((0x68747541, 0x69746E65, 0x444D4163), CPUVendor::AMD),
        ((0x69444D41, 0x74656273, 0x21726574), CPUVendor::AMD),
        ((0x20444D41, 0x45425349, 0x52455454), CPUVendor::AMD),
        ((0x746E6543, 0x48727561, 0x736C7561), CPUVendor::Centaur),
        ((0x20414956, 0x20414956, 0x20414956), CPUVendor::Centaur),
        ((0x6E617254, 0x74656D73, 0x55504361), CPUVendor::Transmeta),
        ((0x756E6547, 0x54656E69, 0x3638784D), CPUVendor::Transmeta),
        ((0x6F677948, 0x6E65476E, 0x656E6975), CPUVendor::Hygon),
        ((0x69727943, 0x736E4978, 0x64616574), CPUVendor::Cyrix),
        ((0x65736952, 0x65736952, 0x65736952), CPUVendor::Rise),
        ((0x646F6547, 0x79622065, 0x43534E20), CPUVendor::NSC),
        ((0x20536953, 0x20536953, 0x20536953), CPUVendor::SIS),
        ((0x4778654E, 0x72446E65, 0x6E657669), CPUVendor::NexGen),
        ((0x20434D55, 0x20434D55, 0x20434D55), CPUVendor::UMC),
        ((0x756E6547, 0x20656E69, 0x43445220), CPUVendor::RDC),
        ((0x74726F56, 0x36387865, 0x436F5320), CPUVendor::DMP),
        ((0x68532020, 0x68676E61, 0x20206961), CPUVendor::Zhaoxin),
    ];
    for (id, vendor) in table.iter() {
        assert_eq!(CPUVendor::from(*id), *vendor);
    }
}

#[test]
fn vendor_id_spells_genuine_intel() {
    // "Genu" "ineI" "ntel", four bytes per register, lowest first.
    let ebx = u32::from_le_bytes(*b"Genu");
    let edx = u32::from_le_bytes(*b"ineI");
    let ecx = u32::from_le_bytes(*b"ntel");
    assert_eq!(CPUVendor::from((ebx, edx, ecx)), CPUVendor::Intel);
    let amd = (
        u32::from_le_bytes(*b"Auth"),
        u32::from_le_bytes(*b"enti"),
        u32::from_le_bytes(*b"cAMD"),
    );
    assert_eq!(CPUVendor::from(amd), CPUVendor::AMD);
}

#[test]
fn vendor_unknown_tuples() {
    assert_eq!(CPUVendor::from((0, 0, 0)), CPUVendor::Unknown);
    // Intel's registers in alphabetical order instead of (ebx, edx, ecx).
    assert_eq!(CPUVendor::from((0x756E6547, 0x6C65746E, 0x49656E69)), CPUVendor::Unknown);
    assert_eq!(CPUVendor::from((0x756E6547, 0x49656E69, 0x6C65746F)), CPUVendor::Unknown);
}

#[test]
fn vendor_decoding_is_repeatable() {
    let id = (0x68747541, 0x69746E65, 0x444D4163);
    assert_eq!(CPUVendor::from(id), CPUVendor::from(id));
    let odd = (1, 2, 3);
    assert_eq!(CPUVendor::from(odd), CPUVendor::from(odd));
}

#[test]
fn model_table_scenarios() {
    assert_eq!(CPUModel::from(CPUVendor::Intel, 0x06, 0x5E, 0x5), CPUModel::SkyLake(0x5E));
    assert_eq!(CPUModel::from(CPUVendor::AMD, 0x17, 0x71, 0x7), CPUModel::Zen2(0x71));
    assert_eq!(CPUModel::from(CPUVendor::AMD, 0x16, 0x02, 0x0), CPUModel::Jaguar(0x02));
    assert_eq!(CPUModel::from(CPUVendor::AMD, 0x16, 0x05, 0x0), CPUModel::Puma(0x05));
    assert_eq!(CPUModel::from(CPUVendor::AMD, 0x16, 0x03, 0x0), CPUModel::Puma(0x03));
    assert_eq!(CPUModel::from(CPUVendor::AMD, 0x16, 0x00, 0x0), CPUModel::Jaguar(0x00));
}

#[test]
fn model_table_intel() {
    assert_eq!(CPUModel::from(CPUVendor::Intel, 0x05, 0x04, 0), CPUModel::Pentium5(0x04));
    assert_eq!(CPUModel::from(CPUVendor::Intel, 0x05, 0x09, 0), CPUModel::Quark(0x09));
    assert_eq!(CPUModel::from(CPUVendor::Intel, 0x06, 0x2A, 2), CPUModel::SandyBridge(0x2A));
    assert_eq!(CPUModel::from(CPUVendor::Intel, 0x06, 0x7E, 7), CPUModel::SunnyCove(0x7E));
    assert_eq!(CPUModel::from(CPUVendor::Intel, 0x06, 0x85, 8), CPUModel::KnightsMill(0x85));
    assert_eq!(CPUModel::from(CPUVendor::Intel, 0x0F, 0x00, 0), CPUModel::Willamette(0x00));
    assert_eq!(CPUModel::from(CPUVendor::Intel, 0x0F, 0x06, 0), CPUModel::Prescott(0x06));
}

#[test]
fn model_table_amd() {
    assert_eq!(CPUModel::from(CPUVendor::AMD, 0x05, 0x0A, 0), CPUModel::Geode(0x0A));
    assert_eq!(CPUModel::from(CPUVendor::AMD, 0x06, 0x44, 4), CPUModel::K7(0x06));
    assert_eq!(CPUModel::from(CPUVendor::AMD, 0x11, 0x03, 0), CPUModel::K8(0x11));
    assert_eq!(CPUModel::from(CPUVendor::AMD, 0x12, 0x01, 0), CPUModel::K10(0x12));
    assert_eq!(CPUModel::from(CPUVendor::AMD, 0x14, 0x02, 0), CPUModel::Bobcat(0x14));
    assert_eq!(CPUModel::from(CPUVendor::AMD, 0x19, 0x21, 2), CPUModel::Zen3(0x21));
    assert_eq!(CPUModel::from(CPUVendor::AMD, 0x17, 0x08, 0), CPUModel::Zen(0x08));
}

#[test]
fn model_amd_family_15_extended_model_fallback() {
    assert_eq!(CPUModel::from(CPUVendor::AMD, 0x15, 0x13, 1), CPUModel::Piledriver(0x13));
    assert_eq!(CPUModel::from(CPUVendor::AMD, 0x15, 0x65, 6), CPUModel::Excavator(0x65));
    // Models missing from the primary table fall back on the extended model.
    assert_eq!(CPUModel::from(CPUVendor::AMD, 0x15, 0x05, 0), CPUModel::Bulldozer(0x00));
    assert_eq!(CPUModel::from(CPUVendor::AMD, 0x15, 0x1F, 1), CPUModel::Piledriver(0x01));
    assert_eq!(CPUModel::from(CPUVendor::AMD, 0x15, 0x2F, 2), CPUModel::Piledriver(0x02));
    assert_eq!(CPUModel::from(CPUVendor::AMD, 0x15, 0x3F, 3), CPUModel::Steamroller(0x03));
    assert_eq!(CPUModel::from(CPUVendor::AMD, 0x15, 0x4F, 4), CPUModel::Steamroller(0x04));
    assert_eq!(CPUModel::from(CPUVendor::AMD, 0x15, 0x5F, 5), CPUModel::Unknown(0x00));
}

#[test]
fn model_untabulated_is_unknown() {
    assert_eq!(CPUModel::from(CPUVendor::Intel, 0x06, 0x02, 0), CPUModel::Unknown(0x00));
    assert_eq!(CPUModel::from(CPUVendor::Intel, 0x07, 0x01, 0), CPUModel::Unknown(0x00));
    assert_eq!(CPUModel::from(CPUVendor::AMD, 0x17, 0x72, 7), CPUModel::Unknown(0x00));
    assert_eq!(CPUModel::from(CPUVendor::AMD, 0x18, 0x01, 0), CPUModel::Unknown(0x00));
    assert_eq!(CPUModel::from(CPUVendor::Hygon, 0x18, 0x00, 0), CPUModel::Unknown(0x00));
    assert_eq!(CPUModel::from(CPUVendor::Cyrix, 0x05, 0x04, 0), CPUModel::Unknown(0x00));
    assert_eq!(CPUModel::from(CPUVendor::Unknown, 0x06, 0x5E, 5), CPUModel::Unknown(0x00));
}

#[test]
fn model_hygon_dhyana() {
    assert_eq!(CPUModel::from(CPUVendor::Hygon, 0x00, 0x00, 0), CPUModel::Dhyana(0x00));
}

#[test]
fn model_decoding_is_repeatable() {
    let a = CPUModel::from(CPUVendor::AMD, 0x15, 0x22, 2);
    let b = CPUModel::from(CPUVendor::AMD, 0x15, 0x22, 2);
    assert_eq!(a, b);
    assert_eq!(a, CPUModel::Piledriver(0x02));
}

fn intel_leaf0(max: u32) -> Regs {
    regs(max, 0x756E6547, 0x6C65746E, 0x49656E69)
}

fn amd_leaf0(max: u32) -> Regs {
    regs(max, 0x68747541, 0x444D4163, 0x69746E65)
}

#[test]
fn model_read_combines_fields() {
    // Family 6, model 0xE, extended model 5: Sky Lake client, model 0x5E.
    let mut snap = CpuidSnapshot::new(intel_leaf0(0x16), regs(0x8000_0008, 0, 0, 0));
    snap.leaf1 = regs(0x0005_06E3, 0, 0, 0);
    let m = Model::read(&snap);
    assert_eq!(m.vendor(), CPUVendor::Intel);
    assert_eq!(m.model(), CPUModel::SkyLake(0x5E));

    // Base family 0xF plus extended family 8 is 0x17; model 1 + 0x70.
    let mut snap = CpuidSnapshot::new(amd_leaf0(0x10), regs(0x8000_0020, 0, 0, 0));
    snap.leaf1 = regs(0x0087_0F10, 0, 0, 0);
    let m = Model::read(&snap);
    assert_eq!(m.vendor(), CPUVendor::AMD);
    assert_eq!(m.model(), CPUModel::Zen2(0x71));
}

#[test]
fn model_read_without_leaves_is_empty() {
    let mut snap = CpuidSnapshot::new(intel_leaf0(0), regs(0, 0, 0, 0));
    snap.leaf1 = regs(0x0005_06E3, 0, 0, 0);
    let m = Model::read(&snap);
    assert_eq!(m.vendor(), CPUVendor::Unknown);
    assert_eq!(m.model(), CPUModel::Unknown(0x00));
    let e = Model::empty();
    assert_eq!(e, m);
    assert_eq!(Model::read(&snap), Model::read(&snap));
}

#[test]
fn vendor_names() {
    assert_eq!(CPUVendor::Intel.name(), "Intel");
    assert_eq!(CPUVendor::NSC.name(), "National Semiconductors");
    assert_eq!(CPUVendor::DMP.name(), "DM&P");
    assert_eq!(CPUVendor::Rise.name(), "");
    assert_eq!(CPUVendor::Unknown.name(), "Unknown");
}

#[test]
fn model_descriptions() {
    assert_eq!(CPUModel::Pentium5(0x01).description(), "Pentium (800 nm)");
    assert_eq!(CPUModel::Zen3(0x21).description(), "Zen 3 - Ryzen 5000 (7 nm)\n[Desktop CPU] 'Vermeer'");
    assert_eq!(CPUModel::Dhyana(0x00).description(), "Dhyana");
    assert_eq!(CPUModel::Unknown(0x00).description(), "Unknown architecture");
    assert_eq!(CPUModel::Unknown(0x01).description(), "Inconsistent data");
    assert_eq!(CPUModel::SkyLake(0x01).description(), "Inconsistent data");
    assert_eq!(CPUModel::Jaguar(0x02).description(), "Jaguar");
    assert_eq!(CPUModel::Jaguar(0x03).description(), "Inconsistent data");
    assert_eq!(CPUModel::Puma(0x05).description(), "Puma");
    assert_eq!(CPUModel::Puma(0x01).description(), "Inconsistent data");
}

#[test]
fn model_text_lines() {
    let mut snap = CpuidSnapshot::new(intel_leaf0(1), regs(0, 0, 0, 0));
    snap.leaf1 = regs(0x0000_0611, 0, 0, 0);
    let m = Model::read(&snap);
    assert_eq!(m.model(), CPUModel::Pentium6(0x01));
    assert_eq!(m.text(), "Intel\nPentium Pro (350 nm)\n");
    assert_eq!(Model::empty().text(), "Unknown\nUnknown architecture\n");
}
