use vstd::prelude::*;

verus! {

/// Manufacturer of the processor, as identified by leaf 0's vendor ID.
#[derive(Debug, Clone, Copy, PartialEq, Eq, Structural)]
pub enum CPUVendor {
    /// Intel Corporation.
    Intel,
    /// Advanced Micro Devices.
    AMD,
    /// Centaur Technology.
    Centaur,
    /// Hygon, a joint venture of AMD.
    Hygon,
    /// Transmeta Corporation.
    Transmeta,
    /// Cyrix Corporation.
    Cyrix,
    /// Rise Technology.
    Rise,
    /// National Semiconductor.
    NSC,
    /// Silicon Integrated Systems.
    SIS,
    /// NexGen.
    NexGen,
    /// United Microelectronics Corporation.
    UMC,
    /// RDC Semiconductor.
    RDC,
    /// DM&P Electronics.
    DMP,
    /// Shanghai Zhaoxin Semiconductor.
    Zhaoxin,
    /// Elbrus.
    Elbrus,
    /// A vendor ID that is not in the table.
    Unknown,
}

/// The vendor that a vendor ID `(ebx, edx, ecx)` of leaf 0 names.
///
/// Each arm is one known 12-character ID string, four ASCII bytes per
/// register in little-endian order ("GenuineIntel", "AuthenticAMD", ...).
pub open spec fn vendor_of(id: (u32, u32, u32)) -> CPUVendor {
    match id {
        (0x756E6547, 0x49656E69, 0x6C65746E) => CPUVendor::Intel,
        (0x68747541, 0x69746E65, 0x444D4163) => CPUVendor::AMD,
        (0x69444D41, 0x74656273, 0x21726574) => CPUVendor::AMD,
        (0x20444D41, 0x45425349, 0x52455454) => CPUVendor::AMD,
        (0x746E6543, 0x48727561, 0x736C7561) => CPUVendor::Centaur,
        (0x20414956, 0x20414956, 0x20414956) => CPUVendor::Centaur,
        (0x6E617254, 0x74656D73, 0x55504361) => CPUVendor::Transmeta,
        (0x756E6547, 0x54656E69, 0x3638784D) => CPUVendor::Transmeta,
        (0x6F677948, 0x6E65476E, 0x656E6975) => CPUVendor::Hygon,
        (0x69727943, 0x736E4978, 0x64616574) => CPUVendor::Cyrix,
        (0x65736952, 0x65736952, 0x65736952) => CPUVendor::Rise,
        (0x646F6547, 0x79622065, 0x43534E20) => CPUVendor::NSC,
        (0x20536953, 0x20536953, 0x20536953) => CPUVendor::SIS,
        (0x4778654E, 0x72446E65, 0x6E657669) => CPUVendor::NexGen,
        (0x20434D55, 0x20434D55, 0x20434D55) => CPUVendor::UMC,
        (0x756E6547, 0x20656E69, 0x43445220) => CPUVendor::RDC,
        (0x74726F56, 0x36387865, 0x436F5320) => CPUVendor::DMP,
        (0x68532020, 0x68676E61, 0x20206961) => CPUVendor::Zhaoxin,
        _ => CPUVendor::Unknown,
    }
}

/// Display name of a vendor; empty for the vendors without one.
pub open spec fn vendor_name(v: CPUVendor) -> Seq<char> {
    match v {
        CPUVendor::Intel => "Intel"@,
        CPUVendor::AMD => "AMD"@,
        CPUVendor::Centaur => "Centaur"@,
        CPUVendor::Hygon => "Hygon"@,
        CPUVendor::Transmeta => "Transmeta"@,
        CPUVendor::Cyrix => "Cyrix"@,
        CPUVendor::Rise => ""@,
        CPUVendor::NSC => "National Semiconductors"@,
        CPUVendor::SIS => "Silicon Integrated Systems"@,
        CPUVendor::NexGen => "NexGen"@,
        CPUVendor::UMC => ""@,
        CPUVendor::RDC => ""@,
        CPUVendor::DMP => "DM&P"@,
        CPUVendor::Zhaoxin => "Zhaoxin"@,
        CPUVendor::Elbrus => "Elbrus"@,
        CPUVendor::Unknown => "Unknown"@,
    }
}

impl CPUVendor {
    /// Returns the display name of the vendor.
    pub fn name(&self) -> (r: &'static str)
        ensures
            r@ == vendor_name(*self),
    {
        match *self {
            CPUVendor::Intel => "Intel",
            CPUVendor::AMD => "AMD",
            CPUVendor::Centaur => "Centaur",
            CPUVendor::Hygon => "Hygon",
            CPUVendor::Transmeta => "Transmeta",
            CPUVendor::Cyrix => "Cyrix",
            CPUVendor::Rise => "",
            CPUVendor::NSC => "National Semiconductors",
            CPUVendor::SIS => "Silicon Integrated Systems",
            CPUVendor::NexGen => "NexGen",
            CPUVendor::UMC => "",
            CPUVendor::RDC => "",
            CPUVendor::DMP => "DM&P",
            CPUVendor::Zhaoxin => "Zhaoxin",
            CPUVendor::Elbrus => "Elbrus",
            CPUVendor::Unknown => "Unknown",
        }
    }

    /// Decodes the vendor from leaf 0's `(ebx, edx, ecx)`: an exact match
    /// against the table of known IDs, `Unknown` for any other triple.
    pub fn from(string: (u32, u32, u32)) -> (r: CPUVendor)
        ensures
            r == vendor_of(string),
    {
        match string {
            (0x756E6547, 0x49656E69, 0x6C65746E) => CPUVendor::Intel,
            (0x68747541, 0x69746E65, 0x444D4163) => CPUVendor::AMD,
            (0x69444D41, 0x74656273, 0x21726574) => CPUVendor::AMD,
            (0x20444D41, 0x45425349, 0x52455454) => CPUVendor::AMD,
            (0x746E6543, 0x48727561, 0x736C7561) => CPUVendor::Centaur,
            (0x20414956, 0x20414956, 0x20414956) => CPUVendor::Centaur,
            (0x6E617254, 0x74656D73, 0x55504361) => CPUVendor::Transmeta,
            (0x756E6547, 0x54656E69, 0x3638784D) => CPUVendor::Transmeta,
            (0x6F677948, 0x6E65476E, 0x656E6975) => CPUVendor::Hygon,
            (0x69727943, 0x736E4978, 0x64616574) => CPUVendor::Cyrix,
            (0x65736952, 0x65736952, 0x65736952) => CPUVendor::Rise,
            (0x646F6547, 0x79622065, 0x43534E20) => CPUVendor::NSC,
            (0x20536953, 0x20536953, 0x20536953) => CPUVendor::SIS,
            (0x4778654E, 0x72446E65, 0x6E657669) => CPUVendor::NexGen,
            (0x20434D55, 0x20434D55, 0x20434D55) => CPUVendor::UMC,
            (0x756E6547, 0x20656E69, 0x43445220) => CPUVendor::RDC,
            (0x74726F56, 0x36387865, 0x436F5320) => CPUVendor::DMP,
            (0x68532020, 0x68676E61, 0x20206961) => CPUVendor::Zhaoxin,
            _ => CPUVendor::Unknown,
        }
    }
}

} // verus!
