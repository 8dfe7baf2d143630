use vstd::prelude::*;
use crate::vendor::CPUVendor;

verus! {

/// Microarchitecture of the processor, carrying the model byte that matched.
#[derive(Debug, Clone, Copy, PartialEq, Eq, Structural)]
pub enum CPUModel {
    // Intel
    Pentium5(u8),
    Pentium6(u8),
    Quark(u8),
    Dothan(u8),
    Yonah(u8),
    Conroe(u8),
    Penryn(u8),
    Nehalem(u8),
    SandyBridge(u8),
    IvyBridge(u8),
    Haswell(u8),
    Broadwell(u8),
    SkyLake(u8),
    PalmCove(u8),
    SunnyCove(u8),
    Bonnel(u8),
    Saltwell(u8),
    Silvermont(u8),
    Airmont(u8),
    Goldmont(u8),
    GoldmontPlus(u8),
    KnightsLanding(u8),
    KnightsMill(u8),
    Willamette(u8),
    Prescott(u8),
    // AMD
    K5(u8),
    K6(u8),
    Geode(u8),
    K7(u8),
    K8(u8),
    K10(u8),
    Bobcat(u8),
    Bulldozer(u8),
    Piledriver(u8),
    Steamroller(u8),
    Excavator(u8),
    Puma(u8),
    Jaguar(u8),
    Zen(u8),
    Zen2(u8),
    Zen3(u8),
    // Hygon
    Dhyana(u8),
    /// No table entry; decoding gives it the byte 0.
    Unknown(u8),
}

/// Intel family 0x05: each listed model maps to its variant, carrying the model.
pub open spec fn intel_family_5(m: u32) -> CPUModel {
    let b = m as u8;
    if 0x01 <= m <= 0x04 {
        CPUModel::Pentium5(b)
    } else if m == 0x09 {
        CPUModel::Quark(b)
    } else {
        CPUModel::Unknown(0)
    }
}

/// Intel family 0x06, Pentium Pro through Ice Lake.
pub open spec fn intel_family_6(m: u32) -> CPUModel {
    let b = m as u8;
    if m == 0x01 || m == 0x03 || m == 0x05 || m == 0x06 || m == 0x07 || m == 0x08 || m == 0x0A
        || m == 0x0B {
        CPUModel::Pentium6(b)
    } else if m == 0x09 || m == 0x0D || m == 0x15 {
        CPUModel::Dothan(b)
    } else if m == 0x0E {
        CPUModel::Yonah(b)
    } else if m == 0x0F || m == 0x16 {
        CPUModel::Conroe(b)
    } else if m == 0x17 || m == 0x1D {
        CPUModel::Penryn(b)
    } else if m == 0x1A || m == 0x1E || m == 0x1F || m == 0x2E || m == 0x25 || m == 0x2C || m
        == 0x2F {
        CPUModel::Nehalem(b)
    } else if m == 0x2A || m == 0x2D {
        CPUModel::SandyBridge(b)
    } else if m == 0x3A || m == 0x3E {
        CPUModel::IvyBridge(b)
    } else if m == 0x3C || m == 0x3F || m == 0x45 || m == 0x46 {
        CPUModel::Haswell(b)
    } else if m == 0x3D || m == 0x47 || m == 0x4F || m == 0x56 {
        CPUModel::Broadwell(b)
    } else if m == 0x4E || m == 0x55 || m == 0x5E || m == 0x8E || m == 0x9E || m == 0xA5 || m
        == 0xA6 {
        CPUModel::SkyLake(b)
    } else if m == 0x66 {
        CPUModel::PalmCove(b)
    } else if m == 0x6A || m == 0x6C || m == 0x7D || m == 0x7E {
        CPUModel::SunnyCove(b)
    } else if m == 0x1C || m == 0x26 {
        CPUModel::Bonnel(b)
    } else if m == 0x27 || m == 0x35 || m == 0x36 {
        CPUModel::Saltwell(b)
    } else if m == 0x37 || m == 0x4A || m == 0x4D || m == 0x5A || m == 0x5D {
        CPUModel::Silvermont(b)
    } else if m == 0x4C || m == 0x75 {
        CPUModel::Airmont(b)
    } else if m == 0x5C || m == 0x5F {
        CPUModel::Goldmont(b)
    } else if m == 0x7A {
        CPUModel::GoldmontPlus(b)
    } else if m == 0x57 {
        CPUModel::KnightsLanding(b)
    } else if m == 0x85 {
        CPUModel::KnightsMill(b)
    } else {
        CPUModel::Unknown(0)
    }
}

/// Intel family 0x0F, the NetBurst generation.
pub open spec fn intel_family_f(m: u32) -> CPUModel {
    let b = m as u8;
    if m <= 0x02 {
        CPUModel::Willamette(b)
    } else if m == 0x03 || m == 0x04 || m == 0x06 {
        CPUModel::Prescott(b)
    } else {
        CPUModel::Unknown(0)
    }
}

/// AMD family 0x05.
pub open spec fn amd_family_5(m: u32) -> CPUModel {
    let b = m as u8;
    if m <= 0x02 {
        CPUModel::K5(b)
    } else if m == 0x06 || m == 0x07 || m == 0x08 || m == 0x0D {
        CPUModel::K6(b)
    } else if m == 0x0A {
        CPUModel::Geode(b)
    } else {
        CPUModel::Unknown(0)
    }
}

/// AMD family 0x15 (Bulldozer and its derivatives): the full model byte
/// first, and for a model that is not listed, the extended model alone.
pub open spec fn amd_family_15(m: u32, xm: u32) -> CPUModel {
    let b = m as u8;
    if m <= 0x01 {
        CPUModel::Bulldozer(b)
    } else if m == 0x02 || m == 0x10 || m == 0x13 {
        CPUModel::Piledriver(b)
    } else if m == 0x30 || m == 0x38 {
        CPUModel::Steamroller(b)
    } else if m == 0x60 || m == 0x65 || m == 0x70 {
        CPUModel::Excavator(b)
    } else if xm == 0x00 {
        CPUModel::Bulldozer(0x00)
    } else if xm == 0x01 || xm == 0x02 {
        CPUModel::Piledriver(xm as u8)
    } else if xm == 0x03 || xm == 0x04 {
        CPUModel::Steamroller(xm as u8)
    } else {
        CPUModel::Unknown(0)
    }
}

/// AMD family 0x17 (Zen, Zen 2).
pub open spec fn amd_family_17(m: u32) -> CPUModel {
    let b = m as u8;
    if m == 0x01 || m == 0x08 || m == 0x11 || m == 0x18 {
        CPUModel::Zen(b)
    } else if m == 0x31 || m == 0x60 || m == 0x68 || m == 0x71 || m == 0x90 || m == 0x98 {
        CPUModel::Zen2(b)
    } else {
        CPUModel::Unknown(0)
    }
}

/// AMD family 0x19 (Zen 3).
pub open spec fn amd_family_19(m: u32) -> CPUModel {
    if m == 0x01 || m == 0x21 || m == 0x30 || m == 0x40 || m == 0x50 {
        CPUModel::Zen3(m as u8)
    } else {
        CPUModel::Unknown(0)
    }
}

/// AMD, by family. Families tabulated as a whole carry the family number;
/// family 0x16 is Puma from model 3 on and Jaguar below.
pub open spec fn amd_model(f: u32, m: u32, xm: u32) -> CPUModel {
    if f == 0x05 {
        amd_family_5(m)
    } else if f == 0x06 {
        CPUModel::K7(0x06)
    } else if f == 0x0F || f == 0x11 {
        CPUModel::K8(f as u8)
    } else if f == 0x10 || f == 0x12 {
        CPUModel::K10(f as u8)
    } else if f == 0x14 {
        CPUModel::Bobcat(0x14)
    } else if f == 0x15 {
        amd_family_15(m, xm)
    } else if f == 0x16 {
        if m >= 3 {
            CPUModel::Puma(m as u8)
        } else {
            CPUModel::Jaguar(m as u8)
        }
    } else if f == 0x17 {
        amd_family_17(m)
    } else if f == 0x19 {
        amd_family_19(m)
    } else {
        CPUModel::Unknown(0)
    }
}

/// The microarchitecture of a (vendor, family, model) triple, with the
/// extended model as the tie-break of AMD family 0x15.
pub open spec fn model_of(vendor: CPUVendor, family: u32, model: u32, xmodel: u32) -> CPUModel {
    match vendor {
        CPUVendor::Intel => if family == 0x05 {
            intel_family_5(model)
        } else if family == 0x06 {
            intel_family_6(model)
        } else if family == 0x0F {
            intel_family_f(model)
        } else {
            CPUModel::Unknown(0)
        },
        CPUVendor::AMD => amd_model(family, model, xmodel),
        CPUVendor::Hygon => if family == 0x00 {
            CPUModel::Dhyana(0x00)
        } else {
            CPUModel::Unknown(0)
        },
        _ => CPUModel::Unknown(0),
    }
}

fn intel_5(model: u32) -> (r: CPUModel)
    ensures
        r == intel_family_5(model),
{
    match model {
        0x01 => CPUModel::Pentium5(0x01),
        0x02 => CPUModel::Pentium5(0x02),
        0x03 => CPUModel::Pentium5(0x03),
        0x04 => CPUModel::Pentium5(0x04),
        0x09 => CPUModel::Quark(0x09),
        _ => CPUModel::Unknown(0x00),
    }
}

fn intel_6(model: u32) -> (r: CPUModel)
    ensures
        r == intel_family_6(model),
{
    match model {
        0x01 => CPUModel::Pentium6(0x01),
        0x03 => CPUModel::Pentium6(0x03),
        0x05 => CPUModel::Pentium6(0x05),
        0x06 => CPUModel::Pentium6(0x06),
        0x07 => CPUModel::Pentium6(0x07),
        0x08 => CPUModel::Pentium6(0x08),
        0x0A => CPUModel::Pentium6(0x0A),
        0x0B => CPUModel::Pentium6(0x0B),
        0x09 => CPUModel::Dothan(0x09),
        0x0D => CPUModel::Dothan(0x0D),
        0x15 => CPUModel::Dothan(0x15),
        0x0E => CPUModel::Yonah(0x0E),
        0x0F => CPUModel::Conroe(0x0F),
        0x16 => CPUModel::Conroe(0x16),
        0x17 => CPUModel::Penryn(0x17),
        0x1D => CPUModel::Penryn(0x1D),
        0x1A => CPUModel::Nehalem(0x1A),
        0x1E => CPUModel::Nehalem(0x1E),
        0x1F => CPUModel::Nehalem(0x1F),
        0x2E => CPUModel::Nehalem(0x2E),
        0x25 => CPUModel::Nehalem(0x25),
        0x2C => CPUModel::Nehalem(0x2C),
        0x2F => CPUModel::Nehalem(0x2F),
        0x2A => CPUModel::SandyBridge(0x2A),
        0x2D => CPUModel::SandyBridge(0x2D),
        0x3A => CPUModel::IvyBridge(0x3A),
        0x3E => CPUModel::IvyBridge(0x3E),
        0x3C => CPUModel::Haswell(0x3C),
        0x3F => CPUModel::Haswell(0x3F),
        0x45 => CPUModel::Haswell(0x45),
        0x46 => CPUModel::Haswell(0x46),
        0x3D => CPUModel::Broadwell(0x3D),
        0x47 => CPUModel::Broadwell(0x47),
        0x4F => CPUModel::Broadwell(0x4F),
        0x56 => CPUModel::Broadwell(0x56),
        0x4E => CPUModel::SkyLake(0x4E),
        0x55 => CPUModel::SkyLake(0x55),
        0x5E => CPUModel::SkyLake(0x5E),
        0x8E => CPUModel::SkyLake(0x8E),
        0x9E => CPUModel::SkyLake(0x9E),
        0xA5 => CPUModel::SkyLake(0xA5),
        0xA6 => CPUModel::SkyLake(0xA6),
        0x66 => CPUModel::PalmCove(0x66),
        0x6A => CPUModel::SunnyCove(0x6A),
        0x6C => CPUModel::SunnyCove(0x6C),
        0x7D => CPUModel::SunnyCove(0x7D),
        0x7E => CPUModel::SunnyCove(0x7E),
        0x1C => CPUModel::Bonnel(0x1C),
        0x26 => CPUModel::Bonnel(0x26),
        0x27 => CPUModel::Saltwell(0x27),
        0x35 => CPUModel::Saltwell(0x35),
        0x36 => CPUModel::Saltwell(0x36),
        0x37 => CPUModel::Silvermont(0x37),
        0x4A => CPUModel::Silvermont(0x4A),
        0x4D => CPUModel::Silvermont(0x4D),
        0x5A => CPUModel::Silvermont(0x5A),
        0x5D => CPUModel::Silvermont(0x5D),
        0x4C => CPUModel::Airmont(0x4C),
        0x75 => CPUModel::Airmont(0x75),
        0x5C => CPUModel::Goldmont(0x5C),
        0x5F => CPUModel::Goldmont(0x5F),
        0x7A => CPUModel::GoldmontPlus(0x7A),
        0x57 => CPUModel::KnightsLanding(0x57),
        0x85 => CPUModel::KnightsMill(0x85),
        _ => CPUModel::Unknown(0x00),
    }
}

fn intel_f(model: u32) -> (r: CPUModel)
    ensures
        r == intel_family_f(model),
{
    match model {
        0x00 => CPUModel::Willamette(0x00),
        0x01 => CPUModel::Willamette(0x01),
        0x02 => CPUModel::Willamette(0x02),
        0x03 => CPUModel::Prescott(0x03),
        0x04 => CPUModel::Prescott(0x04),
        0x06 => CPUModel::Prescott(0x06),
        _ => CPUModel::Unknown(0x00),
    }
}

fn amd_5(model: u32) -> (r: CPUModel)
    ensures
        r == amd_family_5(model),
{
    match model {
        0x00 => CPUModel::K5(0x00),
        0x01 => CPUModel::K5(0x01),
        0x02 => CPUModel::K5(0x02),
        0x06 => CPUModel::K6(0x06),
        0x07 => CPUModel::K6(0x07),
        0x08 => CPUModel::K6(0x08),
        0x0D => CPUModel::K6(0x0D),
        0x0A => CPUModel::Geode(0x0A),
        _ => CPUModel::Unknown(0x00),
    }
}

fn amd_15(model: u32, xmodel: u32) -> (r: CPUModel)
    ensures
        r == amd_family_15(model, xmodel),
{
    match model {
        0x00 => CPUModel::Bulldozer(0x00),
        0x01 => CPUModel::Bulldozer(0x01),
        0x02 => CPUModel::Piledriver(0x02),
        0x10 => CPUModel::Piledriver(0x10),
        0x13 => CPUModel::Piledriver(0x13),
        0x38 => CPUModel::Steamroller(0x38),
        0x30 => CPUModel::Steamroller(0x30),
        0x60 => CPUModel::Excavator(0x60),
        0x65 => CPUModel::Excavator(0x65),
        0x70 => CPUModel::Excavator(0x70),
        _ => match xmodel {
            0x00 => CPUModel::Bulldozer(0x00),
            0x01 => CPUModel::Piledriver(0x01),
            0x02 => CPUModel::Piledriver(0x02),
            0x03 => CPUModel::Steamroller(0x03),
            0x04 => CPUModel::Steamroller(0x04),
            _ => CPUModel::Unknown(0x00),
        },
    }
}

fn amd_17(model: u32) -> (r: CPUModel)
    ensures
        r == amd_family_17(model),
{
    match model {
        0x01 => CPUModel::Zen(0x01),
        0x08 => CPUModel::Zen(0x08),
        0x11 => CPUModel::Zen(0x11),
        0x18 => CPUModel::Zen(0x18),
        0x31 => CPUModel::Zen2(0x31),
        0x60 => CPUModel::Zen2(0x60),
        0x68 => CPUModel::Zen2(0x68),
        0x71 => CPUModel::Zen2(0x71),
        0x90 => CPUModel::Zen2(0x90),
        0x98 => CPUModel::Zen2(0x98),
        _ => CPUModel::Unknown(0x00),
    }
}

fn amd_19(model: u32) -> (r: CPUModel)
    ensures
        r == amd_family_19(model),
{
    match model {
        0x01 => CPUModel::Zen3(0x01),
        0x21 => CPUModel::Zen3(0x21),
        0x30 => CPUModel::Zen3(0x30),
        0x40 => CPUModel::Zen3(0x40),
        0x50 => CPUModel::Zen3(0x50),
        _ => CPUModel::Unknown(0x00),
    }
}

fn amd(family: u32, model: u32, xmodel: u32) -> (r: CPUModel)
    ensures
        r == amd_model(family, model, xmodel),
{
    match family {
        0x05 => amd_5(model),
        0x06 => CPUModel::K7(0x06),
        0x0F => CPUModel::K8(0x0F),
        0x11 => CPUModel::K8(0x11),
        0x10 => CPUModel::K10(0x10),
        0x12 => CPUModel::K10(0x12),
        0x14 => CPUModel::Bobcat(0x14),
        0x15 => amd_15(model, xmodel),
        0x16 => if model >= 3 {
            CPUModel::Puma(model as u8)
        } else {
            CPUModel::Jaguar(model as u8)
        },
        0x17 => amd_17(model),
        0x19 => amd_19(model),
        _ => CPUModel::Unknown(0x00),
    }
}

impl CPUModel {
    /// Maps a combined (family, model) pair of the given vendor to its
    /// microarchitecture; `xmodel` breaks the tie for AMD family 0x15.
    /// A triple without a table entry gives `Unknown(0)`.
    pub fn from(vendor: CPUVendor, family: u32, model: u32, xmodel: u32) -> (r: CPUModel)
        ensures
            r == model_of(vendor, family, model, xmodel),
    {
        match vendor {
            CPUVendor::Intel => match family {
                0x05 => intel_5(model),
                0x06 => intel_6(model),
                0x0F => intel_f(model),
                _ => CPUModel::Unknown(0x00),
            },
            CPUVendor::AMD => amd(family, model, xmodel),
            CPUVendor::Hygon => match family {
                0x00 => CPUModel::Dhyana(0x00),
                _ => CPUModel::Unknown(0x00),
            },
            _ => CPUModel::Unknown(0x00),
        }
    }
}


/// Free-text description of a microarchitecture and model byte: marketing
/// names and process node; "Inconsistent data" for a model byte that the
/// variant has no description for.
pub open spec fn model_description(m: CPUModel) -> Seq<char> {
    match m {
        CPUModel::Pentium5(n) => match n {
            0x01 => "Pentium (800 nm)"@,
            0x02 => "Pentium (600 nm | 350 nm)"@,
            0x03 => "Pentium Overdrive (600 nm)"@,
            0x04 => "Pentium MMX (800 nm)"@,
            _ => "Inconsistent data"@,
        },
        CPUModel::Quark(n) => match n {
            0x09 => "Quark"@,
            _ => "Inconsistent data"@,
        },
        CPUModel::Pentium6(n) => match n {
            0x01 => "Pentium Pro (350 nm)"@,
            0x03 => "Pentium II (350 nm)\nPentium II Overdrive (250 nm)"@,
            0x05 => "Pentium II (250 nm)\nPentium II Celeron (250 nm)\nPentium II Xeon (250 nm)"@,
            0x06 => "Pentium II (250 nm)\nPentium II Celeron (250 nm)"@,
            0x07 => "Pentium III (250 nm)\nPentium III Xeon (250 nm)"@,
            0x08 => "Pentium III (250 nm)\nPentium II Celeron (250 nm)\nPentium III Xeon (180 nm)"@,
            0x0A => "Pentium III Xeon (180 nm)"@,
            0x0B => "Pentium III (130 nm)\nPentium III Celeron (130 nm)"@,
            _ => "Inconsistent data"@,
        },
        CPUModel::Dothan(n) => match n {
            0x09 => "Pentium M (130 nm)"@,
            0x0D => "Pentium M (90 nm)"@,
            0x15 => "Intel 80579 (90 nm)"@,
            _ => "Inconsistent data"@,
        },
        CPUModel::Yonah(n) => match n {
            0x0E => "Core Solo/Duo | Pentium Dual-Core T2xxx | Celeron M | Dual-Core Xeon (65 nm)"@,
            _ => "Inconsistent data"@,
        },
        CPUModel::Conroe(n) => match n {
            0x0F => "Core 2 Duo  (65 nm)\nCore 2 Quad (65 nm)\nXeon (65 nm)"@,
            0x16 => "Celeron (65 nm)\nCore 2 Duo (65 nm)"@,
            _ => "Inconsistent data"@,
        },
        CPUModel::Penryn(n) => match n {
            0x17 => "Core 2 Duo (45 nm)\nCore 2 Quad (45 nm)\nCore 2 Extreme (45 nm)\nXeon (45 nm)\nPentium Dual-Core (45 nm)"@,
            0x1D => "Xeon (45 nm)"@,
            _ => "Inconsistent data"@,
        },
        CPUModel::Nehalem(n) => match n {
            0x1A => "Core iX (45 nm)\nXeon (45 nm)"@,
            0x1E => "Core iX (45 nm)"@,
            0x1F => "Core iX (45 nm)"@,
            0x2E => "Xeon (45 nm)"@,
            0x25 => "Core iX (45 nm)"@,
            0x2C => "Core iX (45 nm)\nXeon (45 nm)"@,
            0x2F => "Xeon (45 nm)"@,
            _ => "Inconsistent data"@,
        },
        CPUModel::SandyBridge(n) => match n {
            0x2A => "Core iX (32 nm)"@,
            0x2D => "Core iX (32 nm)\nXeon (32 nm)"@,
            _ => "Inconsistent data"@,
        },
        CPUModel::IvyBridge(n) => match n {
            0x3A => "Core iX (22 nm)"@,
            0x3E => "Ivi Bridge-E (22 nm)"@,
            _ => "Inconsistent data"@,
        },
        CPUModel::Haswell(n) => match n {
            0x3C => "Haswell (22 nm)"@,
            0x3F => "Haswell-E (22 nm)"@,
            0x45 => "Haswell-ULT (22 nm)"@,
            0x46 => "Haswell [eDRAM] (22 nm)"@,
            _ => "Inconsistent data"@,
        },
        CPUModel::Broadwell(n) => match n {
            0x3D => "Broadwell-U (14 nm)"@,
            0x47 => "Broadwell-H (14 nm)"@,
            0x4F => "Broadwell-E (14 nm)"@,
            0x56 => "Broadwell-DE (14 nm)"@,
            _ => "Inconsistent data"@,
        },
        CPUModel::SkyLake(n) => match n {
            0x4E => "Sky Lake Client Y/U (14 nm)"@,
            0x55 => "Sky/Cascade/Cooper Lake Server (14 nm)"@,
            0x5E => "Sky Lake Client DT/H/S (14 nm)"@,
            0x8E => "Kaby/Whiskey/Amber/Comet Lake Y/U (14 nm)"@,
            0x9E => "Kaby/Coffee Lake DT/H/S (14 nm)"@,
            0xA5 => "Comet Lake H/S (14 nm)"@,
            0xA6 => "Comet Lake U/Y (14 nm)"@,
            _ => "Inconsistent data"@,
        },
        CPUModel::PalmCove(n) => match n {
            0x66 => "Cannon Lake (10 nm)"@,
            _ => "Inconsistent data"@,
        },
        CPUModel::SunnyCove(n) => match n {
            0x6A => "Ice Lake-DE (10+ nm)"@,
            0x6C => "Ice Lake-SP (10+ nm)"@,
            0x7D => "Ice Lake-Y (10+ nm)"@,
            0x7E => "Ice Lake-U (10+ nm)"@,
            _ => "Inconsistent data"@,
        },
        CPUModel::Bonnel(n) => match n {
            0x1C => "Diamondville (45 nm)\nSilverthrone (45 nm)\nPineview (45 nm)"@,
            0x26 => "Tunnel Creek (45 nm)"@,
            _ => "Inconsistent data"@,
        },
        CPUModel::Saltwell(n) => match n {
            0x27 => "Medfield (32 nm)"@,
            0x35 => "Cloverview (32 nm)"@,
            0x36 => "Cedarview (32 nm)\nCenterton (32 nm)"@,
            _ => "Inconsistent data"@,
        },
        CPUModel::Silvermont(n) => match n {
            0x37 => "Bay Trail (22 nm)"@,
            0x4A => "Merrifield (22 nm)"@,
            0x4D => "Avoton (22 nm)\nRangeley (22 nm)"@,
            0x5A => "Moorefield (22 nm)"@,
            0x5D => "SoFIA (22 nm)"@,
            _ => "Inconsistent data"@,
        },
        CPUModel::Airmont(n) => match n {
            0x4C => "Braswell (14 nm)\nCheery Trail (14 nm)"@,
            0x75 => "Spreadtrum SC9853I-IA (14 nm)"@,
            _ => "Inconsistent data"@,
        },
        CPUModel::Goldmont(n) => match n {
            0x5C => "Apollo Lake (14 nm)"@,
            0x5F => "Denverton (14 nm)"@,
            _ => "Inconsistent data"@,
        },
        CPUModel::GoldmontPlus(n) => match n {
            0x7A => "Gemini Lake (14 nm)"@,
            _ => "Inconsistent data"@,
        },
        CPUModel::Willamette(n) => match n {
            0x00 => "Pentium 4 Xeon (180 nm)"@,
            0x01 => "Pentium 4 Celeron (180 nm)\nPentium 4 Xeon (180 nm)"@,
            0x02 => "Pentium 4 (130 nm)\nPentium 4 EE (130 nm)\nPentium 4 Celeron (130 nm)\nPentium 4 Xeon (130 nm)"@,
            _ => "Inconsistent data"@,
        },
        CPUModel::Prescott(n) => match n {
            0x03 => "Pentium 4 (90 nm)\nPentium 4 Xeon (90 nm)"@,
            0x04 => "Pentium 4 (90 nm)\nPentium 4 EE (90 nm)\nPentium D (90 nm)\nCeleron D (90 nm)\nPentium 4 Xeon (90 nm)"@,
            0x06 => "Pentium 4 (65 nm)\nPentium D EE (65 nm)\nCeleron D (65 nm)\nPentium 4 Xeon (65 nm)"@,
            _ => "Inconsistent data"@,
        },
        CPUModel::KnightsLanding(n) => match n {
            0x57 => "Knights Landing (14 nm)"@,
            _ => "Inconsistent data"@,
        },
        CPUModel::KnightsMill(n) => match n {
            0x85 => "Knights Mill (14 nm)"@,
            _ => "Inconsistent data"@,
        },
        CPUModel::K5(n) => match n {
            0x00 | 0x01 | 0x02 => "K5 (500 nm - 350 nm)"@,
            _ => "Inconsistent data"@,
        },
        CPUModel::K6(n) => match n {
            0x06 | 0x07 | 0x08 | 0x0D => "K6 (350 nm - 250 nm)"@,
            _ => "Inconsistent data"@,
        },
        CPUModel::Geode(n) => match n {
            0x0A => "Geode"@,
            _ => "Inconsistent data"@,
        },
        CPUModel::K7(n) => match n {
            0x06 => "K7 (250 nm - 14 nm)"@,
            _ => "Inconsistent data"@,
        },
        CPUModel::K8(n) => match n {
            0x0F => "K8 (130 nm - 65 nm)"@,
            0x11 => "K8 (90 nm - 65 nm)"@,
            _ => "Inconsistent data"@,
        },
        CPUModel::K10(n) => match n {
            0x10 => "K10 Opteron\nK10 Phenom\nK10 Athlon\nK10 Sempron"@,
            0x12 => "K10 Llano APU"@,
            _ => "Inconsistent data"@,
        },
        CPUModel::Bobcat(n) => match n {
            0x14 => "Bobcat"@,
            _ => "Inconsistent data"@,
        },
        CPUModel::Bulldozer(n) => match n {
            0x00 => "Bulldozer (Engineer sample)"@,
            0x01 => "Bulldozer Zambezi\nBulldozer Interlagos"@,
            _ => "Inconsistent data"@,
        },
        CPUModel::Piledriver(n) => match n {
            0x02 => "Piledriver Vishera"@,
            0x10 => "Piledriver Trinity"@,
            0x13 => "Piledriver Richland"@,
            _ => "Inconsistent data"@,
        },
        CPUModel::Steamroller(n) => match n {
            0x38 => "Steamroller Godavari"@,
            0x30 => "Steamroller Kaveri"@,
            _ => "Inconsistent data"@,
        },
        CPUModel::Excavator(n) => match n {
            0x60 => "Excavator Carrizo"@,
            0x65 => "Excavator Bristol Ridge"@,
            0x70 => "Excavator Stone Ridge"@,
            _ => "Inconsistent data"@,
        },
        CPUModel::Puma(n) => match n {
            0 | 1 | 2 => "Inconsistent data"@,
            _ => "Puma"@,
        },
        CPUModel::Jaguar(n) => match n {
            0 | 1 | 2 => "Jaguar"@,
            _ => "Inconsistent data"@,
        },
        CPUModel::Zen(n) => match n {
            0x01 => "Zen  - Ryzen 1000 (14 nm)\n[EPYC Server] 'Naples'\n[Threadripper CPU] 'Whitehaven'\n[Desktop CPU] 'Summit ridge'\n[Embedded Server] 'Snowy Owl'"@,
            0x08 => "Zen+ - Ryzen 2000 (12 nm)\n[Desktop CPU] 'Pinnacle Ridge'\n[Threadripper CPU] 'Colfax'"@,
            0x11 => "Zen  - Ryzen 1000 (14 nm)\n[Desktop APU] 'Raven Ridge'\n[Mobile APU] 'Raven Ridge'\n[Embedded APU] 'Great Horned Owl'"@,
            0x18 => "Zen+ - Ryzen 2000 (12 nm)\n[Desktop APU] 'Picasso'\n[Mobile APU] 'Picasso'"@,
            _ => "Inconsistent data"@,
        },
        CPUModel::Zen2(n) => match n {
            0x31 => "Zen 2 - Ryzen 3000 (7 nm)\n[EPYC Server] 'Rome'"@,
            0x60 => "Zen 2 - Ryzen 3000 (7 nm)\n[Desktop APU] 'Renoir'\n[Mobile APU] 'Renoir'\n[Threadripper CPU] 'Castle Peak'"@,
            0x68 => "Zen 2 - Ryzen 5000 (7 nm)\n[Mobile APU] 'Lucienne'"@,
            0x71 => "Zen 2 - Ryzen 3000 (7 nm)\n[Desktop CPU] 'Matisse'"@,
            0x90 => "Zen 2 - Ryzen X000 (7 nm)\n[Desktop APU] 'Van Gogh'"@,
            0x98 => "Zen 2 - Ryzen X000 (7 nm)\n[Mobile APU] 'Mero'"@,
            _ => "Inconsistent data"@,
        },
        CPUModel::Zen3(n) => match n {
            0x01 => "Zen 3 - Ryzen X000 (7 nm)\n[Threadripper CPU] 'Genesis Peak'"@,
            0x21 => "Zen 3 - Ryzen 5000 (7 nm)\n[Desktop CPU] 'Vermeer'"@,
            0x30 => "Zen 3 - Ryzen X000 (7 nm)\n[] 'Badami''Trento'"@,
            0x40 => "Zen 3 - Ryzen 5000 (7 nm)\n[Desktop APU] 'Rembrandt'"@,
            0x50 => "Zen 3 - Ryzen 5000 (7 nm)\n[Mobile APU] 'Cezanne'"@,
            _ => "Inconsistent data"@,
        },
        CPUModel::Dhyana(n) => match n {
            0x00 => "Dhyana"@,
            _ => "Inconsistent data"@,
        },
        CPUModel::Unknown(n) => match n {
            0x00 => "Unknown architecture"@,
            _ => "Inconsistent data"@,
        },
    }
}

impl CPUModel {
    /// Returns the description of the microarchitecture and model byte.
    pub fn description(&self) -> (r: &'static str)
        ensures
            r@ == model_description(*self),
    {
        match *self {
            CPUModel::Pentium5(n) => match n {
                0x01 => "Pentium (800 nm)",
                0x02 => "Pentium (600 nm | 350 nm)",
                0x03 => "Pentium Overdrive (600 nm)",
                0x04 => "Pentium MMX (800 nm)",
                _ => "Inconsistent data",
            },
            CPUModel::Quark(n) => match n {
                0x09 => "Quark",
                _ => "Inconsistent data",
            },
            CPUModel::Pentium6(n) => match n {
                0x01 => "Pentium Pro (350 nm)",
                0x03 => "Pentium II (350 nm)\nPentium II Overdrive (250 nm)",
                0x05 => "Pentium II (250 nm)\nPentium II Celeron (250 nm)\nPentium II Xeon (250 nm)",
                0x06 => "Pentium II (250 nm)\nPentium II Celeron (250 nm)",
                0x07 => "Pentium III (250 nm)\nPentium III Xeon (250 nm)",
                0x08 => "Pentium III (250 nm)\nPentium II Celeron (250 nm)\nPentium III Xeon (180 nm)",
                0x0A => "Pentium III Xeon (180 nm)",
                0x0B => "Pentium III (130 nm)\nPentium III Celeron (130 nm)",
                _ => "Inconsistent data",
            },
            CPUModel::Dothan(n) => match n {
                0x09 => "Pentium M (130 nm)",
                0x0D => "Pentium M (90 nm)",
                0x15 => "Intel 80579 (90 nm)",
                _ => "Inconsistent data",
            },
            CPUModel::Yonah(n) => match n {
                0x0E => "Core Solo/Duo | Pentium Dual-Core T2xxx | Celeron M | Dual-Core Xeon (65 nm)",
                _ => "Inconsistent data",
            },
            CPUModel::Conroe(n) => match n {
                0x0F => "Core 2 Duo  (65 nm)\nCore 2 Quad (65 nm)\nXeon (65 nm)",
                0x16 => "Celeron (65 nm)\nCore 2 Duo (65 nm)",
                _ => "Inconsistent data",
            },
            CPUModel::Penryn(n) => match n {
                0x17 => "Core 2 Duo (45 nm)\nCore 2 Quad (45 nm)\nCore 2 Extreme (45 nm)\nXeon (45 nm)\nPentium Dual-Core (45 nm)",
                0x1D => "Xeon (45 nm)",
                _ => "Inconsistent data",
            },
            CPUModel::Nehalem(n) => match n {
                0x1A => "Core iX (45 nm)\nXeon (45 nm)",
                0x1E => "Core iX (45 nm)",
                0x1F => "Core iX (45 nm)",
                0x2E => "Xeon (45 nm)",
                0x25 => "Core iX (45 nm)",
                0x2C => "Core iX (45 nm)\nXeon (45 nm)",
                0x2F => "Xeon (45 nm)",
                _ => "Inconsistent data",
            },
            CPUModel::SandyBridge(n) => match n {
                0x2A => "Core iX (32 nm)",
                0x2D => "Core iX (32 nm)\nXeon (32 nm)",
                _ => "Inconsistent data",
            },
            CPUModel::IvyBridge(n) => match n {
                0x3A => "Core iX (22 nm)",
                0x3E => "Ivi Bridge-E (22 nm)",
                _ => "Inconsistent data",
            },
            CPUModel::Haswell(n) => match n {
                0x3C => "Haswell (22 nm)",
                0x3F => "Haswell-E (22 nm)",
                0x45 => "Haswell-ULT (22 nm)",
                0x46 => "Haswell [eDRAM] (22 nm)",
                _ => "Inconsistent data",
            },
            CPUModel::Broadwell(n) => match n {
                0x3D => "Broadwell-U (14 nm)",
                0x47 => "Broadwell-H (14 nm)",
                0x4F => "Broadwell-E (14 nm)",
                0x56 => "Broadwell-DE (14 nm)",
                _ => "Inconsistent data",
            },
            CPUModel::SkyLake(n) => match n {
                0x4E => "Sky Lake Client Y/U (14 nm)",
                0x55 => "Sky/Cascade/Cooper Lake Server (14 nm)",
                0x5E => "Sky Lake Client DT/H/S (14 nm)",
                0x8E => "Kaby/Whiskey/Amber/Comet Lake Y/U (14 nm)",
                0x9E => "Kaby/Coffee Lake DT/H/S (14 nm)",
                0xA5 => "Comet Lake H/S (14 nm)",
                0xA6 => "Comet Lake U/Y (14 nm)",
                _ => "Inconsistent data",
            },
            CPUModel::PalmCove(n) => match n {
                0x66 => "Cannon Lake (10 nm)",
                _ => "Inconsistent data",
            },
            CPUModel::SunnyCove(n) => match n {
                0x6A => "Ice Lake-DE (10+ nm)",
                0x6C => "Ice Lake-SP (10+ nm)",
                0x7D => "Ice Lake-Y (10+ nm)",
                0x7E => "Ice Lake-U (10+ nm)",
                _ => "Inconsistent data",
            },
            CPUModel::Bonnel(n) => match n {
                0x1C => "Diamondville (45 nm)\nSilverthrone (45 nm)\nPineview (45 nm)",
                0x26 => "Tunnel Creek (45 nm)",
                _ => "Inconsistent data",
            },
            CPUModel::Saltwell(n) => match n {
                0x27 => "Medfield (32 nm)",
                0x35 => "Cloverview (32 nm)",
                0x36 => "Cedarview (32 nm)\nCenterton (32 nm)",
                _ => "Inconsistent data",
            },
            CPUModel::Silvermont(n) => match n {
                0x37 => "Bay Trail (22 nm)",
                0x4A => "Merrifield (22 nm)",
                0x4D => "Avoton (22 nm)\nRangeley (22 nm)",
                0x5A => "Moorefield (22 nm)",
                0x5D => "SoFIA (22 nm)",
                _ => "Inconsistent data",
            },
            CPUModel::Airmont(n) => match n {
                0x4C => "Braswell (14 nm)\nCheery Trail (14 nm)",
                0x75 => "Spreadtrum SC9853I-IA (14 nm)",
                _ => "Inconsistent data",
            },
            CPUModel::Goldmont(n) => match n {
                0x5C => "Apollo Lake (14 nm)",
                0x5F => "Denverton (14 nm)",
                _ => "Inconsistent data",
            },
            CPUModel::GoldmontPlus(n) => match n {
                0x7A => "Gemini Lake (14 nm)",
                _ => "Inconsistent data",
            },
            CPUModel::Willamette(n) => match n {
                0x00 => "Pentium 4 Xeon (180 nm)",
                0x01 => "Pentium 4 Celeron (180 nm)\nPentium 4 Xeon (180 nm)",
                0x02 => "Pentium 4 (130 nm)\nPentium 4 EE (130 nm)\nPentium 4 Celeron (130 nm)\nPentium 4 Xeon (130 nm)",
                _ => "Inconsistent data",
            },
            CPUModel::Prescott(n) => match n {
                0x03 => "Pentium 4 (90 nm)\nPentium 4 Xeon (90 nm)",
                0x04 => "Pentium 4 (90 nm)\nPentium 4 EE (90 nm)\nPentium D (90 nm)\nCeleron D (90 nm)\nPentium 4 Xeon (90 nm)",
                0x06 => "Pentium 4 (65 nm)\nPentium D EE (65 nm)\nCeleron D (65 nm)\nPentium 4 Xeon (65 nm)",
                _ => "Inconsistent data",
            },
            CPUModel::KnightsLanding(n) => match n {
                0x57 => "Knights Landing (14 nm)",
                _ => "Inconsistent data",
            },
            CPUModel::KnightsMill(n) => match n {
                0x85 => "Knights Mill (14 nm)",
                _ => "Inconsistent data",
            },
            CPUModel::K5(n) => match n {
                0x00 | 0x01 | 0x02 => "K5 (500 nm - 350 nm)",
                _ => "Inconsistent data",
            },
            CPUModel::K6(n) => match n {
                0x06 | 0x07 | 0x08 | 0x0D => "K6 (350 nm - 250 nm)",
                _ => "Inconsistent data",
            },
            CPUModel::Geode(n) => match n {
                0x0A => "Geode",
                _ => "Inconsistent data",
            },
            CPUModel::K7(n) => match n {
                0x06 => "K7 (250 nm - 14 nm)",
                _ => "Inconsistent data",
            },
            CPUModel::K8(n) => match n {
                0x0F => "K8 (130 nm - 65 nm)",
                0x11 => "K8 (90 nm - 65 nm)",
                _ => "Inconsistent data",
            },
            CPUModel::K10(n) => match n {
                0x10 => "K10 Opteron\nK10 Phenom\nK10 Athlon\nK10 Sempron",
                0x12 => "K10 Llano APU",
                _ => "Inconsistent data",
            },
            CPUModel::Bobcat(n) => match n {
                0x14 => "Bobcat",
                _ => "Inconsistent data",
            },
            CPUModel::Bulldozer(n) => match n {
                0x00 => "Bulldozer (Engineer sample)",
                0x01 => "Bulldozer Zambezi\nBulldozer Interlagos",
                _ => "Inconsistent data",
            },
            CPUModel::Piledriver(n) => match n {
                0x02 => "Piledriver Vishera",
                0x10 => "Piledriver Trinity",
                0x13 => "Piledriver Richland",
                _ => "Inconsistent data",
            },
            CPUModel::Steamroller(n) => match n {
                0x38 => "Steamroller Godavari",
                0x30 => "Steamroller Kaveri",
                _ => "Inconsistent data",
            },
            CPUModel::Excavator(n) => match n {
                0x60 => "Excavator Carrizo",
                0x65 => "Excavator Bristol Ridge",
                0x70 => "Excavator Stone Ridge",
                _ => "Inconsistent data",
            },
            CPUModel::Puma(n) => match n {
                0 | 1 | 2 => "Inconsistent data",
                _ => "Puma",
            },
            CPUModel::Jaguar(n) => match n {
                0 | 1 | 2 => "Jaguar",
                _ => "Inconsistent data",
            },
            CPUModel::Zen(n) => match n {
                0x01 => "Zen  - Ryzen 1000 (14 nm)\n[EPYC Server] 'Naples'\n[Threadripper CPU] 'Whitehaven'\n[Desktop CPU] 'Summit ridge'\n[Embedded Server] 'Snowy Owl'",
                0x08 => "Zen+ - Ryzen 2000 (12 nm)\n[Desktop CPU] 'Pinnacle Ridge'\n[Threadripper CPU] 'Colfax'",
                0x11 => "Zen  - Ryzen 1000 (14 nm)\n[Desktop APU] 'Raven Ridge'\n[Mobile APU] 'Raven Ridge'\n[Embedded APU] 'Great Horned Owl'",
                0x18 => "Zen+ - Ryzen 2000 (12 nm)\n[Desktop APU] 'Picasso'\n[Mobile APU] 'Picasso'",
                _ => "Inconsistent data",
            },
            CPUModel::Zen2(n) => match n {
                0x31 => "Zen 2 - Ryzen 3000 (7 nm)\n[EPYC Server] 'Rome'",
                0x60 => "Zen 2 - Ryzen 3000 (7 nm)\n[Desktop APU] 'Renoir'\n[Mobile APU] 'Renoir'\n[Threadripper CPU] 'Castle Peak'",
                0x68 => "Zen 2 - Ryzen 5000 (7 nm)\n[Mobile APU] 'Lucienne'",
                0x71 => "Zen 2 - Ryzen 3000 (7 nm)\n[Desktop CPU] 'Matisse'",
                0x90 => "Zen 2 - Ryzen X000 (7 nm)\n[Desktop APU] 'Van Gogh'",
                0x98 => "Zen 2 - Ryzen X000 (7 nm)\n[Mobile APU] 'Mero'",
                _ => "Inconsistent data",
            },
            CPUModel::Zen3(n) => match n {
                0x01 => "Zen 3 - Ryzen X000 (7 nm)\n[Threadripper CPU] 'Genesis Peak'",
                0x21 => "Zen 3 - Ryzen 5000 (7 nm)\n[Desktop CPU] 'Vermeer'",
                0x30 => "Zen 3 - Ryzen X000 (7 nm)\n[] 'Badami''Trento'",
                0x40 => "Zen 3 - Ryzen 5000 (7 nm)\n[Desktop APU] 'Rembrandt'",
                0x50 => "Zen 3 - Ryzen 5000 (7 nm)\n[Mobile APU] 'Cezanne'",
                _ => "Inconsistent data",
            },
            CPUModel::Dhyana(n) => match n {
                0x00 => "Dhyana",
                _ => "Inconsistent data",
            },
            CPUModel::Unknown(n) => match n {
                0x00 => "Unknown architecture",
                _ => "Inconsistent data",
            },
        }
    }
}

} // verus!
