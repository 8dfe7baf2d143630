//! Decoding of the x86 CPUID instruction's raw register output into vendor,
//! microarchitecture, brand strings and SIMD capability masks.
//!
//! The library never issues CPUID itself. [`Probe`] decides which leaf may
//! be queried next without stepping past the maxima the processor reports;
//! the caller performs each query and hands back the registers, which
//! collect into a [`CpuidSnapshot`]. [`CPUInfo::read`], [`Model::read`] and
//! [`SIMDFlags::read`] then decode that snapshot.

mod brand;
mod info;
mod model;
mod probe;
mod regs;
mod simd;
mod uarch;
mod vendor;

pub use brand::brand_string;
pub use info::CPUInfo;
pub use model::Model;
pub use probe::{CpuidSnapshot, LeafGate, Probe, Query};
pub use regs::Regs;
pub use simd::SIMDFlags;
pub use uarch::CPUModel;
pub use vendor::CPUVendor;
