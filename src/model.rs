use vstd::prelude::*;
use vstd::string::StringExecFns;
use crate::regs::Regs;
use crate::probe::CpuidSnapshot;
use crate::uarch::{CPUModel, model_description, model_of};
use crate::vendor::{CPUVendor, vendor_name, vendor_of};

verus! {

/// Base model: bits 4..8 of leaf 1's `eax`.
pub open spec fn base_model(eax: u32) -> u32 {
    (eax >> 4) & 0x0F
}

/// Base family: bits 8..12 of leaf 1's `eax`.
pub open spec fn base_family(eax: u32) -> u32 {
    (eax >> 8) & 0x0F
}

/// Extended model: bits 16..20 of leaf 1's `eax`.
pub open spec fn ext_model(eax: u32) -> u32 {
    (eax >> 16) & 0x0F
}

/// Extended family: bits 20..28 of leaf 1's `eax`.
pub open spec fn ext_family(eax: u32) -> u32 {
    (eax >> 20) & 0xFF
}

/// Combined family: the extended family is always added to the base family.
pub open spec fn family_of(eax: u32) -> u32 {
    (base_family(eax) + ext_family(eax)) as u32
}

/// Combined model: the extended model supplies the high nibble.
pub open spec fn model_number(eax: u32) -> u32 {
    (base_model(eax) + 16 * ext_model(eax)) as u32
}

/// Vendor named by leaf 0.
pub open spec fn leaf0_vendor(leaf0: Regs) -> CPUVendor {
    vendor_of((leaf0.ebx, leaf0.edx, leaf0.ecx))
}

/// Microarchitecture named by leaf 1's `eax` for the given vendor.
pub open spec fn leaf1_model(vendor: CPUVendor, eax: u32) -> CPUModel {
    model_of(vendor, family_of(eax), model_number(eax), ext_model(eax))
}

/// Vendor and model that leaves 0 and 1 of a snapshot name: unknown both
/// where leaf 0 reports no further leaf.
pub open spec fn snapshot_vendor(snap: CpuidSnapshot) -> CPUVendor {
    if snap.leaf0.eax == 0 {
        CPUVendor::Unknown
    } else {
        leaf0_vendor(snap.leaf0)
    }
}

/// Microarchitecture that leaves 0 and 1 of a snapshot name.
pub open spec fn snapshot_model(snap: CpuidSnapshot) -> CPUModel {
    if snap.leaf0.eax == 0 {
        CPUModel::Unknown(0)
    } else {
        leaf1_model(leaf0_vendor(snap.leaf0), snap.leaf1.eax)
    }
}

/// Vendor and microarchitecture of the processor.
#[derive(Debug, Clone, Copy, PartialEq, Eq, Structural)]
pub struct Model {
    /// Manufacturer of the CPU.
    vendor: CPUVendor,
    /// Specific model of the CPU (family and model).
    model: CPUModel,
}

impl Model {
    /// The vendor held.
    pub closed spec fn spec_vendor(&self) -> CPUVendor {
        self.vendor
    }

    /// The microarchitecture held.
    pub closed spec fn spec_model(&self) -> CPUModel {
        self.model
    }

    /// Unknown vendor and `Unknown(0)` model.
    pub fn empty() -> (r: Model)
        ensures
            r.spec_vendor() == CPUVendor::Unknown,
            r.spec_model() == CPUModel::Unknown(0),
    {
        Model { vendor: CPUVendor::Unknown, model: CPUModel::Unknown(0x00) }
    }

    /// Decodes vendor and model from leaves 0 and 1 of the snapshot. When
    /// leaf 0 reports no further leaf (`eax == 0`) the result is
    /// [`Model::empty`].
    pub fn read(snap: &CpuidSnapshot) -> (r: Model)
        ensures
            r.spec_vendor() == snapshot_vendor(*snap),
            r.spec_model() == snapshot_model(*snap),
    {
        let mut model = Model::empty();
        if snap.leaf0.eax != 0 {
            model.decode(&snap.leaf0, &snap.leaf1);
        }
        model
    }

    /// Returns the vendor.
    pub fn vendor(&self) -> (r: CPUVendor)
        ensures
            r == self.spec_vendor(),
    {
        self.vendor
    }

    /// Returns the model.
    pub fn model(&self) -> (r: CPUModel)
        ensures
            r == self.spec_model(),
    {
        self.model
    }

    /// Vendor name and model description, each followed by a newline.
    pub fn text(&self) -> (r: String)
        ensures
            r@ == vendor_name(self.spec_vendor()) + seq!['\n'] + model_description(
                self.spec_model(),
            ) + seq!['\n'],
    {
        let mut s = String::from_str(self.vendor.name());
        s.append("\n");
        s.append(self.model.description());
        s.append("\n");
        proof {
            reveal_strlit("\n");
        }
        s
    }

    /// Replaces the vendor by the one leaf 0 names and, where leaf 0 reports
    /// leaf 1, the model by the one leaf 1's `eax` names.
    fn decode(&mut self, leaf0: &Regs, leaf1: &Regs)
        ensures
            final(self).vendor == leaf0_vendor(*leaf0),
            leaf0.eax >= 1 ==> final(self).model == leaf1_model(leaf0_vendor(*leaf0), leaf1.eax),
            leaf0.eax < 1 ==> final(self).model == old(self).model,
    {
        self.vendor = CPUVendor::from((leaf0.ebx, leaf0.edx, leaf0.ecx));
        if leaf0.eax >= 0x01 {
            let eax = leaf1.eax;
            let bmodel: u32 = (eax >> 4) & 0x0F;
            let bfamily: u32 = (eax >> 8) & 0x0F;
            let xmodel: u32 = (eax >> 16) & 0x0F;
            let xfamily: u32 = (eax >> 20) & 0xFF;
            assert(bmodel <= 0x0F && bfamily <= 0x0F && xmodel <= 0x0F && xfamily <= 0xFF)
                by (bit_vector)
                requires
                    bmodel == (eax >> 4) & 0x0F,
                    bfamily == (eax >> 8) & 0x0F,
                    xmodel == (eax >> 16) & 0x0F,
                    xfamily == (eax >> 20) & 0xFF,
            ;
            let family: u32 = bfamily + xfamily;
            let model: u32 = bmodel + 16 * xmodel;
            self.model = CPUModel::from(self.vendor, family, model, xmodel);
        }
    }
}

} // verus!

verus! {

/// Decoding is a function of the raw registers: decoding the same vendor ID
/// twice gives the same vendor, the same (vendor, family, model, extended
/// model) twice the same microarchitecture, and the same snapshot twice the
/// same [`Model`].
pub proof fn lemma_decoding_is_pure(
    id: (u32, u32, u32),
    v1: CPUVendor,
    v2: CPUVendor,
    vendor: CPUVendor,
    family: u32,
    model: u32,
    xmodel: u32,
    m1: CPUModel,
    m2: CPUModel,
    snap: CpuidSnapshot,
    d1: Model,
    d2: Model,
)
    requires
        call_ensures(CPUVendor::from, (id,), v1),
        call_ensures(CPUVendor::from, (id,), v2),
        call_ensures(CPUModel::from, (vendor, family, model, xmodel), m1),
        call_ensures(CPUModel::from, (vendor, family, model, xmodel), m2),
        call_ensures(Model::read, (&snap,), d1),
        call_ensures(Model::read, (&snap,), d2),
    ensures
        v1 == v2,
        m1 == m2,
        d1 == d2,
{
    assert(d1.vendor == d2.vendor && d1.model == d2.model);
}

} // verus!
