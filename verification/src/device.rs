//! Device selection: which of the enumerated physical devices the
//! renderer should run on.
//!
//! The enumeration itself, and the probing of queue families and
//! extensions, happen in the graphics driver; this module takes their
//! results as plain values and makes the one decision the renderer owns:
//! prefer a discrete GPU, then an integrated one, then a virtual one,
//! then a software device, and among equals take the first enumerated.

use vstd::prelude::*;

verus! {

/// The broad class a physical device reports itself as.
#[derive(Clone, Copy, Debug, PartialEq, Eq, Structural)]
pub enum DeviceClass {
    Discrete,
    Integrated,
    Virtual,
    Cpu,
    Other,
}

/// One enumerated physical device, reduced to what the selection reads:
/// its class, and whether it is usable at all — that is, whether it
/// supports the required extensions and has a queue family that can both
/// draw and present to the surface.
#[derive(Clone, Copy, Debug, PartialEq, Eq, Structural)]
pub struct DeviceCandidate {
    pub class: DeviceClass,
    pub eligible: bool,
}

/// The preference order on device classes: lower ranks are preferred.
pub open spec fn spec_class_rank(c: DeviceClass) -> u8 {
    match c {
        DeviceClass::Discrete => 0,
        DeviceClass::Integrated => 1,
        DeviceClass::Virtual => 2,
        DeviceClass::Cpu => 3,
        DeviceClass::Other => 4,
    }
}

/// The preference order on device classes, executably.
pub fn class_rank(c: DeviceClass) -> (r: u8)
    ensures
        r == spec_class_rank(c),
{
    match c {
        DeviceClass::Discrete => 0,
        DeviceClass::Integrated => 1,
        DeviceClass::Virtual => 2,
        DeviceClass::Cpu => 3,
        DeviceClass::Other => 4,
    }
}

/// Pick the device to render on: the first eligible candidate of the
/// best-ranked class. Returns `None` exactly when no candidate is
/// eligible.
pub fn pick_device(candidates: &Vec<DeviceCandidate>) -> (r: Option<usize>)
    ensures
        r is Some <==> exists|j: int|
            0 <= j < candidates@.len() && candidates@[j].eligible,
        r matches Some(i) ==> {
            &&& i < candidates@.len()
            &&& candidates@[i as int].eligible
            &&& forall|j: int|
                0 <= j < candidates@.len() && candidates@[j].eligible
                    ==> spec_class_rank(candidates@[i as int].class) <= spec_class_rank(
                    candidates@[j].class,
                )
            &&& forall|j: int|
                0 <= j < i && candidates@[j].eligible ==> spec_class_rank(
                    candidates@[j].class,
                ) > spec_class_rank(candidates@[i as int].class)
        },
{
    let mut best: Option<usize> = None;
    let mut best_rank: u8 = 0;
    let mut k: usize = 0;
    while k < candidates.len()
        invariant
            k <= candidates@.len(),
            best is Some <==> exists|j: int| 0 <= j < k && candidates@[j].eligible,
            best matches Some(i) ==> {
                &&& i < k
                &&& candidates@[i as int].eligible
                &&& best_rank == spec_class_rank(candidates@[i as int].class)
                &&& forall|j: int|
                    0 <= j < k && candidates@[j].eligible ==> spec_class_rank(
                        candidates@[j].class,
                    ) >= best_rank
                &&& forall|j: int|
                    0 <= j < i && candidates@[j].eligible ==> spec_class_rank(
                        candidates@[j].class,
                    ) > best_rank
            },
        decreases candidates@.len() - k,
    {
        let c = candidates[k];
        if c.eligible {
            let rank = class_rank(c.class);
            match best {
                None => {
                    best = Some(k);
                    best_rank = rank;
                },
                Some(_) => {
                    if rank < best_rank {
                        best = Some(k);
                        best_rank = rank;
                    }
                },
            }
        }
        k = k + 1;
    }
    best
}

} // verus!
