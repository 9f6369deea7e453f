use vstd::prelude::*;

verus! {

/// Operating mode of a PRI burst.
#[derive(Debug, Clone, Copy, PartialEq, Eq)]
pub enum PriType {
    Standby,
    AdvGmtiScan,
    AdvGmtiStare,
    AdvDmtiStare,
    AdvDmtiScan,
}

} // verus!
