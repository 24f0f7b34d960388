//! Process-wide renderer configuration, constructed once and validated at
//! startup.

use vstd::prelude::*;

verus! {

/// Which acceleration structure the intersection code is asked to use; the
/// current core declares it but does not consult it.
#[derive(Clone, Copy, Debug, PartialEq, Eq, Structural)]
pub enum AccStructureKind {
    Nothing,
    BBH,
}

/// How an acceleration structure picks its split axis.
#[derive(Clone, Copy, Debug, PartialEq, Eq, Structural)]
pub enum AccStructureAxisSelectionMethod {
    Random,
    Alternating,
    LargestExtent,
}

/// The acceleration-structure part of the configuration.
#[derive(Clone, Copy, Debug, PartialEq, Eq, Structural)]
pub struct AccelerationStructure {
    pub kind: AccStructureKind,
    pub axis_selection_method: AccStructureAxisSelectionMethod,
}

/// The renderer's configuration.
#[derive(Clone, Copy, Debug, PartialEq, Eq, Structural)]
pub struct Config {
    pub acceleration_structure: AccelerationStructure,
}

/// The configuration this build carries.
pub open spec fn default_config() -> Config {
    Config {
        acceleration_structure: AccelerationStructure {
            kind: AccStructureKind::BBH,
            axis_selection_method: AccStructureAxisSelectionMethod::Random,
        },
    }
}

/// A configuration is optimal unless it pairs the BBH structure with an axis
/// selection method other than the intended `LargestExtent`.
pub open spec fn config_is_optimal(c: Config) -> bool {
    !(c.acceleration_structure.kind is BBH
        && !(c.acceleration_structure.axis_selection_method is LargestExtent))
}

/// The configuration this build carries, as a value.
pub fn mirth_config() -> (c: Config)
    ensures
        c == default_config(),
{
    Config {
        acceleration_structure: AccelerationStructure {
            kind: AccStructureKind::BBH,
            axis_selection_method: AccStructureAxisSelectionMethod::Random,
        },
    }
}

/// Checks the configured acceleration structure; `false` means the
/// combination is known suboptimal and deserves a warning at startup.
pub fn validate_config() -> (ok: bool)
    ensures
        ok == config_is_optimal(default_config()),
{
    let config = mirth_config();
    let bbh = match config.acceleration_structure.kind {
        AccStructureKind::BBH => true,
        AccStructureKind::Nothing => false,
    };
    let largest_extent = match config.acceleration_structure.axis_selection_method {
        AccStructureAxisSelectionMethod::LargestExtent => true,
        _ => false,
    };
    !(bbh && !largest_extent)
}

} // verus!
