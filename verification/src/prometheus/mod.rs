pub mod decimal;
pub mod metric_type;
pub mod metric_value;
pub mod prometheus_instance;
pub mod prometheus_metric;
pub mod prometheus_metric_builder;
pub mod render_to_prometheus;

use vstd::prelude::*;

verus! {

/// Marks a part of a type-checked builder that has been given.
#[derive(Debug, Clone, Copy)]
pub struct Yes;

/// Marks a part of a type-checked builder that has not been given yet.
#[derive(Debug, Clone, Copy)]
pub struct No;

/// Whether a marker stands for a given part.
pub trait AssignState {
    spec fn is_assigned() -> bool;
}

impl AssignState for Yes {
    open spec fn is_assigned() -> bool {
        true
    }
}

impl AssignState for No {
    open spec fn is_assigned() -> bool {
        false
    }
}

/// A marker of a part not yet given, with the marker it turns into once
/// the part is given.
pub trait ToAssign {
    type Assigned: AssignState;
}

impl ToAssign for No {
    type Assigned = Yes;
}

} // verus!
