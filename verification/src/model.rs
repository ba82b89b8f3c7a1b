//! Installation settings.
//!
//! The model uses copy semantics throughout: a separate installer backend
//! can be fed a settings value without sharing state with the frontend.

use vstd::prelude::*;
use crate::provisioner::StrategyDefinition;

verus! {

/// Region specific installation settings.
pub struct RegionModel {
    /// System language (i.e. "en_US").
    pub language: String,
    /// System timezone (i.e. "Europe/London").
    pub timezone: String,
}

impl Default for RegionModel {
    /// The stock region settings: a UTF-8 US-English language and the UTC
    /// timezone.
    fn default() -> (r: Self)
        ensures
            r.language@ == "en_US.UTF-8"@,
            r.timezone@ == "UTC"@,
    {
        Self { language: "en_US.UTF-8".to_owned(), timezone: "UTC".to_owned() }
    }
}

/// Disk configuration.
///
/// The strategy definition itself is immutable and there is only one
/// outcome for a given set of inputs, so a backend can be fed this plan
/// and execute it without worrying about the plan changing underneath it.
pub struct DiskModel {
    /// Device pool to (re-)seed the provisioner with.
    pub devices: Vec<String>,
    /// Disk strategy to apply.
    pub strategy: StrategyDefinition,
    /// The disk strategy may yield multiple plans, so track the one the
    /// user picked from the plan list. The list indices are stable.
    pub plan_index: usize,
}

/// Installation settings.
pub struct Model {
    /// Region specific installation settings.
    pub region: RegionModel,
}

impl Default for Model {
    /// The model with stock region settings.
    fn default() -> (r: Self)
        ensures
            r.region.language@ == "en_US.UTF-8"@,
            r.region.timezone@ == "UTC"@,
    {
        Self { region: Default::default() }
    }
}

} // verus!
