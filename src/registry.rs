//! An explicit, append-only registry of features, filled once at start-up and
//! read afterwards. It performs no deduplication.
use vstd::prelude::*;
use crate::kubeapi_options::{feature_patches_spec, Feature};
use crate::patch::{defs_view, PatchDefinition, PatchDefinitionView};

verus! {

/// The contribution of `n` registrations of a feature that contributes `s`,
/// in registration order.
pub open spec fn repeated(s: Seq<PatchDefinitionView>, n: nat) -> Seq<PatchDefinitionView>
    decreases n,
{
    if n == 0 {
        seq![]
    } else {
        repeated(s, (n - 1) as nat) + s
    }
}

pub struct FeatureRegistry {
    features: Vec<Feature>,
}

impl FeatureRegistry {
    /// The number of registrations so far.
    pub closed spec fn count(&self) -> nat {
        self.features@.len()
    }

    pub fn new() -> (r: FeatureRegistry)
        ensures
            r.count() == 0,
    {
        FeatureRegistry { features: Vec::new() }
    }

    /// Appends a feature; registering one twice makes it contribute twice.
    pub fn register(&mut self, feature: Feature)
        ensures
            final(self).count() == old(self).count() + 1,
    {
        self.features.push(feature);
    }

    /// Every registered feature, in registration order.
    pub fn all(&self) -> (r: &Vec<Feature>)
        ensures
            r@.len() == self.count(),
    {
        &self.features
    }

    /// The patch definitions of every registered feature, concatenated in
    /// registration order.
    pub fn composed_patches(&self) -> (r: Vec<PatchDefinition>)
        ensures
            defs_view(r@) == repeated(feature_patches_spec(), self.count()),
    {
        let mut r: Vec<PatchDefinition> = Vec::new();
        let n = self.features.len();
        for i in 0..n
            invariant
                n == self.features@.len(),
                defs_view(r@) == repeated(feature_patches_spec(), i as nat),
        {
            let mut more = self.features[i].patches();
            let ghost before = defs_view(r@);
            let ghost added = defs_view(more@);
            r.append(&mut more);
            assert(defs_view(r@) =~= before + added);
        }
        r
    }
}

} // verus!
