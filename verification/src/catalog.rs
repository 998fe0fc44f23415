//! The catalog of features, and its resolution against install options.

use vstd::prelude::*;

use crate::error::PatchError;
use crate::feature::{feature_views, Feature, FeatureView};
use crate::options::{toggle_for, toggle_of, InstallOptions};

verus! {

/// The known features, in the order in which they are applied. A catalog is
/// built once and only read afterwards.
#[derive(Debug, Clone, PartialEq, Eq)]
pub struct Catalog {
    features: Vec<Feature>,
}

impl View for Catalog {
    type V = Seq<FeatureView>;

    closed spec fn view(&self) -> Seq<FeatureView> {
        feature_views(self.features@)
    }
}

impl Catalog {
    /// The catalog of the given features, in their order.
    pub fn new(features: Vec<Feature>) -> (r: Catalog)
        ensures
            r@ == feature_views(features@),
    {
        Catalog { features }
    }
}

/// Lists the whole catalog, each feature with its state by default.
pub fn get_available_features(catalog: &Catalog) -> (r: &Vec<Feature>)
    ensures
        feature_views(r@) == catalog@,
{
    &catalog.features
}

/// The options ask for a state of this feature, which may not be switched.
pub open spec fn toggle_refused(feature: FeatureView, options: InstallOptions) -> bool {
    toggle_of(feature.name, options).is_some() && !feature.optional
}

/// No feature of the catalog refuses what the options ask of it.
pub open spec fn resolvable(catalog: Seq<FeatureView>, options: InstallOptions) -> bool {
    forall|i: int| 0 <= i < catalog.len() ==> !toggle_refused(#[trigger] catalog[i], options)
}

/// A feature with its state as the options settle it: the state that its
/// switch asks for, or its state by default where no switch belongs to it.
pub open spec fn resolved_feature(feature: FeatureView, options: InstallOptions) -> FeatureView {
    match toggle_of(feature.name, options) {
        Some(enabled) => FeatureView { enabled, ..feature },
        None => feature,
    }
}

/// The catalog with every feature resolved, in catalog order.
pub open spec fn resolved(catalog: Seq<FeatureView>, options: InstallOptions) -> Seq<
    FeatureView,
> {
    Seq::new(catalog.len(), |i: int| resolved_feature(catalog[i], options))
}

/// Resolves the catalog against the options. The result is a fresh list, one
/// feature for each of the catalog's and in its order; the catalog itself is
/// not changed. Fails where a switch belongs to a feature that is not
/// optional.
pub fn configure_features(catalog: &Catalog, options: InstallOptions) -> (r: Result<
    Vec<Feature>,
    PatchError,
>)
    ensures
        match r {
            Ok(features) => resolvable(catalog@, options) && feature_views(features@) == resolved(
                catalog@,
                options,
            ),
            Err(e) => !resolvable(catalog@, options) && e == PatchError::IllegalToggle,
        },
{
    let all = get_available_features(catalog);
    let mut features: Vec<Feature> = Vec::with_capacity(all.len());
    let mut i: usize = 0;
    while i < all.len()
        invariant
            feature_views(all@) == catalog@,
            i <= all@.len(),
            features@.len() == i,
            forall|k: int| 0 <= k < i ==> !toggle_refused(#[trigger] catalog@[k], options),
            forall|k: int|
                0 <= k < i ==> (#[trigger] features@[k])@ == resolved_feature(
                    catalog@[k],
                    options,
                ),
        decreases all@.len() - i,
    {
        assert(catalog@[i as int] == all@[i as int]@);
        let mut feature = all[i].duplicate();
        match toggle_for(feature.name().as_str(), &options) {
            Some(enabled) => {
                match feature.enable(enabled) {
                    Ok(_) => {},
                    Err(e) => {
                        assert(toggle_refused(catalog@[i as int], options));
                        return Err(e);
                    },
                }
            },
            None => {},
        }
        features.push(feature);
        i += 1;
    }
    assert(feature_views(features@) =~= resolved(catalog@, options));
    Ok(features)
}

/// Resolution depends on nothing but the catalog and the options: equal
/// arguments give equal resolved lists.
pub proof fn resolution_is_pure(
    first: Seq<FeatureView>,
    second: Seq<FeatureView>,
    options: InstallOptions,
    again: InstallOptions,
)
    requires
        first == second,
        options == again,
    ensures
        resolvable(first, options) == resolvable(second, again),
        resolved(first, options) == resolved(second, again),
{
}

/// Resolution keeps the catalog's length and order, touches nothing but the
/// state of a feature, and leaves a feature to which no switch belongs in its
/// state by default.
pub proof fn resolution_keeps_defaults(catalog: Seq<FeatureView>, options: InstallOptions, i: int)
    requires
        0 <= i < catalog.len(),
    ensures
        resolved(catalog, options).len() == catalog.len(),
        resolved(catalog, options)[i] == (FeatureView {
            enabled: resolved(catalog, options)[i].enabled,
            ..catalog[i]
        }),
        toggle_of(catalog[i].name, options).is_none() ==> resolved(catalog, options)[i]
            == catalog[i],
{
}

} // verus!
