//! Features and their injections.

use vstd::prelude::*;
use vstd::string::StringExecFns;

use crate::error::PatchError;

verus! {

/// One patch unit: hex text to be written at an absolute offset.
#[derive(Debug, Clone, PartialEq, Eq)]
pub struct Injection {
    /// The address in the patched image at which the patch begins.
    pub offset: u32,
    /// The patch as hex text, two digits for each byte.
    pub payload: String,
}

/// What an injection is, as plain values.
pub struct InjectionView {
    pub offset: u32,
    pub payload: Seq<char>,
}

impl View for Injection {
    type V = InjectionView;

    open spec fn view(&self) -> InjectionView {
        InjectionView { offset: self.offset, payload: self.payload@ }
    }
}

impl Injection {
    /// An injection of `payload` at `offset`.
    pub fn new(offset: u32, payload: String) -> (r: Injection)
        ensures
            r@ == (InjectionView { offset, payload: payload@ }),
    {
        Injection { offset, payload }
    }

    /// A copy of this injection.
    pub fn duplicate(&self) -> (r: Injection)
        ensures
            r@ == self@,
    {
        Injection { offset: self.offset, payload: self.payload.clone() }
    }
}

/// A named set of injections that is switched on or off as a whole.
#[derive(Debug, Clone, PartialEq, Eq)]
pub struct Feature {
    /// The name by which the feature is shown and found. Unique in a catalog.
    pub name: String,
    /// Whether install options may switch the feature.
    pub optional: bool,
    /// Whether the feature changes what players in one game must agree on.
    pub affects_sync: bool,
    enabled: bool,
    patches: Vec<Injection>,
}

/// What a feature is, as plain values.
pub struct FeatureView {
    pub name: Seq<char>,
    pub optional: bool,
    pub affects_sync: bool,
    pub enabled: bool,
    pub injections: Seq<InjectionView>,
}

/// `true` or `false`, written out.
pub open spec fn bool_text(b: bool) -> Seq<char> {
    if b {
        "true"@
    } else {
        "false"@
    }
}

/// One line about a feature: its name in quotes and its three flags. The
/// injections are left out.
pub open spec fn description(feature: FeatureView) -> Seq<char> {
    "Feature { \""@ + feature.name + "\", optional: "@ + bool_text(feature.optional)
        + ", affects_sync: "@ + bool_text(feature.affects_sync) + ", enabled: "@ + bool_text(
        feature.enabled,
    ) + " }"@
}

fn push_bool(out: &mut String, b: bool)
    ensures
        final(out)@ == old(out)@ + bool_text(b),
{
    if b {
        out.append("true");
    } else {
        out.append("false");
    }
}

/// The views of a list of injections, in order.
pub open spec fn injection_views(patches: Seq<Injection>) -> Seq<InjectionView> {
    Seq::new(patches.len(), |i: int| patches[i]@)
}

/// The views of a list of features, in order.
pub open spec fn feature_views(features: Seq<Feature>) -> Seq<FeatureView> {
    Seq::new(features.len(), |i: int| features[i]@)
}

impl View for Feature {
    type V = FeatureView;

    closed spec fn view(&self) -> FeatureView {
        FeatureView {
            name: self.name@,
            optional: self.optional,
            affects_sync: self.affects_sync,
            enabled: self.enabled,
            injections: injection_views(self.patches@),
        }
    }
}

impl Feature {
    /// A feature as a catalog lists it, with its state by default.
    pub fn new(
        name: String,
        optional: bool,
        affects_sync: bool,
        enabled: bool,
        patches: Vec<Injection>,
    ) -> (r: Feature)
        ensures
            r@ == (FeatureView {
                name: name@,
                optional,
                affects_sync,
                enabled,
                injections: injection_views(patches@),
            }),
    {
        Feature { name, optional, affects_sync, enabled, patches }
    }

    /// The feature's name.
    pub fn name(&self) -> (r: &String)
        ensures
            r@ == self@.name,
    {
        &self.name
    }

    /// Whether install options may switch the feature.
    pub fn is_optional(&self) -> (r: bool)
        ensures
            r == self@.optional,
    {
        self.optional
    }

    /// Refuses a feature that install options may not switch.
    pub fn assert_optional(&self) -> (r: Result<(), PatchError>)
        ensures
            self@.optional ==> r is Ok,
            !self@.optional ==> r == Err::<(), PatchError>(PatchError::IllegalToggle),
    {
        if self.optional {
            Ok(())
        } else {
            Err(PatchError::IllegalToggle)
        }
    }

    /// Switches an optional feature on or off. A feature that is not optional
    /// refuses whatever state is asked for, and stays as it is.
    pub fn enable(&mut self, enabled: bool) -> (r: Result<(), PatchError>)
        ensures
            old(self)@.optional ==> r is Ok && final(self)@ == (FeatureView {
                enabled,
                ..old(self)@
            }),
            !old(self)@.optional ==> r == Err::<(), PatchError>(PatchError::IllegalToggle)
                && *final(self) == *old(self),
    {
        match self.assert_optional() {
            Ok(_) => {
                self.enabled = enabled;
                Ok(())
            },
            Err(e) => Err(e),
        }
    }

    /// Whether the feature is switched on.
    pub fn enabled(&self) -> (r: bool)
        ensures
            r == self@.enabled,
    {
        self.enabled
    }

    /// The feature's injections, in the order in which they are applied.
    pub fn injections(&self) -> (r: &Vec<Injection>)
        ensures
            injection_views(r@) == self@.injections,
    {
        &self.patches
    }

    /// One line about the feature, for listings.
    pub fn describe(&self) -> (r: String)
        ensures
            r@ == description(self@),
    {
        let mut out = String::from_str("Feature { \"");
        out.append(self.name.as_str());
        out.append("\", optional: ");
        push_bool(&mut out, self.optional);
        out.append(", affects_sync: ");
        push_bool(&mut out, self.affects_sync);
        out.append(", enabled: ");
        push_bool(&mut out, self.enabled);
        out.append(" }");
        out
    }

    /// A copy of this feature.
    pub fn duplicate(&self) -> (r: Feature)
        ensures
            r@ == self@,
    {
        let mut patches: Vec<Injection> = Vec::with_capacity(self.patches.len());
        let mut i: usize = 0;
        while i < self.patches.len()
            invariant
                i <= self.patches@.len(),
                patches@.len() == i,
                forall|k: int| 0 <= k < i ==> (#[trigger] patches@[k])@ == self.patches@[k]@,
            decreases self.patches@.len() - i,
        {
            patches.push(self.patches[i].duplicate());
            i += 1;
        }
        assert(injection_views(patches@) =~= injection_views(self.patches@));
        Feature {
            name: self.name.clone(),
            optional: self.optional,
            affects_sync: self.affects_sync,
            enabled: self.enabled,
            patches,
        }
    }
}

} // verus!
