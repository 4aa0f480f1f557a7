//! A source-to-source transformation for interface declarations ("traits").
//!
//! Given a parsed trait declaration and a requested name, the library
//! synthesizes a "double" trait that mirrors the original but supplies a
//! best-effort default body for every method lacking one, a blanket
//! implementation that makes any implementor of the double trait satisfy the
//! original trait by forwarding every call, and a trivial implementation of
//! the double trait for the zero-sized [`Dummy`] marker type.
//!
//! The caller is responsible for parsing raw trait syntax into the data model
//! of [`model`] and for rendering the produced declarations back to source
//! text; this crate only performs the transformation itself.

use vstd::prelude::*;

pub mod model;
pub mod laws;
pub mod double_trait;
pub mod dummies;
pub mod dummy_impl;
pub mod trait_impl;

use crate::double_trait::SpecTransformError;
use crate::double_trait::TransformError;
use crate::double_trait::spec_double_trait;
use crate::dummy_impl::spec_dummy_impl;
use crate::model::DummyImplDecl;
use crate::model::GeneratedFragment;
use crate::model::SpecDummyImplDecl;
use crate::model::SpecGeneratedFragment;
use crate::model::SpecTraitDecl;
use crate::model::SpecTraitImplDecl;
use crate::model::TraitDecl;
use crate::model::TraitImplDecl;
use crate::trait_impl::spec_trait_impl;

verus! {

/// The zero-sized marker type for which the generated double trait is
/// trivially implemented, so that tests can name "some implementor" of an
/// interface without defining a bespoke type.
#[derive(Clone, Copy, Debug, PartialEq, Eq)]
pub struct Dummy;

/// The four declarations produced by the transformation. The caller emits
/// them in this order: the original trait unchanged, the double trait, the
/// adapter implementation, and the placeholder implementation.
#[derive(Debug, PartialEq, Eq)]
pub struct ExpandOutput {
    pub org_trait: TraitDecl,
    pub double_trait: TraitDecl,
    pub trait_impl: TraitImplDecl,
    pub dummy_impl: DummyImplDecl,
}

/// Ghost counterpart of [`ExpandOutput`].
pub struct SpecExpandOutput {
    pub org_trait: SpecTraitDecl,
    pub double_trait: SpecTraitDecl,
    pub trait_impl: SpecTraitImplDecl,
    pub dummy_impl: SpecDummyImplDecl,
}

impl DeepView for ExpandOutput {
    type V = SpecExpandOutput;

    open spec fn deep_view(&self) -> SpecExpandOutput {
        SpecExpandOutput {
            org_trait: self.org_trait.deep_view(),
            double_trait: self.double_trait.deep_view(),
            trait_impl: self.trait_impl.deep_view(),
            dummy_impl: self.dummy_impl.deep_view(),
        }
    }
}

impl ExpandOutput {
    /// The emitted declarations in the fixed order in which the caller
    /// concatenates them: the original trait unchanged, the double trait,
    /// the adapter implementation, and the placeholder implementation.
    pub fn fragments(self) -> (r: Vec<GeneratedFragment>)
        ensures
            r.deep_view() == seq![
                SpecGeneratedFragment::Interface(self.org_trait.deep_view()),
                SpecGeneratedFragment::Interface(self.double_trait.deep_view()),
                SpecGeneratedFragment::Adapter(self.trait_impl.deep_view()),
                SpecGeneratedFragment::Placeholder(self.dummy_impl.deep_view()),
            ],
    {
        let ghost expected = seq![
            SpecGeneratedFragment::Interface(self.org_trait.deep_view()),
            SpecGeneratedFragment::Interface(self.double_trait.deep_view()),
            SpecGeneratedFragment::Adapter(self.trait_impl.deep_view()),
            SpecGeneratedFragment::Placeholder(self.dummy_impl.deep_view()),
        ];
        let mut r: Vec<GeneratedFragment> = Vec::new();
        r.push(GeneratedFragment::Interface(self.org_trait));
        r.push(GeneratedFragment::Interface(self.double_trait));
        r.push(GeneratedFragment::Adapter(self.trait_impl));
        r.push(GeneratedFragment::Placeholder(self.dummy_impl));
        proof {
            assert(r.deep_view() =~= expected);
        }
        r
    }
}

/// The whole transformation: the original declaration kept unchanged, the
/// double trait under the requested name, the adapter implementation, and
/// the placeholder implementation. The one failure is a method whose
/// return type is an opaque type with no capability constraint at all.
pub open spec fn spec_expand(double_trait_name: Seq<char>, org_trait: SpecTraitDecl) -> Result<
    SpecExpandOutput,
    SpecTransformError,
> {
    match spec_double_trait(double_trait_name, org_trait) {
        Result::Ok(d) => Result::Ok(
            SpecExpandOutput {
                org_trait,
                double_trait: d,
                trait_impl: spec_trait_impl(double_trait_name, org_trait),
                dummy_impl: spec_dummy_impl(double_trait_name, org_trait),
            },
        ),
        Result::Err(e) => Result::Err(e),
    }
}

/// Runs the whole transformation; see [`spec_expand`]. The declaration is
/// returned unchanged as the first fragment of the output.
pub fn expand(double_trait_name: &String, org_trait: TraitDecl) -> (r: Result<
    ExpandOutput,
    TransformError,
>)
    ensures
        match r {
            Result::Ok(out) => spec_expand(double_trait_name@, org_trait.deep_view()) == Result::<
                SpecExpandOutput,
                SpecTransformError,
            >::Ok(out.deep_view()),
            Result::Err(e) => spec_expand(double_trait_name@, org_trait.deep_view()) == Result::<
                SpecExpandOutput,
                SpecTransformError,
            >::Err(e.deep_view()),
        },
{
    let generated_double_trait = match crate::double_trait::double_trait(
        double_trait_name,
        &org_trait,
    ) {
        Result::Ok(d) => d,
        Result::Err(e) => {
            return Result::Err(e);
        },
    };
    let generated_trait_impl = crate::trait_impl::trait_impl(double_trait_name, &org_trait);
    let generated_dummy_impl = crate::dummy_impl::dummy_impl(double_trait_name, &org_trait);
    Result::Ok(
        ExpandOutput {
            org_trait,
            double_trait: generated_double_trait,
            trait_impl: generated_trait_impl,
            dummy_impl: generated_dummy_impl,
        },
    )
}

} // verus!
