//! The in-place flavor of the transformation: instead of generating a
//! separately named double trait next to the original, the original trait
//! itself is rewritten so that every method lacking a default body gains a
//! synthesized one, and the marker type is given a placeholder
//! implementation of it. Generated diagnostics and "not implemented"
//! messages therefore carry the original trait's own name.

use vstd::prelude::*;

use crate::double_trait::spec_double_trait;
use crate::double_trait::SpecTransformError;
use crate::double_trait::TransformError;
use crate::dummy_impl::spec_dummy_impl;
use crate::model::DummyImplDecl;
use crate::model::SpecDummyImplDecl;
use crate::model::SpecTraitDecl;
use crate::model::TraitDecl;

verus! {

/// The two declarations produced by the in-place flavor: the rewritten
/// trait, and the placeholder implementation for the marker type. The
/// caller emits them in this order, replacing the original trait.
#[derive(Debug, PartialEq, Eq)]
pub struct DummiesOutput {
    pub trait_with_dummies: TraitDecl,
    pub dummy_impl: DummyImplDecl,
}

/// Ghost counterpart of [`DummiesOutput`].
pub struct SpecDummiesOutput {
    pub trait_with_dummies: SpecTraitDecl,
    pub dummy_impl: SpecDummyImplDecl,
}

impl DeepView for DummiesOutput {
    type V = SpecDummiesOutput;

    open spec fn deep_view(&self) -> SpecDummiesOutput {
        SpecDummiesOutput {
            trait_with_dummies: self.trait_with_dummies.deep_view(),
            dummy_impl: self.dummy_impl.deep_view(),
        }
    }
}

/// The in-place transformation: the double trait built under the original
/// trait's own name, together with the placeholder implementation.
pub open spec fn spec_expand(org_trait: SpecTraitDecl) -> Result<
    SpecDummiesOutput,
    SpecTransformError,
> {
    match spec_double_trait(org_trait.name, org_trait) {
        Result::Ok(d) => Result::Ok(
            SpecDummiesOutput {
                trait_with_dummies: d,
                dummy_impl: spec_dummy_impl(org_trait.name, org_trait),
            },
        ),
        Result::Err(e) => Result::Err(e),
    }
}

/// Rewrites a trait in place, giving every method a default body, and
/// produces the placeholder implementation; see [`spec_expand`].
pub fn expand(org_trait: &TraitDecl) -> (r: Result<DummiesOutput, TransformError>)
    ensures
        match r {
            Result::Ok(out) => spec_expand(org_trait.deep_view()) == Result::<
                SpecDummiesOutput,
                SpecTransformError,
            >::Ok(out.deep_view()),
            Result::Err(e) => spec_expand(org_trait.deep_view()) == Result::<
                SpecDummiesOutput,
                SpecTransformError,
            >::Err(e.deep_view()),
        },
{
    let trait_with_dummies = match crate::double_trait::double_trait(&org_trait.name, org_trait) {
        Result::Ok(d) => d,
        Result::Err(e) => {
            return Result::Err(e);
        },
    };
    let placeholder = crate::dummy_impl::dummy_impl(&org_trait.name, org_trait);
    Result::Ok(DummiesOutput { trait_with_dummies, dummy_impl: placeholder })
}

} // verus!
