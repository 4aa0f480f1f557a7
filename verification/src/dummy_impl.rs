//! The placeholder builder: an implementation of the double trait for the
//! zero-sized marker type.
//!
//! Every associated type declared by the original trait is bound, in this
//! implementation, to the marker type itself, so that the implementation
//! compiles without the caller supplying any type information; methods need
//! no bodies because the double trait supplies a default for every one.

use vstd::prelude::*;

use crate::model::AssocTypeDecl;
use crate::model::DummyImplDecl;
use crate::model::SpecAssocTypeDecl;
use crate::model::SpecDummyImplDecl;
use crate::model::SpecTraitDecl;
use crate::model::SpecTraitItem;
use crate::model::TraitDecl;
use crate::model::TraitItem;

verus! {

/// The marker-type bindings for the first `n` original items, in order:
/// one binding per associated-type item, every other item skipped.
pub open spec fn spec_dummy_types_prefix(items: Seq<SpecTraitItem>, n: int) -> Seq<
    SpecAssocTypeDecl,
>
    decreases n,
{
    if n <= 0 {
        Seq::empty()
    } else {
        let pre = spec_dummy_types_prefix(items, n - 1);
        match items[n - 1] {
            SpecTraitItem::Type(t) => pre.push(t),
            _ => pre,
        }
    }
}

/// The placeholder implementation of the double trait for the marker type:
/// every associated type declared by the original trait is bound to the
/// marker type; nothing else is declared.
pub open spec fn spec_dummy_impl(
    double_trait_name: Seq<char>,
    org_trait: SpecTraitDecl,
) -> SpecDummyImplDecl {
    SpecDummyImplDecl {
        double_trait_name,
        types: spec_dummy_types_prefix(org_trait.items, org_trait.items.len() as int),
    }
}

/// Generates the placeholder implementation; see [`spec_dummy_impl`]. The
/// original declaration is never modified.
pub fn dummy_impl(double_trait_name: &String, org_trait: &TraitDecl) -> (r: DummyImplDecl)
    ensures
        r.deep_view() == spec_dummy_impl(double_trait_name@, org_trait.deep_view()),
{
    let ghost iview = org_trait.deep_view().items;
    let mut types: Vec<AssocTypeDecl> = Vec::new();
    proof {
        assert(types.deep_view() =~= Seq::<SpecAssocTypeDecl>::empty());
    }
    let mut i: usize = 0;
    while i < org_trait.items.len()
        invariant
            i <= org_trait.items@.len(),
            iview == org_trait.deep_view().items,
            iview.len() == org_trait.items@.len(),
            forall|k: int|
                0 <= k < org_trait.items@.len() ==> iview[k] == org_trait.items@[k].deep_view(),
            types.deep_view() == spec_dummy_types_prefix(iview, i as int),
        decreases org_trait.items@.len() - i,
    {
        match &org_trait.items[i] {
            TraitItem::Type(ty_item) => {
                let ghost pre = types.deep_view();
                let copy = ty_item.clone();
                let ghost cv = copy.deep_view();
                types.push(copy);
                proof {
                    assert(types.deep_view() =~= pre.push(cv));
                }
            },
            _ => {},
        }
        i = i + 1;
    }
    DummyImplDecl { double_trait_name: double_trait_name.clone(), types }
}

} // verus!
