//! The adapter builder: a blanket implementation of the original trait for
//! every type implementing the double trait.
//!
//! Each original method becomes a forwarding method with the unchanged
//! signature, whose body invokes the same-named method of the double trait,
//! passing every parameter through under its original name (and awaiting
//! the result when the method is asynchronous); each associated type
//! becomes an alias of the double trait's same-named associated type.

use vstd::prelude::*;

use crate::model::Argument;
use crate::model::ForwardCall;
use crate::model::ImplFn;
use crate::model::ImplItem;
use crate::model::Parameter;
use crate::model::AssocTypeDecl;
use crate::model::SpecArgument;
use crate::model::SpecAssocTypeDecl;
use crate::model::SpecForwardCall;
use crate::model::SpecImplFn;
use crate::model::SpecImplItem;
use crate::model::SpecParameter;
use crate::model::SpecTraitDecl;
use crate::model::SpecTraitFn;
use crate::model::SpecTraitImplDecl;
use crate::model::SpecTraitItem;
use crate::model::SpecTypeAlias;
use crate::model::TraitDecl;
use crate::model::TraitFn;
use crate::model::TraitImplDecl;
use crate::model::TraitItem;
use crate::model::TypeAlias;

verus! {

/// The argument forwarding one parameter: a receiver passes the receiver
/// itself; any other parameter is passed through under its original
/// pattern.
pub open spec fn spec_parameter_to_argument(p: SpecParameter) -> SpecArgument {
    match p {
        SpecParameter::Receiver { .. } => SpecArgument::Receiver,
        SpecParameter::Typed { pattern, ty: _ } => SpecArgument::Pattern(pattern),
    }
}

/// Maps one parameter to the argument forwarding it; see
/// [`spec_parameter_to_argument`].
pub fn parameter_to_argument(input: &Parameter) -> (r: Argument)
    ensures
        r.deep_view() == spec_parameter_to_argument(input.deep_view()),
{
    match input {
        Parameter::Receiver { .. } => Argument::Receiver,
        Parameter::Typed { pattern, ty: _ } => Argument::Pattern(pattern.clone()),
    }
}

/// The forwarding method for one original method: the signature is kept
/// exactly (receiver, asynchronous flag, parameter names and types, return
/// type), and the body calls the double trait's same-named method with
/// every parameter forwarded in order, awaiting the result when the method
/// is asynchronous.
pub open spec fn spec_forward_methods(fn_item: SpecTraitFn, double_trait_name: Seq<char>) -> SpecImplFn {
    SpecImplFn {
        sig: fn_item.sig,
        call: SpecForwardCall {
            target_trait: double_trait_name,
            method: fn_item.sig.name,
            args: fn_item.sig.inputs.map_values(|p: SpecParameter| spec_parameter_to_argument(p)),
            awaited: fn_item.sig.is_async,
        },
    }
}

/// Builds the forwarding method for one original method; see
/// [`spec_forward_methods`].
pub fn forward_methods(fn_item: &TraitFn, double_trait_name: &String) -> (r: ImplFn)
    ensures
        r.deep_view() == spec_forward_methods(fn_item.deep_view(), double_trait_name@),
{
    let mut args: Vec<Argument> = Vec::new();
    let mut i: usize = 0;
    while i < fn_item.sig.inputs.len()
        invariant
            i <= fn_item.sig.inputs@.len(),
            args@.len() == i,
            forall|k: int|
                0 <= k < i ==> args@[k].deep_view() == spec_parameter_to_argument(
                    fn_item.sig.inputs@[k].deep_view(),
                ),
        decreases fn_item.sig.inputs@.len() - i,
    {
        args.push(parameter_to_argument(&fn_item.sig.inputs[i]));
        i = i + 1;
    }
    let r = ImplFn {
        sig: fn_item.sig.clone(),
        call: ForwardCall {
            target_trait: double_trait_name.clone(),
            method: fn_item.sig.name.clone(),
            args,
            awaited: fn_item.sig.is_async,
        },
    };
    proof {
        assert(r.call.deep_view().args =~= spec_forward_methods(
            fn_item.deep_view(),
            double_trait_name@,
        ).call.args);
    }
    r
}

/// The alias forwarding one associated type: the same name and generics,
/// bound to the double trait's same-named associated type.
pub open spec fn spec_forward_type(ty_item: SpecAssocTypeDecl, double_trait_name: Seq<char>) -> SpecTypeAlias {
    SpecTypeAlias { decl: ty_item, target_trait: double_trait_name }
}

/// Builds the alias forwarding one associated type; see
/// [`spec_forward_type`].
pub fn forward_type(ty_item: &AssocTypeDecl, double_trait_name: &String) -> (r: TypeAlias)
    ensures
        r.deep_view() == spec_forward_type(ty_item.deep_view(), double_trait_name@),
{
    TypeAlias { decl: ty_item.clone(), target_trait: double_trait_name.clone() }
}

/// The adapter item for one original trait item: methods are forwarded,
/// associated types are aliased, and any other item is ignored, since a
/// blanket implementation cannot meaningfully re-declare it.
pub open spec fn spec_forward_items(trait_item: SpecTraitItem, double_trait_name: Seq<char>) -> Option<SpecImplItem> {
    match trait_item {
        SpecTraitItem::Fn(f) => Option::Some(
            SpecImplItem::Fn(spec_forward_methods(f, double_trait_name)),
        ),
        SpecTraitItem::Type(t) => Option::Some(
            SpecImplItem::Type(spec_forward_type(t, double_trait_name)),
        ),
        SpecTraitItem::Verbatim { .. } => Option::None,
    }
}

/// Builds the adapter item for one original trait item; see
/// [`spec_forward_items`].
pub fn forward_items(trait_item: &TraitItem, double_trait_name: &String) -> (r: Option<ImplItem>)
    ensures
        match r {
            Option::Some(item) => spec_forward_items(trait_item.deep_view(), double_trait_name@)
                == Option::Some(item.deep_view()),
            Option::None => spec_forward_items(trait_item.deep_view(), double_trait_name@)
                is None,
        },
{
    match trait_item {
        TraitItem::Fn(fn_item) => Option::Some(
            ImplItem::Fn(forward_methods(fn_item, double_trait_name)),
        ),
        TraitItem::Type(ty_item) => Option::Some(
            ImplItem::Type(forward_type(ty_item, double_trait_name)),
        ),
        TraitItem::Verbatim { .. } => Option::None,
    }
}

/// The adapter items for the first `n` original items, in order.
pub open spec fn spec_forward_items_prefix(
    items: Seq<SpecTraitItem>,
    double_trait_name: Seq<char>,
    n: int,
) -> Seq<SpecImplItem>
    decreases n,
{
    if n <= 0 {
        Seq::empty()
    } else {
        let pre = spec_forward_items_prefix(items, double_trait_name, n - 1);
        match spec_forward_items(items[n - 1], double_trait_name) {
            Option::Some(item) => pre.push(item),
            Option::None => pre,
        }
    }
}

/// The adapter implementation: for every type `T` implementing the double
/// trait, `T` implements the original trait, with one forwarding method per
/// original method and one type alias per original associated type.
pub open spec fn spec_trait_impl(
    double_trait_name: Seq<char>,
    org_trait: SpecTraitDecl,
) -> SpecTraitImplDecl {
    SpecTraitImplDecl {
        vis: org_trait.vis,
        org_trait_name: org_trait.name,
        double_trait_name,
        items: spec_forward_items_prefix(
            org_trait.items,
            double_trait_name,
            org_trait.items.len() as int,
        ),
    }
}

/// Generates the adapter implementation; see [`spec_trait_impl`]. The
/// original declaration is never modified.
pub fn trait_impl(double_trait_name: &String, org_trait: &TraitDecl) -> (r: TraitImplDecl)
    ensures
        r.deep_view() == spec_trait_impl(double_trait_name@, org_trait.deep_view()),
{
    let ghost iview = org_trait.deep_view().items;
    let mut items: Vec<ImplItem> = Vec::new();
    proof {
        assert(items.deep_view() =~= Seq::<SpecImplItem>::empty());
    }
    let mut i: usize = 0;
    while i < org_trait.items.len()
        invariant
            i <= org_trait.items@.len(),
            iview == org_trait.deep_view().items,
            iview.len() == org_trait.items@.len(),
            forall|k: int|
                0 <= k < org_trait.items@.len() ==> iview[k] == org_trait.items@[k].deep_view(),
            items.deep_view() == spec_forward_items_prefix(iview, double_trait_name@, i as int),
        decreases org_trait.items@.len() - i,
    {
        match forward_items(&org_trait.items[i], double_trait_name) {
            Option::Some(item) => {
                let ghost pre = items.deep_view();
                let ghost itemv = item.deep_view();
                items.push(item);
                proof {
                    assert(items.deep_view() =~= pre.push(itemv));
                }
            },
            Option::None => {},
        }
        i = i + 1;
    }
    TraitImplDecl {
        vis: org_trait.vis,
        org_trait_name: org_trait.name.clone(),
        double_trait_name: double_trait_name.clone(),
        items,
    }
}

} // verus!
