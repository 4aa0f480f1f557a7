//! The guarantees of the transformation, stated and proved over the ghost
//! model: determinism, preservation of item counts and of existing default
//! bodies, completeness of the adapter's forwarding, coverage of the
//! placeholder implementation, and visibility propagation.

use vstd::prelude::*;

use crate::double_trait::spec_double_trait;
use crate::double_trait::spec_transform_items_prefix;
use crate::double_trait::spec_transform_trait_item;
use crate::double_trait::SpecTransformError;
use crate::dummy_impl::spec_dummy_impl;
use crate::dummy_impl::spec_dummy_types_prefix;
use crate::model::SpecArgument;
use crate::model::SpecAssocTypeDecl;
use crate::model::SpecImplItem;
use crate::model::SpecParameter;
use crate::model::SpecTraitDecl;
use crate::model::SpecTraitFn;
use crate::model::SpecTraitImplDecl;
use crate::model::SpecTraitItem;
use crate::spec_expand;
use crate::trait_impl::spec_forward_items;
use crate::trait_impl::spec_forward_items_prefix;
use crate::trait_impl::spec_forward_methods;
use crate::trait_impl::spec_trait_impl;
use crate::SpecExpandOutput;

verus! {

/// The transformation is deterministic: two runs on the same shadow name
/// and the same declaration produce structurally identical output.
pub proof fn lemma_expand_deterministic(
    double_trait_name: Seq<char>,
    org_trait: SpecTraitDecl,
    r1: SpecExpandOutput,
    r2: SpecExpandOutput,
)
    requires
        spec_expand(double_trait_name, org_trait) == Result::<
            SpecExpandOutput,
            SpecTransformError,
        >::Ok(r1),
        spec_expand(double_trait_name, org_trait) == Result::<
            SpecExpandOutput,
            SpecTransformError,
        >::Ok(r2),
    ensures
        r1 == r2,
{
}

/// Whether one trait item survives classification: every non-method item
/// does, and so does every method that already has a default body or whose
/// return type classifies without error.
pub open spec fn spec_item_well_formed(item: SpecTraitItem) -> bool {
    match item {
        SpecTraitItem::Fn(f) => f.default is Some || crate::double_trait::spec_return_type_info(
            f.sig.output,
        ) is Ok,
        _ => true,
    }
}

/// Transforming the first `n` items succeeds exactly when all of them are
/// well formed.
proof fn lemma_transform_items_prefix_ok_iff(
    items: Seq<SpecTraitItem>,
    double_trait_name: Seq<char>,
    n: int,
)
    requires
        n >= 0,
    ensures
        spec_transform_items_prefix(items, double_trait_name, n) is Ok <==> (forall|i: int|
            0 <= i < n ==> #[trigger] spec_item_well_formed(items[i])),
    decreases n,
{
    if n > 0 {
        lemma_transform_items_prefix_ok_iff(items, double_trait_name, n - 1);
        assert(spec_item_well_formed(items[n - 1]) <==> spec_transform_trait_item(
            items[n - 1],
            double_trait_name,
        ) is Ok);
    }
}

/// When success is owed: the transformation succeeds if and only if every
/// method either already has a default body or has a return type that
/// classifies — that is, no method without a default declares an opaque
/// return type lacking a capability constraint. This is the one hard
/// failure; everything else, a recognized-but-unsupported capability
/// included, degrades to a diagnostic embedded in the output instead.
pub proof fn lemma_expand_ok_iff_well_formed(
    double_trait_name: Seq<char>,
    org_trait: SpecTraitDecl,
)
    ensures
        spec_expand(double_trait_name, org_trait) is Ok <==> (forall|i: int|
            0 <= i < org_trait.items.len() ==> #[trigger] spec_item_well_formed(
                org_trait.items[i],
            )),
{
    lemma_transform_items_prefix_ok_iff(
        org_trait.items,
        double_trait_name,
        org_trait.items.len() as int,
    );
}

/// Transforming the first `n` items yields, on success, exactly `n` items,
/// the `i`-th being the transformed `i`-th original item.
proof fn lemma_transform_items_prefix_index(
    items: Seq<SpecTraitItem>,
    double_trait_name: Seq<char>,
    n: int,
)
    requires
        n >= 0,
    ensures
        spec_transform_items_prefix(items, double_trait_name, n) matches Result::Ok(s) ==> (s.len()
            == n && forall|i: int|
            0 <= i < n ==> #[trigger] spec_transform_trait_item(items[i], double_trait_name)
                == Result::<SpecTraitItem, SpecTransformError>::Ok(s[i])),
    decreases n,
{
    if n > 0 {
        lemma_transform_items_prefix_index(items, double_trait_name, n - 1);
    }
}

/// Item-count invariant: the double trait has exactly as many items as the
/// original declaration.
pub proof fn lemma_double_trait_item_count(
    double_trait_name: Seq<char>,
    org_trait: SpecTraitDecl,
    d: SpecTraitDecl,
)
    requires
        spec_double_trait(double_trait_name, org_trait) == Result::<
            SpecTraitDecl,
            SpecTransformError,
        >::Ok(d),
    ensures
        d.items.len() == org_trait.items.len(),
{
    lemma_transform_items_prefix_index(
        org_trait.items,
        double_trait_name,
        org_trait.items.len() as int,
    );
}

/// Default-preservation: a method that already declares a default body is
/// carried into the double trait unchanged, body included; so is every
/// non-method item.
pub proof fn lemma_double_trait_preserves_defaults(
    double_trait_name: Seq<char>,
    org_trait: SpecTraitDecl,
    d: SpecTraitDecl,
    i: int,
)
    requires
        spec_double_trait(double_trait_name, org_trait) == Result::<
            SpecTraitDecl,
            SpecTransformError,
        >::Ok(d),
        0 <= i < org_trait.items.len(),
        match org_trait.items[i] {
            SpecTraitItem::Fn(f) => f.default is Some,
            _ => true,
        },
    ensures
        d.items[i] == org_trait.items[i],
{
    lemma_transform_items_prefix_index(
        org_trait.items,
        double_trait_name,
        org_trait.items.len() as int,
    );
    assert(spec_transform_trait_item(org_trait.items[i], double_trait_name) == Result::<
        SpecTraitItem,
        SpecTransformError,
    >::Ok(d.items[i]));
}

/// Every method of the double trait carries a default body: either the
/// original one, or exactly one synthesized body.
pub proof fn lemma_double_trait_methods_have_defaults(
    double_trait_name: Seq<char>,
    org_trait: SpecTraitDecl,
    d: SpecTraitDecl,
    i: int,
)
    requires
        spec_double_trait(double_trait_name, org_trait) == Result::<
            SpecTraitDecl,
            SpecTransformError,
        >::Ok(d),
        0 <= i < d.items.len(),
    ensures
        d.items[i] matches SpecTraitItem::Fn(g) ==> g.default is Some,
{
    lemma_transform_items_prefix_index(
        org_trait.items,
        double_trait_name,
        org_trait.items.len() as int,
    );
    assert(spec_transform_trait_item(org_trait.items[i], double_trait_name) == Result::<
        SpecTraitItem,
        SpecTransformError,
    >::Ok(d.items[i]));
}

/// The shape of one forwarding method: the signature is the original one,
/// unchanged; the call targets the double trait's same-named method,
/// awaits exactly when the method is asynchronous, and passes the
/// receiver as itself and every other parameter under its original
/// pattern, in original order.
pub proof fn lemma_forward_method_shape(fn_item: SpecTraitFn, double_trait_name: Seq<char>)
    ensures
        spec_forward_methods(fn_item, double_trait_name).sig == fn_item.sig,
        spec_forward_methods(fn_item, double_trait_name).call.target_trait == double_trait_name,
        spec_forward_methods(fn_item, double_trait_name).call.method == fn_item.sig.name,
        spec_forward_methods(fn_item, double_trait_name).call.awaited == fn_item.sig.is_async,
        spec_forward_methods(fn_item, double_trait_name).call.args.len()
            == fn_item.sig.inputs.len(),
        forall|k: int|
            0 <= k < fn_item.sig.inputs.len() ==> match #[trigger] fn_item.sig.inputs[k] {
                SpecParameter::Receiver { .. } => spec_forward_methods(
                    fn_item,
                    double_trait_name,
                ).call.args[k] == SpecArgument::Receiver,
                SpecParameter::Typed { pattern, ty: _ } => spec_forward_methods(
                    fn_item,
                    double_trait_name,
                ).call.args[k] == SpecArgument::Pattern(pattern),
            },
{
}

/// The number of forwarding methods among the adapter items built from the
/// first `n` original items equals the number of method items among those
/// `n`, and likewise for type aliases; every original method is forwarded
/// at some adapter position.
proof fn lemma_forward_items_prefix_index(
    items: Seq<SpecTraitItem>,
    double_trait_name: Seq<char>,
    n: int,
)
    ensures
        spec_count_impl_fn_items(
            spec_forward_items_prefix(items, double_trait_name, n),
            spec_forward_items_prefix(items, double_trait_name, n).len() as int,
        ) == spec_count_fn_items(items, n),
        spec_count_impl_type_items(
            spec_forward_items_prefix(items, double_trait_name, n),
            spec_forward_items_prefix(items, double_trait_name, n).len() as int,
        ) == spec_count_type_items(items, n),
        forall|i: int|
            0 <= i < n && items[i] is Fn ==> exists|j: int|
                0 <= j < spec_forward_items_prefix(items, double_trait_name, n).len()
                    && #[trigger] spec_forward_items_prefix(items, double_trait_name, n)[j]
                    == spec_forward_items(items[i], double_trait_name)->Some_0,
        forall|i: int|
            0 <= i < n && items[i] is Type ==> exists|j: int|
                0 <= j < spec_forward_items_prefix(items, double_trait_name, n).len()
                    && #[trigger] spec_forward_items_prefix(items, double_trait_name, n)[j]
                    == spec_forward_items(items[i], double_trait_name)->Some_0,
    decreases n,
{
    if n > 0 {
        lemma_forward_items_prefix_index(items, double_trait_name, n - 1);
        let pre = spec_forward_items_prefix(items, double_trait_name, n - 1);
        let cur = spec_forward_items_prefix(items, double_trait_name, n);
        match spec_forward_items(items[n - 1], double_trait_name) {
            Option::Some(item) => {
                assert(cur == pre.push(item));
                assert(cur[cur.len() - 1] == item);
                assert(forall|j: int| 0 <= j < pre.len() ==> cur[j] == pre[j]);
                lemma_count_impl_items_push(pre, item);
            },
            Option::None => {},
        }
    }
}

/// The number of method items among the first `n` trait items.
pub open spec fn spec_count_fn_items(items: Seq<SpecTraitItem>, n: int) -> int
    decreases n,
{
    if n <= 0 {
        0
    } else {
        spec_count_fn_items(items, n - 1) + if items[n - 1] is Fn {
            1int
        } else {
            0int
        }
    }
}

/// The number of associated-type items among the first `n` trait items.
pub open spec fn spec_count_type_items(items: Seq<SpecTraitItem>, n: int) -> int
    decreases n,
{
    if n <= 0 {
        0
    } else {
        spec_count_type_items(items, n - 1) + if items[n - 1] is Type {
            1int
        } else {
            0int
        }
    }
}

/// The number of forwarding methods among the first `n` adapter items.
pub open spec fn spec_count_impl_fn_items(items: Seq<SpecImplItem>, n: int) -> int
    decreases n,
{
    if n <= 0 {
        0
    } else {
        spec_count_impl_fn_items(items, n - 1) + if items[n - 1] is Fn {
            1int
        } else {
            0int
        }
    }
}

/// The number of type aliases among the first `n` adapter items.
pub open spec fn spec_count_impl_type_items(items: Seq<SpecImplItem>, n: int) -> int
    decreases n,
{
    if n <= 0 {
        0
    } else {
        spec_count_impl_type_items(items, n - 1) + if items[n - 1] is Type {
            1int
        } else {
            0int
        }
    }
}

/// Appending one adapter item extends the counts by exactly that item.
proof fn lemma_count_impl_items_push(items: Seq<SpecImplItem>, item: SpecImplItem)
    ensures
        spec_count_impl_fn_items(items.push(item), items.push(item).len() as int)
            == spec_count_impl_fn_items(items, items.len() as int) + if item is Fn {
            1int
        } else {
            0int
        },
        spec_count_impl_type_items(items.push(item), items.push(item).len() as int)
            == spec_count_impl_type_items(items, items.len() as int) + if item is Type {
            1int
        } else {
            0int
        },
{
    lemma_count_impl_items_prefix_same(items.push(item), items, items.len() as int);
}

/// Counting a prefix consults only the positions below `n`.
proof fn lemma_count_impl_items_prefix_same(a: Seq<SpecImplItem>, b: Seq<SpecImplItem>, n: int)
    requires
        n <= a.len(),
        n <= b.len(),
        forall|i: int| 0 <= i < n ==> a[i] == b[i],
    ensures
        spec_count_impl_fn_items(a, n) == spec_count_impl_fn_items(b, n),
        spec_count_impl_type_items(a, n) == spec_count_impl_type_items(b, n),
    decreases n,
{
    if n > 0 {
        lemma_count_impl_items_prefix_same(a, b, n - 1);
    }
}

/// Forwarding completeness: every method item of the original declaration
/// has a forwarding method in the adapter (with the shape of
/// [`lemma_forward_method_shape`]), and the adapter holds exactly one
/// forwarding method per original method and exactly one type alias per
/// original associated type; items of any other kind are not forwarded.
pub proof fn lemma_trait_impl_forwarding_completeness(
    double_trait_name: Seq<char>,
    org_trait: SpecTraitDecl,
    a: SpecTraitImplDecl,
)
    requires
        a == spec_trait_impl(double_trait_name, org_trait),
    ensures
        spec_count_impl_fn_items(a.items, a.items.len() as int) == spec_count_fn_items(
            org_trait.items,
            org_trait.items.len() as int,
        ),
        spec_count_impl_type_items(a.items, a.items.len() as int) == spec_count_type_items(
            org_trait.items,
            org_trait.items.len() as int,
        ),
        forall|i: int|
            0 <= i < org_trait.items.len() && org_trait.items[i] is Fn ==> exists|j: int|
                0 <= j < a.items.len() && #[trigger] a.items[j] == SpecImplItem::Fn(
                    spec_forward_methods(org_trait.items[i]->Fn_0, double_trait_name),
                ),
        a.org_trait_name == org_trait.name,
        a.double_trait_name == double_trait_name,
{
    lemma_forward_items_prefix_index(
        org_trait.items,
        double_trait_name,
        org_trait.items.len() as int,
    );
}

/// The placeholder implementation binds every associated type declared by
/// the original trait (and nothing else) to the marker type: one binding
/// per associated-type item.
pub proof fn lemma_dummy_impl_covers_associated_types(
    double_trait_name: Seq<char>,
    org_trait: SpecTraitDecl,
)
    ensures
        spec_dummy_impl(double_trait_name, org_trait).types.len() == spec_count_type_items(
            org_trait.items,
            org_trait.items.len() as int,
        ),
        forall|i: int|
            0 <= i < org_trait.items.len() && org_trait.items[i] is Type ==> exists|j: int|
                0 <= j < spec_dummy_impl(double_trait_name, org_trait).types.len()
                    && #[trigger] spec_dummy_impl(double_trait_name, org_trait).types[j]
                    == org_trait.items[i]->Type_0,
{
    lemma_dummy_types_prefix_index(org_trait.items, org_trait.items.len() as int);
}

/// The marker-type bindings for the first `n` items: one per associated
/// type among them, each present at some position.
proof fn lemma_dummy_types_prefix_index(items: Seq<SpecTraitItem>, n: int)
    ensures
        spec_dummy_types_prefix(items, n).len() == spec_count_type_items(items, n),
        forall|i: int|
            0 <= i < n && items[i] is Type ==> exists|j: int|
                0 <= j < spec_dummy_types_prefix(items, n).len()
                    && #[trigger] spec_dummy_types_prefix(items, n)[j] == items[i]->Type_0,
    decreases n,
{
    if n > 0 {
        lemma_dummy_types_prefix_index(items, n - 1);
        let pre = spec_dummy_types_prefix(items, n - 1);
        let cur = spec_dummy_types_prefix(items, n);
        match items[n - 1] {
            SpecTraitItem::Type(t) => {
                assert(cur == pre.push(t));
                assert(cur[cur.len() - 1] == t);
                assert(forall|j: int| 0 <= j < pre.len() ==> cur[j] == pre[j]);
            },
            _ => {},
        }
    }
}

/// Visibility propagation: the double trait and the adapter implementation
/// carry the same visibility as the original declaration, and the double
/// trait also keeps its generic parameters.
pub proof fn lemma_visibility_propagation(
    double_trait_name: Seq<char>,
    org_trait: SpecTraitDecl,
    d: SpecTraitDecl,
)
    requires
        spec_double_trait(double_trait_name, org_trait) == Result::<
            SpecTraitDecl,
            SpecTransformError,
        >::Ok(d),
    ensures
        d.vis == org_trait.vis,
        d.name == double_trait_name,
        d.generics == org_trait.generics,
        spec_trait_impl(double_trait_name, org_trait).vis == org_trait.vis,
{
}

} // verus!
