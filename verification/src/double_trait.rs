//! Return-type classification and the double ("shadow") trait builder.
//!
//! The classifier maps a method's declared return type to a
//! [`ReturnTypeInfo`] tag, recursing into nested opaque bounds; the builder
//! mirrors the original trait and attaches a synthesized default body to
//! every method that lacks one.

use vstd::prelude::*;

use crate::model::AssocBinding;
use crate::model::Body;
use crate::model::BoundExpr;
use crate::model::Parameter;
use crate::model::Pattern;
use crate::model::Signature;
use crate::model::SpecAssocBinding;
use crate::model::SpecBody;
use crate::model::SpecBoundExpr;
use crate::model::SpecParameter;
use crate::model::SpecPattern;
use crate::model::SpecSignature;
use crate::model::SpecTraitDecl;
use crate::model::SpecTraitFn;
use crate::model::SpecTraitItem;
use crate::model::SpecTypeExpr;
use crate::model::TraitDecl;
use crate::model::TraitFn;
use crate::model::TraitItem;
use crate::model::TypeExpr;

verus! {

/// Classification of a method's declared return type.
#[derive(Debug, PartialEq, Eq)]
pub enum ReturnTypeInfo {
    /// No return type at all, or the unit tuple: the default body can be
    /// empty rather than signalling "not implemented".
    Empty,
    /// An opaque `Future`-like type; `output` classifies the associated
    /// `Output` type, defaulting to [`ReturnTypeInfo::Other`] when the bound
    /// carries no such binding.
    ImplFuture { output: Box<ReturnTypeInfo> },
    /// An opaque `Iterator`-like type.
    ImplIterator,
    /// An opaque type bounded by some other capability; synthesis degrades
    /// to a compile-time diagnostic for the one method.
    UnknownImpl,
    /// Any other concrete type.
    Other,
}

/// The one hard failure of the transformation: an opaque return type that
/// declares no capability constraint at all.
#[derive(Clone, Copy, Debug, PartialEq, Eq, Structural)]
pub struct MalformedOpaque;

/// The first capability constraint of an opaque type's bound list, scanning
/// from position `i`: its name and its associated-type bindings. Later
/// capability constraints on the same opaque type are never consulted.
pub open spec fn spec_first_capability_from(
    bounds: Seq<SpecBoundExpr>,
    i: int,
) -> Option<(Seq<char>, Seq<SpecAssocBinding>)>
    decreases bounds.len() - i,
{
    if i < 0 || i >= bounds.len() {
        Option::None
    } else {
        match bounds[i] {
            SpecBoundExpr::Capability { name, bindings } => Option::Some((name, bindings)),
            SpecBoundExpr::Other { .. } => spec_first_capability_from(bounds, i + 1),
        }
    }
}

/// The first capability constraint of an opaque type's bound list.
pub open spec fn spec_first_capability(bounds: Seq<SpecBoundExpr>) -> Option<
    (Seq<char>, Seq<SpecAssocBinding>),
> {
    spec_first_capability_from(bounds, 0)
}

/// The type of the first associated-type binding named `Output`, scanning
/// from position `i`.
pub open spec fn spec_output_binding_from(bindings: Seq<SpecAssocBinding>, i: int) -> Option<
    SpecTypeExpr,
>
    decreases bindings.len() - i,
{
    if i < 0 || i >= bindings.len() {
        Option::None
    } else if bindings[i].name == "Output"@ {
        Option::Some(bindings[i].ty)
    } else {
        spec_output_binding_from(bindings, i + 1)
    }
}

/// The type of the first associated-type binding named `Output`, if any;
/// e.g. the `i64` in `impl Future<Output = i64>`.
pub open spec fn spec_output_binding(bindings: Seq<SpecAssocBinding>) -> Option<SpecTypeExpr> {
    spec_output_binding_from(bindings, 0)
}

/// A capability returned by [`spec_first_capability_from`] is one of the
/// scanned bounds.
proof fn lemma_first_capability_from_some(bounds: Seq<SpecBoundExpr>, i: int)
    ensures
        spec_first_capability_from(bounds, i) matches Option::Some((n, bs)) ==> exists|k: int|
            i <= k < bounds.len() && bounds[k] == (SpecBoundExpr::Capability {
                name: n,
                bindings: bs,
            }),
    decreases bounds.len() - i,
{
    if i < 0 || i >= bounds.len() {
    } else {
        match bounds[i] {
            SpecBoundExpr::Capability { name, bindings } => {
                assert(bounds[i] == (SpecBoundExpr::Capability { name, bindings }));
            },
            SpecBoundExpr::Other { .. } => {
                lemma_first_capability_from_some(bounds, i + 1);
            },
        }
    }
}

/// A type returned by [`spec_output_binding_from`] is the type of one of the
/// scanned bindings.
proof fn lemma_output_binding_from_some(bindings: Seq<SpecAssocBinding>, i: int)
    ensures
        spec_output_binding_from(bindings, i) matches Option::Some(t) ==> exists|k: int|
            i <= k < bindings.len() && bindings[k].ty == t,
    decreases bindings.len() - i,
{
    if i < 0 || i >= bindings.len() {
    } else if bindings[i].name == "Output"@ {
        assert(bindings[i].ty == bindings[i].ty);
    } else {
        lemma_output_binding_from_some(bindings, i + 1);
    }
}

/// Classification of a declared type.
///
/// - The empty tuple is [`ReturnTypeInfo::Empty`]; any other tuple or named
///   type is [`ReturnTypeInfo::Other`].
/// - An opaque type is classified by its first capability constraint:
///   `Future` recurses into the associated `Output` binding, `Iterator`
///   yields [`ReturnTypeInfo::ImplIterator`], and anything else yields
///   [`ReturnTypeInfo::UnknownImpl`].
/// - An opaque type with no capability constraint at all is malformed and
///   rejected.
pub open spec fn spec_type_info(t: SpecTypeExpr) -> Result<ReturnTypeInfo, MalformedOpaque>
    decreases t,
    via spec_type_info_decreases
{
    match t {
        SpecTypeExpr::Tuple { elems } => Result::Ok(
            if elems.len() == 0 {
                ReturnTypeInfo::Empty
            } else {
                ReturnTypeInfo::Other
            },
        ),
        SpecTypeExpr::Named { name: _ } => Result::Ok(ReturnTypeInfo::Other),
        SpecTypeExpr::Opaque { bounds } => match spec_first_capability(bounds) {
            Option::None => Result::Err(MalformedOpaque),
            Option::Some((cap_name, bindings)) => {
                if cap_name == "Future"@ {
                    match spec_output_binding(bindings) {
                        Option::None => Result::Ok(
                            ReturnTypeInfo::ImplFuture { output: Box::new(ReturnTypeInfo::Other) },
                        ),
                        Option::Some(out_ty) => match spec_type_info(out_ty) {
                            Result::Ok(inner) => Result::Ok(
                                ReturnTypeInfo::ImplFuture { output: Box::new(inner) },
                            ),
                            Result::Err(e) => Result::Err(e),
                        },
                    }
                } else if cap_name == "Iterator"@ {
                    Result::Ok(ReturnTypeInfo::ImplIterator)
                } else {
                    Result::Ok(ReturnTypeInfo::UnknownImpl)
                }
            },
        },
    }
}

#[via_fn]
proof fn spec_type_info_decreases(t: SpecTypeExpr) {
    match t {
        SpecTypeExpr::Opaque { bounds } => {
            lemma_first_capability_from_some(bounds, 0);
            match spec_first_capability(bounds) {
                Option::Some((cap_name, bindings)) => {
                    let k = choose|k: int|
                        0 <= k < bounds.len() && bounds[k] == (SpecBoundExpr::Capability {
                            name: cap_name,
                            bindings,
                        });
                    assert(decreases_to!(t => t->Opaque_bounds));
                    assert(decreases_to!(bounds => bounds[k]));
                    assert(decreases_to!(bounds[k] => bounds[k]->Capability_bindings));
                    lemma_output_binding_from_some(bindings, 0);
                    match spec_output_binding(bindings) {
                        Option::Some(out_ty) => {
                            let j = choose|j: int|
                                0 <= j < bindings.len() && bindings[j].ty == out_ty;
                            assert(decreases_to!(bindings => bindings[j]));
                            assert(decreases_to!(bindings[j] => bindings[j].ty));
                            assert(decreases_to!(t => out_ty));
                        },
                        Option::None => {},
                    }
                },
                Option::None => {},
            }
        },
        _ => {},
    }
}

/// Classification of a method's declared return type: no declared type at
/// all is [`ReturnTypeInfo::Empty`], otherwise the declared type decides.
pub open spec fn spec_return_type_info(output: Option<SpecTypeExpr>) -> Result<
    ReturnTypeInfo,
    MalformedOpaque,
> {
    match output {
        Option::None => Result::Ok(ReturnTypeInfo::Empty),
        Option::Some(t) => spec_type_info(t),
    }
}

/// Classifies a declared type; see [`spec_type_info`].
pub fn type_info(ty: &TypeExpr) -> (r: Result<ReturnTypeInfo, MalformedOpaque>)
    ensures
        r == spec_type_info(ty.deep_view()),
    decreases *ty,
{
    match ty {
        TypeExpr::Tuple { elems } => {
            if elems.len() == 0 {
                Result::Ok(ReturnTypeInfo::Empty)
            } else {
                Result::Ok(ReturnTypeInfo::Other)
            }
        },
        TypeExpr::Named { name: _ } => Result::Ok(ReturnTypeInfo::Other),
        TypeExpr::Opaque { bounds } => {
            let ghost bview = ty.deep_view()->Opaque_bounds;
            proof {
                assert(bview.len() == bounds@.len());
                assert(forall|k: int|
                    0 <= k < bounds@.len() ==> bview[k] == bounds@[k].deep_view());
            }
            let mut i: usize = 0;
            loop
                invariant
                    i <= bounds.len(),
                    *ty == (TypeExpr::Opaque { bounds: *bounds }),
                    bview == ty.deep_view()->Opaque_bounds,
                    ty.deep_view() == (SpecTypeExpr::Opaque { bounds: bview }),
                    bview.len() == bounds@.len(),
                    forall|k: int| 0 <= k < bounds@.len() ==> bview[k] == bounds@[k].deep_view(),
                    spec_first_capability(bview) == spec_first_capability_from(bview, i as int),
                decreases bounds@.len() - i,
            {
                if i == bounds.len() {
                    return Result::Err(MalformedOpaque);
                }
                match &bounds[i] {
                    BoundExpr::Other { .. } => {
                        proof {
                            assert(bview[i as int] is Other);
                        }
                        i = i + 1;
                    },
                    BoundExpr::Capability { name, bindings } => {
                        let ghost cap_name = name@;
                        let ghost bindview = bview[i as int]->Capability_bindings;
                        proof {
                            assert(bview[i as int] == (SpecBoundExpr::Capability {
                                name: cap_name,
                                bindings: bindview,
                            }));
                            assert(spec_first_capability(bview) == Option::Some(
                                (cap_name, bindview),
                            ));
                            assert(bindview.len() == bindings@.len());
                            assert(forall|k: int|
                                0 <= k < bindings@.len() ==> bindview[k]
                                    == bindings@[k].deep_view());
                        }
                        let future_name = String::from_str("Future");
                        let iterator_name = String::from_str("Iterator");
                        if future_name.eq(name) {
                            let mut j: usize = 0;
                            loop
                                invariant
                                    j <= bindings.len(),
                                    i < bounds@.len(),
                                    *ty == (TypeExpr::Opaque { bounds: *bounds }),
                                    ty.deep_view() == (SpecTypeExpr::Opaque { bounds: bview }),
                                    spec_first_capability(bview) == Option::Some(
                                        (cap_name, bindview),
                                    ),
                                    cap_name == "Future"@,
                                    bview[i as int] == (SpecBoundExpr::Capability {
                                        name: cap_name,
                                        bindings: bindview,
                                    }),
                                    bounds@[i as int] is Capability,
                                    bounds@[i as int]->Capability_bindings == *bindings,
                                    bindview.len() == bindings@.len(),
                                    forall|k: int|
                                        0 <= k < bindings@.len() ==> bindview[k]
                                            == bindings@[k].deep_view(),
                                    spec_output_binding(bindview) == spec_output_binding_from(
                                        bindview,
                                        j as int,
                                    ),
                                decreases bindings@.len() - j,
                            {
                                if j == bindings.len() {
                                    return Result::Ok(
                                        ReturnTypeInfo::ImplFuture {
                                            output: Box::new(ReturnTypeInfo::Other),
                                        },
                                    );
                                }
                                let output_name = String::from_str("Output");
                                let binding = &bindings[j];
                                if output_name.eq(&binding.name) {
                                    proof {
                                        assert(bindview[j as int] == binding.deep_view());
                                        assert(spec_output_binding_from(bindview, j as int)
                                            == Option::Some(bindview[j as int].ty));
                                        assert(spec_output_binding(bindview) == Option::Some(
                                            binding.ty.deep_view(),
                                        ));
                                        assert(decreases_to!(*ty => (*ty)->Opaque_bounds));
                                        assert(decreases_to!(*bounds => bounds[i as int]));
                                        assert(decreases_to!(
                                            bounds[i as int] =>
                                            bounds[i as int]->Capability_bindings));
                                        assert(decreases_to!(*bindings => bindings[j as int]));
                                        assert(decreases_to!(
                                            bindings[j as int] => bindings[j as int].ty));
                                        assert(decreases_to!(*ty => binding.ty));
                                    }
                                    let inner = match type_info(&binding.ty) {
                                        Result::Ok(v) => v,
                                        Result::Err(e) => {
                                            return Result::Err(e);
                                        },
                                    };
                                    return Result::Ok(
                                        ReturnTypeInfo::ImplFuture { output: Box::new(inner) },
                                    );
                                }
                                proof {
                                    assert(bindview[j as int].name != "Output"@);
                                }
                                j = j + 1;
                            }
                        } else if iterator_name.eq(name) {
                            return Result::Ok(ReturnTypeInfo::ImplIterator);
                        } else {
                            return Result::Ok(ReturnTypeInfo::UnknownImpl);
                        }
                    },
                }
            }
        },
    }
}

/// Classifies a method's declared return type; see
/// [`spec_return_type_info`].
pub fn return_type_info(output: &Option<TypeExpr>) -> (r: Result<ReturnTypeInfo, MalformedOpaque>)
    ensures
        r == spec_return_type_info(output.deep_view()),
{
    match output {
        Option::Some(ty) => type_info(ty),
        Option::None => Result::Ok(ReturnTypeInfo::Empty),
    }
}

/// The hard failure surfaced to the caller: the return type of the named
/// method is an opaque type with no capability constraint at all.
#[derive(Debug, PartialEq, Eq)]
pub struct TransformError {
    pub fn_name: String,
}

/// Ghost counterpart of [`TransformError`].
pub struct SpecTransformError {
    pub fn_name: Seq<char>,
}

impl DeepView for TransformError {
    type V = SpecTransformError;

    open spec fn deep_view(&self) -> SpecTransformError {
        SpecTransformError { fn_name: self.fn_name@ }
    }
}

/// The default body synthesized for one return-type classification:
/// - `Empty` becomes an empty body;
/// - `Other` becomes a body signalling "not implemented", carrying the
///   double trait's name and the method's name;
/// - `ImplIterator` becomes a body producing an empty iterator;
/// - `ImplFuture` wraps the body synthesized for its output classification
///   in an asynchronous block;
/// - `UnknownImpl` becomes a compile-time diagnostic, so that the one
///   method fails to build while the rest of the trait is generated
///   normally.
pub open spec fn spec_default_impl(
    info: ReturnTypeInfo,
    double_trait_name: Seq<char>,
    fn_name: Seq<char>,
) -> SpecBody
    decreases info,
{
    match info {
        ReturnTypeInfo::Empty => SpecBody::Empty,
        ReturnTypeInfo::ImplFuture { output } => SpecBody::Async {
            inner: Box::new(spec_default_impl(*output, double_trait_name, fn_name)),
        },
        ReturnTypeInfo::ImplIterator => SpecBody::EmptyIterator,
        ReturnTypeInfo::UnknownImpl => SpecBody::CompileError,
        ReturnTypeInfo::Other => SpecBody::NotImplemented {
            trait_name: double_trait_name,
            fn_name,
        },
    }
}

/// Synthesizes the default body for one classified return type; see
/// [`spec_default_impl`].
pub fn default_impl(
    double_trait_name: &String,
    return_type_info: &ReturnTypeInfo,
    fn_name: &String,
) -> (b: Body)
    ensures
        b.deep_view() == spec_default_impl(*return_type_info, double_trait_name@, fn_name@),
    decreases *return_type_info,
{
    match return_type_info {
        ReturnTypeInfo::Empty => Body::Empty,
        ReturnTypeInfo::ImplFuture { output } => {
            proof {
                assert(decreases_to!(
                    *return_type_info => (*return_type_info)->ImplFuture_output));
            }
            let inner = default_impl(double_trait_name, &**output, fn_name);
            Body::Async { inner: Box::new(inner) }
        },
        ReturnTypeInfo::ImplIterator => Body::EmptyIterator,
        ReturnTypeInfo::UnknownImpl => Body::CompileError,
        ReturnTypeInfo::Other => Body::NotImplemented {
            trait_name: double_trait_name.clone(),
            fn_name: fn_name.clone(),
        },
    }
}

/// One parameter with its binding replaced by the discard pattern; receiver
/// parameters are left untouched.
pub open spec fn spec_strip_parameter(p: SpecParameter) -> SpecParameter {
    match p {
        SpecParameter::Receiver { .. } => p,
        SpecParameter::Typed { pattern: _, ty } => SpecParameter::Typed {
            pattern: SpecPattern::Discard,
            ty,
        },
    }
}

/// A parameter list with every non-receiver binding replaced by the discard
/// pattern, so that synthesized default bodies raise no unused-variable
/// diagnostics.
pub open spec fn spec_strip_parameters(inputs: Seq<SpecParameter>) -> Seq<SpecParameter> {
    inputs.map_values(|p: SpecParameter| spec_strip_parameter(p))
}

/// Replaces every non-receiver parameter binding with the discard pattern;
/// see [`spec_strip_parameters`].
pub fn strip_parameter_names(inputs: &Vec<Parameter>) -> (r: Vec<Parameter>)
    ensures
        r.deep_view() == spec_strip_parameters(inputs.deep_view()),
{
    let mut stripped: Vec<Parameter> = Vec::new();
    let mut i: usize = 0;
    while i < inputs.len()
        invariant
            i <= inputs@.len(),
            stripped@.len() == i,
            forall|k: int|
                0 <= k < i ==> stripped@[k].deep_view() == spec_strip_parameter(
                    inputs@[k].deep_view(),
                ),
        decreases inputs@.len() - i,
    {
        let p = match &inputs[i] {
            Parameter::Receiver { reference, mutable } => Parameter::Receiver {
                reference: *reference,
                mutable: *mutable,
            },
            Parameter::Typed { pattern: _, ty } => Parameter::Typed {
                pattern: Pattern::Discard,
                ty: ty.clone(),
            },
        };
        stripped.push(p);
        i = i + 1;
    }
    proof {
        assert(stripped.deep_view() =~= spec_strip_parameters(inputs.deep_view()));
    }
    stripped
}

/// The double trait's version of one method: a method that already declares
/// a default body is copied unchanged; a method without one has its
/// parameter bindings discarded and a default body synthesized from its
/// return-type classification. A malformed opaque return type aborts the
/// transformation with an error naming the method.
pub open spec fn spec_transform_function(
    fn_item: SpecTraitFn,
    double_trait_name: Seq<char>,
) -> Result<SpecTraitFn, SpecTransformError> {
    if fn_item.default is Some {
        Result::Ok(fn_item)
    } else {
        match spec_return_type_info(fn_item.sig.output) {
            Result::Ok(info) => Result::Ok(
                SpecTraitFn {
                    sig: SpecSignature {
                        name: fn_item.sig.name,
                        is_async: fn_item.sig.is_async,
                        inputs: spec_strip_parameters(fn_item.sig.inputs),
                        output: fn_item.sig.output,
                    },
                    default: Option::Some(
                        spec_default_impl(info, double_trait_name, fn_item.sig.name),
                    ),
                },
            ),
            Result::Err(_) => Result::Err(SpecTransformError { fn_name: fn_item.sig.name }),
        }
    }
}

/// Gives a method a default body, if it does not have one already; see
/// [`spec_transform_function`].
pub fn transform_function(fn_item: &TraitFn, double_trait_name: &String) -> (r: Result<
    TraitFn,
    TransformError,
>)
    ensures
        match r {
            Result::Ok(f) => spec_transform_function(fn_item.deep_view(), double_trait_name@)
                == Result::<SpecTraitFn, SpecTransformError>::Ok(f.deep_view()),
            Result::Err(e) => spec_transform_function(fn_item.deep_view(), double_trait_name@)
                == Result::<SpecTraitFn, SpecTransformError>::Err(e.deep_view()),
        },
{
    if fn_item.default.is_some() {
        return Result::Ok(fn_item.clone());
    }
    let info = match return_type_info(&fn_item.sig.output) {
        Result::Ok(info) => info,
        Result::Err(_) => {
            return Result::Err(TransformError { fn_name: fn_item.sig.name.clone() });
        },
    };
    let body = default_impl(double_trait_name, &info, &fn_item.sig.name);
    let new_output = match &fn_item.sig.output {
        Option::Some(t) => Option::Some(t.clone()),
        Option::None => Option::None,
    };
    Result::Ok(
        TraitFn {
            sig: Signature {
                name: fn_item.sig.name.clone(),
                is_async: fn_item.sig.is_async,
                inputs: strip_parameter_names(&fn_item.sig.inputs),
                output: new_output,
            },
            default: Option::Some(body),
        },
    )
}

/// The double trait's version of one item: only methods are transformed;
/// associated types and any other items are copied unchanged.
pub open spec fn spec_transform_trait_item(
    trait_item: SpecTraitItem,
    double_trait_name: Seq<char>,
) -> Result<SpecTraitItem, SpecTransformError> {
    match trait_item {
        SpecTraitItem::Fn(f) => match spec_transform_function(f, double_trait_name) {
            Result::Ok(g) => Result::Ok(SpecTraitItem::Fn(g)),
            Result::Err(e) => Result::Err(e),
        },
        _ => Result::Ok(trait_item),
    }
}

/// Transforms one trait item; see [`spec_transform_trait_item`].
pub fn transform_trait_item(trait_item: &TraitItem, double_trait_name: &String) -> (r: Result<
    TraitItem,
    TransformError,
>)
    ensures
        match r {
            Result::Ok(t) => spec_transform_trait_item(trait_item.deep_view(), double_trait_name@)
                == Result::<SpecTraitItem, SpecTransformError>::Ok(t.deep_view()),
            Result::Err(e) => spec_transform_trait_item(trait_item.deep_view(), double_trait_name@)
                == Result::<SpecTraitItem, SpecTransformError>::Err(e.deep_view()),
        },
{
    match trait_item {
        TraitItem::Fn(fn_item) => match transform_function(fn_item, double_trait_name) {
            Result::Ok(g) => Result::Ok(TraitItem::Fn(g)),
            Result::Err(e) => Result::Err(e),
        },
        _ => Result::Ok(trait_item.clone()),
    }
}

/// The transformed versions of the first `n` items, stopping at the first
/// method whose return type is malformed.
pub open spec fn spec_transform_items_prefix(
    items: Seq<SpecTraitItem>,
    double_trait_name: Seq<char>,
    n: int,
) -> Result<Seq<SpecTraitItem>, SpecTransformError>
    decreases n,
{
    if n <= 0 {
        Result::Ok(Seq::empty())
    } else {
        match spec_transform_items_prefix(items, double_trait_name, n - 1) {
            Result::Err(e) => Result::Err(e),
            Result::Ok(pre) => match spec_transform_trait_item(items[n - 1], double_trait_name) {
                Result::Ok(t) => Result::Ok(pre.push(t)),
                Result::Err(e) => Result::Err(e),
            },
        }
    }
}

/// An error among the first `n` items persists in every longer prefix.
proof fn lemma_transform_items_prefix_err(
    items: Seq<SpecTraitItem>,
    double_trait_name: Seq<char>,
    n: int,
    m: int,
)
    requires
        0 <= n <= m,
        spec_transform_items_prefix(items, double_trait_name, n) is Err,
    ensures
        spec_transform_items_prefix(items, double_trait_name, m) == spec_transform_items_prefix(
            items,
            double_trait_name,
            n,
        ),
    decreases m - n,
{
    if m > n {
        lemma_transform_items_prefix_err(items, double_trait_name, n, m - 1);
    }
}

/// The double trait: same visibility and generics as the original, the
/// requested name, and the original's items transformed one by one, with
/// every method that lacked a default body given a synthesized one.
pub open spec fn spec_double_trait(
    double_trait_name: Seq<char>,
    org_trait: SpecTraitDecl,
) -> Result<SpecTraitDecl, SpecTransformError> {
    match spec_transform_items_prefix(
        org_trait.items,
        double_trait_name,
        org_trait.items.len() as int,
    ) {
        Result::Ok(items) => Result::Ok(
            SpecTraitDecl {
                vis: org_trait.vis,
                name: double_trait_name,
                generics: org_trait.generics,
                items,
            },
        ),
        Result::Err(e) => Result::Err(e),
    }
}

/// Generates the double trait, which mirrors the original trait's items and
/// provides a synthesized default body for every method lacking one; see
/// [`spec_double_trait`]. The original declaration is never modified.
pub fn double_trait(double_trait_name: &String, org_trait: &TraitDecl) -> (r: Result<
    TraitDecl,
    TransformError,
>)
    ensures
        match r {
            Result::Ok(d) => spec_double_trait(double_trait_name@, org_trait.deep_view())
                == Result::<SpecTraitDecl, SpecTransformError>::Ok(d.deep_view()),
            Result::Err(e) => spec_double_trait(double_trait_name@, org_trait.deep_view())
                == Result::<SpecTraitDecl, SpecTransformError>::Err(e.deep_view()),
        },
{
    let ghost iview = org_trait.deep_view().items;
    let mut new_items: Vec<TraitItem> = Vec::new();
    proof {
        assert(new_items.deep_view() =~= Seq::<SpecTraitItem>::empty());
    }
    let mut i: usize = 0;
    while i < org_trait.items.len()
        invariant
            i <= org_trait.items@.len(),
            iview == org_trait.deep_view().items,
            iview.len() == org_trait.items@.len(),
            forall|k: int|
                0 <= k < org_trait.items@.len() ==> iview[k] == org_trait.items@[k].deep_view(),
            spec_transform_items_prefix(iview, double_trait_name@, i as int) == Result::<
                Seq<SpecTraitItem>,
                SpecTransformError,
            >::Ok(new_items.deep_view()),
        decreases org_trait.items@.len() - i,
    {
        match transform_trait_item(&org_trait.items[i], double_trait_name) {
            Result::Ok(t) => {
                let ghost pre = new_items.deep_view();
                let ghost tv = t.deep_view();
                new_items.push(t);
                proof {
                    assert(new_items.deep_view() =~= pre.push(tv));
                }
            },
            Result::Err(e) => {
                proof {
                    lemma_transform_items_prefix_err(
                        iview,
                        double_trait_name@,
                        i as int + 1,
                        iview.len() as int,
                    );
                }
                return Result::Err(e);
            },
        }
        i = i + 1;
    }
    let r = TraitDecl {
        vis: org_trait.vis,
        name: double_trait_name.clone(),
        generics: crate::model::clone_names(&org_trait.generics),
        items: new_items,
    };
    proof {
        assert(r.deep_view().generics =~= org_trait.deep_view().generics);
    }
    Result::Ok(r)
}

} // verus!
