//! The data model of a parsed trait declaration, together with its
//! mathematical abstraction.
//!
//! Every executable type below has a ghost counterpart (`Spec...`) in which
//! strings become `Seq<char>` and vectors become `Seq`; `deep_view` maps one
//! to the other. All contracts of the transformation are stated over the
//! ghost counterparts.

use vstd::prelude::*;

verus! {

/// Visibility of a trait declaration: either inherited (private) or public.
#[derive(Clone, Copy, Debug, PartialEq, Eq, Structural)]
pub enum Visibility {
    Inherited,
    Public,
}

/// A return (or parameter) type, as far as the transformation needs to
/// distinguish: a tuple type, an opaque `impl`-style type described only by
/// its bounds, or any other type carried verbatim as text.
#[derive(Debug, PartialEq, Eq)]
pub enum TypeExpr {
    /// A tuple type; the empty tuple is the unit type.
    Tuple { elems: Vec<TypeExpr> },
    /// An opaque type, specified only by the capabilities it satisfies.
    Opaque { bounds: Vec<BoundExpr> },
    /// Any other concrete type, opaque to the transformation.
    Named { name: String },
}

/// One bound of an opaque type.
#[derive(Debug, PartialEq, Eq)]
pub enum BoundExpr {
    /// A capability: a trait bound, named by its leading path segment, with
    /// its associated-type bindings.
    Capability { name: String, bindings: Vec<AssocBinding> },
    /// Any other bound (a lifetime, for example), carried verbatim as text;
    /// classification never consults it.
    Other { code: String },
}

/// An associated-type binding inside a capability bound, such as the
/// `Output = i32` in `impl Future<Output = i32>`.
#[derive(Debug, PartialEq, Eq)]
pub struct AssocBinding {
    pub name: String,
    pub ty: TypeExpr,
}

/// The pattern binding a method parameter: a plain name, or the discard
/// pattern `_`.
#[derive(Debug, PartialEq, Eq)]
pub enum Pattern {
    Named { name: String },
    Discard,
}

/// A method parameter: either a receiver (`self`, `&self`, `&mut self`) or a
/// pattern with a declared type.
#[derive(Debug, PartialEq, Eq)]
pub enum Parameter {
    Receiver { reference: bool, mutable: bool },
    Typed { pattern: Pattern, ty: TypeExpr },
}

/// A method signature: name, asynchronous flag, ordered parameters, and the
/// declared return type (`None` meaning no `->` at all).
#[derive(Debug, PartialEq, Eq)]
pub struct Signature {
    pub name: String,
    pub is_async: bool,
    pub inputs: Vec<Parameter>,
    pub output: Option<TypeExpr>,
}

/// A method body: either a pre-existing default copied verbatim (opaque to
/// the transformation), or one of the synthesized shapes.
#[derive(Debug, PartialEq, Eq)]
pub enum Body {
    /// A default body that the original declaration already carried.
    Verbatim { code: String },
    /// An empty body, for methods that return nothing.
    Empty,
    /// A body that unconditionally signals "not implemented", naming the
    /// trait and the method.
    NotImplemented { trait_name: String, fn_name: String },
    /// A body producing an empty iterator.
    EmptyIterator,
    /// An asynchronous block wrapping an inner synthesized body.
    Async { inner: Box<Body> },
    /// A compile-time diagnostic stating that opaque return types other than
    /// `Future` and `Iterator` are unsupported.
    CompileError,
}

/// A trait method: its signature and its optional default body.
#[derive(Debug, PartialEq, Eq)]
pub struct TraitFn {
    pub sig: Signature,
    pub default: Option<Body>,
}

/// An associated-type declaration inside a trait.
#[derive(Debug, PartialEq, Eq)]
pub struct AssocTypeDecl {
    pub name: String,
    pub generics: Vec<String>,
}

/// One item of a trait declaration.
#[derive(Debug, PartialEq, Eq)]
pub enum TraitItem {
    Fn(TraitFn),
    Type(AssocTypeDecl),
    /// Any other item (a constant, for example), carried verbatim as text.
    Verbatim { code: String },
}

/// A parsed trait declaration.
#[derive(Debug, PartialEq, Eq)]
pub struct TraitDecl {
    pub vis: Visibility,
    pub name: String,
    pub generics: Vec<String>,
    pub items: Vec<TraitItem>,
}

/// One forwarded argument in an adapter method body: the receiver itself,
/// or a parameter passed through under its original pattern.
#[derive(Debug, PartialEq, Eq)]
pub enum Argument {
    Receiver,
    Pattern(Pattern),
}

/// The forwarding call making up one adapter method body: invoke the
/// same-named method of the target trait on `Self`, passing the arguments
/// in order, and await the result when the method is asynchronous.
#[derive(Debug, PartialEq, Eq)]
pub struct ForwardCall {
    pub target_trait: String,
    pub method: String,
    pub args: Vec<Argument>,
    pub awaited: bool,
}

/// One method of the adapter implementation: the original signature,
/// unchanged, with a body that only forwards.
#[derive(Debug, PartialEq, Eq)]
pub struct ImplFn {
    pub sig: Signature,
    pub call: ForwardCall,
}

/// One associated-type item of an implementation, aliased to the same-named
/// associated type of the target trait: `type Name = <Self as Target>::Name;`.
#[derive(Debug, PartialEq, Eq)]
pub struct TypeAlias {
    pub decl: AssocTypeDecl,
    pub target_trait: String,
}

/// One item of the adapter implementation.
#[derive(Debug, PartialEq, Eq)]
pub enum ImplItem {
    Fn(ImplFn),
    Type(TypeAlias),
}

/// The adapter: a blanket implementation declaring that every type
/// implementing the double trait also implements the original trait, by
/// forwarding every method and aliasing every associated type.
#[derive(Debug, PartialEq, Eq)]
pub struct TraitImplDecl {
    /// The visibility propagated from the original declaration. A blanket
    /// implementation declares no visibility token of its own when
    /// rendered; the field records at which visibility the generated pair
    /// of declarations travels.
    pub vis: Visibility,
    pub org_trait_name: String,
    pub double_trait_name: String,
    pub items: Vec<ImplItem>,
}

/// The placeholder: an implementation of the double trait for the
/// zero-sized marker type, in which every associated type declared by the
/// original trait is bound to the marker type itself. Methods need no
/// bodies here, since the double trait supplies a default for every one.
#[derive(Debug, PartialEq, Eq)]
pub struct DummyImplDecl {
    pub double_trait_name: String,
    pub types: Vec<AssocTypeDecl>,
}

/// One emitted declaration. The transformation produces a sequence of
/// these, which the caller renders and concatenates in the order given.
#[derive(Debug, PartialEq, Eq)]
pub enum GeneratedFragment {
    Interface(TraitDecl),
    Adapter(TraitImplDecl),
    Placeholder(DummyImplDecl),
}

// ------------------------------------------------------------------
// Ghost counterparts
// ------------------------------------------------------------------

/// Ghost counterpart of [`TypeExpr`].
pub enum SpecTypeExpr {
    Tuple { elems: Seq<SpecTypeExpr> },
    Opaque { bounds: Seq<SpecBoundExpr> },
    Named { name: Seq<char> },
}

/// Ghost counterpart of [`BoundExpr`].
pub enum SpecBoundExpr {
    Capability { name: Seq<char>, bindings: Seq<SpecAssocBinding> },
    Other { code: Seq<char> },
}

/// Ghost counterpart of [`AssocBinding`].
pub struct SpecAssocBinding {
    pub name: Seq<char>,
    pub ty: SpecTypeExpr,
}

/// Ghost counterpart of [`Pattern`].
pub enum SpecPattern {
    Named { name: Seq<char> },
    Discard,
}

/// Ghost counterpart of [`Parameter`].
pub enum SpecParameter {
    Receiver { reference: bool, mutable: bool },
    Typed { pattern: SpecPattern, ty: SpecTypeExpr },
}

/// Ghost counterpart of [`Signature`].
pub struct SpecSignature {
    pub name: Seq<char>,
    pub is_async: bool,
    pub inputs: Seq<SpecParameter>,
    pub output: Option<SpecTypeExpr>,
}

/// Ghost counterpart of [`Body`].
pub enum SpecBody {
    Verbatim { code: Seq<char> },
    Empty,
    NotImplemented { trait_name: Seq<char>, fn_name: Seq<char> },
    EmptyIterator,
    Async { inner: Box<SpecBody> },
    CompileError,
}

/// Ghost counterpart of [`TraitFn`].
pub struct SpecTraitFn {
    pub sig: SpecSignature,
    pub default: Option<SpecBody>,
}

/// Ghost counterpart of [`AssocTypeDecl`].
pub struct SpecAssocTypeDecl {
    pub name: Seq<char>,
    pub generics: Seq<Seq<char>>,
}

/// Ghost counterpart of [`TraitItem`].
pub enum SpecTraitItem {
    Fn(SpecTraitFn),
    Type(SpecAssocTypeDecl),
    Verbatim { code: Seq<char> },
}

/// Ghost counterpart of [`TraitDecl`].
pub struct SpecTraitDecl {
    pub vis: Visibility,
    pub name: Seq<char>,
    pub generics: Seq<Seq<char>>,
    pub items: Seq<SpecTraitItem>,
}

/// Ghost counterpart of [`Argument`].
pub enum SpecArgument {
    Receiver,
    Pattern(SpecPattern),
}

/// Ghost counterpart of [`ForwardCall`].
pub struct SpecForwardCall {
    pub target_trait: Seq<char>,
    pub method: Seq<char>,
    pub args: Seq<SpecArgument>,
    pub awaited: bool,
}

/// Ghost counterpart of [`ImplFn`].
pub struct SpecImplFn {
    pub sig: SpecSignature,
    pub call: SpecForwardCall,
}

/// Ghost counterpart of [`TypeAlias`].
pub struct SpecTypeAlias {
    pub decl: SpecAssocTypeDecl,
    pub target_trait: Seq<char>,
}

/// Ghost counterpart of [`ImplItem`].
pub enum SpecImplItem {
    Fn(SpecImplFn),
    Type(SpecTypeAlias),
}

/// Ghost counterpart of [`TraitImplDecl`].
pub struct SpecTraitImplDecl {
    pub vis: Visibility,
    pub org_trait_name: Seq<char>,
    pub double_trait_name: Seq<char>,
    pub items: Seq<SpecImplItem>,
}

/// Ghost counterpart of [`DummyImplDecl`].
pub struct SpecDummyImplDecl {
    pub double_trait_name: Seq<char>,
    pub types: Seq<SpecAssocTypeDecl>,
}

/// Ghost counterpart of [`GeneratedFragment`].
pub enum SpecGeneratedFragment {
    Interface(SpecTraitDecl),
    Adapter(SpecTraitImplDecl),
    Placeholder(SpecDummyImplDecl),
}

// ------------------------------------------------------------------
// Abstraction functions
// ------------------------------------------------------------------

/// Abstraction of a type expression. Defined as a standalone recursive
/// function (rather than through the `DeepView` instances of `Vec`) so that
/// termination is visible to the verifier.
pub open spec fn view_of_type(t: TypeExpr) -> SpecTypeExpr
    decreases t,
{
    match t {
        TypeExpr::Tuple { elems } => SpecTypeExpr::Tuple {
            elems: Seq::new(
                elems@.len(),
                |i: int|
                    if 0 <= i < elems@.len() {
                        view_of_type(elems@[i])
                    } else {
                        SpecTypeExpr::Named { name: Seq::empty() }
                    },
            ),
        },
        TypeExpr::Opaque { bounds } => SpecTypeExpr::Opaque {
            bounds: Seq::new(
                bounds@.len(),
                |i: int|
                    if 0 <= i < bounds@.len() {
                        view_of_bound(bounds@[i])
                    } else {
                        SpecBoundExpr::Other { code: Seq::empty() }
                    },
            ),
        },
        TypeExpr::Named { name } => SpecTypeExpr::Named { name: name@ },
    }
}

/// Abstraction of one bound of an opaque type.
pub open spec fn view_of_bound(b: BoundExpr) -> SpecBoundExpr
    decreases b,
{
    match b {
        BoundExpr::Capability { name, bindings } => SpecBoundExpr::Capability {
            name: name@,
            bindings: Seq::new(
                bindings@.len(),
                |i: int|
                    if 0 <= i < bindings@.len() {
                        view_of_binding(bindings@[i])
                    } else {
                        SpecAssocBinding {
                            name: Seq::empty(),
                            ty: SpecTypeExpr::Named { name: Seq::empty() },
                        }
                    },
            ),
        },
        BoundExpr::Other { code } => SpecBoundExpr::Other { code: code@ },
    }
}

/// Abstraction of an associated-type binding.
pub open spec fn view_of_binding(b: AssocBinding) -> SpecAssocBinding
    decreases b,
{
    SpecAssocBinding { name: b.name@, ty: view_of_type(b.ty) }
}

impl DeepView for TypeExpr {
    type V = SpecTypeExpr;

    open spec fn deep_view(&self) -> SpecTypeExpr {
        view_of_type(*self)
    }
}

impl DeepView for BoundExpr {
    type V = SpecBoundExpr;

    open spec fn deep_view(&self) -> SpecBoundExpr {
        view_of_bound(*self)
    }
}

impl DeepView for AssocBinding {
    type V = SpecAssocBinding;

    open spec fn deep_view(&self) -> SpecAssocBinding {
        view_of_binding(*self)
    }
}

impl DeepView for Pattern {
    type V = SpecPattern;

    open spec fn deep_view(&self) -> SpecPattern {
        match *self {
            Pattern::Named { name } => SpecPattern::Named { name: name@ },
            Pattern::Discard => SpecPattern::Discard,
        }
    }
}

impl DeepView for Parameter {
    type V = SpecParameter;

    open spec fn deep_view(&self) -> SpecParameter {
        match *self {
            Parameter::Receiver { reference, mutable } => SpecParameter::Receiver {
                reference,
                mutable,
            },
            Parameter::Typed { pattern, ty } => SpecParameter::Typed {
                pattern: pattern.deep_view(),
                ty: ty.deep_view(),
            },
        }
    }
}

impl DeepView for Signature {
    type V = SpecSignature;

    open spec fn deep_view(&self) -> SpecSignature {
        SpecSignature {
            name: self.name@,
            is_async: self.is_async,
            inputs: self.inputs.deep_view(),
            output: self.output.deep_view(),
        }
    }
}

/// Abstraction of a body. Standalone for the same termination reason as
/// [`view_of_type`].
pub open spec fn view_of_body(b: Body) -> SpecBody
    decreases b,
{
    match b {
        Body::Verbatim { code } => SpecBody::Verbatim { code: code@ },
        Body::Empty => SpecBody::Empty,
        Body::NotImplemented { trait_name, fn_name } => SpecBody::NotImplemented {
            trait_name: trait_name@,
            fn_name: fn_name@,
        },
        Body::EmptyIterator => SpecBody::EmptyIterator,
        Body::Async { inner } => SpecBody::Async { inner: Box::new(view_of_body(*inner)) },
        Body::CompileError => SpecBody::CompileError,
    }
}

impl DeepView for Body {
    type V = SpecBody;

    open spec fn deep_view(&self) -> SpecBody {
        view_of_body(*self)
    }
}

impl DeepView for TraitFn {
    type V = SpecTraitFn;

    open spec fn deep_view(&self) -> SpecTraitFn {
        SpecTraitFn { sig: self.sig.deep_view(), default: self.default.deep_view() }
    }
}

impl DeepView for AssocTypeDecl {
    type V = SpecAssocTypeDecl;

    open spec fn deep_view(&self) -> SpecAssocTypeDecl {
        SpecAssocTypeDecl { name: self.name@, generics: self.generics.deep_view() }
    }
}

impl DeepView for TraitItem {
    type V = SpecTraitItem;

    open spec fn deep_view(&self) -> SpecTraitItem {
        match self {
            TraitItem::Fn(f) => SpecTraitItem::Fn(f.deep_view()),
            TraitItem::Type(t) => SpecTraitItem::Type(t.deep_view()),
            TraitItem::Verbatim { code } => SpecTraitItem::Verbatim { code: code@ },
        }
    }
}

impl DeepView for TraitDecl {
    type V = SpecTraitDecl;

    open spec fn deep_view(&self) -> SpecTraitDecl {
        SpecTraitDecl {
            vis: self.vis,
            name: self.name@,
            generics: self.generics.deep_view(),
            items: self.items.deep_view(),
        }
    }
}

impl DeepView for Argument {
    type V = SpecArgument;

    open spec fn deep_view(&self) -> SpecArgument {
        match self {
            Argument::Receiver => SpecArgument::Receiver,
            Argument::Pattern(p) => SpecArgument::Pattern(p.deep_view()),
        }
    }
}

impl DeepView for ForwardCall {
    type V = SpecForwardCall;

    open spec fn deep_view(&self) -> SpecForwardCall {
        SpecForwardCall {
            target_trait: self.target_trait@,
            method: self.method@,
            args: self.args.deep_view(),
            awaited: self.awaited,
        }
    }
}

impl DeepView for ImplFn {
    type V = SpecImplFn;

    open spec fn deep_view(&self) -> SpecImplFn {
        SpecImplFn { sig: self.sig.deep_view(), call: self.call.deep_view() }
    }
}

impl DeepView for TypeAlias {
    type V = SpecTypeAlias;

    open spec fn deep_view(&self) -> SpecTypeAlias {
        SpecTypeAlias { decl: self.decl.deep_view(), target_trait: self.target_trait@ }
    }
}

impl DeepView for ImplItem {
    type V = SpecImplItem;

    open spec fn deep_view(&self) -> SpecImplItem {
        match self {
            ImplItem::Fn(f) => SpecImplItem::Fn(f.deep_view()),
            ImplItem::Type(t) => SpecImplItem::Type(t.deep_view()),
        }
    }
}

impl DeepView for TraitImplDecl {
    type V = SpecTraitImplDecl;

    open spec fn deep_view(&self) -> SpecTraitImplDecl {
        SpecTraitImplDecl {
            vis: self.vis,
            org_trait_name: self.org_trait_name@,
            double_trait_name: self.double_trait_name@,
            items: self.items.deep_view(),
        }
    }
}

impl DeepView for DummyImplDecl {
    type V = SpecDummyImplDecl;

    open spec fn deep_view(&self) -> SpecDummyImplDecl {
        SpecDummyImplDecl {
            double_trait_name: self.double_trait_name@,
            types: self.types.deep_view(),
        }
    }
}

impl DeepView for GeneratedFragment {
    type V = SpecGeneratedFragment;

    open spec fn deep_view(&self) -> SpecGeneratedFragment {
        match self {
            GeneratedFragment::Interface(t) => SpecGeneratedFragment::Interface(t.deep_view()),
            GeneratedFragment::Adapter(a) => SpecGeneratedFragment::Adapter(a.deep_view()),
            GeneratedFragment::Placeholder(p) => SpecGeneratedFragment::Placeholder(p.deep_view()),
        }
    }
}

// ------------------------------------------------------------------
// Deep copies
// ------------------------------------------------------------------
// The transformation never consumes the declaration it is given, so every
// copied fragment is cloned; each `Clone` below promises that the copy has
// the same abstraction as the original.

impl Clone for TypeExpr {
    fn clone(&self) -> (r: Self)
        ensures
            r.deep_view() == self.deep_view(),
        decreases *self,
    {
        let r = match self {
            TypeExpr::Tuple { elems } => {
                let mut new_elems: Vec<TypeExpr> = Vec::new();
                let mut i: usize = 0;
                while i < elems.len()
                    invariant
                        i <= elems@.len(),
                        *self == (TypeExpr::Tuple { elems: *elems }),
                        new_elems@.len() == i,
                        forall|k: int|
                            0 <= k < i ==> new_elems@[k].deep_view() == elems@[k].deep_view(),
                    decreases elems@.len() - i,
                {
                    proof {
                        assert(decreases_to!(*self => (*self)->Tuple_elems));
                        assert(decreases_to!(*elems => elems[i as int]));
                    }
                    new_elems.push(elems[i].clone());
                    i = i + 1;
                }
                TypeExpr::Tuple { elems: new_elems }
            },
            TypeExpr::Opaque { bounds } => {
                let mut new_bounds: Vec<BoundExpr> = Vec::new();
                let mut i: usize = 0;
                while i < bounds.len()
                    invariant
                        i <= bounds@.len(),
                        *self == (TypeExpr::Opaque { bounds: *bounds }),
                        new_bounds@.len() == i,
                        forall|k: int|
                            0 <= k < i ==> new_bounds@[k].deep_view() == bounds@[k].deep_view(),
                    decreases bounds@.len() - i,
                {
                    proof {
                        assert(decreases_to!(*self => (*self)->Opaque_bounds));
                        assert(decreases_to!(*bounds => bounds[i as int]));
                    }
                    new_bounds.push(bounds[i].clone());
                    i = i + 1;
                }
                TypeExpr::Opaque { bounds: new_bounds }
            },
            TypeExpr::Named { name } => TypeExpr::Named { name: name.clone() },
        };
        proof {
            if (*self) is Tuple {
                assert(r.deep_view()->Tuple_elems =~= self.deep_view()->Tuple_elems);
            }
            if (*self) is Opaque {
                assert(r.deep_view()->Opaque_bounds =~= self.deep_view()->Opaque_bounds);
            }
        }
        r
    }
}

impl Clone for BoundExpr {
    fn clone(&self) -> (r: Self)
        ensures
            r.deep_view() == self.deep_view(),
        decreases *self,
    {
        let r = match self {
            BoundExpr::Capability { name, bindings } => {
                let mut new_bindings: Vec<AssocBinding> = Vec::new();
                let mut i: usize = 0;
                while i < bindings.len()
                    invariant
                        i <= bindings@.len(),
                        *self matches BoundExpr::Capability { bindings: b, .. } && b == *bindings,
                        new_bindings@.len() == i,
                        forall|k: int|
                            0 <= k < i ==> new_bindings@[k].deep_view() == bindings@[
                                k
                            ].deep_view(),
                    decreases bindings@.len() - i,
                {
                    proof {
                        assert(decreases_to!(*self => (*self)->Capability_bindings));
                        assert(decreases_to!(*bindings => bindings[i as int]));
                    }
                    new_bindings.push(bindings[i].clone());
                    i = i + 1;
                }
                BoundExpr::Capability { name: name.clone(), bindings: new_bindings }
            },
            BoundExpr::Other { code } => BoundExpr::Other { code: code.clone() },
        };
        proof {
            if (*self) is Capability {
                assert(r.deep_view()->Capability_bindings =~= self.deep_view()
                    ->Capability_bindings);
            }
        }
        r
    }
}

impl Clone for AssocBinding {
    fn clone(&self) -> (r: Self)
        ensures
            r.deep_view() == self.deep_view(),
        decreases *self,
    {
        proof {
            assert(decreases_to!(*self => self.ty));
        }
        AssocBinding { name: self.name.clone(), ty: self.ty.clone() }
    }
}

impl Clone for Pattern {
    fn clone(&self) -> (r: Self)
        ensures
            r.deep_view() == self.deep_view(),
    {
        match self {
            Pattern::Named { name } => Pattern::Named { name: name.clone() },
            Pattern::Discard => Pattern::Discard,
        }
    }
}

impl Clone for Parameter {
    fn clone(&self) -> (r: Self)
        ensures
            r.deep_view() == self.deep_view(),
    {
        match self {
            Parameter::Receiver { reference, mutable } => Parameter::Receiver {
                reference: *reference,
                mutable: *mutable,
            },
            Parameter::Typed { pattern, ty } => Parameter::Typed {
                pattern: pattern.clone(),
                ty: ty.clone(),
            },
        }
    }
}

impl Clone for Signature {
    fn clone(&self) -> (r: Self)
        ensures
            r.deep_view() == self.deep_view(),
    {
        let mut new_inputs: Vec<Parameter> = Vec::new();
        let mut i: usize = 0;
        while i < self.inputs.len()
            invariant
                i <= self.inputs@.len(),
                new_inputs@.len() == i,
                forall|k: int|
                    0 <= k < i ==> new_inputs@[k].deep_view() == self.inputs@[k].deep_view(),
            decreases self.inputs@.len() - i,
        {
            new_inputs.push(self.inputs[i].clone());
            i = i + 1;
        }
        let new_output = match &self.output {
            Option::Some(t) => Option::Some(t.clone()),
            Option::None => Option::None,
        };
        let r = Signature {
            name: self.name.clone(),
            is_async: self.is_async,
            inputs: new_inputs,
            output: new_output,
        };
        proof {
            assert(r.deep_view().inputs =~= self.deep_view().inputs);
        }
        r
    }
}

impl Clone for Body {
    fn clone(&self) -> (r: Self)
        ensures
            r.deep_view() == self.deep_view(),
        decreases *self,
    {
        match self {
            Body::Verbatim { code } => Body::Verbatim { code: code.clone() },
            Body::Empty => Body::Empty,
            Body::NotImplemented { trait_name, fn_name } => Body::NotImplemented {
                trait_name: trait_name.clone(),
                fn_name: fn_name.clone(),
            },
            Body::EmptyIterator => Body::EmptyIterator,
            Body::Async { inner } => {
                proof {
                    assert(decreases_to!(*self => (*self)->Async_inner));
                }
                Body::Async { inner: Box::new((&**inner).clone()) }
            },
            Body::CompileError => Body::CompileError,
        }
    }
}

impl Clone for TraitFn {
    fn clone(&self) -> (r: Self)
        ensures
            r.deep_view() == self.deep_view(),
    {
        let new_default = match &self.default {
            Option::Some(b) => Option::Some(b.clone()),
            Option::None => Option::None,
        };
        TraitFn { sig: self.sig.clone(), default: new_default }
    }
}

/// Copies a list of plain names.
pub(crate) fn clone_names(names: &Vec<String>) -> (r: Vec<String>)
    ensures
        r.deep_view() == names.deep_view(),
{
    let mut new_names: Vec<String> = Vec::new();
    let mut i: usize = 0;
    while i < names.len()
        invariant
            i <= names@.len(),
            new_names@.len() == i,
            forall|k: int| 0 <= k < i ==> new_names@[k]@ == names@[k]@,
        decreases names@.len() - i,
    {
        new_names.push(names[i].clone());
        i = i + 1;
    }
    proof {
        assert(new_names.deep_view() =~= names.deep_view());
    }
    new_names
}

impl Clone for AssocTypeDecl {
    fn clone(&self) -> (r: Self)
        ensures
            r.deep_view() == self.deep_view(),
    {
        AssocTypeDecl { name: self.name.clone(), generics: clone_names(&self.generics) }
    }
}

impl Clone for TraitItem {
    fn clone(&self) -> (r: Self)
        ensures
            r.deep_view() == self.deep_view(),
    {
        match self {
            TraitItem::Fn(f) => TraitItem::Fn(f.clone()),
            TraitItem::Type(t) => TraitItem::Type(t.clone()),
            TraitItem::Verbatim { code } => TraitItem::Verbatim { code: code.clone() },
        }
    }
}

} // verus!
