//! Tests of the adapter builder: the blanket implementation forwarding
//! every method and associated type of the original trait to the double
//! trait.

use double_trait::model::Argument;
use double_trait::model::AssocTypeDecl;
use double_trait::model::ForwardCall;
use double_trait::model::ImplFn;
use double_trait::model::ImplItem;
use double_trait::model::Parameter;
use double_trait::model::Pattern;
use double_trait::model::Signature;
use double_trait::model::TraitDecl;
use double_trait::model::TraitFn;
use double_trait::model::TraitItem;
use double_trait::model::TypeAlias;
use double_trait::model::TypeExpr;
use double_trait::model::Visibility;
use double_trait::trait_impl::trait_impl;

fn named_type(name: &str) -> TypeExpr {
    TypeExpr::Named { name: String::from(name) }
}

fn named_param(name: &str, ty: TypeExpr) -> Parameter {
    Parameter::Typed { pattern: Pattern::Named { name: String::from(name) }, ty }
}

fn named_arg(name: &str) -> Argument {
    Argument::Pattern(Pattern::Named { name: String::from(name) })
}

fn method(name: &str, is_async: bool, inputs: Vec<Parameter>) -> TraitItem {
    TraitItem::Fn(TraitFn {
        sig: Signature { name: String::from(name), is_async, inputs, output: None },
        default: None,
    })
}

fn pub_trait(items: Vec<TraitItem>) -> TraitDecl {
    TraitDecl { vis: Visibility::Public, name: String::from("MyTrait"), generics: vec![], items }
}

fn forwarding(sig: Signature, args: Vec<Argument>, awaited: bool) -> ImplItem {
    let method = sig.name.clone();
    ImplItem::Fn(ImplFn {
        sig,
        call: ForwardCall {
            target_trait: String::from("MyTraitDummy"),
            method,
            args,
            awaited,
        },
    })
}

#[test]
fn forward_self() {
    // Given a trait with a method taking `&mut self`
    let org = pub_trait(vec![method(
        "foobar",
        false,
        vec![Parameter::Receiver { reference: true, mutable: true }],
    )]);

    // When generating the adapter
    let output = trait_impl(&String::from("MyTraitDummy"), &org);

    // Then the method is forwarded, passing the receiver itself
    assert_eq!(output.org_trait_name, String::from("MyTrait"));
    assert_eq!(output.double_trait_name, String::from("MyTraitDummy"));
    assert_eq!(
        output.items,
        vec![forwarding(
            Signature {
                name: String::from("foobar"),
                is_async: false,
                inputs: vec![Parameter::Receiver { reference: true, mutable: true }],
                output: None,
            },
            vec![Argument::Receiver],
            false,
        )]
    );
}

#[test]
fn forward_non_self_parameter() {
    // Given a trait with a method taking a named parameter
    let org = pub_trait(vec![method("foobar", false, vec![named_param("x", named_type("i32"))])]);

    // When generating the adapter
    let output = trait_impl(&String::from("MyTraitDummy"), &org);

    // Then the parameter is passed through under its original name
    assert_eq!(
        output.items,
        vec![forwarding(
            Signature {
                name: String::from("foobar"),
                is_async: false,
                inputs: vec![named_param("x", named_type("i32"))],
                output: None,
            },
            vec![named_arg("x")],
            false,
        )]
    );
}

#[test]
fn forward_multiple_arguments() {
    // Given a trait with a method taking two parameters
    let org = pub_trait(vec![method(
        "foobar",
        false,
        vec![named_param("one", named_type("i32")), named_param("two", named_type("i32"))],
    )]);

    // When generating the adapter
    let output = trait_impl(&String::from("MyTraitDummy"), &org);

    // Then both parameters are passed through, in original order
    assert_eq!(
        output.items,
        vec![forwarding(
            Signature {
                name: String::from("foobar"),
                is_async: false,
                inputs: vec![
                    named_param("one", named_type("i32")),
                    named_param("two", named_type("i32")),
                ],
                output: None,
            },
            vec![named_arg("one"), named_arg("two")],
            false,
        )]
    );
}

#[test]
fn forward_async() {
    // Given a trait with an asynchronous method
    let org = pub_trait(vec![method(
        "foobar",
        true,
        vec![Parameter::Receiver { reference: true, mutable: true }],
    )]);

    // When generating the adapter
    let output = trait_impl(&String::from("MyTraitDummy"), &org);

    // Then the forwarding call awaits the result
    assert_eq!(
        output.items,
        vec![forwarding(
            Signature {
                name: String::from("foobar"),
                is_async: true,
                inputs: vec![Parameter::Receiver { reference: true, mutable: true }],
                output: None,
            },
            vec![Argument::Receiver],
            true,
        )]
    );
}

#[test]
fn forward_type() {
    // Given a trait with an associated type
    let org = TraitDecl {
        vis: Visibility::Inherited,
        name: String::from("MyTrait"),
        generics: vec![],
        items: vec![TraitItem::Type(AssocTypeDecl {
            name: String::from("AssociatedType"),
            generics: vec![],
        })],
    };

    // When generating the adapter
    let output = trait_impl(&String::from("MyTraitDummy"), &org);

    // Then the associated type is aliased to the double trait's one
    assert_eq!(
        output.items,
        vec![ImplItem::Type(TypeAlias {
            decl: AssocTypeDecl { name: String::from("AssociatedType"), generics: vec![] },
            target_trait: String::from("MyTraitDummy"),
        })]
    );
}
