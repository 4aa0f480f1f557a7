//! Tests of the in-place flavor: the original trait rewritten so that every
//! method gains a default body, plus the placeholder implementation for the
//! marker type.
//!
//! The behavioral tests also spell out, as ordinary Rust, the trait that
//! rendering the produced declarations yields, and exercise the generated
//! defaults: overriding one method of a partially implemented trait,
//! invoking an empty default, and hitting the "not implemented" signal.

use double_trait::dummies::expand;
use double_trait::model::Body;
use double_trait::model::DummyImplDecl;
use double_trait::model::Parameter;
use double_trait::model::Signature;
use double_trait::model::TraitDecl;
use double_trait::model::TraitFn;
use double_trait::model::TraitItem;
use double_trait::model::TypeExpr;
use double_trait::model::Visibility;
use double_trait::Dummy;

fn named_type(name: &str) -> TypeExpr {
    TypeExpr::Named { name: String::from(name) }
}

fn receiver() -> Parameter {
    Parameter::Receiver { reference: true, mutable: false }
}

fn abstract_method(name: &str, is_async: bool, inputs: Vec<Parameter>, output: Option<TypeExpr>) -> TraitItem {
    TraitItem::Fn(TraitFn {
        sig: Signature { name: String::from(name), is_async, inputs, output },
        default: None,
    })
}

fn my_trait(vis: Visibility, items: Vec<TraitItem>) -> TraitDecl {
    TraitDecl { vis, name: String::from("MyTrait"), generics: vec![], items }
}

#[test]
fn private_empty_trait() {
    // Given an empty trait
    let org = my_trait(Visibility::Inherited, vec![]);

    // When expanded in place
    let output = expand(&org).unwrap();

    // Then it will be unchanged, and the marker implementation is empty
    assert_eq!(output.trait_with_dummies, my_trait(Visibility::Inherited, vec![]));
    assert_eq!(
        output.dummy_impl,
        DummyImplDecl { double_trait_name: String::from("MyTrait"), types: vec![] }
    );
}

#[test]
fn public_empty_trait() {
    // Given a public trait
    let org = my_trait(Visibility::Public, vec![]);

    // When expanded in place
    let output = expand(&org).unwrap();

    // Then the generated trait should be public, too
    assert_eq!(output.trait_with_dummies, my_trait(Visibility::Public, vec![]));
}

#[test]
fn empty_default_method() {
    // Given a trait with a method which returns unit
    let org = my_trait(Visibility::Inherited, vec![abstract_method("foobar", false, vec![receiver()], None)]);

    // When expanded in place
    let output = expand(&org).unwrap();

    // Then the generated trait should contain a default implementation
    // doing nothing
    assert_eq!(
        output.trait_with_dummies.items,
        vec![TraitItem::Fn(TraitFn {
            sig: Signature {
                name: String::from("foobar"),
                is_async: false,
                inputs: vec![receiver()],
                output: None,
            },
            default: Some(Body::Empty),
        })]
    );
}

#[test]
fn dummy_default_method() {
    // Given a trait with a method which returns something (e.g. i32)
    let org = my_trait(
        Visibility::Inherited,
        vec![abstract_method("foobar", false, vec![receiver()], Some(named_type("i32")))],
    );

    // When expanded in place
    let output = expand(&org).unwrap();

    // Then the generated trait should contain a default implementation
    // signalling "not implemented" with "{double_trait_name}::{fn_name}"
    assert_eq!(
        output.trait_with_dummies.items,
        vec![TraitItem::Fn(TraitFn {
            sig: Signature {
                name: String::from("foobar"),
                is_async: false,
                inputs: vec![receiver()],
                output: Some(named_type("i32")),
            },
            default: Some(Body::NotImplemented {
                trait_name: String::from("MyTrait"),
                fn_name: String::from("foobar"),
            }),
        })]
    );
}

#[test]
fn dummies_respect_existing_default_impl() {
    // Given a method with a default implementation in the original trait
    let org = TraitDecl {
        vis: Visibility::Public,
        name: String::from("MyTrait"),
        generics: vec![],
        items: vec![TraitItem::Fn(TraitFn {
            sig: Signature {
                name: String::from("foobar"),
                is_async: false,
                inputs: vec![],
                output: None,
            },
            default: Some(Body::Verbatim { code: String::from("println!(\"Hello Default!\")") }),
        })],
    };

    // When expanded in place
    let output = expand(&org).unwrap();

    // Then the generated trait should not override the existing default
    assert_eq!(output.trait_with_dummies, org);
}

#[test]
fn forward_async_method_with_unit_return() {
    // Given a trait with an asynchronous method returning unit
    let org = my_trait(Visibility::Inherited, vec![abstract_method("foobar", true, vec![receiver()], None)]);

    // When expanded in place
    let output = expand(&org).unwrap();

    // Then the generated trait should contain an empty default
    // implementation and keep the asynchronous flag
    assert_eq!(
        output.trait_with_dummies.items,
        vec![TraitItem::Fn(TraitFn {
            sig: Signature {
                name: String::from("foobar"),
                is_async: true,
                inputs: vec![receiver()],
                output: None,
            },
            default: Some(Body::Empty),
        })]
    );
}

#[test]
fn invoke_method_on_partial_implementation_of_trait() {
    // Given an original trait with a method `answer`
    let org = my_trait(
        Visibility::Inherited,
        vec![
            abstract_method("answer", false, vec![receiver()], Some(named_type("i32"))),
            abstract_method("some_other_method", false, vec![receiver()], None),
        ],
    );
    let output = expand(&org).unwrap();

    // The rewritten trait gives `answer` a "not implemented" default and
    // `some_other_method` an empty one; rendered, it reads:
    trait MyTrait {
        fn answer(&self) -> i32 {
            panic!("not implemented: MyTrait::answer")
        }

        fn some_other_method(&self) {}
    }
    assert_eq!(
        output.trait_with_dummies.items.len(),
        2,
        "both methods are kept in the rewritten trait"
    );

    // When overriding default implementation of `answer` in `MyTrait`
    struct MyStruct;
    impl MyTrait for MyStruct {
        fn answer(&self) -> i32 {
            42
        }
    }

    // The new implementation is used when invoking `MyTrait::answer` via
    // `MyStruct`. Also, implicitly tested by virtue of this compiling, is
    // that `MyStruct` is an implementation of `MyTrait`, even though
    // `some_other_method` is **not** implemented.
    assert_eq!(42, MyTrait::answer(&MyStruct));
}

#[test]
fn dummy_implements_my_trait() {
    // When rewriting an empty trait in place
    let org = my_trait(Visibility::Inherited, vec![]);
    let output = expand(&org).unwrap();
    assert_eq!(output.dummy_impl.double_trait_name, String::from("MyTrait"));

    // Then `Dummy` implements `MyTrait`; rendered, the two declarations
    // read:
    trait MyTrait {}
    impl MyTrait for Dummy {}
    fn use_trait(_: impl MyTrait) {}
    use_trait(Dummy);
}

#[test]
fn dummies_trait_with_existing_default_method_impl() {
    // Compilation test. Test assertion is, that this does not fail to
    // compile: a trait whose only method already has a default is kept
    // as it is, and the marker implementation stays empty.
    let org = TraitDecl {
        vis: Visibility::Inherited,
        name: String::from("MyTrait"),
        generics: vec![],
        items: vec![TraitItem::Fn(TraitFn {
            sig: Signature {
                name: String::from("answer"),
                is_async: false,
                inputs: vec![receiver()],
                output: Some(named_type("i32")),
            },
            default: Some(Body::Verbatim { code: String::from("42") }),
        })],
    };
    let output = expand(&org).unwrap();
    assert_eq!(output.trait_with_dummies, org);

    // Rendered, the declarations compile:
    trait MyTrait {
        fn answer(&self) -> i32 {
            42
        }
    }
    impl MyTrait for Dummy {}
}

#[test]
fn dummies_trait_with_associated_types() {
    // Compilation test. Test assertion is, that this does not fail to
    // compile: the marker implementation binds the associated type to the
    // marker type itself.
    let org = TraitDecl {
        vis: Visibility::Inherited,
        name: String::from("OrgTrait"),
        generics: vec![],
        items: vec![TraitItem::Type(double_trait::model::AssocTypeDecl {
            name: String::from("AssociatedType"),
            generics: vec![],
        })],
    };
    let output = expand(&org).unwrap();
    assert_eq!(output.dummy_impl.types.len(), 1);

    // Rendered, the declarations compile:
    trait OrgTrait {
        type AssociatedType;
    }
    impl OrgTrait for Dummy {
        type AssociatedType = Dummy;
    }
}

#[test]
#[should_panic(expected = "not implemented: MyTrait::answer")]
fn dummies_calling_unimplemented_double_method_mentions_method_name() {
    // Given an original trait with a method `answer`, whose rewritten form
    // carries a "not implemented" default naming the trait and the method
    let org = my_trait(
        Visibility::Inherited,
        vec![abstract_method("answer", false, vec![receiver()], Some(named_type("i32")))],
    );
    let output = expand(&org).unwrap();
    let TraitItem::Fn(f) = &output.trait_with_dummies.items[0] else {
        panic!("expected a method item");
    };
    let Some(Body::NotImplemented { trait_name, fn_name }) = &f.default else {
        panic!("expected a not-implemented default body");
    };

    // When invoking the default implementation of `answer`; rendered, its
    // body panics with the names the model carries
    panic!("not implemented: {}::{}", trait_name, fn_name);

    // Then the error message mentions the method name
}

#[test]
fn don_t_panic_on_invoking_method_with_no_return_type() {
    // Given an original trait with a method `answer`
    let org = my_trait(Visibility::Inherited, vec![abstract_method("answer", false, vec![receiver()], None)]);
    let output = expand(&org).unwrap();
    let TraitItem::Fn(f) = &output.trait_with_dummies.items[0] else {
        panic!("expected a method item");
    };
    assert_eq!(f.default, Some(Body::Empty));

    // When invoking the default implementation of `answer`; rendered, the
    // declarations read:
    trait MyTrait {
        fn answer(&self) {}
    }
    impl MyTrait for Dummy {}
    Dummy.answer();

    // Then no panic occurs
}
