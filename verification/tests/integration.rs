//! End-to-end tests of the double flavor: alongside the model assertions,
//! each test spells out as ordinary Rust the declarations that rendering
//! the produced fragments yields — original trait, double trait, blanket
//! adapter, marker implementation — and exercises them.

use double_trait::expand;
use double_trait::model::Body;
use double_trait::model::Parameter;
use double_trait::model::Pattern;
use double_trait::model::Signature;
use double_trait::model::TraitDecl;
use double_trait::model::TraitFn;
use double_trait::model::TraitItem;
use double_trait::model::TypeExpr;
use double_trait::model::Visibility;
use double_trait::Dummy;

fn named_type(name: &str) -> TypeExpr {
    TypeExpr::Named { name: String::from(name) }
}

fn receiver() -> Parameter {
    Parameter::Receiver { reference: true, mutable: false }
}

fn abstract_method(name: &str, inputs: Vec<Parameter>, output: Option<TypeExpr>) -> TraitItem {
    TraitItem::Fn(TraitFn {
        sig: Signature { name: String::from(name), is_async: false, inputs, output },
        default: None,
    })
}

fn org_trait(name: &str, items: Vec<TraitItem>) -> TraitDecl {
    TraitDecl { vis: Visibility::Inherited, name: String::from(name), generics: vec![], items }
}

#[test]
fn implement_double_instead_of_original_trait() {
    // Given an original trait with a derived double
    let org = org_trait("MyEmptyTrait", vec![]);
    let output = expand(&String::from("MyEmptyTraitDummy"), org).unwrap();
    assert_eq!(output.double_trait.name, String::from("MyEmptyTraitDummy"));

    // Rendered, the fragments read:
    trait MyEmptyTrait {}
    trait MyEmptyTraitDummy {}
    impl<T> MyEmptyTrait for T where T: MyEmptyTraitDummy {}
    impl MyEmptyTraitDummy for Dummy {}

    // When implementing the double for a struct `MyStruct`
    struct MyStruct;
    impl MyEmptyTraitDummy for MyStruct {}

    // Then `MyStruct` also implements the original trait.
    fn use_trait(_: impl MyEmptyTrait) {
        // This function is just a placeholder to ensure the trait is used
    }
    use_trait(MyStruct);
}

#[test]
fn invoke_implemented_method_through_original_trait() {
    // Given an original trait with a method `answer`
    let org = org_trait(
        "OrgTrait",
        vec![
            abstract_method("answer", vec![receiver()], Some(named_type("i32"))),
            abstract_method("some_other_method", vec![receiver()], None),
        ],
    );
    let output = expand(&String::from("DummyTrait"), org).unwrap();
    assert_eq!(output.trait_impl.items.len(), 2, "both methods are forwarded");

    // Rendered, the fragments read:
    trait OrgTrait {
        fn answer(&self) -> i32;

        fn some_other_method(&self);
    }
    trait DummyTrait {
        fn answer(&self) -> i32 {
            panic!("not implemented: DummyTrait::answer")
        }

        fn some_other_method(&self) {}
    }
    impl<T> OrgTrait for T
    where
        T: DummyTrait,
    {
        fn answer(&self) -> i32 {
            <Self as DummyTrait>::answer(self)
        }

        fn some_other_method(&self) {
            <Self as DummyTrait>::some_other_method(self)
        }
    }

    // When overriding default implementation of `answer` in `DummyTrait`
    struct MyStruct;
    impl DummyTrait for MyStruct {
        fn answer(&self) -> i32 {
            42
        }
    }

    // The new implementation is used when invoking `OrgTrait::answer` via
    // `MyStruct`
    assert_eq!(42, OrgTrait::answer(&MyStruct));
}

#[test]
fn dummy_implements_double_trait() {
    // When deriving a double trait
    let org = org_trait("OrgTrait", vec![]);
    let output = expand(&String::from("DummyTrait"), org).unwrap();
    assert_eq!(output.dummy_impl.double_trait_name, String::from("DummyTrait"));

    // Rendered, the fragments read:
    trait OrgTrait {}
    trait DummyTrait {}
    impl<T> OrgTrait for T where T: DummyTrait {}
    impl DummyTrait for Dummy {}

    // Then `Dummy` implements the original trait
    fn use_trait(_: impl OrgTrait) {}
    use_trait(Dummy);
}

#[test]
fn trait_with_existing_default_method_impl() {
    // Compilation test. Test assertion is, that this does not fail to
    // compile: the existing default travels into the double trait.
    let org = TraitDecl {
        vis: Visibility::Inherited,
        name: String::from("OrgTrait"),
        generics: vec![],
        items: vec![TraitItem::Fn(TraitFn {
            sig: Signature {
                name: String::from("answer"),
                is_async: false,
                inputs: vec![receiver()],
                output: Some(named_type("i32")),
            },
            default: Some(Body::Verbatim { code: String::from("42") }),
        })],
    };
    let output = expand(&String::from("DoubleTrait"), org).unwrap();
    let TraitItem::Fn(f) = &output.double_trait.items[0] else {
        panic!("expected a method item");
    };
    assert_eq!(f.default, Some(Body::Verbatim { code: String::from("42") }));

    // Rendered, the fragments compile:
    trait OrgTrait {
        fn answer(&self) -> i32 {
            42
        }
    }
    trait DoubleTrait {
        fn answer(&self) -> i32 {
            42
        }
    }
    impl<T> OrgTrait for T
    where
        T: DoubleTrait,
    {
        fn answer(&self) -> i32 {
            <Self as DoubleTrait>::answer(self)
        }
    }
    impl DoubleTrait for Dummy {}
}

#[test]
fn trait_with_associated_types() {
    // Compilation test. Test assertion is, that this does not fail to
    // compile: the associated type is mirrored, aliased, and bound.
    let org = TraitDecl {
        vis: Visibility::Inherited,
        name: String::from("OrgTrait"),
        generics: vec![],
        items: vec![TraitItem::Type(double_trait::model::AssocTypeDecl {
            name: String::from("AssociatedType"),
            generics: vec![],
        })],
    };
    let output = expand(&String::from("DoubleTrait"), org).unwrap();
    assert_eq!(output.double_trait.items.len(), 1);
    assert_eq!(output.dummy_impl.types.len(), 1);

    // Rendered, the fragments compile:
    trait OrgTrait {
        type AssociatedType;
    }
    trait DoubleTrait {
        type AssociatedType;
    }
    impl<T> OrgTrait for T
    where
        T: DoubleTrait,
    {
        type AssociatedType = <Self as DoubleTrait>::AssociatedType;
    }
    impl DoubleTrait for Dummy {
        type AssociatedType = Dummy;
    }
}

#[test]
#[should_panic(expected = "not implemented: DummyTrait::answer")]
fn calling_unimplemented_double_method_mentions_method_name() {
    // Given an original trait with a method `answer`
    let org = org_trait("OrgTrait", vec![abstract_method("answer", vec![receiver()], Some(named_type("i32")))]);
    let output = expand(&String::from("DummyTrait"), org).unwrap();
    let TraitItem::Fn(f) = &output.double_trait.items[0] else {
        panic!("expected a method item");
    };
    assert_eq!(
        f.default,
        Some(Body::NotImplemented {
            trait_name: String::from("DummyTrait"),
            fn_name: String::from("answer"),
        }),
        "the synthesized default names the double trait and the method"
    );

    // Rendered, the fragments read:
    trait OrgTrait {
        fn answer(&self) -> i32;
    }
    trait DummyTrait {
        fn answer(&self) -> i32 {
            panic!("not implemented: DummyTrait::answer")
        }
    }
    impl<T> OrgTrait for T
    where
        T: DummyTrait,
    {
        fn answer(&self) -> i32 {
            <Self as DummyTrait>::answer(self)
        }
    }
    impl DummyTrait for Dummy {}

    // When invoking the default implementation of `answer` through the
    // original trait
    OrgTrait::answer(&Dummy);

    // Then the error message mentions the method name
}

#[test]
fn forward_patterns_keep_original_names() {
    // A non-receiver parameter travels through the adapter under its
    // original name, in original order.
    let org = org_trait(
        "OrgTrait",
        vec![abstract_method(
            "combine",
            vec![
                receiver(),
                Parameter::Typed {
                    pattern: Pattern::Named { name: String::from("left") },
                    ty: named_type("i32"),
                },
                Parameter::Typed {
                    pattern: Pattern::Named { name: String::from("right") },
                    ty: named_type("i32"),
                },
            ],
            Some(named_type("i32")),
        )],
    );
    let output = expand(&String::from("DoubleTrait"), org).unwrap();
    let double_trait::model::ImplItem::Fn(f) = &output.trait_impl.items[0] else {
        panic!("expected a forwarding method");
    };
    assert_eq!(
        f.call.args,
        vec![
            double_trait::model::Argument::Receiver,
            double_trait::model::Argument::Pattern(Pattern::Named { name: String::from("left") }),
            double_trait::model::Argument::Pattern(Pattern::Named { name: String::from("right") }),
        ]
    );
}
