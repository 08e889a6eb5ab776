use auto_from::errors::MacroError;
use auto_from::model::AnnotatedBlock;
use auto_from::model::Generics;
use auto_from::model::ImplMember;
use auto_from::model::Method;
use auto_from::model::Param;
use auto_from::model::TraitPath;
use auto_from::model::GeneratedImpl;
use auto_from::pipeline::actual_process_attribute;
use auto_from::pipeline::get_fn_return_type;
use auto_from::pipeline::unit_type;
use auto_from::render::render_fragment;
use auto_from::render::render_impl;

fn no_generics() -> Generics {
    Generics { params: vec![], where_clause: None }
}

fn typed(pat: &str, ty: &str, span: usize) -> Param {
    Param::Typed { pat: pat.to_string(), ty: ty.to_string(), span }
}

fn handler(name: &str, generics: Generics, params: Vec<Param>, params_span: usize, ret: &str, body: &str) -> Method {
    Method {
        name: name.to_string(),
        generics,
        params,
        params_span,
        ret: Some(ret.to_string()),
        body: body.to_string(),
    }
}

fn example_block() -> AnnotatedBlock {
    AnnotatedBlock {
        unsafety: None,
        trait_path: None,
        self_type: "Example".to_string(),
        members: vec![
            ImplMember::Method(handler(
                "ints",
                no_generics(),
                vec![typed("i", "i32", 10)],
                11,
                "Example",
                "{ Example::Int(i) }",
            )),
            ImplMember::Method(handler(
                "any_vec",
                Generics { params: vec!["T".to_string()], where_clause: Some("T: Clone".to_string()) },
                vec![typed("v", "Vec<T>", 20)],
                21,
                "Example",
                "{ Example::Vec { length: v.len() } }",
            )),
        ],
    }
}

pub enum Example {
    Int(i32),
    Vec { length: usize },
}

// The two implementation blocks below transcribe the fragment that
// `example_block()` generates, checked field by field in `can_transform`:
// one binds source type `i32` with no added generics, one binds source type
// `Vec<T>` with the hoisted generic `T` bound by `T: Clone`.

impl From<i32> for Example {
    fn from(i: i32) -> Example {
        Example::Int(i)
    }
}

impl<T> From<Vec<T>> for Example
where
    T: Clone,
{
    fn from(v: Vec<T>) -> Example {
        Example::Vec { length: v.len() }
    }
}

#[test]
fn can_transform() {
    let frag = actual_process_attribute(String::new(), example_block()).unwrap();
    assert_eq!(frag.impls.len(), 2);

    assert_eq!(frag.impls[0].message_type, "i32");
    assert_eq!(frag.impls[0].self_type, "Example");
    assert_eq!(frag.impls[0].generics, no_generics());
    assert_eq!(frag.impls[0].method.name, "from");
    assert_eq!(frag.impls[0].method.generics, no_generics());
    assert_eq!(frag.impls[0].method.params, vec![typed("i", "i32", 10)]);
    assert_eq!(frag.impls[0].method.ret, Some("Example".to_string()));
    assert_eq!(frag.impls[0].method.body, "{ Example::Int(i) }");

    assert_eq!(frag.impls[1].message_type, "Vec<T>");
    assert_eq!(frag.impls[1].self_type, "Example");
    assert_eq!(
        frag.impls[1].generics,
        Generics { params: vec!["T".to_string()], where_clause: Some("T: Clone".to_string()) }
    );
    assert_eq!(frag.impls[1].method.name, "from");
    assert_eq!(frag.impls[1].method.generics, no_generics());
    assert_eq!(frag.impls[1].method.body, "{ Example::Vec { length: v.len() } }");

    // The conversions those two blocks provide, as the original handlers
    // described them.
    Example::from(3);
    Example::from(vec![5u32]);
    Example::from(vec![6i32]);
    Example::from(vec![vec![6u32]]);

    assert!(matches!(Example::from(3), Example::Int(3)));
    assert!(matches!(Example::from(vec![5u32, 7u32]), Example::Vec { length: 2 }));
}

#[test]
fn handlers_in_declaration_order() {
    let block = AnnotatedBlock {
        unsafety: None,
        trait_path: None,
        self_type: "Target".to_string(),
        members: vec![
            ImplMember::Method(handler("a", no_generics(), vec![typed("x", "u8", 1)], 2, "Target", "{ A }")),
            ImplMember::Method(handler("b", no_generics(), vec![typed("x", "u16", 3)], 4, "Target", "{ B }")),
            ImplMember::Method(handler("c", no_generics(), vec![typed("x", "u32", 5)], 6, "Target", "{ C }")),
        ],
    };
    let frag = actual_process_attribute(String::new(), block).unwrap();
    assert_eq!(frag.impls.len(), 3);
    let types: Vec<&str> = frag.impls.iter().map(|i| i.message_type.as_str()).collect();
    assert_eq!(types, vec!["u8", "u16", "u32"]);
    let bodies: Vec<&str> = frag.impls.iter().map(|i| i.method.body.as_str()).collect();
    assert_eq!(bodies, vec!["{ A }", "{ B }", "{ C }"]);
}

#[test]
fn empty_block_yields_empty_fragment() {
    let block = AnnotatedBlock {
        unsafety: None,
        trait_path: None,
        self_type: "Target".to_string(),
        members: vec![],
    };
    let frag = actual_process_attribute(String::new(), block).unwrap();
    assert_eq!(frag.impls.len(), 0);
}

#[test]
fn attribute_payload_is_ignored() {
    let a = actual_process_attribute(String::new(), example_block()).unwrap();
    let b = actual_process_attribute("some = payload".to_string(), example_block()).unwrap();
    assert_eq!(a, b);
}

#[test]
fn unsafe_block_rejected() {
    // Scenario: an `unsafe impl` block fails with the disallowed-qualifier
    // error at the qualifier, even though its handlers are well-formed.
    let block = AnnotatedBlock { unsafety: Some(77), ..example_block() };
    let err = actual_process_attribute(String::new(), block).unwrap_err();
    assert_eq!(err, MacroError::DisallowedQualifier { span: 77 });
    assert_eq!(err.span(), 77);
    assert_eq!(err.message(), "unexpected 'unsafe impl' in #[auto_from] impl block");
}

#[test]
fn trait_block_rejected() {
    let block = AnnotatedBlock {
        trait_path: Some(TraitPath { path: "TraitX".to_string(), span: 88 }),
        ..example_block()
    };
    let err = actual_process_attribute(String::new(), block).unwrap_err();
    assert_eq!(err, MacroError::DisallowedTraitForm { span: 88 });
    assert_eq!(err.message(), "expected direct impl, but found a trait implementation");
}

#[test]
fn unsafe_qualifier_wins_over_trait_form() {
    let block = AnnotatedBlock {
        unsafety: Some(5),
        trait_path: Some(TraitPath { path: "TraitX".to_string(), span: 6 }),
        ..example_block()
    };
    let err = actual_process_attribute(String::new(), block).unwrap_err();
    assert_eq!(err, MacroError::DisallowedQualifier { span: 5 });
}

#[test]
fn two_parameter_handler_rejected() {
    // Scenario: a handler taking two parameters fails with a located
    // wrong-arity error and no output is produced.
    let block = AnnotatedBlock {
        unsafety: None,
        trait_path: None,
        self_type: "Target".to_string(),
        members: vec![ImplMember::Method(handler(
            "pair",
            no_generics(),
            vec![typed("a", "u8", 1), typed("b", "u8", 2)],
            42,
            "Target",
            "{ P }",
        ))],
    };
    let err = actual_process_attribute(String::new(), block).unwrap_err();
    assert_eq!(err, MacroError::WrongArity { span: 42 });
    assert_eq!(err.message(), "expected function taking one arguments: the message");
}

#[test]
fn zero_parameter_handler_rejected() {
    let block = AnnotatedBlock {
        unsafety: None,
        trait_path: None,
        self_type: "Target".to_string(),
        members: vec![ImplMember::Method(handler("nullary", no_generics(), vec![], 43, "Target", "{ N }"))],
    };
    let err = actual_process_attribute(String::new(), block).unwrap_err();
    assert_eq!(err, MacroError::WrongArity { span: 43 });
}

#[test]
fn receiver_parameter_rejected() {
    let block = AnnotatedBlock {
        unsafety: None,
        trait_path: None,
        self_type: "Target".to_string(),
        members: vec![ImplMember::Method(Method {
            name: "with_self".to_string(),
            generics: no_generics(),
            params: vec![Param::Receiver { span: 9 }],
            params_span: 8,
            ret: Some("Target".to_string()),
            body: "{ S }".to_string(),
        })],
    };
    let err = actual_process_attribute(String::new(), block).unwrap_err();
    assert_eq!(err, MacroError::UntypedOrReceiverParam { span: 9 });
    assert_eq!(err.message(), "expected non-self argument with type");
}

#[test]
fn untyped_parameter_rejected() {
    let block = AnnotatedBlock {
        unsafety: None,
        trait_path: None,
        self_type: "Target".to_string(),
        members: vec![ImplMember::Method(Method {
            name: "untyped".to_string(),
            generics: no_generics(),
            params: vec![Param::Untyped { span: 12 }],
            params_span: 13,
            ret: None,
            body: "{ U }".to_string(),
        })],
    };
    let err = actual_process_attribute(String::new(), block).unwrap_err();
    assert_eq!(err, MacroError::UntypedOrReceiverParam { span: 12 });
}

#[test]
fn non_function_member_rejected() {
    let block = AnnotatedBlock {
        unsafety: None,
        trait_path: None,
        self_type: "Target".to_string(),
        members: vec![
            ImplMember::Method(handler("ok", no_generics(), vec![typed("x", "u8", 1)], 2, "Target", "{ O }")),
            ImplMember::Other { span: 55 },
        ],
    };
    let err = actual_process_attribute(String::new(), block).unwrap_err();
    assert_eq!(err, MacroError::UnsupportedItem { span: 55 });
    assert_eq!(err.message(), "unexpected non-function item in #[auto_from] impl block");
}

#[test]
fn first_error_wins() {
    // Fail-fast: with two failing members, the first one's error is the
    // one reported.
    let block = AnnotatedBlock {
        unsafety: None,
        trait_path: None,
        self_type: "Target".to_string(),
        members: vec![
            ImplMember::Method(handler("bad", no_generics(), vec![], 30, "Target", "{ B }")),
            ImplMember::Other { span: 31 },
        ],
    };
    let err = actual_process_attribute(String::new(), block).unwrap_err();
    assert_eq!(err, MacroError::WrongArity { span: 30 });
}

#[test]
fn missing_return_type_reads_as_unit() {
    assert_eq!(unit_type(), "()");
    assert_eq!(get_fn_return_type(&None), "()");
    assert_eq!(get_fn_return_type(&Some("Example".to_string())), "Example");
}

#[test]
fn rendered_fragment_text() {
    let frag = actual_process_attribute(String::new(), example_block()).unwrap();
    let text = render_fragment(&frag);
    let mut expected = String::new();
    expected.push_str("impl ::std::convert::From<i32> for Example");
    expected.push_str(" { fn from(i: i32) -> Example { Example::Int(i) } }\n");
    expected.push_str("impl <T> ::std::convert::From<Vec<T>> for Example where T: Clone");
    expected.push_str(" { fn from(v: Vec<T>) -> Example { Example::Vec { length: v.len() } } }\n");
    assert_eq!(text, expected);
}

#[test]
fn rendered_empty_fragment_is_empty() {
    let block = AnnotatedBlock {
        unsafety: None,
        trait_path: None,
        self_type: "Target".to_string(),
        members: vec![],
    };
    let frag = actual_process_attribute(String::new(), block).unwrap();
    assert_eq!(render_fragment(&frag), "");
}

#[test]
fn rendered_param_forms() {
    let generated = GeneratedImpl {
        generics: no_generics(),
        message_type: "u8".to_string(),
        self_type: "Target".to_string(),
        method: Method {
            name: "from".to_string(),
            generics: no_generics(),
            params: vec![Param::Receiver { span: 0 }, Param::Untyped { span: 1 }, typed("x", "u8", 2)],
            params_span: 3,
            ret: None,
            body: "{ X }".to_string(),
        },
    };
    assert_eq!(
        render_impl(&generated),
        "impl ::std::convert::From<u8> for Target { fn from(self, _, x: u8) { X } }"
    );
}

#[test]
fn handler_generics_cleared_on_method() {
    let frag = actual_process_attribute(String::new(), example_block()).unwrap();
    for generated in &frag.impls {
        assert_eq!(generated.method.generics.params.len(), 0);
        assert_eq!(generated.method.generics.where_clause, None);
    }
}
