use rust_unit::expand::ArgKind;
use rust_unit::expand::AttrArg;
use rust_unit::expand::AttrBody;
use rust_unit::expand::AuxAttr;
use rust_unit::expand::FnParam;
use rust_unit::expand::NamePlan;
use rust_unit::expand::Plan;
use rust_unit::expand::TestFnInput;
use rust_unit::expand::expand;
use rust_unit::expand::keep_attr;
use rust_unit::expand::make_arg_names;
use rust_unit::expand::usize_to_string;

fn str_arg(value: &str, span: u32) -> AttrArg {
    AttrArg {
        kind: ArgKind::StrLit(value.to_string()),
        text: format!("\"{}\"", value),
        span,
    }
}

fn ident_arg(name: &str, span: u32) -> AttrArg {
    AttrArg {
        kind: ArgKind::PathMeta(vec![name.to_string()]),
        text: name.to_string(),
        span,
    }
}

fn int_arg(span: u32) -> AttrArg {
    AttrArg {
        kind: ArgKind::OtherLit,
        text: "17".to_string(),
        span,
    }
}

fn bare_input(fn_name: &str) -> TestFnInput {
    TestFnInput {
        fn_name: fn_name.to_string(),
        params: Vec::new(),
        test_args: Vec::new(),
        tags: None,
        source: None,
        fn_span: 99,
    }
}

fn source_attr(path: &str, span: u32) -> AuxAttr {
    AuxAttr {
        body: AttrBody::List(vec![ident_arg(path, span)]),
        span,
    }
}

fn plan_of(input: &TestFnInput) -> Plan {
    match expand(input) {
        Ok(p) => p,
        Err(d) => panic!("unexpected diagnostic: {}", d.message),
    }
}

#[test]
fn bare_test_uses_function_name() {
    let input = bare_input("a");
    let plan = plan_of(&input);
    match plan.name {
        NamePlan::Static(s) => assert_eq!(s, "a"),
        _ => panic!("expected a static name"),
    }
    assert_eq!(plan.tags.len(), 0);
    assert!(plan.source.is_none());
    assert_eq!(plan.arg_names.len(), 0);
}

#[test]
fn literal_name_is_kept() {
    let mut input = bare_input("a");
    input.test_args = vec![str_arg("hello", 1)];
    let plan = plan_of(&input);
    match plan.name {
        NamePlan::Static(s) => assert_eq!(s, "hello"),
        _ => panic!("expected a static name"),
    }
}

#[test]
fn tags_are_collected_in_order() {
    let mut input = bare_input("a");
    input.tags = Some(AuxAttr {
        body: AttrBody::List(vec![str_arg("slow", 2), str_arg("net", 3), str_arg("slow", 4)]),
        span: 5,
    });
    let plan = plan_of(&input);
    assert_eq!(plan.tags, vec!["slow", "net", "slow"]);
}

#[test]
fn data_driven_static_name() {
    let mut input = bare_input("eq");
    input.test_args = vec![str_arg("uwu", 1)];
    input.params = vec![
        FnParam { is_receiver: false },
        FnParam { is_receiver: false },
        FnParam { is_receiver: false },
    ];
    input.source = Some(source_attr("data", 6));
    let plan = plan_of(&input);
    match plan.name {
        NamePlan::Static(s) => assert_eq!(s, "uwu"),
        _ => panic!("expected a static name"),
    }
    assert_eq!(plan.source, Some(vec!["data".to_string()]));
    assert_eq!(plan.arg_names, vec!["__arg_0", "__arg_1", "__arg_2"]);
}

#[test]
fn data_driven_format_name() {
    let mut input = bare_input("eq");
    input.test_args = vec![
        str_arg("{} equals {} is {}", 1),
        ident_arg("a", 2),
        ident_arg("b", 3),
        ident_arg("res", 4),
    ];
    input.params = vec![
        FnParam { is_receiver: false },
        FnParam { is_receiver: false },
        FnParam { is_receiver: false },
    ];
    input.source = Some(source_attr("data", 6));
    let plan = plan_of(&input);
    match plan.name {
        NamePlan::Format(f, args) => {
            assert_eq!(f, "{} equals {} is {}");
            assert_eq!(args, vec!["a", "b", "res"]);
        }
        _ => panic!("expected a format name"),
    }
}

#[test]
fn receiver_is_forwarded_by_name() {
    let mut input = bare_input("m");
    input.params = vec![FnParam { is_receiver: true }, FnParam { is_receiver: false }];
    input.source = Some(source_attr("data", 6));
    let plan = plan_of(&input);
    assert_eq!(plan.arg_names, vec!["self", "__arg_1"]);
}

#[test]
fn arguments_without_source_are_refused() {
    let mut input = bare_input("a");
    input.params = vec![FnParam { is_receiver: false }];
    let d = expand(&input).unwrap_err();
    assert_eq!(d.message, "cannot use arguments without data source");
    assert_eq!(d.span, 99);
}

#[test]
fn format_name_without_source_is_refused() {
    let mut input = bare_input("a");
    input.test_args = vec![str_arg("{}", 1), ident_arg("x", 2)];
    let d = expand(&input).unwrap_err();
    assert_eq!(d.message, "cannot use format name without data source");
    assert_eq!(d.span, 99);
}

#[test]
fn non_string_test_argument_is_refused() {
    let mut input = bare_input("a");
    input.test_args = vec![int_arg(7)];
    let d = expand(&input).unwrap_err();
    assert_eq!(d.message, "expected a string literal");
    assert_eq!(d.span, 7);
}

#[test]
fn non_string_format_literal_is_refused() {
    let mut input = bare_input("a");
    input.test_args = vec![int_arg(7), ident_arg("x", 8)];
    let d = expand(&input).unwrap_err();
    assert_eq!(d.message, "expected a format string literal");
    assert_eq!(d.span, 7);
}

#[test]
fn non_list_tags_are_refused() {
    let mut input = bare_input("a");
    input.tags = Some(AuxAttr { body: AttrBody::NotList, span: 11 });
    let d = expand(&input).unwrap_err();
    assert_eq!(d.message, "tags attribute must be a list");
    assert_eq!(d.span, 11);
}

#[test]
fn non_string_tag_is_refused() {
    let mut input = bare_input("a");
    input.tags = Some(AuxAttr {
        body: AttrBody::List(vec![str_arg("ok", 2), int_arg(3), int_arg(4)]),
        span: 5,
    });
    let d = expand(&input).unwrap_err();
    assert_eq!(d.message, "expected string literal");
    assert_eq!(d.span, 3);
}

#[test]
fn empty_source_list_is_refused() {
    let mut input = bare_input("a");
    input.source = Some(AuxAttr { body: AttrBody::List(Vec::new()), span: 12 });
    let d = expand(&input).unwrap_err();
    assert_eq!(d.message, "expected 1 item");
    assert_eq!(d.span, 12);
}

#[test]
fn two_source_items_are_refused() {
    let mut input = bare_input("a");
    input.source = Some(AuxAttr {
        body: AttrBody::List(vec![ident_arg("a", 1), ident_arg("b", 2)]),
        span: 13,
    });
    let d = expand(&input).unwrap_err();
    assert_eq!(d.message, "expected at most 1 item");
    assert_eq!(d.span, 13);
}

#[test]
fn non_path_source_is_refused() {
    let mut input = bare_input("a");
    input.source = Some(AuxAttr {
        body: AttrBody::List(vec![int_arg(14)]),
        span: 15,
    });
    let d = expand(&input).unwrap_err();
    assert_eq!(d.message, "source value must be a path to a function");
    assert_eq!(d.span, 14);
}

#[test]
fn non_list_source_declares_none() {
    let mut input = bare_input("a");
    input.source = Some(AuxAttr { body: AttrBody::NotList, span: 16 });
    let plan = plan_of(&input);
    assert!(plan.source.is_none());
}

#[test]
fn consumed_annotations_are_stripped() {
    assert!(!keep_attr("tags"));
    assert!(!keep_attr("source"));
    assert!(keep_attr("allow"));
    assert!(keep_attr("doc"));
}

#[test]
fn decimal_names() {
    assert_eq!(usize_to_string(0), "0");
    assert_eq!(usize_to_string(9), "9");
    assert_eq!(usize_to_string(10), "10");
    assert_eq!(usize_to_string(907), "907");
    let params = vec![FnParam { is_receiver: false }; 12];
    let names = make_arg_names(&params);
    assert_eq!(names[11], "__arg_11");
}
