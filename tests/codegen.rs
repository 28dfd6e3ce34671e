use rstest_insta::codegen::{context_binding, expand, expand_attribute, expand_body, expand_with};
use rstest_insta::model::{Attribute, ExpandError, FnParam, FunctionDef, Pattern, SymbolPath};

const BODY: &str = "{ println!(\"Hello, World!\") }";

fn attr(path: &[&str]) -> Attribute {
    Attribute {
        leading_colon: false,
        path: path.iter().map(|s| s.to_string()).collect(),
        args: String::new(),
    }
}

fn typed(attrs: Vec<Attribute>, name: &str, ty: &str) -> FnParam {
    FnParam::Typed { attrs, pattern: Pattern::Ident { name: name.to_string(), text: name.to_string() }, ty: ty.to_string() }
}

fn my_test(attrs: Vec<Attribute>, params: Vec<FnParam>) -> FunctionDef {
    FunctionDef { attrs, params, body: BODY.to_string() }
}

fn crate_path(name: &str) -> SymbolPath {
    SymbolPath { segments: vec![name.to_string()] }
}

fn is_attr(a: &Attribute, leading_colon: bool, path: &[&str]) -> bool {
    a.leading_colon == leading_colon && a.path == path.iter().map(|s| s.to_string()).collect::<Vec<_>>() && a.args.is_empty()
}

fn param_name(p: &FnParam) -> &str {
    match p {
        FnParam::Typed { pattern: Pattern::Ident { name, .. }, .. } => name,
        _ => panic!("not an identifier parameter"),
    }
}

fn is_context_param(p: &FnParam, name: &str) -> bool {
    match p {
        FnParam::Typed { attrs, pattern: Pattern::Ident { name: n, text }, ty } => {
            attrs.len() == 1 && is_attr(&attrs[0], false, &["context"]) && n == name && text == name && ty == "Context"
        }
        _ => false,
    }
}

fn rewritten(ctx: &str, insta: &str, body: &str) -> String {
    format!(
        "{{ let __rstest_insta__suffix = {ctx}.description.map(|s| s.to_string()).unwrap_or({ctx}.case.unwrap_or(0).to_string()); ::{insta}::with_settings!({{snapshot_suffix => __rstest_insta__suffix}}, {{ {body} }}) }}"
    )
}

#[test]
fn expand_attribute_when_fn_contains_no_attributes() {
    let expanded = expand_attribute(my_test(vec![], vec![]), &crate_path("rstest"));
    assert_eq!(expanded.attrs.len(), 1);
    assert!(is_attr(&expanded.attrs[0], true, &["rstest", "rstest"]));
    assert!(expanded.params.is_empty());
    assert_eq!(expanded.body, BODY);
}

#[test]
fn when_fn_does_not_contain_attr() {
    let expanded = expand_attribute(my_test(vec![], vec![]), &crate_path("rstest"));
    assert_eq!(expanded.attrs.len(), 1);
    assert!(is_attr(&expanded.attrs[0], true, &["rstest", "rstest"]));
    assert_eq!(expanded.body, BODY);
}

#[test]
fn when_fn_does_contain_attr() {
    let input = my_test(vec![attr(&["attr1"]), attr(&["attr2"])], vec![]);
    let expanded = expand_attribute(input, &crate_path("rstest"));
    assert_eq!(expanded.attrs.len(), 3);
    assert!(is_attr(&expanded.attrs[0], true, &["rstest", "rstest"]));
    assert!(is_attr(&expanded.attrs[1], false, &["attr1"]));
    assert!(is_attr(&expanded.attrs[2], false, &["attr2"]));
    assert_eq!(expanded.body, BODY);
}

#[test]
fn entry_point_uses_the_resolved_alias() {
    let input = my_test(vec![attr(&["ignore"])], vec![]);
    let expanded = expand_attribute(input, &crate_path("renamed_rstest"));
    assert!(is_attr(&expanded.attrs[0], true, &["renamed_rstest", "rstest"]));
    assert!(is_attr(&expanded.attrs[1], false, &["ignore"]));
}

#[test]
fn context_binding_when_fn_contains_no_context_arg() {
    let (expanded, binding) = context_binding(my_test(vec![], vec![])).ok().unwrap();
    assert_eq!(binding, "__rstest_insta__ctx");
    assert_eq!(expanded.params.len(), 1);
    assert!(is_context_param(&expanded.params[0], "__rstest_insta__ctx"));
    assert_eq!(expanded.body, BODY);
}

#[test]
fn context_binding_when_fn_contains_context_arg() {
    let input = my_test(vec![], vec![typed(vec![attr(&["context"])], "my_context", "Context")]);
    let (expanded, binding) = context_binding(input).ok().unwrap();
    assert_eq!(binding, "my_context");
    assert_eq!(expanded.params.len(), 1);
    assert!(is_context_param(&expanded.params[0], "my_context"));
}

#[test]
fn codegen_when_fn_does_not_contain_arg() {
    let (expanded, binding) = context_binding(my_test(vec![], vec![])).ok().unwrap();
    assert_eq!(binding.to_string(), "__rstest_insta__ctx");
    assert_eq!(expanded.params.len(), 1);
    assert!(is_context_param(&expanded.params[0], "__rstest_insta__ctx"));
}

#[test]
fn when_fn_does_not_contain_ctx_arg() {
    let input = my_test(vec![], vec![typed(vec![], "a", "usize"), typed(vec![], "b", "String")]);
    let (expanded, binding) = context_binding(input).ok().unwrap();
    assert_eq!(binding.to_string(), "__rstest_insta__ctx");
    assert_eq!(expanded.params.len(), 3);
    assert!(is_context_param(&expanded.params[0], "__rstest_insta__ctx"));
    assert_eq!(param_name(&expanded.params[1]), "a");
    assert_eq!(param_name(&expanded.params[2]), "b");
}

#[test]
fn when_fn_contains_context_arg() {
    let input = my_test(vec![], vec![typed(vec![attr(&["context"])], "my_context", "Context")]);
    let (expanded, binding) = context_binding(input).ok().unwrap();
    assert_eq!(binding.to_string(), "my_context");
    assert_eq!(expanded.params.len(), 1);
    assert!(is_context_param(&expanded.params[0], "my_context"));
}

#[test]
fn when_fn_contains_self_arg() {
    let input = my_test(vec![], vec![FnParam::Receiver("self".to_string()), typed(vec![], "a", "usize")]);
    assert!(matches!(context_binding(input), Err(ExpandError::UnsupportedReceiver)));
}

#[test]
fn first_context_arg_wins() {
    let input = my_test(
        vec![],
        vec![
            typed(vec![], "a", "usize"),
            typed(vec![attr(&["context"])], "first", "Context"),
            typed(vec![attr(&["context"])], "second", "Context"),
        ],
    );
    let (expanded, binding) = context_binding(input).ok().unwrap();
    assert_eq!(binding, "first");
    assert_eq!(expanded.params.len(), 3);
}

#[test]
fn qualified_context_path_is_not_the_marker() {
    let mut qualified = attr(&["context"]);
    qualified.leading_colon = true;
    let input = my_test(vec![], vec![typed(vec![qualified], "c", "Context")]);
    let (expanded, binding) = context_binding(input).ok().unwrap();
    assert_eq!(binding, "__rstest_insta__ctx");
    assert_eq!(expanded.params.len(), 2);
}

#[test]
fn context_marked_non_identifier_is_skipped() {
    let param = FnParam::Typed {
        attrs: vec![attr(&["context"])],
        pattern: Pattern::Other("(a, b)".to_string()),
        ty: "(u8, u8)".to_string(),
    };
    let (expanded, binding) = context_binding(my_test(vec![], vec![param])).ok().unwrap();
    assert_eq!(binding, "__rstest_insta__ctx");
    assert_eq!(expanded.params.len(), 2);
}

#[test]
fn body_is_wrapped_in_snapshot_settings() {
    let expanded = expand_body(my_test(vec![], vec![]), "ctx", &crate_path("insta"));
    assert_eq!(expanded.body, rewritten("ctx", "insta", BODY));
    assert!(expanded.body.contains(BODY));
}

#[test]
fn body_uses_every_path_segment() {
    let path = SymbolPath { segments: vec!["outer".to_string(), "insta".to_string()] };
    let expanded = expand_body(my_test(vec![], vec![]), "c", &path);
    assert!(expanded.body.contains("::outer::insta::with_settings!"));
}

#[test]
fn expand_when_fn_contains_no_context_arg() {
    let input = my_test(vec![], vec![typed(vec![], "a", "usize")]);
    let expanded = expand_with(input, &crate_path("rstest"), &crate_path("insta")).ok().unwrap();
    assert_eq!(expanded.attrs.len(), 1);
    assert!(is_attr(&expanded.attrs[0], true, &["rstest", "rstest"]));
    assert_eq!(expanded.params.len(), 2);
    assert!(is_context_param(&expanded.params[0], "__rstest_insta__ctx"));
    assert_eq!(param_name(&expanded.params[1]), "a");
    assert_eq!(expanded.body, rewritten("__rstest_insta__ctx", "insta", BODY));
}

#[test]
fn expand_when_fn_does_not_contain_arg() {
    let expanded = expand_with(my_test(vec![], vec![]), &crate_path("rstest"), &crate_path("insta")).ok().unwrap();
    assert!(is_attr(&expanded.attrs[0], true, &["rstest", "rstest"]));
    assert_eq!(expanded.params.len(), 1);
    assert!(is_context_param(&expanded.params[0], "__rstest_insta__ctx"));
    assert_eq!(expanded.body, rewritten("__rstest_insta__ctx", "insta", BODY));
}

#[test]
fn when_fn_contains_ctx_arg() {
    let input = my_test(vec![], vec![typed(vec![], "a", "usize"), typed(vec![attr(&["context"])], "toto", "Context")]);
    let expanded = expand_with(input, &crate_path("rstest"), &crate_path("insta")).ok().unwrap();
    assert_eq!(expanded.attrs.len(), 1);
    assert!(is_attr(&expanded.attrs[0], true, &["rstest", "rstest"]));
    assert_eq!(expanded.params.len(), 2);
    assert_eq!(param_name(&expanded.params[0]), "a");
    assert!(is_context_param(&expanded.params[1], "toto"));
    assert_eq!(expanded.body, rewritten("toto", "insta", BODY));
}

#[test]
fn expand_with_rejects_receiver() {
    let input = my_test(vec![], vec![FnParam::Receiver("&self".to_string())]);
    let r = expand_with(input, &crate_path("rstest"), &crate_path("insta"));
    assert!(matches!(r, Err(ExpandError::UnsupportedReceiver)));
}

#[test]
fn expand_looks_up_dependencies() {
    match expand(my_test(vec![], vec![])) {
        Ok(expanded) => {
            assert!(is_attr(&expanded.attrs[0], true, &["rstest", "rstest"]));
            assert_eq!(expanded.body, rewritten("__rstest_insta__ctx", "insta", BODY));
        }
        Err(ExpandError::MissingDependency { crate_name }) => assert_eq!(crate_name, "rstest"),
        Err(ExpandError::UnsupportedReceiver) => panic!("no receiver in the input"),
    }
}

#[test]
fn mutable_context_binding_keeps_its_pattern() {
    let param = FnParam::Typed {
        attrs: vec![attr(&["context"])],
        pattern: Pattern::Ident { name: "ctx".to_string(), text: "mut ctx".to_string() },
        ty: "Context".to_string(),
    };
    let (expanded, binding) = context_binding(my_test(vec![], vec![param])).ok().unwrap();
    assert_eq!(binding, "ctx");
    assert_eq!(expanded.params.len(), 1);
    match &expanded.params[0] {
        FnParam::Typed { pattern: Pattern::Ident { text, .. }, .. } => assert_eq!(text, "mut ctx"),
        _ => panic!("the context parameter changed"),
    }
}
