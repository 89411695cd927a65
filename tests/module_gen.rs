use pyo3_module_gen::{
    add_fn_to_module, argument_binding_names, decimal_string, extract_pyfn_attrs,
    function_wrapper_name, process_functions_in_module, py2_init_symbol, py3_init_symbol,
    trim_raw_prefix, wrap_fn_argument, wrap_fn_arguments, ArgError, ArgType, AttrMeta, Attribute,
    FnArg, FnInput, FnItem, ModuleError, Nested, NestedKind, Pattern, PyFnError, Stmt,
};

fn word(s: &str, src: u32) -> Nested<u32> {
    Nested { kind: NestedKind::Word(s.to_string()), source: src }
}

fn lit(s: &str, src: u32) -> Nested<u32> {
    Nested { kind: NestedKind::Str(s.to_string()), source: src }
}

fn list(name: &str, nested: Vec<Nested<u32>>, src: &'static str) -> Attribute<&'static str, u32> {
    Attribute { meta: AttrMeta::List { name: name.to_string(), nested }, source: src }
}

fn other(src: &'static str) -> Attribute<&'static str, u32> {
    Attribute { meta: AttrMeta::Other, source: src }
}

fn sources(attrs: &[Attribute<&'static str, u32>]) -> Vec<&'static str> {
    attrs.iter().map(|a| a.source).collect()
}

fn arg(name: &str, ty: Option<&str>) -> FnInput {
    FnInput::Captured {
        pat: Pattern::Ident { name: name.to_string(), mutable: false, by_ref: false },
        ty: ArgType::Path { last_segment: ty.map(|t| t.to_string()) },
    }
}

#[test]
fn init_symbols() {
    assert_eq!(py3_init_symbol("rust2py"), "PyInit_rust2py");
    assert_eq!(py2_init_symbol("rust2py"), "initrust2py");
    assert_eq!(py3_init_symbol(""), "PyInit_");
}

#[test]
fn raw_prefix_is_trimmed_repeatedly() {
    assert_eq!(trim_raw_prefix("r#type"), "type");
    assert_eq!(trim_raw_prefix("r#r#x"), "x");
    assert_eq!(trim_raw_prefix("run"), "run");
    assert_eq!(trim_raw_prefix("r"), "r");
    assert_eq!(trim_raw_prefix(""), "");
}

#[test]
fn wrapper_names() {
    assert_eq!(function_wrapper_name("double"), "__pyo3_get_function_double");
    assert_eq!(function_wrapper_name("r#match"), "__pyo3_get_function_match");
}

#[test]
fn decimal_strings() {
    assert_eq!(decimal_string(0), "0");
    assert_eq!(decimal_string(7), "7");
    assert_eq!(decimal_string(10), "10");
    assert_eq!(decimal_string(1234), "1234");
    assert_eq!(decimal_string(usize::MAX), usize::MAX.to_string());
}

#[test]
fn binding_names_skip_nothing_and_name_the_token() {
    let args = vec![
        FnArg { position: 0, name: "py".to_string(), mutable: false, by_ref: false, py: true },
        FnArg { position: 1, name: "a".to_string(), mutable: false, by_ref: false, py: false },
        FnArg { position: 2, name: "b".to_string(), mutable: true, by_ref: false, py: false },
    ];
    assert_eq!(argument_binding_names(&args), vec!["_py", "arg1", "arg2"]);
    assert!(argument_binding_names(&Vec::new()).is_empty());
}

#[test]
fn pyfn_attribute_is_extracted() {
    let mut attrs = vec![
        other("doc"),
        list("pyfn", vec![word("m", 1), lit("sum_as_string", 2)], "pyfn"),
        list("inline", vec![], "inline"),
    ];
    let r = extract_pyfn_attrs(&mut attrs).unwrap().unwrap();
    assert_eq!(r.module_name, "m");
    assert_eq!(r.python_name, "sum_as_string");
    assert!(r.extra.is_empty());
    assert_eq!(sources(&attrs), vec!["doc", "inline"]);
}

#[test]
fn python_name_is_parsed() {
    let mut attrs = vec![list("pyfn", vec![word("m", 1), lit("  spaced  ", 2)], "pyfn")];
    let r = extract_pyfn_attrs(&mut attrs).unwrap().unwrap();
    assert_eq!(r.python_name, "spaced");
    let mut digits = vec![list("pyfn", vec![word("m", 1), lit("f_2x", 2)], "pyfn")];
    assert_eq!(extract_pyfn_attrs(&mut digits).unwrap().unwrap().python_name, "f_2x");
    assert!(attrs.is_empty());
}

#[test]
fn extra_parameters_are_kept() {
    let mut attrs = vec![list(
        "pyfn",
        vec![word("m", 1), lit("f", 2), word("args", 3), lit("kw", 4)],
        "pyfn",
    )];
    let r = extract_pyfn_attrs(&mut attrs).unwrap().unwrap();
    assert_eq!(r.extra, vec![3, 4]);
}

#[test]
fn last_pyfn_attribute_wins() {
    let mut attrs = vec![
        list("pyfn", vec![word("a", 1), lit("first", 2), word("x", 3)], "p1"),
        other("keep"),
        list("pyfn", vec![word("b", 4), lit("second", 5)], "p2"),
    ];
    let r = extract_pyfn_attrs(&mut attrs).unwrap().unwrap();
    assert_eq!(r.module_name, "b");
    assert_eq!(r.python_name, "second");
    assert_eq!(r.extra, vec![3]);
    assert_eq!(sources(&attrs), vec!["keep"]);
}

#[test]
fn no_pyfn_attribute() {
    let mut attrs = vec![other("a"), list("pyo3", vec![word("m", 1), lit("f", 2)], "b")];
    assert!(extract_pyfn_attrs(&mut attrs).unwrap().is_none());
    assert_eq!(sources(&attrs), vec!["a", "b"]);
}

#[test]
fn malformed_pyfn_attributes() {
    let cases: Vec<(Vec<Nested<u32>>, PyFnError)> = vec![
        (vec![word("m", 1)], PyFnError::TooFewParameters),
        (vec![], PyFnError::TooFewParameters),
        (vec![lit("m", 1), lit("f", 2)], PyFnError::ModuleNotIdent),
        (vec![word("m", 1), word("f", 2)], PyFnError::NameNotLiteral),
        (vec![word("m", 1), lit("fn", 2)], PyFnError::NameNotIdent),
        (vec![word("m", 1), lit("two words", 2)], PyFnError::NameNotIdent),
        (vec![word("m", 1), lit("", 2)], PyFnError::NameNotIdent),
        (vec![word("m", 1), lit("_", 2)], PyFnError::NameNotIdent),
        (vec![word("m", 1), lit("1abc", 2)], PyFnError::NameNotIdent),
        (vec![word("m", 1), lit("r#type", 2)], PyFnError::NameNotIdent),
        (vec![word("m", 1), lit("caf\u{e9}", 2)], PyFnError::NameNotIdent),
        (vec![word("m", 1), lit("/* c */ f", 2)], PyFnError::NameNotIdent),
        (vec![word("m", 1), lit("\"open", 2)], PyFnError::NameNotIdent),
    ];
    for (nested, expected) in cases {
        let mut attrs = vec![other("a"), list("pyfn", nested, "bad")];
        match extract_pyfn_attrs(&mut attrs) {
            Err(e) => assert_eq!(e, expected),
            Ok(_) => panic!("accepted a malformed pyfn attribute"),
        }
        assert_eq!(sources(&attrs), vec!["a", "bad"]);
    }
}

#[test]
fn first_malformed_attribute_is_reported() {
    let mut attrs = vec![
        list("pyfn", vec![word("m", 1)], "p1"),
        list("pyfn", vec![word("m", 1), word("f", 2)], "p2"),
    ];
    assert!(matches!(extract_pyfn_attrs(&mut attrs), Err(PyFnError::TooFewParameters)));
}

#[test]
fn fn_argument_classification() {
    assert_eq!(wrap_fn_argument(&FnInput::SelfRef, 0), Ok(None));
    assert_eq!(wrap_fn_argument(&FnInput::SelfValue, 0), Ok(None));
    assert_eq!(wrap_fn_argument(&FnInput::Ignored, 2), Err(ArgError::IgnoredArgument));
    assert_eq!(wrap_fn_argument(&FnInput::Inferred, 2), Err(ArgError::InferredArgument));
    let tuple = FnInput::Captured { pat: Pattern::Other, ty: ArgType::Other };
    assert_eq!(wrap_fn_argument(&tuple, 1), Err(ArgError::UnsupportedPattern));
    let py = wrap_fn_argument(&arg("py", Some("Python")), 3).unwrap().unwrap();
    assert_eq!(
        py,
        FnArg { position: 3, name: "py".to_string(), mutable: false, by_ref: false, py: true }
    );
    let x = FnInput::Captured {
        pat: Pattern::Ident { name: "x".to_string(), mutable: true, by_ref: true },
        ty: ArgType::Other,
    };
    assert_eq!(
        wrap_fn_argument(&x, 0),
        Ok(Some(FnArg { position: 0, name: "x".to_string(), mutable: true, by_ref: true, py: false }))
    );
    assert!(!wrap_fn_argument(&arg("p", Some("python")), 0).unwrap().unwrap().py);
    assert!(!wrap_fn_argument(&arg("p", None), 0).unwrap().unwrap().py);
}

#[test]
fn fn_arguments_skip_receivers() {
    let inputs = vec![FnInput::SelfRef, arg("py", Some("Python")), arg("n", Some("usize"))];
    let args = wrap_fn_arguments(&inputs).unwrap();
    assert_eq!(args.len(), 2);
    assert_eq!((args[0].position, args[0].py), (1, true));
    assert_eq!((args[1].position, args[1].name.as_str()), (2, "n"));
    let bad = vec![arg("a", None), FnInput::Inferred, FnInput::Ignored];
    assert_eq!(wrap_fn_arguments(&bad), Err(ArgError::InferredArgument));
}

#[test]
fn wrapper_plan() {
    let inputs = vec![arg("py", Some("Python")), arg("a", Some("i64"))];
    let w = add_fn_to_module("r#double", &inputs, "double".to_string(), vec![7u32]).unwrap();
    assert_eq!(w.wrapper_name, "__pyo3_get_function_double");
    assert_eq!(w.python_name, "double");
    assert_eq!(w.attrs, vec![7]);
    assert_eq!(w.bindings, vec!["_py", "arg1"]);
    assert_eq!(w.args.len(), 2);
    let r = add_fn_to_module("f", &vec![FnInput::Ignored], "f".to_string(), Vec::<u32>::new());
    assert!(matches!(r, Err(ArgError::IgnoredArgument)));
}

fn item(name: &str, inputs: Vec<FnInput>, attrs: Vec<Attribute<&'static str, u32>>) -> Stmt<&'static str, &'static str, u32> {
    Stmt::ItemFn(FnItem { name: name.to_string(), inputs, attrs, source: "item" })
}

#[test]
fn module_body_is_rewritten() {
    let stmts = vec![
        Stmt::Other("let"),
        item("plain", vec![], vec![other("doc")]),
        item(
            "double",
            vec![arg("x", Some("usize"))],
            vec![other("doc"), list("pyfn", vec![word("m", 1), lit("double", 2)], "pyfn")],
        ),
    ];
    let out = process_functions_in_module(stmts).unwrap();
    assert_eq!(out.len(), 3);
    assert!(out[0].registration.is_none());
    assert!(matches!(out[0].stmt, Stmt::Other("let")));
    assert!(out[1].registration.is_none());
    let reg = out[2].registration.as_ref().unwrap();
    assert_eq!(reg.module_name, "m");
    assert_eq!(reg.wrapper.python_name, "double");
    assert_eq!(reg.wrapper.wrapper_name, "__pyo3_get_function_double");
    assert_eq!(reg.wrapper.bindings, vec!["arg0"]);
    match &out[2].stmt {
        Stmt::ItemFn(f) => {
            assert_eq!(f.name, "double");
            assert_eq!(sources(&f.attrs), vec!["doc"]);
        }
        Stmt::Other(_) => panic!("a function became another statement"),
    }
}

#[test]
fn module_body_errors() {
    let bad_attr = vec![item("f", vec![], vec![list("pyfn", vec![word("m", 1)], "p")])];
    assert!(matches!(
        process_functions_in_module(bad_attr),
        Err(ModuleError::PyFn(PyFnError::TooFewParameters))
    ));
    let bad_arg = vec![
        item("g", vec![FnInput::Ignored], vec![]),
        item("f", vec![FnInput::Inferred], vec![list("pyfn", vec![word("m", 1), lit("f", 2)], "p")]),
    ];
    assert!(matches!(
        process_functions_in_module(bad_arg),
        Err(ModuleError::Arg(ArgError::InferredArgument))
    ));
    assert!(process_functions_in_module(Vec::<Stmt<u8, u8, u8>>::new()).unwrap().is_empty());
}


#[test]
fn second_extraction_finds_nothing() {
    let mut attrs = vec![
        list("pyfn", vec![word("m", 1), lit("f", 2), word("x", 3)], "p"),
        other("keep"),
    ];
    assert!(extract_pyfn_attrs(&mut attrs).unwrap().is_some());
    assert!(extract_pyfn_attrs(&mut attrs).unwrap().is_none());
    assert_eq!(sources(&attrs), vec!["keep"]);
}
