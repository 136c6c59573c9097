use generic_tests::ast::{
    AttrStyle, Attribute, GenericParam, Generics, Item, ItemFn, ItemMod, ReturnType, Span,
};
use generic_tests::error::{ErrorRecord, ExtractError};
use generic_tests::extract::{apply_directive, extract_test_attrs, InstArguments, Tests};
use generic_tests::options::MacroOpts;

fn at(line: usize) -> Span {
    Span { line, column: 1 }
}

fn attr(path: &str, line: usize) -> Attribute {
    Attribute { path: path.to_string(), args: None, style: AttrStyle::Outer, span: at(line) }
}

fn attr_args(path: &str, args: &str, style: AttrStyle, line: usize) -> Attribute {
    Attribute {
        path: path.to_string(),
        args: Some(args.to_string()),
        style,
        span: at(line),
    }
}

fn ty(name: &str) -> GenericParam {
    GenericParam::Type(name.to_string())
}

fn func(name: &str, attrs: Vec<Attribute>, params: Vec<GenericParam>, line: usize) -> ItemFn {
    ItemFn {
        attrs,
        is_async: false,
        is_unsafe: false,
        ident: name.to_string(),
        generics: Generics { params, span: at(line) },
        output: ReturnType::Default,
    }
}

fn module(attrs: Vec<Attribute>, items: Vec<Item>) -> ItemMod {
    ItemMod { attrs, ident: "tests".to_string(), content: Some(items), span: at(0) }
}

fn opts() -> MacroOpts {
    MacroOpts {
        test_attrs: vec!["test".to_string(), "tokio::test".to_string()],
        copy_attrs: vec!["cfg".to_string(), "ignore".to_string(), "should_panic".to_string()],
    }
}

fn items_of(m: &ItemMod) -> &Vec<Item> {
    m.content.as_ref().unwrap()
}

#[test]
fn arity_mismatch_reported_and_skipped() {
    let f = func("f", vec![attr("test", 1)], vec![ty("T")], 2);
    let g = func("g", vec![attr("test", 3)], vec![ty("T"), ty("U")], 4);
    let mut m = module(vec![], vec![Item::Fn(f), Item::Fn(g)]);
    let r = Tests::try_extract(&opts(), &mut m, vec![Ok("f"), Ok("g")]);
    let errs = r.unwrap_err();
    assert_eq!(
        errs,
        vec![ExtractError::ArityMismatch {
            span: at(4),
            ident: "g".to_string(),
            arity: 2,
            baseline: 1,
        }]
    );
    let mut items = vec![
        Item::Fn(func("f", vec![attr("test", 1)], vec![ty("T")], 2)),
        Item::Fn(func("g", vec![attr("test", 3)], vec![ty("T"), ty("U")], 4)),
    ];
    let (tests, errors) =
        Tests::extract_recording_errors(&opts(), &mut items, vec![Ok("f"), Ok("g")]);
    assert_eq!(errors.errors.len(), 1);
    assert_eq!(tests.test_fns.len(), 1);
    assert_eq!(tests.test_fns[0].ident, "f");
    assert_eq!(tests.test_fns[0].sig, "f");
}

#[test]
fn directive_without_tests() {
    let directive = attr_args("instantiate_tests", "<i32, u8>", AttrStyle::Outer, 1);
    let plain = func("helper", vec![], vec![], 2);
    let mut m = module(vec![directive], vec![Item::Fn(plain.clone())]);
    let args = InstArguments::try_extract(&mut m).unwrap().unwrap();
    assert_eq!(args.0, vec!["i32".to_string(), "u8".to_string()]);
    assert!(m.attrs.is_empty());
    let tests = Tests::<()>::try_extract(&opts(), &mut m, vec![]).unwrap();
    assert!(tests.test_fns.is_empty());
    assert_eq!(items_of(&m), &vec![Item::Fn(plain)]);
}

#[test]
fn inner_directive_rejected() {
    let directive = attr_args("instantiate_tests", "<i32>", AttrStyle::Inner, 5);
    let mut m = module(vec![directive.clone()], vec![]);
    let r = InstArguments::try_extract(&mut m);
    assert_eq!(r, Err(ExtractError::InnerDirective { span: at(5) }));
    assert_eq!(m.attrs, vec![directive]);
}

#[test]
fn directive_arguments_round_trip() {
    let mut m = module(vec![attr_args("instantiate_tests", "<A, B>", AttrStyle::Outer, 1)], vec![]);
    let args = InstArguments::try_extract(&mut m).unwrap().unwrap();
    assert_eq!(args.0, vec!["A".to_string(), "B".to_string()]);
    let printed = format!("<{}>", args.0.join(", "));
    let mut again = module(vec![attr_args("instantiate_tests", &printed, AttrStyle::Outer, 1)], vec![]);
    let reparsed = InstArguments::try_extract(&mut again).unwrap().unwrap();
    assert_eq!(reparsed, args);
}

#[test]
fn directive_arguments_of_several_kinds() {
    let mut m = module(
        vec![attr_args("instantiate_tests", "<'static, Vec<u8>, 3>", AttrStyle::Outer, 1)],
        vec![],
    );
    let args = InstArguments::try_extract(&mut m).unwrap().unwrap();
    assert_eq!(args.0.len(), 3);
    assert_eq!(args.0[0], "'static");
    assert_eq!(args.0[2], "3");
}

#[test]
fn directive_extraction_is_idempotent() {
    let other = attr("allow", 2);
    let mut m = module(
        vec![attr_args("instantiate_tests", "<i32>", AttrStyle::Outer, 1), other.clone()],
        vec![],
    );
    assert!(InstArguments::try_extract(&mut m).unwrap().is_some());
    assert_eq!(m.attrs, vec![other.clone()]);
    assert_eq!(InstArguments::try_extract(&mut m), Ok(None));
    assert_eq!(m.attrs, vec![other]);
}

#[test]
fn no_directive_leaves_module() {
    let mut m = module(vec![attr("allow", 1)], vec![]);
    assert_eq!(InstArguments::try_extract(&mut m), Ok(None));
    assert_eq!(m.attrs.len(), 1);
}

#[test]
fn directive_only_by_exact_name() {
    let a = attr_args("my::instantiate_tests", "<i32>", AttrStyle::Outer, 1);
    let mut m = module(vec![a], vec![]);
    assert_eq!(InstArguments::try_extract(&mut m), Ok(None));
}

#[test]
fn duplicate_directive_rejected() {
    let first = attr_args("instantiate_tests", "<i32>", AttrStyle::Outer, 1);
    let second = attr_args("instantiate_tests", "<u8>", AttrStyle::Outer, 2);
    let mut m = module(vec![first, attr("allow", 3), second], vec![]);
    let r = InstArguments::try_extract(&mut m);
    assert_eq!(r, Err(ExtractError::DuplicateDirective { span: at(2) }));
    assert_eq!(m.attrs.len(), 3);
}

#[test]
fn directive_without_arguments_rejected() {
    let mut m = module(vec![attr("instantiate_tests", 7)], vec![]);
    let r = InstArguments::try_extract(&mut m);
    assert_eq!(r, Err(ExtractError::MissingArguments { span: at(7) }));
    assert_eq!(m.attrs.len(), 1);
}

#[test]
fn malformed_directive_rejected() {
    let mut m = module(vec![attr_args("instantiate_tests", "i32, u8", AttrStyle::Outer, 4)], vec![]);
    match InstArguments::try_extract(&mut m) {
        Err(ExtractError::MalformedArguments { span, message }) => {
            assert_eq!(span, at(4));
            assert!(!message.is_empty());
        }
        other => panic!("unexpected outcome: {:?}", other),
    }
    assert_eq!(m.attrs.len(), 1);
}

#[test]
fn non_inline_module_rejected() {
    let mut m = ItemMod {
        attrs: vec![attr("allow", 1)],
        ident: "outside".to_string(),
        content: None,
        span: at(9),
    };
    let before = m.clone();
    let r = Tests::<()>::try_extract(&opts(), &mut m, vec![]);
    assert_eq!(r.unwrap_err(), vec![ExtractError::NotInline { span: at(9) }]);
    assert_eq!(m, before);
}

#[test]
fn unmarked_function_untouched() {
    let helper = func("helper", vec![attr("inline", 1), attr("cfg", 2)], vec![ty("T")], 3);
    let other = Item::Other("struct S;".to_string());
    let mut m = module(vec![], vec![other.clone(), Item::Fn(helper.clone())]);
    let tests = Tests::<()>::try_extract(&opts(), &mut m, vec![]).unwrap();
    assert!(tests.test_fns.is_empty());
    assert_eq!(items_of(&m), &vec![other, Item::Fn(helper)]);
}

#[test]
fn record_attributes_markers_then_copied() {
    let attrs = vec![
        attr("cfg", 1),
        attr("test", 2),
        attr("allow", 3),
        attr("ignore", 4),
        attr("tokio::test", 5),
    ];
    let mut f = func("t", attrs, vec![ty("T")], 6);
    f.is_async = true;
    f.output = ReturnType::Type("Result<(), E>".to_string());
    let mut m = module(vec![], vec![Item::Fn(f)]);
    let tests = Tests::try_extract(&opts(), &mut m, vec![Ok(7u32)]).unwrap();
    assert_eq!(tests.test_fns.len(), 1);
    let t = &tests.test_fns[0];
    assert_eq!(
        t.test_attrs,
        vec![attr("test", 2), attr("tokio::test", 5), attr("cfg", 1), attr("ignore", 4)]
    );
    assert!(t.asyncness);
    assert!(!t.unsafety);
    assert_eq!(t.ident, "t");
    assert_eq!(t.output, ReturnType::Type("Result<(), E>".to_string()));
    assert_eq!(t.sig, 7);
    match &items_of(&m)[0] {
        Item::Fn(f) => {
            assert_eq!(f.attrs, vec![attr("cfg", 1), attr("allow", 3), attr("ignore", 4)])
        }
        Item::Other(_) => panic!("declaration replaced"),
    }
}

#[test]
fn adjacent_markers_all_removed() {
    let f = func("t", vec![attr("test", 1), attr("test", 2), attr("allow", 3)], vec![], 4);
    let mut m = module(vec![], vec![Item::Fn(f)]);
    let tests = Tests::try_extract(&opts(), &mut m, vec![Ok(())]).unwrap();
    assert_eq!(tests.test_fns[0].test_attrs, vec![attr("test", 1), attr("test", 2)]);
    match &items_of(&m)[0] {
        Item::Fn(f) => assert_eq!(f.attrs, vec![attr("allow", 3)]),
        Item::Other(_) => panic!("declaration replaced"),
    }
}

#[test]
fn lifetimes_do_not_count_toward_arity() {
    let a = func("a", vec![attr("test", 1)], vec![ty("T")], 2);
    let b = func(
        "b",
        vec![attr("test", 3)],
        vec![GenericParam::Lifetime("'a".to_string()), ty("T")],
        4,
    );
    let c = func("c", vec![attr("test", 5)], vec![GenericParam::Const("N".to_string())], 6);
    let mut m = module(vec![], vec![Item::Fn(a), Item::Fn(b), Item::Fn(c)]);
    let tests = Tests::try_extract(&opts(), &mut m, vec![Ok(1), Ok(2), Ok(3)]).unwrap();
    let sigs: Vec<i32> = tests.test_fns.iter().map(|t| t.sig).collect();
    assert_eq!(sigs, vec![1, 2, 3]);
}

#[test]
fn signature_failure_recorded_and_pass_continues() {
    let a = func("a", vec![attr("test", 1)], vec![ty("T"), ty("U")], 2);
    let b = func("b", vec![attr("test", 3)], vec![ty("T")], 4);
    let c = func("c", vec![attr("test", 5)], vec![ty("T"), ty("U")], 6);
    let sig_err = ExtractError::Signature { span: at(1), message: "bad parameter".to_string() };
    let mut m = module(vec![], vec![Item::Fn(a), Item::Fn(b), Item::Fn(c)]);
    let r = Tests::try_extract(&opts(), &mut m, vec![Err(sig_err.clone()), Ok(()), Ok(())]);
    assert_eq!(
        r.unwrap_err(),
        vec![
            sig_err,
            ExtractError::ArityMismatch { span: at(6), ident: "c".to_string(), arity: 2, baseline: 1 },
        ]
    );
    for item in items_of(&m) {
        match item {
            Item::Fn(f) => assert!(f.attrs.is_empty()),
            Item::Other(_) => panic!("declaration replaced"),
        }
    }
}

#[test]
fn signatures_belong_to_test_functions_only() {
    let helper = func("helper", vec![], vec![], 1);
    let t = func("t", vec![attr("test", 2)], vec![ty("T")], 3);
    let mut m = module(vec![], vec![Item::Fn(helper), Item::Other("use x;".to_string()), Item::Fn(t)]);
    let tests = Tests::try_extract(&opts(), &mut m, vec![Ok("t")]).unwrap();
    assert_eq!(tests.test_fns.len(), 1);
    assert_eq!(tests.test_fns[0].sig, "t");
}

#[test]
fn empty_module_has_no_tests() {
    let mut m = module(vec![], vec![]);
    let tests = Tests::<()>::try_extract(&opts(), &mut m, vec![]).unwrap();
    assert!(tests.test_fns.is_empty());
}

#[test]
fn error_record_keeps_every_failure() {
    let mut record = ErrorRecord::new();
    assert_eq!(ErrorRecord::new().check(), Ok(()));
    let e = ExtractError::NotInline { span: at(1) };
    record.add_error(e.clone());
    record.add_error(e.clone());
    assert_eq!(record.check(), Err(vec![e.clone(), e]));
}

#[test]
fn classifier_matches_listed_paths() {
    let o = opts();
    assert!(o.is_test_attr(&attr("test", 1)));
    assert!(o.is_test_attr(&attr("tokio::test", 1)));
    assert!(!o.is_test_attr(&attr("cfg", 1)));
    assert!(o.is_copied_attr(&attr("should_panic", 1)));
    assert!(!o.is_copied_attr(&attr("test", 1)));
}

#[test]
fn applied_arguments_remove_the_directive() {
    let keep = attr("allow", 2);
    let mut m = module(
        vec![attr_args("instantiate_tests", "<i32>", AttrStyle::Outer, 1), keep.clone()],
        vec![],
    );
    let r = apply_directive(&mut m, 0, Ok(vec!["i32".to_string()]));
    assert_eq!(r, Ok(Some(InstArguments(vec!["i32".to_string()]))));
    assert_eq!(m.attrs, vec![keep]);
}

#[test]
fn applied_parse_failure_keeps_the_module() {
    let directive = attr_args("instantiate_tests", "i32", AttrStyle::Outer, 3);
    let mut m = module(vec![directive], vec![]);
    let before = m.clone();
    let r = apply_directive(&mut m, 0, Err("expected `<`".to_string()));
    assert_eq!(
        r,
        Err(ExtractError::MalformedArguments { span: at(3), message: "expected `<`".to_string() })
    );
    assert_eq!(m, before);
}

#[test]
fn test_attrs_taken_off_a_function() {
    let mut f = func("t", vec![attr("ignore", 1), attr("test", 2), attr("inline", 3)], vec![], 4);
    let r = extract_test_attrs(&opts(), &mut f);
    assert_eq!(r, Some(vec![attr("test", 2), attr("ignore", 1)]));
    assert_eq!(f.attrs, vec![attr("ignore", 1), attr("inline", 3)]);
    let mut plain = func("p", vec![attr("ignore", 1)], vec![], 5);
    let before = plain.clone();
    assert_eq!(extract_test_attrs(&opts(), &mut plain), None);
    assert_eq!(plain, before);
}
