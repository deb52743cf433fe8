use pallet_parse::attrs::{attr_value, get_doc_literals, take_item_attrs, MarkerAttr};
use pallet_parse::call::{ArgAttrIsCompact, CallDef, FunctionAttr};
use pallet_parse::error::ErrorDef;
use pallet_parse::syntax::{
    AttrArgs, Attribute, Diagnostic, DiagnosticKind, Fields, FnArg, Ident, ImplItem,
    ImplItemMethod, InstanceUsage, Item, ItemEnum, ItemImpl, Pat, Span, TypeRef, Variant,
};

fn sp(id: u64) -> Span {
    Span { id }
}

fn ident(name: &str, id: u64) -> Ident {
    Ident { name: name.to_string(), span: sp(id) }
}

fn ty(text: &str, id: u64) -> TypeRef {
    TypeRef { text: text.to_string(), span: sp(id) }
}

fn attr(path: &[&str], args: AttrArgs, id: u64) -> Attribute {
    Attribute {
        is_inner: false,
        leading_colon: false,
        path: path.iter().map(|s| s.to_string()).collect(),
        args,
        span: sp(id),
    }
}

fn weight(expr: &str, id: u64) -> Attribute {
    attr(&["pallet", "weight"], AttrArgs::Value(attr_value(expr.to_string())), id)
}

fn compact(id: u64) -> Attribute {
    attr(&["pallet", "compact"], AttrArgs::Empty, id)
}

fn doc(text: &str, id: u64) -> Attribute {
    attr(&["doc"], AttrArgs::Value(attr_value(format!("{:?}", text))), id)
}

fn usage() -> InstanceUsage {
    InstanceUsage { has_instance: false, span: sp(1) }
}

fn origin() -> FnArg {
    FnArg { attrs: vec![], pat: Pat::Ident(ident("origin", 20)), ty: ty("OriginFor<T>", 21), span: sp(22) }
}

fn arg(attrs: Vec<Attribute>, name: &str, t: &str, id: u64) -> FnArg {
    FnArg { attrs, pat: Pat::Ident(ident(name, id)), ty: ty(t, id + 1), span: sp(id + 2) }
}

fn method(name: &str, attrs: Vec<Attribute>, args: Vec<FnArg>, id: u64) -> ImplItemMethod {
    let mut inputs = vec![origin()];
    inputs.extend(args);
    ImplItemMethod {
        attrs,
        ident: ident(name, id),
        sig_span: sp(id + 1),
        inputs_span: sp(id + 2),
        inputs,
        origin_check: Ok(()),
        output: Some(ty("DispatchResultWithPostInfo", id + 3)),
    }
}

fn call_block(items: Vec<ImplItem>) -> ItemImpl {
    ItemImpl {
        attrs: vec![],
        span: sp(2),
        generics_usage: Ok(usage()),
        trait_: Some(ty("Call", 3)),
        self_ty: ty("Module<T>", 4),
        self_ty_usage: Ok(usage()),
        items,
    }
}

fn variant(name: &str, id: u64) -> Variant {
    Variant { attrs: vec![], ident: ident(name, id), fields: Fields::Unit, discriminant: None }
}

fn error_enum(is_public: bool, variants: Vec<Variant>) -> ItemEnum {
    ItemEnum {
        attrs: vec![],
        span: sp(5),
        is_public,
        ident: ident("Error", 6),
        generics_usage: Ok(usage()),
        where_clause: None,
        variants,
    }
}

fn kind_of<T>(r: Result<T, Diagnostic>) -> (DiagnosticKind, Span) {
    match r {
        Ok(_) => panic!("expected a diagnostic"),
        Err(d) => (d.kind, d.span),
    }
}

#[test]
fn error_enum_with_two_unit_variants() {
    let e = error_enum(true, vec![variant("InsufficientBalance", 10), variant("Overflow", 11)]);
    let d = ErrorDef::try_from(3, &Item::Enum(e)).ok().unwrap();
    assert_eq!(d.index, 3);
    assert_eq!(d.variants.len(), 2);
    assert_eq!(d.variants[0].0.name, "InsufficientBalance");
    assert!(d.variants[0].1.is_empty());
    assert_eq!(d.variants[1].0.name, "Overflow");
    assert!(d.variants[1].1.is_empty());
    assert_eq!(d.instances, vec![usage()]);
    assert_eq!(d.error, sp(6));
}

#[test]
fn error_enum_not_public() {
    let e = error_enum(false, vec![variant("InsufficientBalance", 10), variant("Overflow", 11)]);
    let d = ErrorDef::try_from(0, &Item::Enum(e)).err().unwrap();
    assert_eq!(d.kind, DiagnosticKind::ErrorNotPublic);
    assert_eq!(d.span, sp(5));
    assert!(d.message().contains("must be public"));
}

#[test]
fn error_variant_with_fields() {
    let mut v = variant("Overflow", 11);
    v.fields = Fields::Unnamed(sp(12));
    let e = error_enum(true, vec![variant("InsufficientBalance", 10), v]);
    assert_eq!(kind_of(ErrorDef::try_from(0, &Item::Enum(e))), (DiagnosticKind::VariantHasFields, sp(12)));
}

#[test]
fn error_variant_with_named_fields() {
    let mut v = variant("Overflow", 11);
    v.fields = Fields::Named(sp(13));
    let e = error_enum(true, vec![v]);
    assert_eq!(kind_of(ErrorDef::try_from(0, &Item::Enum(e))), (DiagnosticKind::VariantHasFields, sp(13)));
}

#[test]
fn error_variant_with_discriminant() {
    let mut v = variant("Overflow", 11);
    v.discriminant = Some(sp(14));
    let e = error_enum(true, vec![v, variant("Later", 15)]);
    assert_eq!(
        kind_of(ErrorDef::try_from(0, &Item::Enum(e))),
        (DiagnosticKind::VariantHasDiscriminant, sp(14))
    );
}

#[test]
fn error_first_bad_variant_reported() {
    let mut a = variant("A", 11);
    a.discriminant = Some(sp(30));
    let mut b = variant("B", 12);
    b.fields = Fields::Named(sp(31));
    let e = error_enum(true, vec![variant("Ok", 10), a, b]);
    assert_eq!(
        kind_of(ErrorDef::try_from(0, &Item::Enum(e))),
        (DiagnosticKind::VariantHasDiscriminant, sp(30))
    );
}

#[test]
fn error_where_clause_and_name() {
    let mut e = error_enum(true, vec![]);
    e.where_clause = Some(sp(40));
    assert_eq!(kind_of(ErrorDef::try_from(0, &Item::Enum(e))), (DiagnosticKind::UnexpectedWhereClause, sp(40)));
    let mut e = error_enum(true, vec![]);
    e.ident = ident("Errors", 41);
    assert_eq!(kind_of(ErrorDef::try_from(0, &Item::Enum(e))), (DiagnosticKind::ExpectedErrorKeyword, sp(41)));
}

#[test]
fn error_generics_diagnostic_forwarded() {
    let mut e = error_enum(true, vec![]);
    let d = Diagnostic { kind: DiagnosticKind::External("bad generics".to_string()), span: sp(42) };
    e.generics_usage = Err(d.clone());
    assert_eq!(ErrorDef::try_from(0, &Item::Enum(e)).err().unwrap(), d);
    assert_eq!(d.message(), "bad generics");
}

#[test]
fn error_expects_enum() {
    let r = ErrorDef::try_from(0, &Item::Other(sp(43)));
    assert_eq!(kind_of(r), (DiagnosticKind::ExpectedEnum, sp(43)));
    let r = ErrorDef::try_from(0, &Item::Impl(call_block(vec![])));
    assert_eq!(kind_of(r), (DiagnosticKind::ExpectedEnum, sp(2)));
}

#[test]
fn error_variants_keep_order_and_docs() {
    let mut a = variant("Zeta", 10);
    a.attrs = vec![doc(" last letter", 50), attr(&["allow"], AttrArgs::Group("dead_code".to_string()), 51)];
    let e = error_enum(true, vec![a, variant("Alpha", 11)]);
    let d = ErrorDef::try_from(0, &Item::Enum(e)).ok().unwrap();
    let names: Vec<String> = d.variants.iter().map(|v| v.0.name.clone()).collect();
    assert_eq!(names, vec!["Zeta", "Alpha"]);
    assert_eq!(d.variants[0].1, vec!["\" last letter\"".to_string()]);
}

#[test]
fn call_two_weight_attributes() {
    let m = method("transfer", vec![weight("10", 60), weight("20", 61)], vec![], 70);
    let r = CallDef::try_from(Item::Impl(call_block(vec![ImplItem::Method(m)])));
    let (k, s) = kind_of(r);
    assert_eq!(k, DiagnosticKind::TooManyWeights);
    assert_eq!(s, sp(71));
}

#[test]
fn call_missing_weight_attribute() {
    let m = method("transfer", vec![doc(" docs", 60)], vec![], 70);
    let r = CallDef::try_from(Item::Impl(call_block(vec![ImplItem::Method(m)])));
    assert_eq!(kind_of(r), (DiagnosticKind::MissingWeight, sp(71)));
}

#[test]
fn call_compact_argument() {
    let amount = arg(vec![compact(80)], "amount", "Balance", 81);
    let m = method("transfer", vec![weight("10_000", 60)], vec![amount], 70);
    let d = CallDef::try_from(Item::Impl(call_block(vec![ImplItem::Method(m)]))).ok().unwrap();
    assert_eq!(d.methods.len(), 1);
    let v = &d.methods[0];
    assert_eq!(v.args.len(), 1);
    assert!(v.args[0].0);
    assert_eq!(v.args[0].1.name, "amount");
    assert_eq!(v.args[0].2.text, "Balance");
    assert_eq!(v.weight, "10_000");
    // the markers are gone from the retained block
    match &d.item.items[0] {
        ImplItem::Method(m) => {
            assert!(m.attrs.is_empty());
            assert!(m.inputs[1].attrs.is_empty());
            assert_eq!(m.inputs.len(), 2);
        }
        ImplItem::Other(_) => panic!("expected a method"),
    }
    assert!(d.item.trait_.is_none());
    assert_eq!(d.call, sp(3));
    assert_eq!(d.instances, vec![usage(), usage()]);
}

#[test]
fn call_destructured_argument() {
    let a = FnArg { attrs: vec![], pat: Pat::Other(sp(90)), ty: ty("(u32, u32)", 91), span: sp(92) };
    let m = method("transfer", vec![weight("0", 60)], vec![a], 70);
    let d = CallDef::try_from(Item::Impl(call_block(vec![ImplItem::Method(m)]))).err().unwrap();
    assert_eq!((d.kind.clone(), d.span), (DiagnosticKind::ArgNotIdent, sp(90)));
    assert!(d.message().contains("argument must be ident"));
}

#[test]
fn call_trait_is_not_call() {
    let mut b = call_block(vec![]);
    b.trait_ = Some(ty("Dispatch", 95));
    assert_eq!(kind_of(CallDef::try_from(Item::Impl(b))), (DiagnosticKind::ExpectedCallKeyword, sp(95)));
}

#[test]
fn call_missing_trait() {
    let mut b = call_block(vec![]);
    b.trait_ = None;
    let d = CallDef::try_from(Item::Impl(b)).err().unwrap();
    assert_eq!((d.kind.clone(), d.span), (DiagnosticKind::MissingCallTrait, sp(2)));
    assert!(d.message().contains("expect Call ident"));
}

#[test]
fn call_expects_impl() {
    let e = error_enum(true, vec![]);
    assert_eq!(kind_of(CallDef::try_from(Item::Enum(e))), (DiagnosticKind::ExpectedImpl, sp(5)));
}

#[test]
fn call_only_methods() {
    let m = method("a", vec![weight("1", 60)], vec![], 70);
    let b = call_block(vec![ImplItem::Method(m), ImplItem::Other(sp(96))]);
    assert_eq!(kind_of(CallDef::try_from(Item::Impl(b))), (DiagnosticKind::OnlyMethods, sp(96)));
}

#[test]
fn call_method_shape_errors() {
    let mut m = method("a", vec![weight("1", 60)], vec![], 70);
    m.inputs.clear();
    let b = call_block(vec![ImplItem::Method(m)]);
    assert_eq!(kind_of(CallDef::try_from(Item::Impl(b))), (DiagnosticKind::MissingOrigin, sp(72)));

    let mut m = method("a", vec![weight("1", 60)], vec![], 70);
    m.output = None;
    let b = call_block(vec![ImplItem::Method(m)]);
    assert_eq!(kind_of(CallDef::try_from(Item::Impl(b))), (DiagnosticKind::MissingReturnType, sp(71)));

    let mut m = method("a", vec![weight("1", 60)], vec![], 70);
    m.output = Some(ty("DispatchResult", 97));
    let b = call_block(vec![ImplItem::Method(m)]);
    assert_eq!(kind_of(CallDef::try_from(Item::Impl(b))), (DiagnosticKind::ExpectedReturnKeyword, sp(97)));

    let mut m = method("a", vec![weight("1", 60)], vec![], 70);
    let d = Diagnostic { kind: DiagnosticKind::External("origin".to_string()), span: sp(98) };
    m.origin_check = Err(d.clone());
    let b = call_block(vec![ImplItem::Method(m)]);
    assert_eq!(CallDef::try_from(Item::Impl(b)).err().unwrap(), d);
}

#[test]
fn call_argument_with_two_compacts() {
    let a = arg(vec![compact(80), compact(81)], "amount", "Balance", 82);
    let m = method("a", vec![weight("1", 60)], vec![a], 70);
    let b = call_block(vec![ImplItem::Method(m)]);
    assert_eq!(kind_of(CallDef::try_from(Item::Impl(b))), (DiagnosticKind::TooManyArgAttrs, sp(84)));
}

#[test]
fn call_malformed_markers() {
    let m = method("a", vec![weight("1 +", 60)], vec![], 70);
    let b = call_block(vec![ImplItem::Method(m)]);
    assert_eq!(kind_of(CallDef::try_from(Item::Impl(b))), (DiagnosticKind::MalformedWeightAttr, sp(60)));

    let a = arg(vec![attr(&["pallet", "compact"], AttrArgs::Value(attr_value("1".to_string())), 80)], "x", "u32", 82);
    let m = method("a", vec![weight("1", 60)], vec![a], 70);
    let b = call_block(vec![ImplItem::Method(m)]);
    assert_eq!(kind_of(CallDef::try_from(Item::Impl(b))), (DiagnosticKind::MalformedCompactAttr, sp(80)));
}

#[test]
fn call_methods_keep_order_and_docs() {
    let first = method(
        "set",
        vec![doc(" Sets the value.", 100), weight("T::DbWeight::get().writes(1)", 101)],
        vec![arg(vec![], "value", "u32", 102)],
        110,
    );
    let second = method("clear", vec![weight("0", 120)], vec![], 130);
    let d = CallDef::try_from(Item::Impl(call_block(vec![ImplItem::Method(first), ImplItem::Method(second)])))
        .ok()
        .unwrap();
    let names: Vec<String> = d.methods.iter().map(|m| m.fn_.name.clone()).collect();
    assert_eq!(names, vec!["set", "clear"]);
    assert_eq!(d.methods[0].weight, "T::DbWeight::get().writes(1)");
    assert_eq!(d.methods[0].docs, vec!["\" Sets the value.\"".to_string()]);
    assert_eq!(d.methods[0].args.len(), 1);
    assert!(!d.methods[0].args[0].0);
    match &d.item.items[0] {
        ImplItem::Method(m) => assert_eq!(m.attrs, vec![doc(" Sets the value.", 100)]),
        ImplItem::Other(_) => panic!("expected a method"),
    }
}

#[test]
fn stripping_twice_finds_nothing() {
    let mut attrs = vec![doc(" a", 1), weight("5", 2), attr(&["inline"], AttrArgs::Empty, 3)];
    let found: Vec<FunctionAttr> = take_item_attrs(&mut attrs).ok().unwrap();
    assert_eq!(found.len(), 1);
    assert_eq!(found[0].weight, "5");
    assert_eq!(attrs, vec![doc(" a", 1), attr(&["inline"], AttrArgs::Empty, 3)]);
    let again: Vec<FunctionAttr> = take_item_attrs(&mut attrs).ok().unwrap();
    assert!(again.is_empty());
    assert_eq!(attrs, vec![doc(" a", 1), attr(&["inline"], AttrArgs::Empty, 3)]);
}

#[test]
fn extractor_stops_at_malformed_marker() {
    let mut attrs = vec![compact(1), attr(&["pallet", "weight"], AttrArgs::Empty, 2), compact(3)];
    let r: Result<Vec<ArgAttrIsCompact>, Diagnostic> = take_item_attrs(&mut attrs);
    assert_eq!(kind_of(r), (DiagnosticKind::MalformedCompactAttr, sp(2)));
}

#[test]
fn weight_grammar_checks_expression() {
    assert!(FunctionAttr::parse(&weight("a + b * 2", 1)).is_ok());
    assert!(FunctionAttr::parse(&weight("let", 1)).is_err());
    assert!(FunctionAttr::parse(&attr(&["pallet", "weight"], AttrArgs::Group("10".to_string()), 1)).is_err());
    assert!(ArgAttrIsCompact::parse(&compact(1)).is_ok());
}

#[test]
fn doc_literals_skip_other_attributes() {
    let attrs = vec![
        doc(" one", 1),
        attr(&["doc"], AttrArgs::Value(attr_value("include_str!(\"x\")".to_string())), 2),
        attr(&["pallet", "weight"], AttrArgs::Value(attr_value("\"s\"".to_string())), 3),
        doc(" two", 4),
    ];
    let docs = get_doc_literals(&attrs);
    assert_eq!(docs, vec!["\" one\"".to_string(), "\" two\"".to_string()]);
    assert_eq!(attrs.len(), 4);
}

#[test]
fn reordered_members_reorder_records() {
    let a = || method("a", vec![weight("1", 60)], vec![arg(vec![compact(61)], "x", "u32", 62)], 70);
    let b = || method("b", vec![weight("2", 80)], vec![], 90);
    let d1 = CallDef::try_from(Item::Impl(call_block(vec![ImplItem::Method(a()), ImplItem::Method(b())])))
        .ok()
        .unwrap();
    let d2 = CallDef::try_from(Item::Impl(call_block(vec![ImplItem::Method(b()), ImplItem::Method(a())])))
        .ok()
        .unwrap();
    assert_eq!(d1.methods[0].fn_, d2.methods[1].fn_);
    assert_eq!(d1.methods[1].fn_, d2.methods[0].fn_);
    assert_eq!(d1.methods[0].weight, d2.methods[1].weight);
    assert_eq!(d1.methods[0].args, d2.methods[1].args);
    assert_eq!(d2.methods[0].weight, "2");

    let e1 = error_enum(true, vec![variant("X", 10), variant("Y", 11), variant("Z", 12)]);
    let e2 = error_enum(true, vec![variant("Z", 12), variant("X", 10), variant("Y", 11)]);
    let v1 = ErrorDef::try_from(0, &Item::Enum(e1)).ok().unwrap().variants;
    let v2 = ErrorDef::try_from(0, &Item::Enum(e2)).ok().unwrap().variants;
    assert_eq!(v2, vec![v1[2].clone(), v1[0].clone(), v1[1].clone()]);
}

#[test]
fn inner_and_rooted_markers_rejected() {
    let mut inner = weight("1", 60);
    inner.is_inner = true;
    let m = method("a", vec![inner], vec![], 70);
    let b = call_block(vec![ImplItem::Method(m)]);
    assert_eq!(kind_of(CallDef::try_from(Item::Impl(b))), (DiagnosticKind::MalformedWeightAttr, sp(60)));

    let mut rooted = weight("1", 60);
    rooted.leading_colon = true;
    assert!(FunctionAttr::parse(&rooted).is_err());

    let mut c = compact(61);
    c.is_inner = true;
    assert!(ArgAttrIsCompact::parse(&c).is_err());
    let mut c = compact(62);
    c.leading_colon = true;
    assert!(ArgAttrIsCompact::parse(&c).is_err());
    assert!(ArgAttrIsCompact::parse(&attr(&["compact"], AttrArgs::Empty, 63)).is_err());
    assert!(FunctionAttr::parse(&attr(&["frame", "weight"], AttrArgs::Value(attr_value("1".to_string())), 64)).is_err());
}

#[test]
fn c_string_payloads_are_neither_expression_nor_literal() {
    for text in ["c\"x\"", "cr\"x\"", "cr#\"x\"#", "(/*ERROR*/)", "1 + c\"x\""] {
        let v = attr_value(text.to_string());
        assert_eq!(v.text, text);
        assert!(!v.is_expr);
        assert!(!v.is_lit);
    }
    let v = attr_value("\"x\"".to_string());
    assert!(v.is_expr && v.is_lit);
    let v = attr_value("a + 1".to_string());
    assert!(v.is_expr && !v.is_lit);

    let m = method("a", vec![weight("c\"x\"", 60)], vec![], 70);
    let b = call_block(vec![ImplItem::Method(m)]);
    assert_eq!(kind_of(CallDef::try_from(Item::Impl(b))), (DiagnosticKind::MalformedWeightAttr, sp(60)));

    let attrs = vec![attr(&["doc"], AttrArgs::Value(attr_value("c\"x\"".to_string())), 1), doc(" y", 2)];
    assert_eq!(get_doc_literals(&attrs), vec!["\" y\"".to_string()]);
}
