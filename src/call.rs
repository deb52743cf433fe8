//! Validation of the `pallet::call` declaration:
//! `impl<..> Call for Module<..> { #[pallet::weight = expr] fn f(origin, ..) -> DispatchResultWithPostInfo { .. } }`.

use vstd::prelude::*;
use crate::attrs::{doc_literals, get_doc_literals, take_item_attrs, take_spec, MarkerAttr};
use crate::syntax::{
    copy_diagnostic, copy_ident, copy_type_ref, diag, item_span, text_is, AttrArgs, Attribute,
    Diagnostic, DiagnosticKind, FnArg, Ident, ImplItem, ImplItemMethod, InstanceUsage, Item,
    ItemImpl, Pat, Span, TypeRef,
};

verus! {

/// A validated call declaration.
pub struct CallDef {
    /// Instance usage of the generics and of the self type, in that order.
    pub instances: Vec<InstanceUsage>,
    /// The implementation block, with its trait reference and marker attributes taken out.
    pub item: ItemImpl,
    /// One record per method, in declaration order.
    pub methods: Vec<CallVariantDef>,
    /// Where the `Call` keyword stands.
    pub call: Span,
}

/// A validated dispatchable: `#[pallet::weight = ..] fn foo(origin, param1: ..) -> ..`.
pub struct CallVariantDef {
    /// The function's name.
    pub fn_: Ident,
    /// The arguments after the origin: `(is_compact, name, type)`.
    pub args: Vec<(bool, Ident, TypeRef)>,
    /// The weight expression, as its token text.
    pub weight: String,
    /// Documentation literals.
    pub docs: Vec<String>,
}

/// The grammar `#[pallet::weight = expr]`.
pub struct FunctionAttr {
    pub weight: String,
}

/// The grammar `#[pallet::compact]`.
pub struct ArgAttrIsCompact;

impl MarkerAttr for FunctionAttr {
    open spec fn parse_spec(a: Attribute) -> Result<FunctionAttr, Diagnostic> {
        if !a.is_inner && !a.leading_colon && a.path@.len() == 2 && a.path@[0]@ == "pallet"@
            && a.path@[1]@ == "weight"@ && a.args is Value && a.args->Value_0.is_expr {
            Ok(FunctionAttr { weight: a.args->Value_0.text })
        } else {
            Err(diag(DiagnosticKind::MalformedWeightAttr, a.span))
        }
    }

    fn parse(a: &Attribute) -> (r: Result<FunctionAttr, Diagnostic>) {
        if !a.is_inner && !a.leading_colon && a.path.len() == 2 && text_is(&a.path[0], "pallet")
            && text_is(&a.path[1], "weight") {
            if let AttrArgs::Value(v) = &a.args {
                if v.is_expr {
                    return Ok(FunctionAttr { weight: v.text.clone() });
                }
            }
        }
        Err(Diagnostic { kind: DiagnosticKind::MalformedWeightAttr, span: a.span })
    }
}

impl MarkerAttr for ArgAttrIsCompact {
    open spec fn parse_spec(a: Attribute) -> Result<ArgAttrIsCompact, Diagnostic> {
        if !a.is_inner && !a.leading_colon && a.path@.len() == 2 && a.path@[0]@ == "pallet"@
            && a.path@[1]@ == "compact"@ && a.args is Empty {
            Ok(ArgAttrIsCompact)
        } else {
            Err(diag(DiagnosticKind::MalformedCompactAttr, a.span))
        }
    }

    fn parse(a: &Attribute) -> (r: Result<ArgAttrIsCompact, Diagnostic>) {
        if !a.is_inner && !a.leading_colon && a.path.len() == 2 && text_is(&a.path[0], "pallet")
            && text_is(&a.path[1], "compact") {
            if let AttrArgs::Empty = &a.args {
                return Ok(ArgAttrIsCompact);
            }
        }
        Err(Diagnostic { kind: DiagnosticKind::MalformedCompactAttr, span: a.span })
    }
}

/// The diagnostic for an argument after the origin, if it is rejected.
pub open spec fn arg_error(a: FnArg) -> Option<Diagnostic> {
    match take_spec::<ArgAttrIsCompact>(a.attrs@) {
        Err(e) => Some(e),
        Ok(p) => if p.1.len() > 1 {
            Some(diag(DiagnosticKind::TooManyArgAttrs, a.span))
        } else {
            match a.pat {
                Pat::Ident(_) => None,
                Pat::Other(sp) => Some(diag(DiagnosticKind::ArgNotIdent, sp)),
            }
        },
    }
}

/// The diagnostic of the first rejected argument in `s`.
pub open spec fn args_error(s: Seq<FnArg>) -> Option<Diagnostic>
    decreases s.len(),
{
    if s.len() == 0 {
        None
    } else {
        match args_error(s.drop_last()) {
            Some(e) => Some(e),
            None => arg_error(s.last()),
        }
    }
}

/// The diagnostic a method is rejected with, if any.
pub open spec fn method_error(m: ImplItemMethod) -> Option<Diagnostic> {
    if m.inputs@.len() == 0 {
        Some(diag(DiagnosticKind::MissingOrigin, m.inputs_span))
    } else if m.origin_check is Err {
        Some(m.origin_check->Err_0)
    } else if m.output is None {
        Some(diag(DiagnosticKind::MissingReturnType, m.sig_span))
    } else if m.output->Some_0.text@ != "DispatchResultWithPostInfo"@ {
        Some(diag(DiagnosticKind::ExpectedReturnKeyword, m.output->Some_0.span))
    } else {
        match take_spec::<FunctionAttr>(m.attrs@) {
            Err(e) => Some(e),
            Ok(p) => if p.1.len() == 0 {
                Some(diag(DiagnosticKind::MissingWeight, m.sig_span))
            } else if p.1.len() > 1 {
                Some(diag(DiagnosticKind::TooManyWeights, m.sig_span))
            } else {
                args_error(m.inputs@.drop_first())
            },
        }
    }
}

/// The record of an accepted argument.
pub open spec fn arg_record(r: (bool, Ident, TypeRef), a: FnArg) -> bool {
    &&& r.0 == (take_spec::<ArgAttrIsCompact>(a.attrs@)->Ok_0.1.len() == 1)
    &&& a.pat == Pat::Ident(r.1)
    &&& r.2 == a.ty
}

/// An accepted argument after its marker attributes are taken out.
pub open spec fn arg_stripped(new: FnArg, old: FnArg) -> bool {
    &&& new.attrs@ == take_spec::<ArgAttrIsCompact>(old.attrs@)->Ok_0.0
    &&& new.pat == old.pat
    &&& new.ty == old.ty
    &&& new.span == old.span
}

/// The record of an accepted method.
pub open spec fn variant_record(v: CallVariantDef, m: ImplItemMethod) -> bool {
    let p = take_spec::<FunctionAttr>(m.attrs@)->Ok_0;
    &&& v.fn_ == m.ident
    &&& v.weight == p.1[0].weight
    &&& v.docs@ == doc_literals(p.0)
    &&& v.args@.len() + 1 == m.inputs@.len()
    &&& forall|i: int|
        0 <= i < v.args@.len() ==> #[trigger] arg_record(v.args@[i], m.inputs@[i + 1])
}

/// An accepted method after its marker attributes are taken out.
pub open spec fn method_stripped(new: ImplItemMethod, old: ImplItemMethod) -> bool {
    &&& new.attrs@ == take_spec::<FunctionAttr>(old.attrs@)->Ok_0.0
    &&& new.ident == old.ident
    &&& new.sig_span == old.sig_span
    &&& new.inputs_span == old.inputs_span
    &&& new.origin_check == old.origin_check
    &&& new.output == old.output
    &&& new.inputs@.len() == old.inputs@.len()
    &&& new.inputs@[0] == old.inputs@[0]
    &&& forall|i: int|
        1 <= i < old.inputs@.len() ==> #[trigger] arg_stripped(new.inputs@[i], old.inputs@[i])
}

/// A rejected argument in a prefix rejects the whole list, with its diagnostic.
proof fn lemma_args_error_extends(s: Seq<FnArg>, k: int)
    requires
        0 <= k <= s.len(),
        args_error(s.subrange(0, k)) is Some,
    ensures
        args_error(s) == args_error(s.subrange(0, k)),
    decreases s.len(),
{
    if k == s.len() {
        assert(s.subrange(0, k) == s);
    } else {
        let t = s.drop_last();
        assert(t.subrange(0, k) == s.subrange(0, k));
        lemma_args_error_extends(t, k);
    }
}

/// Checks one argument after the origin and takes out its marker attributes.
fn check_arg(a: &mut FnArg) -> (r: Result<(bool, Ident, TypeRef), Diagnostic>)
    ensures
        r is Err <==> arg_error(*old(a)) is Some,
        r is Err ==> r->Err_0 == arg_error(*old(a))->Some_0,
        r is Ok ==> arg_record(r->Ok_0, *old(a)) && arg_stripped(*final(a), *old(a)),
{
    let compact = match take_item_attrs::<ArgAttrIsCompact>(&mut a.attrs) {
        Err(e) => {
            return Err(e);
        },
        Ok(cs) => cs,
    };
    if compact.len() > 1 {
        return Err(Diagnostic { kind: DiagnosticKind::TooManyArgAttrs, span: a.span });
    }
    match &a.pat {
        Pat::Ident(id) => Ok((compact.len() == 1, copy_ident(id), copy_type_ref(&a.ty))),
        Pat::Other(sp) => Err(Diagnostic { kind: DiagnosticKind::ArgNotIdent, span: *sp }),
    }
}

/// Checks one method and takes out its marker attributes and those of its arguments.
fn check_method(m: &mut ImplItemMethod) -> (r: Result<CallVariantDef, Diagnostic>)
    ensures
        r is Err <==> method_error(*old(m)) is Some,
        r is Err ==> r->Err_0 == method_error(*old(m))->Some_0,
        r is Ok ==> variant_record(r->Ok_0, *old(m)) && method_stripped(*final(m), *old(m)),
{
    if m.inputs.len() == 0 {
        return Err(Diagnostic { kind: DiagnosticKind::MissingOrigin, span: m.inputs_span });
    }
    if let Err(d) = &m.origin_check {
        return Err(copy_diagnostic(d));
    }
    match &m.output {
        None => {
            return Err(Diagnostic { kind: DiagnosticKind::MissingReturnType, span: m.sig_span });
        },
        Some(t) => {
            if !text_is(&t.text, "DispatchResultWithPostInfo") {
                return Err(Diagnostic { kind: DiagnosticKind::ExpectedReturnKeyword, span: t.span });
            }
        },
    }
    let ghost m0 = *m;
    let mut weights = match take_item_attrs::<FunctionAttr>(&mut m.attrs) {
        Err(e) => {
            return Err(e);
        },
        Ok(ws) => ws,
    };
    if weights.len() == 0 {
        return Err(Diagnostic { kind: DiagnosticKind::MissingWeight, span: m.sig_span });
    }
    if weights.len() > 1 {
        return Err(Diagnostic { kind: DiagnosticKind::TooManyWeights, span: m.sig_span });
    }
    let weight = match weights.pop() {
        Some(w) => w.weight,
        None => {
            return Err(Diagnostic { kind: DiagnosticKind::MissingWeight, span: m.sig_span });
        },
    };
    assert(method_error(m0) == args_error(m0.inputs@.drop_first()));

    let mut inputs: Vec<FnArg> = Vec::new();
    std::mem::swap(&mut m.inputs, &mut inputs);
    let ghost all = inputs@;
    let ghost rest_all = all.drop_first();
    let first = inputs.remove(0);
    let mut new_inputs: Vec<FnArg> = Vec::new();
    new_inputs.push(first);
    let mut args: Vec<(bool, Ident, TypeRef)> = Vec::new();
    let n = inputs.len();
    let mut i: usize = 0;
    assert(rest_all.subrange(0, 0).len() == 0);
    while i < n
        invariant
            i <= n,
            n + 1 == all.len(),
            all == m0.inputs@,
            m0 == *old(m),
            rest_all == all.drop_first(),
            method_error(m0) == args_error(rest_all),
            inputs@ == all.subrange(i + 1, all.len() as int),
            new_inputs@.len() == i + 1,
            new_inputs@[0] == all[0],
            forall|j: int| 1 <= j <= i ==> #[trigger] arg_stripped(new_inputs@[j], all[j]),
            args@.len() == i,
            forall|j: int| 0 <= j < i ==> #[trigger] arg_record(args@[j], all[j + 1]),
            args_error(rest_all.subrange(0, i as int)) is None,
        decreases n - i,
    {
        let mut a = inputs.remove(0);
        assert(a == all[i + 1]);
        assert(rest_all.subrange(0, i + 1).drop_last() == rest_all.subrange(0, i as int));
        match check_arg(&mut a) {
            Err(e) => {
                proof {
                    assert(args_error(rest_all.subrange(0, i + 1)) == Some(e));
                    lemma_args_error_extends(rest_all, i + 1);
                }
                return Err(e);
            },
            Ok(rec) => {
                args.push(rec);
                new_inputs.push(a);
            },
        }
        assert(inputs@ == all.subrange(i + 2, all.len() as int));
        i += 1;
    }
    assert(rest_all.subrange(0, n as int) == rest_all);
    m.inputs = new_inputs;
    let docs = get_doc_literals(&m.attrs);
    Ok(CallVariantDef { fn_: copy_ident(&m.ident), args, weight, docs })
}

/// The diagnostic for a member of the implementation block, if it is rejected.
pub open spec fn impl_item_error(it: ImplItem) -> Option<Diagnostic> {
    match it {
        ImplItem::Method(m) => method_error(m),
        ImplItem::Other(sp) => Some(diag(DiagnosticKind::OnlyMethods, sp)),
    }
}

/// The diagnostic of the first rejected member in `s`.
pub open spec fn impl_items_error(s: Seq<ImplItem>) -> Option<Diagnostic>
    decreases s.len(),
{
    if s.len() == 0 {
        None
    } else {
        match impl_items_error(s.drop_last()) {
            Some(e) => Some(e),
            None => impl_item_error(s.last()),
        }
    }
}

/// The diagnostic that a call declaration is rejected with, if any.
pub open spec fn call_decl_error(item: Item) -> Option<Diagnostic> {
    match item {
        Item::Impl(i) => if i.generics_usage is Err {
            Some(i.generics_usage->Err_0)
        } else if i.self_ty_usage is Err {
            Some(i.self_ty_usage->Err_0)
        } else if i.trait_ is None {
            Some(diag(DiagnosticKind::MissingCallTrait, i.span))
        } else if i.trait_->Some_0.text@ != "Call"@ {
            Some(diag(DiagnosticKind::ExpectedCallKeyword, i.trait_->Some_0.span))
        } else {
            impl_items_error(i.items@)
        },
        _ => Some(diag(DiagnosticKind::ExpectedImpl, item_span(item))),
    }
}

/// A member of an accepted block: the method as stripped, and its record.
pub open spec fn member_accepted(new: ImplItem, v: CallVariantDef, old: ImplItem) -> bool {
    &&& old is Method
    &&& new is Method
    &&& method_stripped(new->Method_0, old->Method_0)
    &&& variant_record(v, old->Method_0)
}

/// The successful outcome for a call declaration.
pub open spec fn call_def_of(d: CallDef, item: Item) -> bool {
    let i = item->Impl_0;
    &&& item is Impl
    &&& d.instances@ == seq![i.generics_usage->Ok_0, i.self_ty_usage->Ok_0]
    &&& d.call == i.trait_->Some_0.span
    &&& d.item.trait_ is None
    &&& d.item.attrs == i.attrs
    &&& d.item.span == i.span
    &&& d.item.generics_usage == i.generics_usage
    &&& d.item.self_ty == i.self_ty
    &&& d.item.self_ty_usage == i.self_ty_usage
    &&& d.item.items@.len() == i.items@.len()
    &&& d.methods@.len() == i.items@.len()
    &&& forall|k: int|
        0 <= k < i.items@.len() ==> #[trigger] member_accepted(
            d.item.items@[k],
            d.methods@[k],
            i.items@[k],
        )
}

/// A rejected member in a prefix rejects the whole block, with its diagnostic.
proof fn lemma_items_error_extends(s: Seq<ImplItem>, k: int)
    requires
        0 <= k <= s.len(),
        impl_items_error(s.subrange(0, k)) is Some,
    ensures
        impl_items_error(s) == impl_items_error(s.subrange(0, k)),
    decreases s.len(),
{
    if k == s.len() {
        assert(s.subrange(0, k) == s);
    } else {
        let t = s.drop_last();
        assert(t.subrange(0, k) == s.subrange(0, k));
        lemma_items_error_extends(t, k);
    }
}

impl CallDef {
    /// Validates the call declaration `item`. On success the record keeps the
    /// block with its trait reference and all marker attributes taken out.
    pub fn try_from(item: Item) -> (r: Result<CallDef, Diagnostic>)
        ensures
            r is Err <==> call_decl_error(item) is Some,
            r is Err ==> r->Err_0 == call_decl_error(item)->Some_0,
            r is Ok ==> call_def_of(r->Ok_0, item),
    {
        let mut imp = match item {
            Item::Impl(i) => i,
            Item::Enum(e) => {
                return Err(Diagnostic { kind: DiagnosticKind::ExpectedImpl, span: e.span });
            },
            Item::Other(sp) => {
                return Err(Diagnostic { kind: DiagnosticKind::ExpectedImpl, span: sp });
            },
        };
        let ghost i0 = imp;
        let mut instances: Vec<InstanceUsage> = Vec::new();
        match &imp.generics_usage {
            Ok(u) => instances.push(*u),
            Err(d) => {
                return Err(copy_diagnostic(d));
            },
        }
        match &imp.self_ty_usage {
            Ok(u) => instances.push(*u),
            Err(d) => {
                return Err(copy_diagnostic(d));
            },
        }
        let call = match &imp.trait_ {
            None => {
                return Err(Diagnostic { kind: DiagnosticKind::MissingCallTrait, span: imp.span });
            },
            Some(t) => {
                if !text_is(&t.text, "Call") {
                    return Err(Diagnostic { kind: DiagnosticKind::ExpectedCallKeyword, span: t.span });
                }
                t.span
            },
        };
        imp.trait_ = None;
        assert(call_decl_error(item) == impl_items_error(i0.items@));

        let mut items: Vec<ImplItem> = Vec::new();
        std::mem::swap(&mut imp.items, &mut items);
        let ghost all = items@;
        let mut new_items: Vec<ImplItem> = Vec::new();
        let mut methods: Vec<CallVariantDef> = Vec::new();
        let n = items.len();
        let mut k: usize = 0;
        assert(all.subrange(0, 0).len() == 0);
        while k < n
            invariant
                k <= n,
                n == all.len(),
                all == i0.items@,
                item == Item::Impl(i0),
                imp.attrs == i0.attrs,
                imp.span == i0.span,
                imp.trait_ is None,
                imp.generics_usage == i0.generics_usage,
                imp.self_ty == i0.self_ty,
                imp.self_ty_usage == i0.self_ty_usage,
                instances@ == seq![i0.generics_usage->Ok_0, i0.self_ty_usage->Ok_0],
                call == i0.trait_->Some_0.span,
                call_decl_error(item) == impl_items_error(all),
                items@ == all.subrange(k as int, n as int),
                new_items@.len() == k,
                methods@.len() == k,
                forall|j: int|
                    0 <= j < k ==> #[trigger] member_accepted(new_items@[j], methods@[j], all[j]),
                impl_items_error(all.subrange(0, k as int)) is None,
            decreases n - k,
        {
            let it = items.remove(0);
            assert(it == all[k as int]);
            assert(all.subrange(0, k + 1).drop_last() == all.subrange(0, k as int));
            match it {
                ImplItem::Other(sp) => {
                    proof {
                        assert(impl_items_error(all.subrange(0, k + 1)) is Some);
                        lemma_items_error_extends(all, k + 1);
                    }
                    return Err(Diagnostic { kind: DiagnosticKind::OnlyMethods, span: sp });
                },
                ImplItem::Method(mut m) => {
                    match check_method(&mut m) {
                        Err(e) => {
                            proof {
                                assert(impl_items_error(all.subrange(0, k + 1)) == Some(e));
                                lemma_items_error_extends(all, k + 1);
                            }
                            return Err(e);
                        },
                        Ok(v) => {
                            methods.push(v);
                            new_items.push(ImplItem::Method(m));
                        },
                    }
                },
            }
            assert(items@ == all.subrange(k + 1, n as int));
            k += 1;
        }
        assert(all.subrange(0, n as int) == all);
        imp.items = new_items;
        Ok(CallDef { instances, item: imp, methods, call })
    }
}

/// A block without a trait reference, whose generics and self type the
/// instance-usage checker accepted, is rejected for the missing `Call` trait.
pub proof fn lemma_missing_trait_rejected(i: ItemImpl)
    requires
        i.trait_ is None,
        i.generics_usage is Ok,
        i.self_ty_usage is Ok,
    ensures
        call_decl_error(Item::Impl(i)) == Some(diag(DiagnosticKind::MissingCallTrait, i.span)),
{
}

/// A method that passes the checks before the weight is rejected when it has
/// no weight marker or more than one; with exactly one, only its arguments
/// are left to decide.
pub proof fn lemma_weight_cardinality(m: ImplItemMethod)
    requires
        m.inputs@.len() > 0,
        m.origin_check is Ok,
        m.output is Some,
        m.output->Some_0.text@ == "DispatchResultWithPostInfo"@,
        take_spec::<FunctionAttr>(m.attrs@) is Ok,
    ensures
        take_spec::<FunctionAttr>(m.attrs@)->Ok_0.1.len() == 0 ==> method_error(m) == Some(
            diag(DiagnosticKind::MissingWeight, m.sig_span),
        ),
        take_spec::<FunctionAttr>(m.attrs@)->Ok_0.1.len() > 1 ==> method_error(m) == Some(
            diag(DiagnosticKind::TooManyWeights, m.sig_span),
        ),
        take_spec::<FunctionAttr>(m.attrs@)->Ok_0.1.len() == 1 ==> method_error(m) == args_error(
            m.inputs@.drop_first(),
        ),
{
}

/// Each weight found by the scan is the exact payload of an outer
/// `#[pallet::weight = ..]` attribute of the list, one that syn parsed as an expression.
pub proof fn lemma_weight_is_payload(attrs: Seq<Attribute>, k: int)
    requires
        take_spec::<FunctionAttr>(attrs) is Ok,
        0 <= k < take_spec::<FunctionAttr>(attrs)->Ok_0.1.len(),
    ensures
        exists|j: int|
            0 <= j < attrs.len() && (#[trigger] attrs[j]).path@.len() == 2 && attrs[j].path@[0]@
                == "pallet"@ && attrs[j].path@[1]@ == "weight"@ && attrs[j].args is Value && attrs[j].args->Value_0.text
                == take_spec::<FunctionAttr>(attrs)->Ok_0.1[k].weight && attrs[j].args->Value_0.is_expr
                && !attrs[j].is_inner && !attrs[j].leading_colon,
    decreases attrs.len(),
{
    let t = attrs.drop_last();
    let found = take_spec::<FunctionAttr>(attrs)->Ok_0.1;
    if k < take_spec::<FunctionAttr>(t)->Ok_0.1.len() {
        lemma_weight_is_payload(t, k);
        let j = choose|j: int|
            0 <= j < t.len() && (#[trigger] t[j]).path@.len() == 2 && t[j].path@[0]@ == "pallet"@
                && t[j].path@[1]@ == "weight"@ && t[j].args is Value && t[j].args->Value_0.text
                == take_spec::<FunctionAttr>(t)->Ok_0.1[k].weight && t[j].args->Value_0.is_expr
                && !t[j].is_inner && !t[j].leading_colon;
        assert(attrs[j] == t[j]);
    } else {
        let j = attrs.len() - 1;
        assert(attrs[j] == attrs.last());
    }
}

/// Reordering the methods reorders the records the same way: where the
/// members of `i2` are those of `i1` taken in the order `perm`, so are the
/// records of two successful validations.
pub proof fn lemma_method_order(d1: CallDef, i1: ItemImpl, d2: CallDef, i2: ItemImpl, perm: Seq<int>)
    requires
        call_def_of(d1, Item::Impl(i1)),
        call_def_of(d2, Item::Impl(i2)),
        perm.len() == i2.items@.len(),
        forall|k: int|
            0 <= k < perm.len() ==> 0 <= #[trigger] perm[k] < i1.items@.len() && i2.items@[k]
                == i1.items@[perm[k]],
    ensures
        d2.methods@.len() == perm.len(),
        forall|k: int|
            0 <= k < perm.len() ==> (#[trigger] d2.methods@[k]).fn_ == d1.methods@[perm[k]].fn_
                && d2.methods@[k].weight == d1.methods@[perm[k]].weight
                && d2.methods@[k].docs@ == d1.methods@[perm[k]].docs@
                && d2.methods@[k].args@ == d1.methods@[perm[k]].args@,
{
    assert forall|k: int| 0 <= k < perm.len() implies (#[trigger] d2.methods@[k]).fn_
        == d1.methods@[perm[k]].fn_ && d2.methods@[k].weight == d1.methods@[perm[k]].weight
        && d2.methods@[k].docs@ == d1.methods@[perm[k]].docs@ && d2.methods@[k].args@
        == d1.methods@[perm[k]].args@ by {
        let j = perm[k];
        assert(member_accepted(d2.item.items@[k], d2.methods@[k], i2.items@[k]));
        assert(member_accepted(d1.item.items@[j], d1.methods@[j], i1.items@[j]));
        let m = i1.items@[j]->Method_0;
        let a1 = d1.methods@[j].args@;
        let a2 = d2.methods@[k].args@;
        assert forall|x: int| 0 <= x < a1.len() implies a1[x] == a2[x] by {
            assert(arg_record(a1[x], m.inputs@[x + 1]));
            assert(arg_record(a2[x], m.inputs@[x + 1]));
        }
        assert(a1 =~= a2);
    }
}

} // verus!
