//! Validation of the `pallet::error` declaration: a public enum named
//! `Error` whose variants carry neither fields nor discriminants.

use vstd::prelude::*;
use crate::attrs::{doc_literals, get_doc_literals};
use crate::syntax::{
    copy_diagnostic, copy_ident, diag, item_span, text_is, Diagnostic, DiagnosticKind, Fields,
    Ident, InstanceUsage, Item, ItemEnum, Span, Variant,
};

verus! {

/// A validated error declaration.
pub struct ErrorDef {
    /// The index of the error item in the pallet module.
    pub index: usize,
    /// Each variant's identifier and documentation literals, in declaration order.
    pub variants: Vec<(Ident, Vec<String>)>,
    /// Instance usage of the enum's generics, to be checked against the rest of the module.
    pub instances: Vec<InstanceUsage>,
    /// Where the `Error` keyword stands.
    pub error: Span,
}

/// The diagnostic for a variant, if it is not a plain unit variant.
pub open spec fn variant_error(v: Variant) -> Option<Diagnostic> {
    match v.fields {
        Fields::Named(sp) => Some(diag(DiagnosticKind::VariantHasFields, sp)),
        Fields::Unnamed(sp) => Some(diag(DiagnosticKind::VariantHasFields, sp)),
        Fields::Unit => match v.discriminant {
            Some(sp) => Some(diag(DiagnosticKind::VariantHasDiscriminant, sp)),
            None => None,
        },
    }
}

/// The diagnostic of the first variant in `vs` that is rejected.
pub open spec fn variants_error(vs: Seq<Variant>) -> Option<Diagnostic>
    decreases vs.len(),
{
    if vs.len() == 0 {
        None
    } else {
        match variants_error(vs.drop_last()) {
            Some(e) => Some(e),
            None => variant_error(vs.last()),
        }
    }
}

/// The diagnostic that an error declaration is rejected with, if any.
pub open spec fn error_decl_error(item: Item) -> Option<Diagnostic> {
    match item {
        Item::Enum(e) => if !e.is_public {
            Some(diag(DiagnosticKind::ErrorNotPublic, e.span))
        } else if e.generics_usage is Err {
            Some(e.generics_usage->Err_0)
        } else if e.where_clause is Some {
            Some(diag(DiagnosticKind::UnexpectedWhereClause, e.where_clause->Some_0))
        } else if e.ident.name@ != "Error"@ {
            Some(diag(DiagnosticKind::ExpectedErrorKeyword, e.ident.span))
        } else {
            variants_error(e.variants@)
        },
        _ => Some(diag(DiagnosticKind::ExpectedEnum, item_span(item))),
    }
}

/// The record of a variant: its identifier and its documentation.
pub open spec fn variant_record(r: (Ident, Vec<String>), v: Variant) -> bool {
    r.0 == v.ident && r.1@ == doc_literals(v.attrs@)
}

/// The successful outcome for an error declaration at position `index`.
pub open spec fn error_def_of(d: ErrorDef, index: usize, item: Item) -> bool {
    let e = item->Enum_0;
    &&& item is Enum
    &&& d.index == index
    &&& d.instances@ == seq![e.generics_usage->Ok_0]
    &&& d.error == e.ident.span
    &&& d.variants@.len() == e.variants@.len()
    &&& forall|i: int|
        0 <= i < e.variants@.len() ==> #[trigger] variant_record(d.variants@[i], e.variants@[i])
}

/// The diagnostic for `v`, if it carries fields or a discriminant.
fn check_variant(v: &Variant) -> (r: Option<Diagnostic>)
    ensures
        r == variant_error(*v),
{
    match v.fields {
        Fields::Named(sp) => Some(Diagnostic { kind: DiagnosticKind::VariantHasFields, span: sp }),
        Fields::Unnamed(sp) => Some(Diagnostic { kind: DiagnosticKind::VariantHasFields, span: sp }),
        Fields::Unit => match v.discriminant {
            Some(sp) => Some(Diagnostic { kind: DiagnosticKind::VariantHasDiscriminant, span: sp }),
            None => None,
        },
    }
}

impl ErrorDef {
    /// Validates the error declaration `item`, found at position `index` of its module.
    pub fn try_from(index: usize, item: &Item) -> (r: Result<ErrorDef, Diagnostic>)
        ensures
            r is Err <==> error_decl_error(*item) is Some,
            r is Err ==> r->Err_0 == error_decl_error(*item)->Some_0,
            r is Ok ==> error_def_of(r->Ok_0, index, *item),
    {
        let e = match item {
            Item::Enum(e) => e,
            Item::Impl(i) => {
                return Err(Diagnostic { kind: DiagnosticKind::ExpectedEnum, span: i.span });
            },
            Item::Other(sp) => {
                return Err(Diagnostic { kind: DiagnosticKind::ExpectedEnum, span: *sp });
            },
        };
        if !e.is_public {
            return Err(Diagnostic { kind: DiagnosticKind::ErrorNotPublic, span: e.span });
        }
        let mut instances: Vec<InstanceUsage> = Vec::new();
        match &e.generics_usage {
            Ok(u) => instances.push(*u),
            Err(d) => {
                return Err(copy_diagnostic(d));
            },
        }
        if let Some(sp) = e.where_clause {
            return Err(Diagnostic { kind: DiagnosticKind::UnexpectedWhereClause, span: sp });
        }
        if !text_is(&e.ident.name, "Error") {
            return Err(Diagnostic { kind: DiagnosticKind::ExpectedErrorKeyword, span: e.ident.span });
        }
        assert(error_decl_error(*item) == variants_error(e.variants@));
        let mut variants: Vec<(Ident, Vec<String>)> = Vec::new();
        let mut i: usize = 0;
        while i < e.variants.len()
            invariant
                i <= e.variants@.len(),
                variants_error(e.variants@.subrange(0, i as int)) is None,
                variants@.len() == i,
                error_decl_error(*item) == variants_error(e.variants@),
                forall|j: int| 0 <= j < i ==> #[trigger] variant_record(variants@[j], e.variants@[j]),
            decreases e.variants@.len() - i,
        {
            let v = &e.variants[i];
            proof {
                assert(e.variants@.subrange(0, i + 1).drop_last() == e.variants@.subrange(0, i as int));
            }
            if let Some(d) = check_variant(v) {
                proof {
                    assert(variants_error(e.variants@.subrange(0, i + 1)) == Some(d));
                    lemma_variants_error_extends(e.variants@, i + 1);
                }
                return Err(d);
            }
            variants.push((copy_ident(&v.ident), get_doc_literals(&v.attrs)));
            i += 1;
        }
        proof {
            assert(e.variants@.subrange(0, e.variants@.len() as int) == e.variants@);
        }
        Ok(ErrorDef { index, variants, instances, error: e.ident.span })
    }
}

/// A rejected variant in a prefix rejects the whole list, with its diagnostic.
pub proof fn lemma_variants_error_extends(vs: Seq<Variant>, k: int)
    requires
        0 <= k <= vs.len(),
        variants_error(vs.subrange(0, k)) is Some,
    ensures
        variants_error(vs) == variants_error(vs.subrange(0, k)),
    decreases vs.len(),
{
    if k == vs.len() {
        assert(vs.subrange(0, k) == vs);
    } else {
        let t = vs.drop_last();
        assert(t.subrange(0, k) == vs.subrange(0, k));
        lemma_variants_error_extends(t, k);
    }
}

/// A list of variants is accepted exactly when each variant is.
proof fn lemma_variants_error_none(vs: Seq<Variant>)
    ensures
        variants_error(vs) is None <==> forall|i: int|
            0 <= i < vs.len() ==> (#[trigger] variant_error(vs[i])) is None,
    decreases vs.len(),
{
    if vs.len() > 0 {
        let t = vs.drop_last();
        lemma_variants_error_none(t);
        assert forall|i: int| 0 <= i < t.len() implies #[trigger] t[i] == vs[i] by {}
        if variants_error(vs) is None {
            assert forall|i: int| 0 <= i < vs.len() implies (#[trigger] variant_error(vs[i])) is None by {
                if i < t.len() {
                    assert(t[i] == vs[i]);
                }
            }
        } else if variants_error(t) is Some {
            let i = choose|i: int| 0 <= i < t.len() && (#[trigger] variant_error(t[i])) is Some;
            assert(t[i] == vs[i]);
        }
    }
}

/// For an enum whose header is accepted (public, named `Error`, generics
/// accepted, no where clause): a variant with fields or a discriminant makes
/// the validation fail, and with unit variants only it succeeds.
pub proof fn lemma_error_variants(e: ItemEnum)
    requires
        e.is_public,
        e.generics_usage is Ok,
        e.where_clause is None,
        e.ident.name@ == "Error"@,
    ensures
        (exists|i: int|
            0 <= i < e.variants@.len() && !((#[trigger] e.variants@[i]).fields is Unit
                && e.variants@[i].discriminant is None)) ==> error_decl_error(Item::Enum(e)) is Some,
        (forall|i: int|
            0 <= i < e.variants@.len() ==> (#[trigger] e.variants@[i]).fields is Unit
                && e.variants@[i].discriminant is None) ==> error_decl_error(Item::Enum(e)) is None,
{
    lemma_variants_error_none(e.variants@);
    if exists|i: int|
        0 <= i < e.variants@.len() && !((#[trigger] e.variants@[i]).fields is Unit
            && e.variants@[i].discriminant is None) {
        let i = choose|i: int|
            0 <= i < e.variants@.len() && !((#[trigger] e.variants@[i]).fields is Unit
                && e.variants@[i].discriminant is None);
        assert(variant_error(e.variants@[i]) is Some);
    }
    if forall|i: int|
        0 <= i < e.variants@.len() ==> (#[trigger] e.variants@[i]).fields is Unit
            && e.variants@[i].discriminant is None {
        assert forall|i: int| 0 <= i < e.variants@.len() implies (#[trigger] variant_error(
            e.variants@[i],
        )) is None by {
            assert(e.variants@[i].fields is Unit);
        }
    }
}

/// Reordering the variants reorders the records the same way: where the
/// variants of `e2` are those of `e1` taken in the order `perm`, so are the
/// records of two successful validations.
pub proof fn lemma_variant_order(
    d1: ErrorDef,
    index1: usize,
    e1: ItemEnum,
    d2: ErrorDef,
    index2: usize,
    e2: ItemEnum,
    perm: Seq<int>,
)
    requires
        error_def_of(d1, index1, Item::Enum(e1)),
        error_def_of(d2, index2, Item::Enum(e2)),
        perm.len() == e2.variants@.len(),
        forall|k: int|
            0 <= k < perm.len() ==> 0 <= #[trigger] perm[k] < e1.variants@.len()
                && e2.variants@[k] == e1.variants@[perm[k]],
    ensures
        d2.variants@.len() == perm.len(),
        forall|k: int|
            0 <= k < perm.len() ==> (#[trigger] d2.variants@[k]).0 == d1.variants@[perm[k]].0
                && d2.variants@[k].1@ == d1.variants@[perm[k]].1@,
{
    assert forall|k: int| 0 <= k < perm.len() implies (#[trigger] d2.variants@[k]).0
        == d1.variants@[perm[k]].0 && d2.variants@[k].1@ == d1.variants@[perm[k]].1@ by {
        assert(variant_record(d2.variants@[k], e2.variants@[k]));
        assert(variant_record(d1.variants@[perm[k]], e1.variants@[perm[k]]));
    }
}

} // verus!
