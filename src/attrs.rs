//! Marker attributes (`#[pallet::...]`) and documentation literals.

use vstd::prelude::*;
use crate::syntax::{text_is, AttrArgs, AttrValue, Attribute, Diagnostic};
use vstd::string::StrSliceExecFns;

verus! {

/// Whether a C string literal (`c"..."`, `cr"..."`, `cr#"..."#`) may start at `i`.
pub open spec fn c_string_at(s: Seq<char>, i: int) -> bool {
    &&& s[i] == 'c'
    &&& i + 1 < s.len()
    &&& (s[i + 1] == '"' || (s[i + 1] == 'r' && i + 2 < s.len() && (s[i + 2] == '"' || s[i + 2]
        == '#')))
}

/// Whether rustc's error placeholder `/*ERROR*/` starts at `i`.
pub open spec fn error_placeholder_at(s: Seq<char>, i: int) -> bool {
    &&& i + 9 <= s.len()
    &&& s[i] == '/' && s[i + 1] == '*' && s[i + 2] == 'E' && s[i + 3] == 'R' && s[i + 4] == 'R'
    &&& s[i + 5] == 'O' && s[i + 6] == 'R' && s[i + 7] == '*' && s[i + 8] == '/'
}

/// Text that cannot lex into a literal token which syn 1's `Lit::new` has no
/// case for (C strings, rustc's error placeholder), and on which it would panic.
pub open spec fn classifiable(s: Seq<char>) -> bool {
    forall|i: int| 0 <= i < s.len() ==> !c_string_at(s, i) && !error_placeholder_at(s, i)
}

/// Relies on `syn::parse_str::<syn::Expr>`: whether the whole text is one
/// expression. The lexer proc-macro2 picks depends on the process, so nothing
/// is promised of the answer; `requires` keeps out the text syn 1 panics on.
#[verifier::external_body]
fn parses_as_expr(s: &str) -> (r: bool)
    requires
        classifiable(s@),
{
    syn::parse_str::<syn::Expr>(s).is_ok()
}

/// Relies on `syn::parse_str::<syn::Lit>`: whether the whole text is one
/// literal. As above, nothing is promised of the answer.
#[verifier::external_body]
fn parses_as_lit(s: &str) -> (r: bool)
    requires
        classifiable(s@),
{
    syn::parse_str::<syn::Lit>(s).is_ok()
}

/// Whether `s@` is `classifiable`.
fn check_classifiable(s: &str) -> (r: bool)
    ensures
        r == classifiable(s@),
{
    let n = s.unicode_len();
    let mut i: usize = 0;
    while i < n
        invariant
            n == s@.len(),
            i <= n,
            forall|j: int| 0 <= j < i ==> !c_string_at(s@, j) && !error_placeholder_at(s@, j),
        decreases n - i,
    {
        let c = s.get_char(i);
        if c == 'c' && i + 1 < n {
            let d = s.get_char(i + 1);
            if d == '"' {
                assert(c_string_at(s@, i as int));
                return false;
            }
            if d == 'r' && i + 2 < n {
                let e = s.get_char(i + 2);
                if e == '"' || e == '#' {
                    assert(c_string_at(s@, i as int));
                    return false;
                }
            }
        }
        if c == '/' && 9 <= n - i {
            if s.get_char(i + 1) == '*' && s.get_char(i + 2) == 'E' && s.get_char(i + 3) == 'R'
                && s.get_char(i + 4) == 'R' && s.get_char(i + 5) == 'O' && s.get_char(i + 6)
                == 'R' && s.get_char(i + 7) == '*' && s.get_char(i + 8) == '/' {
                assert(error_placeholder_at(s@, i as int));
                return false;
            }
        }
        i += 1;
    }
    true
}

/// The value of an attribute `#[path = text]`, with syn's verdict on whether
/// `text` is an expression and whether it is a literal. Text that syn 1
/// cannot classify is neither.
pub fn attr_value(text: String) -> (r: AttrValue)
    ensures
        r.text == text,
        !classifiable(text@) ==> !r.is_expr && !r.is_lit,
{
    if check_classifiable(text.as_str()) {
        let is_expr = parses_as_expr(text.as_str());
        let is_lit = parses_as_lit(text.as_str());
        AttrValue { text, is_expr, is_lit }
    } else {
        AttrValue { text, is_expr: false, is_lit: false }
    }
}

/// An attribute in the `pallet` namespace.
pub open spec fn is_pallet_attr(a: Attribute) -> bool {
    a.path@.len() >= 1 && a.path@[0]@ == "pallet"@
}

/// A documentation attribute `#[doc = <literal>]`.
pub open spec fn is_doc_attr(a: Attribute) -> bool {
    &&& a.path@.len() == 1
    &&& a.path@[0]@ == "doc"@
    &&& a.args is Value
    &&& a.args->Value_0.is_lit
}

/// The grammar of one kind of marker attribute.
pub trait MarkerAttr: Sized {
    /// What parsing a `pallet` attribute under this grammar gives.
    spec fn parse_spec(a: Attribute) -> Result<Self, Diagnostic>;

    fn parse(a: &Attribute) -> (r: Result<Self, Diagnostic>)
        ensures
            r == Self::parse_spec(*a),
    ;
}

/// Scanning `attrs` in order: the attributes that stay, and the parsed
/// markers; or the diagnostic of the first marker that does not parse.
pub open spec fn take_spec<G: MarkerAttr>(attrs: Seq<Attribute>) -> Result<
    (Seq<Attribute>, Seq<G>),
    Diagnostic,
>
    decreases attrs.len(),
{
    if attrs.len() == 0 {
        Ok((Seq::empty(), Seq::empty()))
    } else {
        match take_spec::<G>(attrs.drop_last()) {
            Err(e) => Err(e),
            Ok(p) => {
                let a = attrs.last();
                if is_pallet_attr(a) {
                    match G::parse_spec(a) {
                        Err(e) => Err(e),
                        Ok(g) => Ok((p.0, p.1.push(g))),
                    }
                } else {
                    Ok((p.0.push(a), p.1))
                }
            },
        }
    }
}

/// The documentation literals of `attrs`, in order.
pub open spec fn doc_literals(attrs: Seq<Attribute>) -> Seq<String>
    decreases attrs.len(),
{
    if attrs.len() == 0 {
        Seq::empty()
    } else {
        let prev = doc_literals(attrs.drop_last());
        let a = attrs.last();
        if is_doc_attr(a) {
            prev.push(a.args->Value_0.text)
        } else {
            prev
        }
    }
}

/// An error in a prefix of the attributes is the error of the whole list.
proof fn lemma_take_err_extends<G: MarkerAttr>(s: Seq<Attribute>, k: int)
    requires
        0 <= k <= s.len(),
        take_spec::<G>(s.subrange(0, k)) is Err,
    ensures
        take_spec::<G>(s) == take_spec::<G>(s.subrange(0, k)),
    decreases s.len(),
{
    if k == s.len() {
        assert(s.subrange(0, k) == s);
    } else {
        let t = s.drop_last();
        assert(t.subrange(0, k) == s.subrange(0, k));
        lemma_take_err_extends::<G>(t, k);
    }
}

/// Whether `a` is a `pallet` attribute.
fn is_pallet(a: &Attribute) -> (r: bool)
    ensures
        r == is_pallet_attr(*a),
{
    a.path.len() >= 1 && text_is(&a.path[0], "pallet")
}

/// Removes the `pallet` attributes from `attrs` and parses each under `G`,
/// in order. Stops at the first one that does not parse.
pub fn take_item_attrs<G: MarkerAttr>(attrs: &mut Vec<Attribute>) -> (r: Result<
    Vec<G>,
    Diagnostic,
>)
    ensures
        match take_spec::<G>(old(attrs)@) {
            Ok(p) => r is Ok && r->Ok_0@ == p.1 && final(attrs)@ == p.0,
            Err(e) => r is Err && r->Err_0 == e,
        },
{
    let mut rest: Vec<Attribute> = Vec::new();
    std::mem::swap(attrs, &mut rest);
    let ghost all = rest@;
    let mut found: Vec<G> = Vec::new();
    let n = rest.len();
    let mut i: usize = 0;
    assert(all.subrange(0, 0).len() == 0);
    while i < n
        invariant
            i <= n,
            n == all.len(),
            all == old(attrs)@,
            rest@ == all.subrange(i as int, n as int),
            take_spec::<G>(all.subrange(0, i as int)) == Ok::<_, Diagnostic>((attrs@, found@)),
        decreases n - i,
    {
        let a = rest.remove(0);
        assert(a == all[i as int]);
        assert(all.subrange(0, i + 1).drop_last() == all.subrange(0, i as int));
        if is_pallet(&a) {
            match G::parse(&a) {
                Ok(g) => found.push(g),
                Err(e) => {
                    proof {
                        assert(take_spec::<G>(all.subrange(0, i + 1)) == Err::<(Seq<Attribute>, Seq<G>), Diagnostic>(e));
                        lemma_take_err_extends::<G>(all, i + 1);
                        assert(all.subrange(0, n as int) == all);
                    }
                    return Err(e);
                },
            }
        } else {
            attrs.push(a);
        }
        assert(rest@ == all.subrange(i + 1, n as int));
        i += 1;
    }
    assert(all.subrange(0, n as int) == all);
    Ok(found)
}

/// The documentation literals of `attrs`, in order; `attrs` is only read.
pub fn get_doc_literals(attrs: &Vec<Attribute>) -> (r: Vec<String>)
    ensures
        r@ == doc_literals(attrs@),
{
    let mut r: Vec<String> = Vec::new();
    let mut i: usize = 0;
    while i < attrs.len()
        invariant
            i <= attrs@.len(),
            r@ == doc_literals(attrs@.subrange(0, i as int)),
        decreases attrs@.len() - i,
    {
        let a = &attrs[i];
        assert(attrs@.subrange(0, i + 1).drop_last() == attrs@.subrange(0, i as int));
        if a.path.len() == 1 && text_is(&a.path[0], "doc") {
            if let AttrArgs::Value(v) = &a.args {
                if v.is_lit {
                    r.push(v.text.clone());
                }
            }
        }
        i += 1;
    }
    assert(attrs@.subrange(0, attrs@.len() as int) == attrs@);
    r
}

/// After a successful scan no `pallet` attribute is left.
proof fn lemma_take_kept_clean<G: MarkerAttr>(attrs: Seq<Attribute>)
    requires
        take_spec::<G>(attrs) is Ok,
    ensures
        forall|j: int|
            0 <= j < take_spec::<G>(attrs)->Ok_0.0.len() ==> !is_pallet_attr(
                #[trigger] take_spec::<G>(attrs)->Ok_0.0[j],
            ),
    decreases attrs.len(),
{
    if attrs.len() > 0 {
        lemma_take_kept_clean::<G>(attrs.drop_last());
    }
}

/// A list without `pallet` attributes is kept whole, and nothing is found.
proof fn lemma_take_clean<G: MarkerAttr>(attrs: Seq<Attribute>)
    requires
        forall|j: int| 0 <= j < attrs.len() ==> !is_pallet_attr(#[trigger] attrs[j]),
    ensures
        take_spec::<G>(attrs) == Ok::<_, Diagnostic>((attrs, Seq::<G>::empty())),
    decreases attrs.len(),
{
    if attrs.len() > 0 {
        lemma_take_clean::<G>(attrs.drop_last());
        assert(attrs.drop_last().push(attrs.last()) == attrs);
    } else {
        assert(attrs == Seq::<Attribute>::empty());
    }
}

/// Stripping is idempotent: scanning the attributes that a successful scan
/// left finds no marker and keeps them all.
pub proof fn lemma_take_idempotent<G: MarkerAttr>(attrs: Seq<Attribute>)
    requires
        take_spec::<G>(attrs) is Ok,
    ensures
        take_spec::<G>(take_spec::<G>(attrs)->Ok_0.0) == Ok::<_, Diagnostic>(
            (take_spec::<G>(attrs)->Ok_0.0, Seq::<G>::empty()),
        ),
{
    lemma_take_kept_clean::<G>(attrs);
    lemma_take_clean::<G>(take_spec::<G>(attrs)->Ok_0.0);
}

} // verus!
