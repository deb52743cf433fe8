//! The syntax tree handed to the validators.
//!
//! Types and paths are kept as their token text; a span is an identifier
//! of a source location in the caller's span table. Where an outside
//! checker has already classified a part of the tree (instance usage of
//! generics, the shape of a dispatchable's origin argument), its verdict
//! is stored next to that part.

use vstd::prelude::*;

verus! {

/// A source location, as an index into the caller's span table.
#[derive(Clone, Copy, Debug, PartialEq, Eq, Structural)]
pub struct Span {
    pub id: u64,
}

/// Whether a generic parameter list (or a self type) uses the instance parameter.
#[derive(Clone, Copy, Debug, PartialEq, Eq, Structural)]
pub struct InstanceUsage {
    pub has_instance: bool,
    pub span: Span,
}

/// What went wrong with a declaration.
#[derive(Clone, Debug, PartialEq, Eq)]
pub enum DiagnosticKind {
    ExpectedImpl,
    MissingCallTrait,
    ExpectedCallKeyword,
    OnlyMethods,
    MissingOrigin,
    MissingReturnType,
    ExpectedReturnKeyword,
    MissingWeight,
    TooManyWeights,
    TooManyArgAttrs,
    ArgNotIdent,
    MalformedWeightAttr,
    MalformedCompactAttr,
    ExpectedEnum,
    ErrorNotPublic,
    UnexpectedWhereClause,
    ExpectedErrorKeyword,
    VariantHasFields,
    VariantHasDiscriminant,
    /// A diagnostic produced by an outside checker, forwarded as it came.
    External(String),
}

/// A message bound to a source location.
#[derive(Clone, Debug, PartialEq, Eq)]
pub struct Diagnostic {
    pub kind: DiagnosticKind,
    pub span: Span,
}

pub open spec fn diag(kind: DiagnosticKind, span: Span) -> Diagnostic {
    Diagnostic { kind, span }
}

/// The text shown for each kind of diagnostic.
pub open spec fn message_of(kind: DiagnosticKind) -> Seq<char> {
    match kind {
        DiagnosticKind::ExpectedImpl => "Invalid pallet::call, expect item impl"@,
        DiagnosticKind::MissingCallTrait =>
            "Invalid pallet::call, expect Call ident as in `impl<..> Call for Module<..> { .. }`"@,
        DiagnosticKind::ExpectedCallKeyword => "expected `Call`"@,
        DiagnosticKind::OnlyMethods => "Invalid pallet::call, only method accepted"@,
        DiagnosticKind::MissingOrigin => "Invalid pallet::call, must have at least origin arg"@,
        DiagnosticKind::MissingReturnType =>
            "Invalid pallet::call, require return type DispatchResultWithPostInfo"@,
        DiagnosticKind::ExpectedReturnKeyword => "expected `DispatchResultWithPostInfo`"@,
        DiagnosticKind::MissingWeight =>
            "Invalid pallet::call, require weight attribute i.e. `#[pallet::weight]`"@,
        DiagnosticKind::TooManyWeights => "Invalid pallet::call, too many weight attributes given"@,
        DiagnosticKind::TooManyArgAttrs => "Invalid pallet::call, argument has too many attributes"@,
        DiagnosticKind::ArgNotIdent => "Invalid pallet::call, argument must be ident"@,
        DiagnosticKind::MalformedWeightAttr => "expected `#[pallet::weight = expr]`"@,
        DiagnosticKind::MalformedCompactAttr => "expected `#[pallet::compact]`"@,
        DiagnosticKind::ExpectedEnum => "Invalid pallet::error, expect item enum"@,
        DiagnosticKind::ErrorNotPublic => "Invalid pallet::error, `Error` must be public"@,
        DiagnosticKind::UnexpectedWhereClause => "Invalid pallet::error, unexpected where clause"@,
        DiagnosticKind::ExpectedErrorKeyword => "expected `Error`"@,
        DiagnosticKind::VariantHasFields => "Invalid pallet::error, unexpected fields, must be `Unit`"@,
        DiagnosticKind::VariantHasDiscriminant =>
            "Invalid pallet::error, unexpected discriminant, discriminant are not supported"@,
        DiagnosticKind::External(m) => m@,
    }
}

impl Diagnostic {
    /// The human-readable message of this diagnostic.
    pub fn message(&self) -> (r: String)
        ensures
            r@ == message_of(self.kind),
    {
        match &self.kind {
            DiagnosticKind::ExpectedImpl => "Invalid pallet::call, expect item impl".to_owned(),
            DiagnosticKind::MissingCallTrait =>
                "Invalid pallet::call, expect Call ident as in `impl<..> Call for Module<..> { .. }`".to_owned(),
            DiagnosticKind::ExpectedCallKeyword => "expected `Call`".to_owned(),
            DiagnosticKind::OnlyMethods => "Invalid pallet::call, only method accepted".to_owned(),
            DiagnosticKind::MissingOrigin => "Invalid pallet::call, must have at least origin arg".to_owned(),
            DiagnosticKind::MissingReturnType =>
                "Invalid pallet::call, require return type DispatchResultWithPostInfo".to_owned(),
            DiagnosticKind::ExpectedReturnKeyword => "expected `DispatchResultWithPostInfo`".to_owned(),
            DiagnosticKind::MissingWeight =>
                "Invalid pallet::call, require weight attribute i.e. `#[pallet::weight]`".to_owned(),
            DiagnosticKind::TooManyWeights => "Invalid pallet::call, too many weight attributes given".to_owned(),
            DiagnosticKind::TooManyArgAttrs => "Invalid pallet::call, argument has too many attributes".to_owned(),
            DiagnosticKind::ArgNotIdent => "Invalid pallet::call, argument must be ident".to_owned(),
            DiagnosticKind::MalformedWeightAttr => "expected `#[pallet::weight = expr]`".to_owned(),
            DiagnosticKind::MalformedCompactAttr => "expected `#[pallet::compact]`".to_owned(),
            DiagnosticKind::ExpectedEnum => "Invalid pallet::error, expect item enum".to_owned(),
            DiagnosticKind::ErrorNotPublic => "Invalid pallet::error, `Error` must be public".to_owned(),
            DiagnosticKind::UnexpectedWhereClause => "Invalid pallet::error, unexpected where clause".to_owned(),
            DiagnosticKind::ExpectedErrorKeyword => "expected `Error`".to_owned(),
            DiagnosticKind::VariantHasFields =>
                "Invalid pallet::error, unexpected fields, must be `Unit`".to_owned(),
            DiagnosticKind::VariantHasDiscriminant =>
                "Invalid pallet::error, unexpected discriminant, discriminant are not supported".to_owned(),
            DiagnosticKind::External(m) => m.clone(),
        }
    }
}

/// An identifier and where it stands.
#[derive(Clone, Debug, PartialEq, Eq)]
pub struct Ident {
    pub name: String,
    pub span: Span,
}

/// A type or a path, as its token text.
#[derive(Clone, Debug, PartialEq, Eq)]
pub struct TypeRef {
    pub text: String,
    pub span: Span,
}

/// The token text after `=` in an attribute, with what syn made of it.
#[derive(Clone, Debug, PartialEq, Eq)]
pub struct AttrValue {
    pub text: String,
    /// Whether syn parsed the text as one expression.
    pub is_expr: bool,
    /// Whether syn parsed the text as one literal.
    pub is_lit: bool,
}

/// What follows an attribute's path.
#[derive(Clone, Debug, PartialEq, Eq)]
pub enum AttrArgs {
    /// `#[path]`
    Empty,
    /// `#[path = tokens]`
    Value(AttrValue),
    /// `#[path(tokens)]` or any other form, with its token text
    Group(String),
}

/// An attribute `#[...]` or `#![...]`.
#[derive(Clone, Debug, PartialEq, Eq)]
pub struct Attribute {
    /// Whether it is an inner attribute `#![...]`.
    pub is_inner: bool,
    /// Whether the path starts with `::`.
    pub leading_colon: bool,
    pub path: Vec<String>,
    pub args: AttrArgs,
    pub span: Span,
}

/// The binding pattern of a function argument.
#[derive(Clone, Debug, PartialEq, Eq)]
pub enum Pat {
    Ident(Ident),
    /// A destructuring or other non-identifier pattern.
    Other(Span),
}

/// A typed function argument `#[attrs] pat: ty`.
#[derive(Clone, Debug, PartialEq, Eq)]
pub struct FnArg {
    pub attrs: Vec<Attribute>,
    pub pat: Pat,
    pub ty: TypeRef,
    pub span: Span,
}

/// A method of an implementation block.
#[derive(Debug, PartialEq, Eq)]
pub struct ImplItemMethod {
    pub attrs: Vec<Attribute>,
    pub ident: Ident,
    pub sig_span: Span,
    pub inputs_span: Span,
    pub inputs: Vec<FnArg>,
    /// Verdict of the dispatchable-origin check on the first argument.
    pub origin_check: Result<(), Diagnostic>,
    /// The declared return type; `None` where it is left out.
    pub output: Option<TypeRef>,
}

/// A member of an implementation block.
#[derive(Debug, PartialEq, Eq)]
pub enum ImplItem {
    Method(ImplItemMethod),
    /// A constant, a type alias or anything else that is no method.
    Other(Span),
}

/// An implementation block `impl<..> Trait for SelfTy<..> { .. }`.
#[derive(Debug, PartialEq, Eq)]
pub struct ItemImpl {
    pub attrs: Vec<Attribute>,
    pub span: Span,
    /// Verdict of the instance-usage checker on the block's generics.
    pub generics_usage: Result<InstanceUsage, Diagnostic>,
    pub trait_: Option<TypeRef>,
    pub self_ty: TypeRef,
    /// Verdict of the instance-usage checker on the self type.
    pub self_ty_usage: Result<InstanceUsage, Diagnostic>,
    pub items: Vec<ImplItem>,
}

/// What an enum variant carries.
#[derive(Clone, Debug, PartialEq, Eq)]
pub enum Fields {
    Unit,
    Named(Span),
    Unnamed(Span),
}

/// A variant `#[attrs] Ident fields = discriminant`.
#[derive(Clone, Debug, PartialEq, Eq)]
pub struct Variant {
    pub attrs: Vec<Attribute>,
    pub ident: Ident,
    pub fields: Fields,
    /// The span of the `=` that introduces a discriminant, where there is one.
    pub discriminant: Option<Span>,
}

/// An enumeration.
#[derive(Debug, PartialEq, Eq)]
pub struct ItemEnum {
    pub attrs: Vec<Attribute>,
    pub span: Span,
    /// Whether the visibility is exactly `pub`.
    pub is_public: bool,
    pub ident: Ident,
    /// Verdict of the instance-usage checker on the enum's generics.
    pub generics_usage: Result<InstanceUsage, Diagnostic>,
    /// The span of the where clause, where there is one.
    pub where_clause: Option<Span>,
    pub variants: Vec<Variant>,
}

/// A module item handed to a validator.
#[derive(Debug, PartialEq, Eq)]
pub enum Item {
    Impl(ItemImpl),
    Enum(ItemEnum),
    Other(Span),
}

pub open spec fn item_span(item: Item) -> Span {
    match item {
        Item::Impl(i) => i.span,
        Item::Enum(e) => e.span,
        Item::Other(s) => s,
    }
}

/// Whether `s` holds exactly the characters of `lit`.
pub fn text_is(s: &String, lit: &str) -> (r: bool)
    ensures
        r == (s@ == lit@),
{
    let l: String = lit.to_owned();
    s.eq(&l)
}

/// A copy of an identifier.
pub fn copy_ident(i: &Ident) -> (r: Ident)
    ensures
        r == *i,
{
    Ident { name: i.name.clone(), span: i.span }
}

/// A copy of a type reference.
pub fn copy_type_ref(t: &TypeRef) -> (r: TypeRef)
    ensures
        r == *t,
{
    TypeRef { text: t.text.clone(), span: t.span }
}

/// A copy of a diagnostic.
pub fn copy_diagnostic(d: &Diagnostic) -> (r: Diagnostic)
    ensures
        r == *d,
{
    let kind = match &d.kind {
        DiagnosticKind::ExpectedImpl => DiagnosticKind::ExpectedImpl,
        DiagnosticKind::MissingCallTrait => DiagnosticKind::MissingCallTrait,
        DiagnosticKind::ExpectedCallKeyword => DiagnosticKind::ExpectedCallKeyword,
        DiagnosticKind::OnlyMethods => DiagnosticKind::OnlyMethods,
        DiagnosticKind::MissingOrigin => DiagnosticKind::MissingOrigin,
        DiagnosticKind::MissingReturnType => DiagnosticKind::MissingReturnType,
        DiagnosticKind::ExpectedReturnKeyword => DiagnosticKind::ExpectedReturnKeyword,
        DiagnosticKind::MissingWeight => DiagnosticKind::MissingWeight,
        DiagnosticKind::TooManyWeights => DiagnosticKind::TooManyWeights,
        DiagnosticKind::TooManyArgAttrs => DiagnosticKind::TooManyArgAttrs,
        DiagnosticKind::ArgNotIdent => DiagnosticKind::ArgNotIdent,
        DiagnosticKind::MalformedWeightAttr => DiagnosticKind::MalformedWeightAttr,
        DiagnosticKind::MalformedCompactAttr => DiagnosticKind::MalformedCompactAttr,
        DiagnosticKind::ExpectedEnum => DiagnosticKind::ExpectedEnum,
        DiagnosticKind::ErrorNotPublic => DiagnosticKind::ErrorNotPublic,
        DiagnosticKind::UnexpectedWhereClause => DiagnosticKind::UnexpectedWhereClause,
        DiagnosticKind::ExpectedErrorKeyword => DiagnosticKind::ExpectedErrorKeyword,
        DiagnosticKind::VariantHasFields => DiagnosticKind::VariantHasFields,
        DiagnosticKind::VariantHasDiscriminant => DiagnosticKind::VariantHasDiscriminant,
        DiagnosticKind::External(m) => DiagnosticKind::External(m.clone()),
    };
    Diagnostic { kind, span: d.span }
}

} // verus!
