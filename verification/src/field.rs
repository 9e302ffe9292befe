//! Per-field analysis: the model of a field's declared type and annotations
//! as handed over by the host language's parser, the type-shape classifier,
//! and the accumulator-directive parser.  Their results are merged into a
//! [`Field`] descriptor, the unit all code synthesis works from.

use crate::error::DeriveError;
use vstd::pervasive::unreached;
use vstd::prelude::*;
use vstd::string::StrSliceExecFns;
use vstd::string::StringExecFns;

verus! {

// ---------------------------------------------------------------------------
// The type-expression model
// ---------------------------------------------------------------------------

/// A field's declared type, as delivered by the host parser.
///
/// `text` is the verbatim source form of the whole type; it is never
/// inspected, only carried through for re-emission.  `path` is present
/// exactly when the type is a plain path type without a qualified-self
/// prefix; it drives shape recognition and nothing else.
pub struct TypeExpr {
    /// Verbatim source rendering of the type, kept for re-emission.
    pub text: String,
    /// Structural view of a plain (non-qualified-self) path type.
    pub path: Option<PathType>,
}

/// The structure of a plain path type such as `Vec<String>` or `a::b::C`.
pub struct PathType {
    /// Whether the path starts with a leading `::` (absolute path).
    pub leading_colon: bool,
    /// The `::`-separated segments, in order.
    pub segments: Vec<PathSegment>,
}

/// One segment of a path type: an identifier with optional generic arguments.
pub struct PathSegment {
    pub ident: String,
    pub arguments: PathArgs,
}

/// The generic arguments attached to one path segment.
pub enum PathArgs {
    /// No argument list at all, as in `String`.
    Bare,
    /// Angle-bracketed arguments, as in `Vec<u8>` or `Map<K, V>`.
    AngleBracketed(Vec<GenericArg>),
    /// Parenthesized arguments, as in `Fn(A) -> B`.
    Parenthesized,
}

/// One angle-bracketed generic argument.
pub enum GenericArg {
    /// A type argument; the only kind shape recognition can extract.
    TypeArg(TypeExpr),
    /// Anything else (a lifetime, a const argument, a binding).
    Opaque,
}

// ---------------------------------------------------------------------------
// The type-shape classifier
// ---------------------------------------------------------------------------

/// The semantic shape of a field's declared type: a recognized optional
/// wrapper, a recognized repeated/list wrapper, or an opaque scalar.
/// Wrapped variants keep the extracted inner type; `Raw` keeps the original
/// type expression unmodified.
pub enum FieldTypeKind {
    OptionWrapped(TypeExpr),
    VecWrapped(TypeExpr),
    Raw(TypeExpr),
}

/// Does `t` have the shape `name<T>` for exactly one type argument `T`,
/// where `name` is a single bare path segment (no qualified-self prefix, no
/// module path, no leading `::`)?
pub open spec fn wrapper_shaped(t: TypeExpr, name: Seq<char>) -> bool {
    match t.path {
        Option::Some(p) => {
            &&& !p.leading_colon
            &&& p.segments@.len() == 1
            &&& p.segments@[0].ident@ == name
            &&& (match p.segments@[0].arguments {
                PathArgs::AngleBracketed(args) => {
                    &&& args@.len() == 1
                    &&& (match args@[0] {
                        GenericArg::TypeArg(_) => true,
                        GenericArg::Opaque => false,
                    })
                },
                _ => false,
            })
        },
        Option::None => false,
    }
}

/// The single type argument of a wrapper-shaped type.  Meaningful only when
/// `wrapper_shaped(t, _)` holds for some name; `t` itself otherwise.
pub open spec fn wrapper_inner(t: TypeExpr) -> TypeExpr {
    match t.path {
        Option::Some(p) => match p.segments@[0].arguments {
            PathArgs::AngleBracketed(args) => match args@[0] {
                GenericArg::TypeArg(inner) => inner,
                GenericArg::Opaque => t,
            },
            _ => t,
        },
        Option::None => t,
    }
}

/// What classification returns for `t`: the two recognized wrappers are
/// matched by bare name, case-sensitively; every other shape — the same
/// name with zero or several arguments, a module-qualified or absolute
/// path, a qualified-self type, a non-path type — falls back to `Raw`
/// with the original expression retained.  Classification never fails.
pub open spec fn classified(t: TypeExpr) -> FieldTypeKind {
    if wrapper_shaped(t, "Option"@) {
        FieldTypeKind::OptionWrapped(wrapper_inner(t))
    } else if wrapper_shaped(t, "Vec"@) {
        FieldTypeKind::VecWrapped(wrapper_inner(t))
    } else {
        FieldTypeKind::Raw(t)
    }
}

impl FieldTypeKind {
    /// Classify a declared type: recognize `Option<T>` and `Vec<T>` by bare
    /// textual name and extract the inner type; anything else degrades to
    /// `Raw` with the unmodified input.
    pub fn parse(ty: TypeExpr) -> (r: FieldTypeKind)
        ensures
            r == classified(ty),
    {
        // First decide the shape by inspection only: 1 for the optional
        // wrapper, 2 for the repeated wrapper, 0 for everything else.
        let wrapper: u8 = match &ty.path {
            Option::Some(p) => {
                if p.leading_colon || p.segments.len() != 1 {
                    0u8
                } else {
                    let seg = &p.segments[0];
                    let single_type_arg: bool = match &seg.arguments {
                        PathArgs::AngleBracketed(args) => args.len() == 1 && (match &args[0] {
                            GenericArg::TypeArg(_) => true,
                            GenericArg::Opaque => false,
                        }),
                        _ => false,
                    };
                    if !single_type_arg {
                        0u8
                    } else if seg.ident == String::from_str("Option") {
                        1u8
                    } else if seg.ident == String::from_str("Vec") {
                        2u8
                    } else {
                        0u8
                    }
                }
            },
            Option::None => 0u8,
        };
        if wrapper == 0 {
            return FieldTypeKind::Raw(ty);
        }
        proof {
            assert(wrapper == 1 ==> wrapper_shaped(ty, "Option"@));
            assert(wrapper == 2 ==> wrapper_shaped(ty, "Vec"@) && !wrapper_shaped(
                ty,
                "Option"@,
            ));
        }
        // The shape is established; extract the inner type argument.
        let TypeExpr { text: _, path } = ty;
        let p = match path {
            Option::Some(p) => p,
            Option::None => unreached(),
        };
        let mut segments = p.segments;
        let seg = match segments.pop() {
            Option::Some(s) => s,
            Option::None => unreached(),
        };
        let mut args = match seg.arguments {
            PathArgs::AngleBracketed(a) => a,
            _ => unreached(),
        };
        let ga = match args.pop() {
            Option::Some(g) => g,
            Option::None => unreached(),
        };
        let inner = match ga {
            GenericArg::TypeArg(t) => t,
            GenericArg::Opaque => unreached(),
        };
        if wrapper == 1 {
            FieldTypeKind::OptionWrapped(inner)
        } else {
            FieldTypeKind::VecWrapped(inner)
        }
    }

    /// The extracted inner type for the wrapped shapes, the original type
    /// for `Raw`.
    pub fn as_inner(&self) -> (r: &TypeExpr)
        ensures
            (match self {
                FieldTypeKind::OptionWrapped(t) => r == t,
                FieldTypeKind::VecWrapped(t) => r == t,
                FieldTypeKind::Raw(t) => r == t,
            }),
    {
        match self {
            FieldTypeKind::OptionWrapped(t) => t,
            FieldTypeKind::VecWrapped(t) => t,
            FieldTypeKind::Raw(t) => t,
        }
    }

    /// Like [`Self::as_inner`], consuming the classification.
    pub fn into_inner(self) -> (r: TypeExpr)
        ensures
            (match self {
                FieldTypeKind::OptionWrapped(t) => r == t,
                FieldTypeKind::VecWrapped(t) => r == t,
                FieldTypeKind::Raw(t) => r == t,
            }),
    {
        match self {
            FieldTypeKind::OptionWrapped(t) => t,
            FieldTypeKind::VecWrapped(t) => t,
            FieldTypeKind::Raw(t) => t,
        }
    }

    pub fn is_raw(&self) -> (r: bool)
        ensures
            r == (self matches FieldTypeKind::Raw(_)),
    {
        match self {
            FieldTypeKind::Raw(_) => true,
            _ => false,
        }
    }

    pub fn is_vec_wrapped(&self) -> (r: bool)
        ensures
            r == (self matches FieldTypeKind::VecWrapped(_)),
    {
        match self {
            FieldTypeKind::VecWrapped(_) => true,
            _ => false,
        }
    }

    pub fn is_opt_wrapped(&self) -> (r: bool)
        ensures
            r == (self matches FieldTypeKind::OptionWrapped(_)),
    {
        match self {
            FieldTypeKind::OptionWrapped(_) => true,
            _ => false,
        }
    }
}

// ---------------------------------------------------------------------------
// The annotation model
// ---------------------------------------------------------------------------

/// Whether an annotation applies to the item it is written on (`#[...]`) or
/// to the enclosing scope (`#![...]`).  Only the outer style is accepted for
/// directives.
pub enum AnnStyle {
    Outer,
    Inner,
}

/// The delimiter of an annotation's argument list.
pub enum AnnDelim {
    Paren,
    Bracket,
    Brace,
}

/// One token of an annotation's argument list.  Only identifiers, single
/// punctuation characters and string literals take part in directive
/// parsing; everything else (a group, a non-string literal) is opaque.
pub enum AttrToken {
    Ident(String),
    Punct(char),
    StrLit(String),
    Opaque,
}

/// The body of an annotation after its path.
pub enum AnnBody {
    /// No body at all, as in `#[marker]`.
    Bare,
    /// A `name = value` body, as in `#[doc = "..."]`.  The value plays no
    /// part in directive parsing and is not kept.
    NameValue,
    /// A delimited argument list, as in `#[builder(...)]`.
    List(AnnDelim, Vec<AttrToken>),
}

/// One annotation on a field, as delivered by the host parser.
pub struct Annotation {
    pub style: AnnStyle,
    /// The `::`-separated segments of the annotation's name.
    pub path: Vec<String>,
    pub body: AnnBody,
}

// ---------------------------------------------------------------------------
// Identifier validity
// ---------------------------------------------------------------------------

/// May `c` start an identifier?
pub open spec fn ident_start_char(c: char) -> bool {
    ||| c == '_'
    ||| ('a' as u32) <= (c as u32) && (c as u32) <= ('z' as u32)
    ||| ('A' as u32) <= (c as u32) && (c as u32) <= ('Z' as u32)
}

/// May `c` continue an identifier?
pub open spec fn ident_continue_char(c: char) -> bool {
    ||| ident_start_char(c)
    ||| ('0' as u32) <= (c as u32) && (c as u32) <= ('9' as u32)
}

/// Is `s` a valid identifier for a generated method: nonempty, an
/// identifier-start character followed by identifier-continue characters,
/// and not the bare underscore?  Reserved words are not screened here; a
/// generated method named by one is rejected by the host compiler when the
/// synthesized code is compiled.
pub open spec fn is_ident_seq(s: Seq<char>) -> bool {
    &&& s.len() > 0
    &&& ident_start_char(s[0])
    &&& (forall|i: int| 1 <= i < s.len() ==> ident_continue_char(#[trigger] s[i]))
    &&& !(s.len() == 1 && s[0] == '_')
}

fn ident_start_exec(c: char) -> (r: bool)
    ensures
        r == ident_start_char(c),
{
    c == '_' || ((c as u32) >= ('a' as u32) && (c as u32) <= ('z' as u32)) || ((c as u32) >= (
    'A' as u32) && (c as u32) <= ('Z' as u32))
}

fn ident_continue_exec(c: char) -> (r: bool)
    ensures
        r == ident_continue_char(c),
{
    ident_start_exec(c) || ((c as u32) >= ('0' as u32) && (c as u32) <= ('9' as u32))
}

/// Check identifier validity of a candidate accumulator-method name.
pub fn is_ident(s: &str) -> (r: bool)
    ensures
        r == is_ident_seq(s@),
{
    let n = s.unicode_len();
    if n == 0 {
        return false;
    }
    let c0 = s.get_char(0);
    if !ident_start_exec(c0) {
        return false;
    }
    if n == 1 && c0 == '_' {
        return false;
    }
    let mut i: usize = 1;
    while i < n
        invariant
            1 <= i <= n,
            n == s@.len(),
            forall|k: int| 1 <= k < i ==> ident_continue_char(#[trigger] s@[k]),
        decreases n - i,
    {
        let c = s.get_char(i);
        if !ident_continue_exec(c) {
            return false;
        }
        i += 1;
    }
    true
}

// ---------------------------------------------------------------------------
// The accumulator directive
// ---------------------------------------------------------------------------

/// A parsed accumulator directive: the field requests a per-element append
/// method named `each`.
pub struct FieldAttribute {
    pub each: String,
}

/// The raw `key = "value"` pair inside a directive's parentheses, before
/// the key and the value have been validated.
pub struct FieldAttrInner {
    pub key: String,
    pub val: String,
}

/// Is this annotation named by the directive marker `builder` (a single
/// bare path segment)?  Annotations with any other name are not directives
/// and are ignored.
pub open spec fn is_builder_ann(a: Annotation) -> bool {
    a.path@.len() == 1 && a.path@[0]@ == "builder"@
}

/// No annotation of the field is named by the directive marker.
pub open spec fn no_builder_ann(attrs: Seq<Annotation>) -> bool {
    forall|k: int| 0 <= k < attrs.len() ==> !is_builder_ann(#[trigger] attrs[k])
}

/// `i` is the index of the first directive-named annotation; only that one
/// is consulted, any later one is dropped.
pub open spec fn first_builder_at(attrs: Seq<Annotation>, i: int) -> bool {
    &&& 0 <= i < attrs.len()
    &&& is_builder_ann(attrs[i])
    &&& (forall|k: int| 0 <= k < i ==> !is_builder_ann(#[trigger] attrs[k]))
}

/// The token-level shape a directive body must have: exactly an identifier,
/// an `=` sign and a string literal.
pub open spec fn body_shape_ok(toks: Seq<AttrToken>) -> bool {
    &&& toks.len() == 3
    &&& (toks[0] matches AttrToken::Ident(_))
    &&& (toks[1] matches AttrToken::Punct(c) && c == '=')
    &&& (toks[2] matches AttrToken::StrLit(_))
}

/// A directive-named annotation is well formed when it is outer-style, its
/// body is a parenthesized list of the shape `key = "value"`, the key is
/// exactly `each`, and the value is a valid identifier.
pub open spec fn directive_wf(a: Annotation) -> bool {
    &&& (a.style matches AnnStyle::Outer)
    &&& (a.body matches AnnBody::List(d, toks) && (d matches AnnDelim::Paren) && {
        &&& toks@.len() == 3
        &&& (toks@[0] matches AttrToken::Ident(k) && k@ == "each"@)
        &&& (toks@[1] matches AttrToken::Punct(c) && c == '=')
        &&& (toks@[2] matches AttrToken::StrLit(v) && is_ident_seq(v@))
    })
}

/// `each` is the accumulator name the annotation `a` requests (the string
/// literal in its body).
pub open spec fn directive_names(a: Annotation, each: String) -> bool {
    a.body matches AnnBody::List(_, toks) && toks@.len() == 3 && (toks@[2] matches
        AttrToken::StrLit(v) &&
    each == v)
}

impl FieldAttrInner {
    /// Read the raw `key = "value"` pair from a directive's argument list,
    /// if the tokens have exactly that shape.
    pub fn parse(toks: &Vec<AttrToken>) -> (r: Option<FieldAttrInner>)
        ensures
            (r matches Option::Some(_)) <==> body_shape_ok(toks@),
            (r matches Option::Some(inner) ==> (toks@[0] matches AttrToken::Ident(k) && inner.key
                == k) && (toks@[2] matches AttrToken::StrLit(v) && inner.val == v)),
    {
        if toks.len() != 3 {
            return Option::None;
        }
        let key = match &toks[0] {
            AttrToken::Ident(s) => s.clone(),
            _ => { return Option::None },
        };
        match &toks[1] {
            AttrToken::Punct(c) => if *c != '=' {
                return Option::None;
            },
            _ => { return Option::None },
        }
        let val = match &toks[2] {
            AttrToken::StrLit(s) => s.clone(),
            _ => { return Option::None },
        };
        Option::Some(FieldAttrInner { key, val })
    }
}

impl FieldAttribute {
    /// Validate one directive-named annotation on the field named `owner`.
    ///
    /// The annotation's name has already been matched by the caller; this
    /// checks the directive's form alone and extracts the accumulator name.
    /// Any deviation — inner style, a missing or differently delimited
    /// argument list, a key other than `each`, a value that is not a valid
    /// identifier — is a malformed-directive error naming the owner.
    pub fn parse_attribute(a: &Annotation, owner: &String) -> (r: Result<
        FieldAttribute,
        DeriveError,
    >)
        ensures
            (r matches Ok(_)) <==> directive_wf(*a),
            (r matches Ok(fa) ==> directive_names(*a, fa.each)),
            (r matches Err(e) ==> e matches DeriveError::MalformedDirective { field } && field
                == owner),
    {
        match &a.style {
            AnnStyle::Inner => {
                return Result::Err(DeriveError::MalformedDirective { field: owner.clone() });
            },
            AnnStyle::Outer => {},
        }
        let toks = match &a.body {
            AnnBody::List(AnnDelim::Paren, toks) => toks,
            _ => {
                return Result::Err(DeriveError::MalformedDirective { field: owner.clone() });
            },
        };
        let inner = match FieldAttrInner::parse(toks) {
            Option::Some(inner) => inner,
            Option::None => {
                return Result::Err(DeriveError::MalformedDirective { field: owner.clone() });
            },
        };
        if !(inner.key == String::from_str("each")) {
            return Result::Err(DeriveError::MalformedDirective { field: owner.clone() });
        }
        if !is_ident(inner.val.as_str()) {
            return Result::Err(DeriveError::MalformedDirective { field: owner.clone() });
        }
        Result::Ok(FieldAttribute { each: inner.val })
    }
}

// ---------------------------------------------------------------------------
// The field descriptor
// ---------------------------------------------------------------------------

/// One field of the input record as the host parser hands it over: its
/// name, its declared type, and all its annotations in source order.
pub struct FieldSyntax {
    pub ident: String,
    pub ty: TypeExpr,
    pub attrs: Vec<Annotation>,
}

/// The per-field descriptor all code synthesis works from: the field's
/// name, its classified type shape, and its accumulator directive, if any.
/// Constructed once per field, immutable thereafter.
pub struct Field {
    /// The accumulator directive; present only for repeated fields.
    pub attrs: Option<FieldAttribute>,
    pub ident: String,
    pub ty: FieldTypeKind,
}

/// The field passes derivation: either it carries no directive, or its
/// first directive-named annotation is well formed and the field's shape
/// is repeated.
pub open spec fn field_accepted(f: FieldSyntax) -> bool {
    ||| no_builder_ann(f.attrs@)
    ||| (exists|i: int|
        #[trigger] first_builder_at(f.attrs@, i) && directive_wf(f.attrs@[i]) && (classified(f.ty)
            matches FieldTypeKind::VecWrapped(_)))
}

/// The field's first directive-named annotation is malformed.
pub open spec fn field_malformed(f: FieldSyntax) -> bool {
    exists|i: int| #[trigger] first_builder_at(f.attrs@, i) && !directive_wf(f.attrs@[i])
}

/// The field carries a well-formed directive but its shape is not
/// repeated: a programming-contract violation reported as an error, never
/// as an abort.
pub open spec fn field_mismatched(f: FieldSyntax) -> bool {
    exists|i: int|
        #[trigger] first_builder_at(f.attrs@, i) && directive_wf(f.attrs@[i]) && !(classified(f.ty)
            matches FieldTypeKind::VecWrapped(_))
}

/// The descriptor `d` is what derivation produces for the input field `f`.
pub open spec fn descriptor_matches(f: FieldSyntax, d: Field) -> bool {
    &&& d.ident == f.ident
    &&& d.ty == classified(f.ty)
    &&& ((d.attrs matches Option::None) <==> no_builder_ann(f.attrs@))
    &&& (forall|i: int|
        #[trigger] first_builder_at(f.attrs@, i) ==> (d.attrs matches Option::Some(fa)
            && directive_names(f.attrs@[i], fa.each)))
}

/// The error `e` is what derivation reports for the rejected field `f`.
pub open spec fn field_error_matches(f: FieldSyntax, e: DeriveError) -> bool {
    &&& (field_malformed(f) ==> (e matches DeriveError::MalformedDirective { field } && field
        == f.ident))
    &&& (field_mismatched(f) ==> (e matches DeriveError::DirectiveShapeMismatch { field } && field
        == f.ident))
}

/// Find the first directive-named annotation of the field, if any.
fn find_directive(attrs: &Vec<Annotation>) -> (r: Option<usize>)
    ensures
        (r matches Option::None) ==> no_builder_ann(attrs@),
        (r matches Option::Some(i) ==> first_builder_at(attrs@, i as int)),
{
    let n = attrs.len();
    let mut j: usize = 0;
    while j < n
        invariant
            0 <= j <= n,
            n == attrs@.len(),
            forall|k: int| 0 <= k < j ==> !is_builder_ann(#[trigger] attrs@[k]),
        decreases n - j,
    {
        let a = &attrs[j];
        if a.path.len() == 1 && a.path[0] == String::from_str("builder") {
            return Option::Some(j);
        }
        j += 1;
    }
    Option::None
}

impl Field {
    /// Build the descriptor for one field: classify its declared type,
    /// parse its accumulator directive, and enforce that a directive only
    /// sits on a repeated field.  Errors from either step are propagated
    /// unchanged; the invariant violation is reported, never a crash.
    pub fn parse_field(field: FieldSyntax) -> (r: Result<Field, DeriveError>)
        ensures
            (r matches Ok(_)) <==> field_accepted(field),
            (r matches Ok(d) ==> descriptor_matches(field, d)),
            (r matches Err(e) ==> field_error_matches(field, e)),
    {
        let FieldSyntax { ident, ty, attrs } = field;
        let kind = FieldTypeKind::parse(ty);
        match find_directive(&attrs) {
            Option::None => Result::Ok(Field { attrs: Option::None, ident, ty: kind }),
            Option::Some(i) => {
                let fa = match FieldAttribute::parse_attribute(&attrs[i], &ident) {
                    Result::Ok(fa) => fa,
                    Result::Err(e) => {
                        proof {
                            assert(field_malformed(field));
                            assert(!field_accepted(field));
                            assert(!field_mismatched(field));
                        }
                        return Result::Err(e);
                    },
                };
                if !kind.is_vec_wrapped() {
                    proof {
                        assert(field_mismatched(field));
                        assert(!field_accepted(field));
                        assert(!field_malformed(field));
                    }
                    return Result::Err(DeriveError::DirectiveShapeMismatch { field: ident });
                }
                Result::Ok(Field { attrs: Option::Some(fa), ident, ty: kind })
            },
        }
    }

    /// The construction-time invariant of a descriptor: an accumulator is
    /// present only on a repeated field.
    pub open spec fn wf(self) -> bool {
        (self.attrs matches Option::Some(_)) ==> (self.ty matches FieldTypeKind::VecWrapped(_))
    }
}

} // verus!
