//! Tests of the accumulator-directive parser and of per-field descriptor
//! construction: the accepted `builder(each = "...")` form, every malformed
//! variation, foreign annotations, and the repeated-shape requirement.

use builder::error::DeriveError;
use builder::field::AnnBody;
use builder::field::AnnDelim;
use builder::field::AnnStyle;
use builder::field::Annotation;
use builder::field::AttrToken;
use builder::field::Field;
use builder::field::FieldAttrInner;
use builder::field::FieldAttribute;
use builder::field::FieldSyntax;
use builder::field::GenericArg;
use builder::field::PathArgs;
use builder::field::PathSegment;
use builder::field::PathType;
use builder::field::TypeExpr;

fn simple_ty(name: &str) -> TypeExpr {
    TypeExpr {
        text: name.to_string(),
        path: Some(PathType {
            leading_colon: false,
            segments: vec![PathSegment { ident: name.to_string(), arguments: PathArgs::Bare }],
        }),
    }
}

fn vec_ty(inner: &str) -> TypeExpr {
    TypeExpr {
        text: format!("Vec<{}>", inner),
        path: Some(PathType {
            leading_colon: false,
            segments: vec![PathSegment {
                ident: "Vec".to_string(),
                arguments: PathArgs::AngleBracketed(vec![GenericArg::TypeArg(simple_ty(inner))]),
            }],
        }),
    }
}

fn each_tokens(value: &str) -> Vec<AttrToken> {
    vec![
        AttrToken::Ident("each".to_string()),
        AttrToken::Punct('='),
        AttrToken::StrLit(value.to_string()),
    ]
}

fn directive(value: &str) -> Annotation {
    Annotation {
        style: AnnStyle::Outer,
        path: vec!["builder".to_string()],
        body: AnnBody::List(AnnDelim::Paren, each_tokens(value)),
    }
}

fn owner() -> String {
    "args".to_string()
}

fn expect_malformed(r: Result<FieldAttribute, DeriveError>) {
    match r {
        Err(e) => {
            assert!(matches!(&e, DeriveError::MalformedDirective { field } if field == "args"));
            assert_eq!(e.message(), "expected `builder(each = \"...\")`");
        }
        Ok(_) => panic!("malformed directive was accepted"),
    }
}

#[test]
fn well_formed_directive_parses() {
    let r = FieldAttribute::parse_attribute(&directive("arg"), &owner());
    match r {
        Ok(fa) => assert_eq!(fa.each, "arg"),
        Err(_) => panic!("well-formed directive was rejected"),
    }
}

#[test]
fn underscore_prefixed_and_digit_bearing_names_parse() {
    assert!(FieldAttribute::parse_attribute(&directive("_arg"), &owner()).is_ok());
    assert!(FieldAttribute::parse_attribute(&directive("a1"), &owner()).is_ok());
    assert!(FieldAttribute::parse_attribute(&directive("B"), &owner()).is_ok());
}

#[test]
fn key_other_than_each_fails() {
    let a = Annotation {
        style: AnnStyle::Outer,
        path: vec!["builder".to_string()],
        body: AnnBody::List(
            AnnDelim::Paren,
            vec![
                AttrToken::Ident("every".to_string()),
                AttrToken::Punct('='),
                AttrToken::StrLit("x".to_string()),
            ],
        ),
    };
    expect_malformed(FieldAttribute::parse_attribute(&a, &owner()));
}

#[test]
fn missing_equals_sign_fails() {
    // models `builder(each("x"))`: the parenthesized group is one opaque token
    let a = Annotation {
        style: AnnStyle::Outer,
        path: vec!["builder".to_string()],
        body: AnnBody::List(
            AnnDelim::Paren,
            vec![AttrToken::Ident("each".to_string()), AttrToken::Opaque],
        ),
    };
    expect_malformed(FieldAttribute::parse_attribute(&a, &owner()));
}

#[test]
fn trailing_tokens_fail() {
    let mut toks = each_tokens("x");
    toks.push(AttrToken::Punct(','));
    let a = Annotation {
        style: AnnStyle::Outer,
        path: vec!["builder".to_string()],
        body: AnnBody::List(AnnDelim::Paren, toks),
    };
    expect_malformed(FieldAttribute::parse_attribute(&a, &owner()));
}

#[test]
fn invalid_identifier_values_fail() {
    for bad in ["", "_", "1x", "a b", "with-dash", "a!"] {
        expect_malformed(FieldAttribute::parse_attribute(&directive(bad), &owner()));
    }
}

#[test]
fn inner_style_fails() {
    let a = Annotation {
        style: AnnStyle::Inner,
        path: vec!["builder".to_string()],
        body: AnnBody::List(AnnDelim::Paren, each_tokens("x")),
    };
    expect_malformed(FieldAttribute::parse_attribute(&a, &owner()));
}

#[test]
fn wrong_delimiter_fails() {
    for delim in [AnnDelim::Bracket, AnnDelim::Brace] {
        let a = Annotation {
            style: AnnStyle::Outer,
            path: vec!["builder".to_string()],
            body: AnnBody::List(delim, each_tokens("x")),
        };
        expect_malformed(FieldAttribute::parse_attribute(&a, &owner()));
    }
}

#[test]
fn bare_and_name_value_bodies_fail() {
    for body in [AnnBody::Bare, AnnBody::NameValue] {
        let a = Annotation {
            style: AnnStyle::Outer,
            path: vec!["builder".to_string()],
            body,
        };
        expect_malformed(FieldAttribute::parse_attribute(&a, &owner()));
    }
}

#[test]
fn field_attr_inner_reads_raw_pair() {
    let inner = FieldAttrInner::parse(&each_tokens("value")).expect("shape fits");
    assert_eq!(inner.key, "each");
    assert_eq!(inner.val, "value");
    assert!(FieldAttrInner::parse(&vec![AttrToken::Ident("each".to_string())]).is_none());
    assert!(FieldAttrInner::parse(&vec![
        AttrToken::StrLit("each".to_string()),
        AttrToken::Punct('='),
        AttrToken::StrLit("v".to_string()),
    ])
    .is_none());
    assert!(FieldAttrInner::parse(&vec![
        AttrToken::Ident("each".to_string()),
        AttrToken::Punct(':'),
        AttrToken::StrLit("v".to_string()),
    ])
    .is_none());
}

#[test]
fn foreign_annotations_are_ignored() {
    // a malformed-looking annotation under another name is not a directive
    let foreign = Annotation {
        style: AnnStyle::Outer,
        path: vec!["serde".to_string()],
        body: AnnBody::List(AnnDelim::Paren, vec![AttrToken::Opaque]),
    };
    let f = FieldSyntax {
        ident: "name".to_string(),
        ty: simple_ty("String"),
        attrs: vec![foreign],
    };
    let d = Field::parse_field(f).expect("foreign annotation must be ignored");
    assert!(d.attrs.is_none());
    assert!(d.ty.is_raw());
    assert_eq!(d.ident, "name");
}

#[test]
fn multi_segment_annotation_name_is_ignored() {
    let foreign = Annotation {
        style: AnnStyle::Outer,
        path: vec!["builder".to_string(), "extra".to_string()],
        body: AnnBody::List(AnnDelim::Paren, each_tokens("x")),
    };
    let f = FieldSyntax {
        ident: "items".to_string(),
        ty: vec_ty("u8"),
        attrs: vec![foreign],
    };
    let d = Field::parse_field(f).expect("multi-segment name is not the marker");
    assert!(d.attrs.is_none());
}

#[test]
fn only_first_directive_annotation_counts() {
    let f = FieldSyntax {
        ident: "items".to_string(),
        ty: vec_ty("u8"),
        attrs: vec![directive("first"), directive("second")],
    };
    let d = Field::parse_field(f).expect("first directive is well formed");
    match d.attrs {
        Some(fa) => assert_eq!(fa.each, "first"),
        None => panic!("directive was dropped"),
    }
}

#[test]
fn malformed_first_directive_fails_even_with_later_valid_one() {
    let malformed = Annotation {
        style: AnnStyle::Outer,
        path: vec!["builder".to_string()],
        body: AnnBody::Bare,
    };
    let f = FieldSyntax {
        ident: "items".to_string(),
        ty: vec_ty("u8"),
        attrs: vec![malformed, directive("item")],
    };
    match Field::parse_field(f) {
        Err(DeriveError::MalformedDirective { field }) => assert_eq!(field, "items"),
        _ => panic!("first (malformed) directive must decide"),
    }
}

#[test]
fn directive_on_scalar_field_is_shape_mismatch() {
    let f = FieldSyntax {
        ident: "name".to_string(),
        ty: simple_ty("String"),
        attrs: vec![directive("part")],
    };
    match Field::parse_field(f) {
        Err(e) => {
            assert!(matches!(&e, DeriveError::DirectiveShapeMismatch { field } if field == "name"));
            assert_eq!(e.message(), "`builder(each = \"...\")` can only be used for `Vec<T>`");
        }
        Ok(_) => panic!("directive on a scalar field must be rejected"),
    }
}

#[test]
fn directive_on_optional_field_is_shape_mismatch() {
    let ty = TypeExpr {
        text: "Option<String>".to_string(),
        path: Some(PathType {
            leading_colon: false,
            segments: vec![PathSegment {
                ident: "Option".to_string(),
                arguments: PathArgs::AngleBracketed(vec![GenericArg::TypeArg(simple_ty(
                    "String",
                ))]),
            }],
        }),
    };
    let f = FieldSyntax {
        ident: "maybe".to_string(),
        ty,
        attrs: vec![directive("one")],
    };
    assert!(matches!(
        Field::parse_field(f),
        Err(DeriveError::DirectiveShapeMismatch { .. })
    ));
}

#[test]
fn directive_on_repeated_field_is_accepted() {
    let f = FieldSyntax {
        ident: "args".to_string(),
        ty: vec_ty("String"),
        attrs: vec![directive("arg")],
    };
    let d = Field::parse_field(f).expect("repeated field takes a directive");
    assert!(d.ty.is_vec_wrapped());
    match d.attrs {
        Some(fa) => assert_eq!(fa.each, "arg"),
        None => panic!("directive was dropped"),
    }
}
