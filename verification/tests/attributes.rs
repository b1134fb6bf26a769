use fvm_contract_ir::attrs::{
    contains_fvm_attributes, first_fvm_attribute, first_fvm_kind, fvm_attributes_of,
    is_fvm_attribute, partition_attributes, sanitize_attributes, Attribute, AttributeArg,
    AttributeArgKind, AttributeFrag, FvmAttribute, Namespace, SelectorOrWildcard,
};
use fvm_contract_ir::error::{Diagnostic, Error, ErrorKind, Span};
use fvm_contract_ir::selector::Selector;
use fvm_contract_ir::syntax::{Literal, RawAttribute, RawMeta, RawTag, TagArgument, TagShape};

fn sp(n: u32) -> Span {
    Span { lo: n, hi: n + 1 }
}

fn tag(name: &str, at: u32) -> RawTag {
    RawTag { shape: TagShape::Path(Some(name.to_string())), span: sp(at) }
}

fn list(name: &str, args: Vec<TagArgument>, at: u32) -> RawTag {
    RawTag { shape: TagShape::List(Some(name.to_string()), args), span: sp(at) }
}

fn fvm(tags: Vec<RawTag>, at: u32) -> RawAttribute {
    RawAttribute {
        name: Some("fvm_macro".to_string()),
        meta: RawMeta::List(tags),
        tokens: "#[fvm_macro(..)]".to_string(),
        span: sp(at),
    }
}

fn other(name: &str, at: u32) -> RawAttribute {
    RawAttribute {
        name: Some(name.to_string()),
        meta: RawMeta::Other,
        tokens: format!("#[{}]", name),
        span: sp(at),
    }
}

fn kinds_of(attr: &FvmAttribute) -> Vec<AttributeArgKind> {
    attr.args().iter().map(|f| f.kind().kind()).collect()
}

fn parts(err: &Error) -> Vec<Diagnostic> {
    (0..err.len()).map(|i| err.part(i)).collect()
}

#[test]
fn every_name_of_the_vocabulary_parses() {
    let cases = [
        ("actor", AttributeArg::Actor, AttributeArgKind::Actor),
        ("state", AttributeArg::State, AttributeArgKind::State),
        ("event", AttributeArg::Event, AttributeArgKind::Event),
        ("anonymous", AttributeArg::Anonymous, AttributeArgKind::Anonymous),
        ("topic", AttributeArg::Topic, AttributeArgKind::Topic),
        ("message", AttributeArg::Message, AttributeArgKind::Message),
        ("constructor", AttributeArg::Constructor, AttributeArgKind::Constructor),
        ("payable", AttributeArg::Payable, AttributeArgKind::Payable),
        ("impl", AttributeArg::Implementation, AttributeArgKind::Implementation),
    ];
    for (name, arg, kind) in cases {
        let frag = AttributeFrag::try_from(&tag(name, 7)).unwrap();
        assert_eq!(frag.arg, arg);
        assert_eq!(frag.kind(), &arg);
        assert_eq!(frag.arg.kind(), kind);
        assert_eq!(frag.span(), sp(7));
    }
}

#[test]
fn unknown_name_is_rejected() {
    for name in ["stat", "states", "State", "", "selector", "namespace", "fvm_macro"] {
        let err = AttributeFrag::try_from(&tag(name, 4)).unwrap_err();
        assert_eq!(parts(&err), vec![Diagnostic { kind: ErrorKind::UnknownArgument, span: sp(4) }]);
    }
}

#[test]
fn unsupported_shapes_are_rejected() {
    let cases = [
        (TagShape::NameValue, ErrorKind::NameValueArgument),
        (TagShape::Path(None), ErrorKind::UnknownPath),
        (TagShape::Literal, ErrorKind::LiteralArgument),
        (TagShape::List(None, vec![TagArgument::Wildcard]), ErrorKind::ListArgument),
        (TagShape::List(Some("selector".to_string()), vec![]), ErrorKind::ListArgument),
        (
            TagShape::List(
                Some("selector".to_string()),
                vec![TagArgument::Wildcard, TagArgument::Wildcard],
            ),
            ErrorKind::ListArgument,
        ),
        (
            TagShape::List(
                Some("selector".to_string()),
                vec![TagArgument::Lit(Literal::ByteStr(vec![1, 2, 3]))],
            ),
            ErrorKind::ListArgument,
        ),
        (
            TagShape::List(
                Some("selector".to_string()),
                vec![TagArgument::Lit(Literal::Str("abcd".to_string()))],
            ),
            ErrorKind::ListArgument,
        ),
        (
            TagShape::List(Some("namespace".to_string()), vec![TagArgument::Wildcard]),
            ErrorKind::ListArgument,
        ),
        (
            TagShape::List(Some("state".to_string()), vec![TagArgument::Other]),
            ErrorKind::ListArgument,
        ),
    ];
    for (shape, kind) in cases {
        let err = AttributeFrag::try_from(&RawTag { shape, span: sp(2) }).unwrap_err();
        assert_eq!(parts(&err), vec![Diagnostic { kind, span: sp(2) }]);
    }
}

#[test]
fn selector_and_namespace_lists_parse() {
    let wildcard = list("selector", vec![TagArgument::Wildcard], 1);
    assert_eq!(
        AttributeFrag::try_from(&wildcard).unwrap().arg,
        AttributeArg::Selector(SelectorOrWildcard::Wildcard)
    );
    let bytes = list("selector", vec![TagArgument::Lit(Literal::ByteStr(vec![0xde, 0xad, 0xbe, 0xef]))], 1);
    let frag = AttributeFrag::try_from(&bytes).unwrap();
    assert_eq!(
        frag.arg,
        AttributeArg::Selector(SelectorOrWildcard::UserProvided(Selector::from_bytes([
            0xde, 0xad, 0xbe, 0xef
        ])))
    );
    assert_eq!(frag.arg.kind(), AttributeArgKind::Selector);
    let ns = list("namespace", vec![TagArgument::Lit(Literal::ByteStr(b"ns".to_vec()))], 1);
    let frag = AttributeFrag::try_from(&ns).unwrap();
    assert_eq!(frag.arg, AttributeArg::Namespace(Namespace::new(b"ns".to_vec())));
    assert_eq!(frag.arg.kind(), AttributeArgKind::Namespace);
}

#[test]
fn namespace_keeps_its_bytes() {
    let ns = Namespace::new(vec![1, 2, 3]);
    assert_eq!(ns.as_bytes(), &[1, 2, 3]);
    assert_eq!(ns.clone().as_bytes(), &[1, 2, 3]);
    assert_eq!(Namespace::default().as_bytes(), &[] as &[u8]);
}

#[test]
fn fvm_attribute_is_told_by_its_path() {
    assert!(is_fvm_attribute(&fvm(vec![tag("state", 1)], 0)));
    assert!(!is_fvm_attribute(&other("derive", 0)));
    assert!(!is_fvm_attribute(&other("fvm_macros", 0)));
    let mut no_ident = fvm(vec![], 0);
    no_ident.name = None;
    assert!(!is_fvm_attribute(&no_ident));
}

#[test]
fn fvm_attribute_parses_its_tags_in_order() {
    let attr = FvmAttribute::try_from(&fvm(vec![tag("message", 1), tag("payable", 2)], 0)).unwrap();
    assert_eq!(kinds_of(&attr), vec![AttributeArgKind::Message, AttributeArgKind::Payable]);
    assert_eq!(attr.clone(), attr);
    assert_eq!(attr.first().arg, AttributeArg::Message);
    assert_eq!(attr.first().span, sp(1));
    assert_eq!(attr.span(), Span { lo: 1, hi: 3 });
    assert!(attr.is_payable());
    assert!(!attr.is_anonymous());
    assert_eq!(attr.selector(), None);
    assert_eq!(attr.namespace(), None);
}

#[test]
fn fvm_attribute_rejections() {
    let err = FvmAttribute::try_from(&other("derive", 5)).unwrap_err();
    assert_eq!(parts(&err), vec![Diagnostic { kind: ErrorKind::NonFvmAttribute, span: sp(5) }]);

    let err = FvmAttribute::try_from(&fvm(vec![], 5)).unwrap_err();
    assert_eq!(parts(&err), vec![Diagnostic { kind: ErrorKind::EmptyAttribute, span: sp(5) }]);

    let mut bare = fvm(vec![], 5);
    bare.meta = RawMeta::Other;
    let err = FvmAttribute::try_from(&bare).unwrap_err();
    assert_eq!(parts(&err), vec![Diagnostic { kind: ErrorKind::UnknownAttribute, span: sp(5) }]);

    let mut broken = fvm(vec![], 5);
    broken.meta = RawMeta::Malformed;
    let err = FvmAttribute::try_from(&broken).unwrap_err();
    assert_eq!(parts(&err), vec![Diagnostic { kind: ErrorKind::AttributeStructure, span: sp(5) }]);

}

#[test]
fn rejected_tags_are_reported_together() {
    let mut tags = vec![tag("state", 1), tag("bogus", 2), tag("payable", 3)];
    tags.push(RawTag { shape: TagShape::Literal, span: sp(4) });
    tags.push(RawTag { shape: TagShape::NameValue, span: sp(5) });
    let err = FvmAttribute::try_from(&fvm(tags, 0)).unwrap_err();
    assert_eq!(
        parts(&err),
        vec![
            Diagnostic { kind: ErrorKind::UnknownArgument, span: sp(2) },
            Diagnostic { kind: ErrorKind::LiteralArgument, span: sp(4) },
            Diagnostic { kind: ErrorKind::NameValueArgument, span: sp(5) },
        ]
    );
}

#[test]
fn first_selector_and_namespace_are_found() {
    let attr = FvmAttribute::try_from(&fvm(
        vec![
            tag("impl", 1),
            list("namespace", vec![TagArgument::Lit(Literal::ByteStr(b"a".to_vec()))], 2),
            list("namespace", vec![TagArgument::Lit(Literal::ByteStr(b"b".to_vec()))], 3),
            list("selector", vec![TagArgument::Wildcard], 4),
            list("selector", vec![TagArgument::Lit(Literal::ByteStr(vec![1, 2, 3, 4]))], 5),
        ],
        0,
    ))
    .unwrap();
    assert_eq!(attr.namespace(), Some(Namespace::new(b"a".to_vec())));
    assert_eq!(attr.selector(), Some(SelectorOrWildcard::Wildcard));
}

#[test]
fn ensure_first_checks_the_first_tag_only() {
    let attr = FvmAttribute::try_from(&fvm(vec![tag("event", 3), tag("anonymous", 8)], 0)).unwrap();
    assert!(attr.is_anonymous());
    assert_eq!(attr.ensure_first(&AttributeArgKind::Event), Ok(()));
    let err = attr.ensure_first(&AttributeArgKind::Anonymous).unwrap_err();
    assert_eq!(
        parts(&err),
        vec![Diagnostic { kind: ErrorKind::UnexpectedFirstArgument, span: Span { lo: 3, hi: 9 } }]
    );
}

#[test]
fn all_conflicts_are_reported_together() {
    let attr = FvmAttribute::try_from(&fvm(
        vec![tag("state", 1), tag("payable", 2), tag("state", 3), tag("topic", 4)],
        0,
    ))
    .unwrap();
    assert_eq!(
        attr.ensure_no_conflicts(&[
            AttributeArgKind::State,
            AttributeArgKind::Payable,
            AttributeArgKind::Topic
        ]),
        Ok(())
    );
    let err = attr.ensure_no_conflicts(&[AttributeArgKind::State]).unwrap_err();
    assert_eq!(
        parts(&err),
        vec![
            Diagnostic { kind: ErrorKind::ConflictingArgument, span: sp(2) },
            Diagnostic { kind: ErrorKind::ConflictingArgument, span: sp(4) },
        ]
    );
    let err = attr.ensure_no_conflicts(&[]).unwrap_err();
    assert_eq!(err.len(), 4);
}

#[test]
fn from_expanded_merges_in_order() {
    let a = FvmAttribute::try_from(&fvm(vec![tag("message", 1)], 0)).unwrap();
    let b = FvmAttribute::try_from(&fvm(vec![tag("payable", 2), tag("topic", 3)], 0)).unwrap();
    let merged = FvmAttribute::from_expanded(vec![a, b]).unwrap();
    assert_eq!(
        kinds_of(&merged),
        vec![AttributeArgKind::Message, AttributeArgKind::Payable, AttributeArgKind::Topic]
    );
    let err = FvmAttribute::from_expanded(vec![]).unwrap_err();
    assert_eq!(
        parts(&err),
        vec![Diagnostic { kind: ErrorKind::EmptyExpansion, span: Span { lo: 0, hi: 0 } }]
    );
}

#[test]
fn attribute_try_from_tells_the_two_apart() {
    match Attribute::try_from(fvm(vec![tag("state", 1)], 0)).unwrap() {
        Attribute::Fvm(attr) => assert_eq!(kinds_of(&attr), vec![AttributeArgKind::State]),
        Attribute::Other(_) => panic!("expected a contract annotation"),
    }
    match Attribute::try_from(other("derive", 3)).unwrap() {
        Attribute::Other(attr) => assert_eq!(attr, other("derive", 3)),
        Attribute::Fvm(_) => panic!("expected another annotation"),
    }
    let err = Attribute::try_from(fvm(vec![tag("bogus", 1)], 0)).unwrap_err();
    assert_eq!(err.kind(), Some(ErrorKind::UnknownArgument));
}

#[test]
fn contains_and_first() {
    let attrs = vec![other("derive", 0), fvm(vec![tag("topic", 2)], 1), fvm(vec![tag("state", 4)], 3)];
    assert!(contains_fvm_attributes(&attrs));
    assert!(!contains_fvm_attributes(&[other("derive", 0)]));
    assert!(!contains_fvm_attributes(&[]));
    let first = first_fvm_attribute(&attrs).unwrap().unwrap();
    assert_eq!(kinds_of(&first), vec![AttributeArgKind::Topic]);
    assert_eq!(first_fvm_attribute(&[other("derive", 0)]), Ok(None));
    assert_eq!(first_fvm_kind(&attrs), Ok(Some(AttributeArgKind::Topic)));
    assert_eq!(first_fvm_kind(&[]), Ok(None));
    let bad = vec![fvm(vec![], 1), fvm(vec![tag("state", 4)], 3)];
    assert_eq!(first_fvm_attribute(&bad).unwrap_err().kind(), Some(ErrorKind::EmptyAttribute));
    assert_eq!(first_fvm_kind(&bad).unwrap_err().kind(), Some(ErrorKind::EmptyAttribute));
}

#[test]
fn partition_keeps_both_orders() {
    let attrs = vec![
        other("a", 0),
        fvm(vec![tag("message", 2)], 1),
        other("b", 3),
        fvm(vec![tag("payable", 5)], 4),
        other("c", 6),
    ];
    let (fvm_attrs, others) = partition_attributes(attrs.clone()).unwrap();
    assert_eq!(fvm_attrs.len(), 2);
    assert_eq!(kinds_of(&fvm_attrs[0]), vec![AttributeArgKind::Message]);
    assert_eq!(kinds_of(&fvm_attrs[1]), vec![AttributeArgKind::Payable]);
    assert_eq!(others, vec![other("a", 0), other("b", 3), other("c", 6)]);
    let by_ref = fvm_attributes_of(&attrs).unwrap();
    assert_eq!(by_ref, fvm_attrs);
}

#[test]
fn rejected_annotations_are_reported_together() {
    let attrs = vec![
        other("a", 0),
        fvm(vec![tag("bogus", 2)], 1),
        fvm(vec![tag("state", 3)], 3),
        fvm(vec![], 4),
    ];
    let expected = vec![
        Diagnostic { kind: ErrorKind::UnknownArgument, span: sp(2) },
        Diagnostic { kind: ErrorKind::EmptyAttribute, span: sp(4) },
    ];
    let err = partition_attributes(attrs.clone()).unwrap_err();
    assert_eq!(parts(&err), expected);
    let err = fvm_attributes_of(&attrs).unwrap_err();
    assert_eq!(parts(&err), expected);
    let err = sanitize_attributes(sp(9), attrs, &AttributeArgKind::State, &[]).unwrap_err();
    assert_eq!(parts(&err), expected);
}

#[test]
fn sanitize_accepts_and_strips() {
    let attrs = vec![other("doc", 0), fvm(vec![tag("message", 2), tag("payable", 3)], 1)];
    let (normalized, others) = sanitize_attributes(
        sp(9),
        attrs,
        &AttributeArgKind::Message,
        &[AttributeArgKind::Message, AttributeArgKind::Payable],
    )
    .unwrap();
    assert_eq!(kinds_of(&normalized), vec![AttributeArgKind::Message, AttributeArgKind::Payable]);
    assert_eq!(others, vec![other("doc", 0)]);
}

#[test]
fn sanitize_rejections() {
    let err = sanitize_attributes(sp(9), vec![other("doc", 0)], &AttributeArgKind::Message, &[])
        .unwrap_err();
    assert_eq!(
        parts(&err),
        vec![
            Diagnostic { kind: ErrorKind::EmptyExpansion, span: Span { lo: 0, hi: 0 } },
            Diagnostic { kind: ErrorKind::AtThisInvocation, span: sp(9) },
        ]
    );
    let err = sanitize_attributes(
        sp(9),
        vec![fvm(vec![tag("payable", 2), tag("message", 3)], 1)],
        &AttributeArgKind::Message,
        &[AttributeArgKind::Message, AttributeArgKind::Payable],
    )
    .unwrap_err();
    assert_eq!(
        parts(&err),
        vec![
            Diagnostic { kind: ErrorKind::UnexpectedFirstArgument, span: Span { lo: 2, hi: 4 } },
            Diagnostic { kind: ErrorKind::AtThisInvocation, span: sp(9) },
        ]
    );
    let err = sanitize_attributes(
        sp(9),
        vec![fvm(vec![tag("message", 2), tag("topic", 3), tag("event", 4)], 1)],
        &AttributeArgKind::Message,
        &[AttributeArgKind::Message, AttributeArgKind::Payable],
    )
    .unwrap_err();
    assert_eq!(
        parts(&err),
        vec![
            Diagnostic { kind: ErrorKind::ConflictingArgument, span: sp(3) },
            Diagnostic { kind: ErrorKind::ConflictingArgument, span: sp(4) },
        ]
    );
    let err = sanitize_attributes(
        sp(9),
        vec![fvm(vec![tag("message", 2)], 1), fvm(vec![], 5)],
        &AttributeArgKind::Message,
        &[AttributeArgKind::Message],
    )
    .unwrap_err();
    assert_eq!(parts(&err), vec![Diagnostic { kind: ErrorKind::EmptyAttribute, span: sp(5) }]);
}

#[test]
fn errors_combine_in_order() {
    let mut e = Error::new(ErrorKind::MissingState, sp(1));
    e.combine(Error::new(ErrorKind::MultipleStates, sp(2)));
    let e = e.into_combine(Error::new(ErrorKind::GenericState, sp(3)));
    assert_eq!(
        parts(&e),
        vec![
            Diagnostic { kind: ErrorKind::MissingState, span: sp(1) },
            Diagnostic { kind: ErrorKind::MultipleStates, span: sp(2) },
            Diagnostic { kind: ErrorKind::GenericState, span: sp(3) },
        ]
    );
    assert_eq!(e.kind(), Some(ErrorKind::MissingState));
    assert_eq!(Error::empty().kind(), None);
    assert_eq!(Error::empty().len(), 0);
    assert_eq!(Span::new(1, 4).join(Span::new(3, 9)), Span { lo: 1, hi: 9 });
    assert_eq!(Span::new(5, 6).join(Span::new(1, 2)), Span { lo: 1, hi: 6 });
}

#[test]
fn diagnostics_carry_their_text() {
    assert_eq!(
        ErrorKind::ConflictingArgument.message(),
        "encountered conflicting fvm attribute argument"
    );
    assert_eq!(
        ErrorKind::UnexpectedFirstArgument.message(),
        "unexpected first fvm attribute argument"
    );
    assert_eq!(ErrorKind::GenericState.message(), "generic fvm state structs are not supported");
    assert_eq!(
        ErrorKind::NamespaceOnTraitImpl.message(),
        "namespace fvm property is not allowed on fvm trait implementation blocks"
    );
    assert_eq!(
        ErrorKind::MissingState.message(),
        "encountered fvm module without a storage struct"
    );
    assert_eq!(
        ErrorKind::MultipleStates.message(),
        "encountered multiple storage structs in fvm module"
    );
    assert_eq!(ErrorKind::AtThisInvocation.message(), "at this invocation");
}
