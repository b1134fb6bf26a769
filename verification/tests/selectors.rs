use fvm_contract_ir::error::{ErrorKind, Span};
use fvm_contract_ir::selector::{
    extend_bytes, join_input, strip_whitespace, ComposedSelector, Selector, SelectorMacro,
    TraitPrefix,
};
use fvm_contract_ir::syntax::Literal;
use fvm_contract_ir::utils::local_message_id;

#[test]
fn it_works() {
    let result = 2 + 2;
    assert_eq!(result, 4);
}

#[test]
fn compute_is_deterministic() {
    let a = Selector::compute(b"foo");
    let b = Selector::compute(b"foo");
    assert_eq!(a, b);
    assert_eq!(a.to_bytes(), b.to_bytes());
}

#[test]
fn compute_takes_first_four_digest_bytes() {
    assert_eq!(Selector::compute(b"foo").to_bytes(), [184, 254, 159, 127]);
    assert_eq!(Selector::compute(b"").to_bytes(), [14, 87, 81, 192]);
    assert_eq!(Selector::compute(b"ns::foo").to_bytes(), [36, 44, 226, 13]);
}

#[test]
fn compute_differs_from_its_input() {
    let input = [1u8, 2, 3, 4];
    assert_ne!(Selector::compute(&input).to_bytes(), input);
}

#[test]
fn from_digest_keeps_the_first_four_bytes() {
    let mut digest = [0u8; 32];
    for i in 0..32 {
        digest[i] = (i as u8) + 10;
    }
    assert_eq!(Selector::from_digest(&digest).to_bytes(), [10, 11, 12, 13]);
}

#[test]
fn into_be_u32_reads_big_endian() {
    assert_eq!(Selector::from_bytes([0xde, 0xad, 0xbe, 0xef]).into_be_u32(), 0xdead_beef);
    assert_eq!(Selector::from_bytes([0, 0, 0, 1]).into_be_u32(), 1);
    assert_eq!(Selector::from_bytes([255, 255, 255, 255]).into_be_u32(), u32::MAX);
    assert_eq!(Selector::compute(b"foo").into_be_u32(), 3103694719);
}

#[test]
fn local_message_id_hashes_the_name() {
    assert_eq!(local_message_id("say_hello"), 475171260);
}

#[test]
fn compose_without_prefix_hashes_the_name() {
    assert_eq!(Selector::compose(None, "foo"), Selector::compute(b"foo"));
}

#[test]
fn compose_with_trait_prefix() {
    let prefix = TraitPrefix::new("MyTrait", None);
    assert_eq!(Selector::compose(Some(prefix), "bar"), Selector::compute(b"MyTrait::bar"));
    assert_eq!(Selector::compose(Some(prefix), "bar").to_bytes(), [246, 107, 234, 219]);
    let prefix = TraitPrefix::new("MyTrait", Some("ns"));
    assert_eq!(prefix.namespace_bytes(), b"ns".to_vec());
    assert_eq!(prefix.trait_ident(), "MyTrait");
    assert_eq!(Selector::compose(Some(prefix), "bar"), Selector::compute(b"ns::MyTrait::bar"));
    let prefix = TraitPrefix::new("MyTrait", Some(""));
    assert_eq!(Selector::compose(Some(prefix), "bar"), Selector::compute(b"MyTrait::bar"));
}

#[test]
fn join_input_joins_present_parts() {
    assert_eq!(join_input(b"", None, b"foo"), b"foo".to_vec());
    assert_eq!(join_input(b"ns", None, b"foo"), b"ns::foo".to_vec());
    assert_eq!(join_input(b"", Some(b"T"), b"foo"), b"T::foo".to_vec());
    assert_eq!(join_input(b"ns", Some(b"T"), b"foo"), b"ns::T::foo".to_vec());
}

#[test]
fn extend_bytes_appends() {
    let mut buf = vec![1u8, 2];
    extend_bytes(&mut buf, &[3, 4, 5]);
    assert_eq!(buf, vec![1, 2, 3, 4, 5]);
    extend_bytes(&mut buf, &[]);
    assert_eq!(buf, vec![1, 2, 3, 4, 5]);
}

#[test]
fn strip_whitespace_removes_ascii_whitespace() {
    assert_eq!(strip_whitespace(b":: a :: b :: MyTrait"), b"::a::b::MyTrait".to_vec());
    assert_eq!(strip_whitespace(b" \t\n\r\x0b\x0c"), Vec::<u8>::new());
    assert_eq!(strip_whitespace(b"abc"), b"abc".to_vec());
}

#[test]
fn composed_selector_accessors() {
    let s = Selector::from_bytes([1, 2, 3, 4]);
    assert_eq!(ComposedSelector::Wildcard.selector(), None);
    assert_eq!(ComposedSelector::UserProvided(s).selector(), Some(s));
    assert_eq!(ComposedSelector::Derived(s).selector(), Some(s));
    assert!(ComposedSelector::Derived(s).is_derived());
    assert!(!ComposedSelector::UserProvided(s).is_derived());
    assert!(!ComposedSelector::Wildcard.is_derived());
}

#[test]
fn selector_macro_accepts_string_and_byte_string() {
    let span = Span { lo: 3, hi: 9 };
    let m = SelectorMacro::try_from(Literal::Str("foo".to_string()), span).unwrap();
    assert_eq!(m.selector(), Selector::compute(b"foo"));
    assert_eq!(m.input(), &Literal::Str("foo".to_string()));
    let m = SelectorMacro::try_from(Literal::ByteStr(b"ns::foo".to_vec()), span).unwrap();
    assert_eq!(m.selector().to_bytes(), [36, 44, 226, 13]);
}

#[test]
fn selector_macro_rejects_other_literals() {
    let span = Span { lo: 3, hi: 9 };
    let err = SelectorMacro::try_from(Literal::Other, span).unwrap_err();
    assert_eq!(err.len(), 1);
    assert_eq!(err.part(0).kind, ErrorKind::InvalidSelectorInput);
    assert_eq!(err.part(0).span, span);
}
