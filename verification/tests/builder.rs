use fvm_contract_ir::attrs::{Attrs, Namespace};
use fvm_contract_ir::codegen::{
    generate_code, generate_dispatch, generate_inherent_constructor, generate_inherent_message,
    generate_item_impl, generate_storage_struct, generate_trait_message, output_ident,
    output_ident_from, BodyStep, MemberCode,
};
use fvm_contract_ir::contract::Contract;
use fvm_contract_ir::dispatch::{Abort, Action, DispatchArm, Route};
use fvm_contract_ir::error::{Diagnostic, Error, ErrorKind, Span};
use fvm_contract_ir::generator;
use fvm_contract_ir::generator::GenerateCode;
use fvm_contract_ir::item::event::{Event, EventField};
use fvm_contract_ir::item::state::State;
use fvm_contract_ir::item::{classify as classify_item, Item, ItemClass};
use fvm_contract_ir::item_impl::callable::{
    compose_input, compose_selector, Callable, CallableKind, CallableWithSelector, InputsIter,
    Visibility,
};
use fvm_contract_ir::item_impl::constructor::Constructor;
use fvm_contract_ir::item_impl::impl_item::{classify as classify_member, ImplItem, MemberClass};
use fvm_contract_ir::item_impl::message::{Message, Receiver};
use fvm_contract_ir::item_impl::ItemImpl;
use fvm_contract_ir::item_mod::{ItemMod, IterFvmItems};
use fvm_contract_ir::selector::{ComposedSelector, Selector};
use fvm_contract_ir::syntax::{
    Literal, RawAttribute, RawField, RawFnArg, RawImpl, RawImplMember, RawItem, RawMeta,
    RawMethod, RawModule, RawOtherMember, RawPath, RawStruct, RawTag, RawVisibility, TagArgument,
    TagShape,
};
use fvm_contract_ir::utils::ensure_pub_visibility;

fn sp(n: u32) -> Span {
    Span { lo: n, hi: n + 1 }
}

fn tag(name: &str, at: u32) -> RawTag {
    RawTag { shape: TagShape::Path(Some(name.to_string())), span: sp(at) }
}

fn list(name: &str, arg: TagArgument, at: u32) -> RawTag {
    RawTag { shape: TagShape::List(Some(name.to_string()), vec![arg]), span: sp(at) }
}

fn namespace_tag(bytes: &[u8], at: u32) -> RawTag {
    list("namespace", TagArgument::Lit(Literal::ByteStr(bytes.to_vec())), at)
}

fn selector_tag(bytes: [u8; 4], at: u32) -> RawTag {
    list("selector", TagArgument::Lit(Literal::ByteStr(bytes.to_vec())), at)
}

fn fvm(tags: Vec<RawTag>, at: u32) -> RawAttribute {
    RawAttribute {
        name: Some("fvm_macro".to_string()),
        meta: RawMeta::List(tags),
        tokens: "#[fvm_macro(..)]".to_string(),
        span: sp(at),
    }
}

fn other(name: &str, at: u32) -> RawAttribute {
    RawAttribute {
        name: Some(name.to_string()),
        meta: RawMeta::Other,
        tokens: format!("#[{}]", name),
        span: sp(at),
    }
}

fn method(name: &str, attrs: Vec<RawAttribute>, inputs: Vec<RawFnArg>) -> RawMethod {
    RawMethod {
        attrs,
        vis: RawVisibility::Public(sp(100)),
        ident: name.to_string(),
        inputs,
        inputs_span: sp(101),
        output: None,
        statements: vec![format!("{}_body();", name)],
        tokens: format!("pub fn {}() {{ {}_body(); }}", name, name),
        span: sp(102),
    }
}

fn ref_mut() -> RawFnArg {
    RawFnArg::Receiver { reference: true, mutable: true }
}

fn ref_shared() -> RawFnArg {
    RawFnArg::Receiver { reference: true, mutable: false }
}

fn typed(text: &str) -> RawFnArg {
    RawFnArg::Typed(text.to_string())
}

fn message(name: &str) -> RawImplMember {
    RawImplMember::Method(method(name, vec![fvm(vec![tag("message", 1)], 0)], vec![ref_mut()]))
}

fn constructor(name: &str) -> RawImplMember {
    RawImplMember::Method(method(name, vec![fvm(vec![tag("constructor", 1)], 0)], vec![]))
}

fn plain_method(name: &str) -> RawImplMember {
    RawImplMember::Method(method(name, vec![other("inline", 0)], vec![ref_shared()]))
}

fn const_member(attrs: Vec<RawAttribute>) -> RawImplMember {
    RawImplMember::Other(RawOtherMember { attrs, tokens: "const N: u8 = 1;".to_string(), span: sp(60) })
}

fn raw_impl(attrs: Vec<RawAttribute>, trait_path: Option<RawPath>, items: Vec<RawImplMember>) -> RawImpl {
    RawImpl {
        attrs,
        defaultness: None,
        unsafety: None,
        generic_params: 0,
        generics_span: sp(70),
        trait_path,
        self_ty: "HelloWorld".to_string(),
        items,
        tokens: "impl HelloWorld { }".to_string(),
        span: sp(71),
    }
}

fn relative(name: &str) -> RawPath {
    RawPath { leading_colon: false, last_ident: name.to_string(), tokens: name.to_string() }
}

fn field(name: &str, attrs: Vec<RawAttribute>) -> RawField {
    RawField {
        attrs,
        vis: RawVisibility::Public(sp(80)),
        ident: Some(name.to_string()),
        ty: "u64".to_string(),
        tokens: format!("pub {}: u64", name),
        span: sp(81),
    }
}

fn raw_struct(name: &str, attrs: Vec<RawAttribute>) -> RawStruct {
    RawStruct {
        attrs,
        vis: RawVisibility::Public(sp(90)),
        ident: name.to_string(),
        generic_params: 0,
        generics_span: sp(91),
        fields: vec![field("count", vec![])],
        tokens: format!("pub struct {} {{ pub count: u64 }}", name),
        span: sp(92),
    }
}

fn state_struct(name: &str) -> RawStruct {
    raw_struct(name, vec![other("doc", 9), fvm(vec![tag("state", 1)], 0)])
}

fn module(items: Vec<RawItem>) -> RawModule {
    RawModule {
        attrs: vec![other("allow", 0)],
        vis: "pub".to_string(),
        ident: "hello_world".to_string(),
        content: Some(items),
        span: sp(200),
    }
}

fn parts(err: &Error) -> Vec<Diagnostic> {
    (0..err.len()).map(|i| err.part(i)).collect()
}

fn one(kind: ErrorKind, span: Span) -> Vec<Diagnostic> {
    vec![Diagnostic { kind, span }]
}

fn inherent_with(namespace: Option<&[u8]>, members: Vec<RawImplMember>) -> ItemImpl {
    let attrs = match namespace {
        Some(ns) => vec![fvm(vec![tag("impl", 1), namespace_tag(ns, 2)], 0)],
        None => vec![],
    };
    ItemImpl::try_from(raw_impl(attrs, None, members)).unwrap()
}

fn first_message(block: &ItemImpl) -> &Message {
    block.items().iter().find_map(|i| i.filter_map_message()).unwrap()
}

#[test]
fn message_is_built_from_its_tags() {
    let raw = method(
        "transfer",
        vec![
            other("doc", 0),
            fvm(vec![tag("message", 2), tag("payable", 3)], 1),
            fvm(vec![selector_tag([1, 2, 3, 4], 5)], 4),
            other("inline", 6),
        ],
        vec![ref_shared(), typed("to: u64"), typed("amount: u64")],
    );
    let m = Message::try_from(raw).unwrap();
    assert_eq!(m.kind(), CallableKind::Message);
    assert_eq!(m.kind().name(), "message");
    assert_eq!(m.ident(), "transfer");
    assert!(m.is_payable());
    assert!(!m.has_wildcard_selector());
    assert_eq!(m.user_provided_selector(), Some(&Selector::from_bytes([1, 2, 3, 4])));
    assert_eq!(m.attrs(), &[other("doc", 0), other("inline", 6)]);
    assert_eq!(m.receiver(), Receiver::Ref);
    assert!(m.receiver().is_ref());
    assert!(!m.receiver().is_ref_mut());
    assert_eq!(m.output(), None);
    assert_eq!(m.visibility(), Visibility::Public(sp(100)));
    assert!(m.visibility().is_pub());
    assert!(!m.visibility().is_inherited());
    assert_eq!(m.visibility().span(), Some(sp(100)));
    assert_eq!(Visibility::Inherited.span(), None);
    assert_eq!(m.inputs_span(), sp(101));
    assert_eq!(m.span(), sp(102));
    assert_eq!(m.statements(), &["transfer_body();".to_string()]);
    let mut inputs = m.inputs();
    assert_eq!(inputs.len(), 2);
    assert_eq!(inputs.next(), Some(&"to: u64".to_string()));
    assert_eq!(inputs.len(), 1);
    assert_eq!(inputs.next(), Some(&"amount: u64".to_string()));
    assert_eq!(inputs.len(), 0);
    assert_eq!(inputs.next(), None);
    assert_eq!(inputs.len(), 0);
    assert_eq!(m.declared_inputs(), &[ref_shared(), typed("to: u64"), typed("amount: u64")]);
}

#[test]
fn message_receiver_and_output() {
    let mut raw = method("say_hello", vec![fvm(vec![tag("message", 1)], 0)], vec![ref_mut()]);
    raw.output = Some("Option<RawBytes>".to_string());
    raw.vis = RawVisibility::Inherited;
    let m = Message::try_from(raw).unwrap();
    assert_eq!(m.receiver(), Receiver::RefMut);
    assert!(m.receiver().is_ref_mut());
    assert_eq!(m.output(), Some(&"Option<RawBytes>".to_string()));
    assert_eq!(m.visibility(), Visibility::Inherited);
    assert_eq!(m.local_id(), 475171260);
    assert!(!m.is_payable());
    assert_eq!(m.user_provided_selector(), None);
}

#[test]
fn message_rejects_foreign_tags() {
    let raw = method(
        "m",
        vec![fvm(vec![tag("message", 1), tag("topic", 2), tag("anonymous", 3)], 0)],
        vec![ref_mut()],
    );
    let err = Message::try_from(raw).unwrap_err();
    assert_eq!(
        parts(&err),
        vec![
            Diagnostic { kind: ErrorKind::ConflictingArgument, span: sp(2) },
            Diagnostic { kind: ErrorKind::ConflictingArgument, span: sp(3) },
        ]
    );
    let raw = method("m", vec![fvm(vec![tag("constructor", 1)], 0)], vec![ref_mut()]);
    let err = Message::try_from(raw).unwrap_err();
    assert_eq!(err.kind(), Some(ErrorKind::UnexpectedFirstArgument));
}

#[test]
fn constructor_is_built_from_its_tags() {
    let raw = method(
        "new",
        vec![fvm(vec![tag("constructor", 1), list("selector", TagArgument::Wildcard, 2)], 0)],
        vec![typed("init: u64")],
    );
    let c = Constructor::try_from(raw).unwrap();
    assert_eq!(c.kind(), CallableKind::Constructor);
    assert_eq!(c.kind().name(), "constructor");
    assert_eq!(c.ident(), "new");
    assert!(c.has_wildcard_selector());
    assert_eq!(c.user_provided_selector(), None);
    assert!(!c.is_payable());
    assert_eq!(c.attrs(), &[] as &[RawAttribute]);
    let mut inputs: InputsIter = c.inputs();
    assert_eq!(inputs.next(), Some(&"init: u64".to_string()));
    assert_eq!(inputs.next(), None);
    let err = Constructor::try_from(method("new", vec![fvm(vec![tag("message", 1)], 0)], vec![]))
        .unwrap_err();
    assert_eq!(err.kind(), Some(ErrorKind::UnexpectedFirstArgument));
}

#[test]
fn members_are_classified_by_their_first_tag() {
    assert_eq!(classify_member(&message("m")), Ok(MemberClass::Message));
    assert_eq!(classify_member(&constructor("c")), Ok(MemberClass::Constructor));
    assert_eq!(classify_member(&plain_method("p")), Ok(MemberClass::Other));
    assert_eq!(classify_member(&const_member(vec![other("doc", 0)])), Ok(MemberClass::Other));
    let payable_first = RawImplMember::Method(method(
        "m",
        vec![fvm(vec![tag("payable", 1), tag("message", 2)], 0)],
        vec![ref_mut()],
    ));
    let err = classify_member(&payable_first).unwrap_err();
    assert_eq!(parts(&err), one(ErrorKind::InvalidMethodAttribute, sp(102)));
    let err = ImplItem::try_from(payable_first).unwrap_err();
    assert_eq!(parts(&err), one(ErrorKind::InvalidMethodAttribute, sp(102)));
}

#[test]
fn tagged_non_method_is_rejected() {
    let member = const_member(vec![
        fvm(vec![tag("message", 1), tag("payable", 4)], 0),
        other("doc", 5),
        fvm(vec![tag("topic", 7)], 6),
    ]);
    let err = ImplItem::try_from(member).unwrap_err();
    assert_eq!(
        parts(&err),
        vec![
            Diagnostic { kind: ErrorKind::UnexpectedAttribute, span: Span { lo: 1, hi: 5 } },
            Diagnostic { kind: ErrorKind::UnexpectedAttribute, span: sp(7) },
        ]
    );
    let err = ImplItem::try_from(const_member(vec![fvm(vec![], 3)])).unwrap_err();
    assert_eq!(parts(&err), one(ErrorKind::EmptyAttribute, sp(3)));
}

#[test]
fn impl_items_are_built() {
    let item = ImplItem::try_from(message("m")).unwrap();
    assert!(item.is_message());
    assert!(!item.is_constructor());
    assert!(!item.is_other_item());
    assert_eq!(item.filter_map_message().unwrap().ident(), "m");
    assert!(item.filter_map_constructor().is_none());
    assert!(item.filter_map_other_item().is_none());
    let item = ImplItem::try_from(constructor("c")).unwrap();
    assert!(item.is_constructor());
    assert_eq!(item.filter_map_constructor().unwrap().ident(), "c");
    let item = ImplItem::try_from(plain_method("p")).unwrap();
    assert!(item.is_other_item());
    assert_eq!(item.filter_map_other_item(), Some(&plain_method("p")));
}

#[test]
fn impl_block_relevance() {
    let untagged = raw_impl(vec![other("doc", 0)], None, vec![plain_method("p")]);
    assert_eq!(ItemImpl::is_fvm_impl_block(&untagged), Ok(false));
    let tagged_impl = raw_impl(vec![fvm(vec![tag("impl", 1)], 0)], None, vec![plain_method("p")]);
    assert_eq!(ItemImpl::is_fvm_impl_block(&tagged_impl), Ok(true));
    let with_message = raw_impl(vec![], None, vec![plain_method("p"), message("m")]);
    assert_eq!(ItemImpl::is_fvm_impl_block(&with_message), Ok(true));
    let with_constructor = raw_impl(vec![], None, vec![constructor("c")]);
    assert_eq!(ItemImpl::is_fvm_impl_block(&with_constructor), Ok(true));
    let namespace_first =
        raw_impl(vec![fvm(vec![namespace_tag(b"ns", 1)], 0)], None, vec![plain_method("p")]);
    assert_eq!(ItemImpl::is_fvm_impl_block(&namespace_first), Ok(false));
    let payable_method = raw_impl(
        vec![],
        None,
        vec![RawImplMember::Method(method("m", vec![fvm(vec![tag("payable", 1)], 0)], vec![]))],
    );
    assert_eq!(ItemImpl::is_fvm_impl_block(&payable_method), Ok(false));
    let tagged_const = raw_impl(vec![], None, vec![const_member(vec![fvm(vec![tag("message", 1)], 0)])]);
    assert_eq!(ItemImpl::is_fvm_impl_block(&tagged_const), Ok(false));
    let bad = raw_impl(vec![fvm(vec![tag("bogus", 1)], 0)], None, vec![]);
    assert_eq!(
        ItemImpl::is_fvm_impl_block(&bad).unwrap_err().kind(),
        Some(ErrorKind::UnknownArgument)
    );
}

#[test]
fn impl_block_rejections() {
    let err = ItemImpl::try_from(raw_impl(vec![], None, vec![plain_method("p")])).unwrap_err();
    assert_eq!(parts(&err), one(ErrorKind::MissingAnnotations, sp(71)));

    let mut raw = raw_impl(vec![], None, vec![message("m")]);
    raw.defaultness = Some(sp(5));
    raw.unsafety = Some(sp(6));
    raw.generic_params = 1;
    assert_eq!(parts(&ItemImpl::try_from(raw.clone()).unwrap_err()), one(ErrorKind::DefaultImpl, sp(5)));
    raw.defaultness = None;
    assert_eq!(parts(&ItemImpl::try_from(raw.clone()).unwrap_err()), one(ErrorKind::UnsafeImpl, sp(6)));
    raw.unsafety = None;
    assert_eq!(parts(&ItemImpl::try_from(raw.clone()).unwrap_err()), one(ErrorKind::GenericImpl, sp(70)));

    let raw = raw_impl(
        vec![fvm(vec![tag("impl", 1), namespace_tag(b"ns", 2)], 0)],
        Some(relative("MyTrait")),
        vec![message("m")],
    );
    assert_eq!(
        parts(&ItemImpl::try_from(raw).unwrap_err()),
        one(ErrorKind::NamespaceOnTraitImpl, sp(71))
    );

    let raw = raw_impl(vec![fvm(vec![tag("impl", 1), tag("payable", 2)], 0)], None, vec![]);
    assert_eq!(
        parts(&ItemImpl::try_from(raw).unwrap_err()),
        one(ErrorKind::ConflictingArgument, sp(2))
    );

    let raw = raw_impl(
        vec![],
        None,
        vec![message("m"), const_member(vec![fvm(vec![tag("topic", 8)], 7)])],
    );
    assert_eq!(
        parts(&ItemImpl::try_from(raw).unwrap_err()),
        one(ErrorKind::UnexpectedAttribute, sp(8))
    );
}

#[test]
fn impl_block_is_built() {
    let raw = raw_impl(
        vec![other("doc", 0), fvm(vec![tag("impl", 2), namespace_tag(b"ns", 3)], 1)],
        None,
        vec![plain_method("p"), message("m1"), constructor("c"), message("m2")],
    );
    let block = ItemImpl::try_from(raw).unwrap();
    assert_eq!(block.attrs(), &[other("doc", 0)]);
    assert_eq!(block.self_type(), "HelloWorld");
    assert_eq!(block.trait_path(), None);
    assert_eq!(block.namespace(), Some(&Namespace::new(b"ns".to_vec())));
    assert_eq!(block.span(), sp(71));
    assert_eq!(block.items().len(), 4);
    assert!(block.items()[0].is_other_item());
    assert!(block.items()[1].is_message());
    assert!(block.items()[2].is_constructor());
    assert!(block.items()[3].is_message());

    let mut names = Vec::new();
    let mut messages = block.iter_messages();
    while let Some(cws) = messages.next() {
        names.push(cws.callable().ident().clone());
        assert_eq!(cws.item_impl(), &block);
        assert_eq!(cws.kind(), CallableKind::Message);
    }
    assert_eq!(names, vec!["m1".to_string(), "m2".to_string()]);
    let mut constructors = block.iter_constructors();
    let c = constructors.next().unwrap();
    assert_eq!(c.ident(), "c");
    assert_eq!(c.composed_selector(), ComposedSelector::Derived(Selector::compute(b"ns::c")));
    assert!(constructors.next().is_none());
}

#[test]
fn user_selector_overrides_composition() {
    let block = inherent_with(
        Some(b"ns"),
        vec![RawImplMember::Method(method(
            "foo",
            vec![fvm(vec![tag("message", 1), selector_tag([9, 8, 7, 6], 2)], 0)],
            vec![ref_mut()],
        ))],
    );
    let m = first_message(&block);
    assert_eq!(
        compose_selector(&block, m),
        ComposedSelector::UserProvided(Selector::from_bytes([9, 8, 7, 6]))
    );
    assert_eq!(m.user_provided_selector(), Some(&Selector::from_bytes([9, 8, 7, 6])));
}

#[test]
fn wildcard_selector_is_never_hashed() {
    let block = inherent_with(
        Some(b"ns"),
        vec![RawImplMember::Method(method(
            "foo",
            vec![fvm(vec![tag("message", 1), list("selector", TagArgument::Wildcard, 2)], 0)],
            vec![ref_mut()],
        ))],
    );
    let m = first_message(&block);
    assert!(m.has_wildcard_selector());
    let composed = compose_selector(&block, m);
    assert_eq!(composed, ComposedSelector::Wildcard);
    assert!(!composed.is_derived());
    assert_eq!(composed.selector(), None);
    let cws = CallableWithSelector::new(&block, m);
    assert!(cws.has_wildcard_selector());
    assert_eq!(cws.composed_selector(), ComposedSelector::Wildcard);
    let copy = cws.clone();
    assert_eq!(copy.composed_selector(), cws.composed_selector());
    assert_eq!(copy.callable(), cws.callable());
    assert_eq!(copy.item_impl(), cws.item_impl());
}

#[test]
fn namespace_composition() {
    let block = inherent_with(Some(b"ns"), vec![message("foo")]);
    assert_eq!(compose_input(&block, "foo"), b"ns::foo".to_vec());
    assert_eq!(
        compose_selector(&block, first_message(&block)),
        ComposedSelector::Derived(Selector::from_bytes([36, 44, 226, 13]))
    );
    let block = inherent_with(None, vec![message("foo")]);
    assert_eq!(compose_input(&block, "foo"), b"foo".to_vec());
    assert_eq!(
        compose_selector(&block, first_message(&block)),
        ComposedSelector::Derived(Selector::from_bytes([184, 254, 159, 127]))
    );
    let block = inherent_with(Some(b""), vec![message("foo")]);
    assert_eq!(compose_input(&block, "foo"), b"foo".to_vec());
}

#[test]
fn trait_composition() {
    let block =
        ItemImpl::try_from(raw_impl(vec![], Some(relative("MyTrait")), vec![message("bar")])).unwrap();
    assert_eq!(compose_input(&block, "bar"), b"MyTrait::bar".to_vec());
    assert_eq!(
        compose_selector(&block, first_message(&block)),
        ComposedSelector::Derived(Selector::from_bytes([246, 107, 234, 219]))
    );
    let long_relative = RawPath {
        leading_colon: false,
        last_ident: "MyTrait".to_string(),
        tokens: "a :: b :: MyTrait".to_string(),
    };
    let block =
        ItemImpl::try_from(raw_impl(vec![], Some(long_relative.clone()), vec![message("bar")])).unwrap();
    assert_eq!(block.trait_path(), Some(&long_relative));
    assert_eq!(compose_input(&block, "bar"), b"MyTrait::bar".to_vec());
    let absolute = RawPath {
        leading_colon: true,
        last_ident: "MyTrait".to_string(),
        tokens: ":: a :: b :: MyTrait".to_string(),
    };
    let block = ItemImpl::try_from(raw_impl(vec![], Some(absolute), vec![message("bar")])).unwrap();
    assert_eq!(compose_input(&block, "bar"), b"::a::b::MyTrait::bar".to_vec());
    assert_eq!(
        compose_selector(&block, first_message(&block)),
        ComposedSelector::Derived(Selector::from_bytes([131, 246, 237, 43]))
    );
}

#[test]
fn compose_is_deterministic() {
    let a = inherent_with(Some(b"ns"), vec![message("foo")]);
    let b = inherent_with(Some(b"ns"), vec![plain_method("p"), message("foo")]);
    assert_eq!(
        compose_selector(&a, first_message(&a)),
        compose_selector(&b, first_message(&b))
    );
    assert_eq!(
        compose_selector(&a, first_message(&a)),
        compose_selector(&a, first_message(&a))
    );
}

#[test]
fn state_is_built_and_stripped() {
    let state = State::try_from(state_struct("HelloWorld")).unwrap();
    assert_eq!(state.ident(), "HelloWorld");
    assert_eq!(state.attrs(), &[other("doc", 9)]);
    assert_eq!(state.fields(), &[field("count", vec![])]);
    assert_eq!(state.span(), sp(92));
}

#[test]
fn state_rejections() {
    let mut raw = state_struct("S");
    raw.generic_params = 2;
    assert_eq!(parts(&State::try_from(raw).unwrap_err()), one(ErrorKind::GenericState, sp(91)));
    let raw = raw_struct("S", vec![fvm(vec![tag("state", 1), tag("anonymous", 2)], 0)]);
    assert_eq!(
        parts(&State::try_from(raw).unwrap_err()),
        one(ErrorKind::ConflictingArgument, sp(2))
    );
    let raw = raw_struct("S", vec![fvm(vec![tag("event", 1)], 0)]);
    assert_eq!(
        State::try_from(raw).unwrap_err().kind(),
        Some(ErrorKind::UnexpectedFirstArgument)
    );
}

#[test]
fn event_is_built_with_its_flags() {
    let mut raw = raw_struct("Transfer", vec![fvm(vec![tag("event", 1), tag("anonymous", 2)], 0)]);
    raw.fields = vec![
        field("from", vec![fvm(vec![tag("topic", 1)], 0)]),
        field("amount", vec![other("doc", 0)]),
        field("odd", vec![fvm(vec![tag("payable", 1), tag("topic", 2)], 0)]),
        field("broken", vec![fvm(vec![], 0)]),
    ];
    let event = Event::try_from(raw).unwrap();
    assert!(event.anonymous);
    assert_eq!(event.ident(), "Transfer");
    assert_eq!(event.attrs(), &[] as &[RawAttribute]);
    let mut fields = event.fields();
    let mut flags = Vec::new();
    while let Some(f) = fields.next() {
        flags.push((f.ident().cloned(), f.is_topic));
        assert_eq!(f.ty(), "u64");
        assert_eq!(f.span(), sp(81));
        assert_eq!(f.vis(), RawVisibility::Public(sp(80)));
    }
    assert_eq!(
        flags,
        vec![
            (Some("from".to_string()), true),
            (Some("amount".to_string()), false),
            (Some("odd".to_string()), false),
            (Some("broken".to_string()), false),
        ]
    );
    let plain = Event::try_from(raw_struct("E", vec![fvm(vec![tag("event", 1)], 0)])).unwrap();
    assert!(!plain.anonymous);
}

#[test]
fn event_field_attrs_leave_out_contract_annotations() {
    let f = field("from", vec![other("a", 0), fvm(vec![tag("topic", 2)], 1), other("b", 3)]);
    let ef = EventField::new(&f);
    assert!(ef.is_topic);
    assert_eq!(ef.attrs(), vec![&other("a", 0), &other("b", 3)]);
}

#[test]
fn event_rejections() {
    let mut raw = raw_struct("E", vec![fvm(vec![tag("event", 1)], 0)]);
    raw.generic_params = 1;
    assert_eq!(parts(&Event::try_from(raw).unwrap_err()), one(ErrorKind::GenericEvent, sp(91)));
    let raw = raw_struct("E", vec![fvm(vec![tag("event", 1), tag("payable", 2)], 0)]);
    assert_eq!(
        parts(&Event::try_from(raw).unwrap_err()),
        one(ErrorKind::ConflictingArgument, sp(2))
    );
}

#[test]
fn items_are_classified() {
    assert_eq!(classify_item(&RawItem::Struct(state_struct("S"))), Ok(ItemClass::State));
    assert_eq!(
        classify_item(&RawItem::Struct(raw_struct("E", vec![fvm(vec![tag("event", 1)], 0)]))),
        Ok(ItemClass::Event)
    );
    assert_eq!(
        classify_item(&RawItem::Struct(raw_struct("P", vec![other("derive", 0)]))),
        Ok(ItemClass::Rust)
    );
    assert_eq!(
        classify_item(&RawItem::Struct(raw_struct("A", vec![fvm(vec![tag("actor", 1)], 0)]))),
        Ok(ItemClass::StrippedStruct)
    );
    assert_eq!(
        classify_item(&RawItem::Impl(raw_impl(vec![], None, vec![message("m")]))),
        Ok(ItemClass::ImplBlock)
    );
    assert_eq!(
        classify_item(&RawItem::Impl(raw_impl(vec![], None, vec![plain_method("p")]))),
        Ok(ItemClass::Rust)
    );
    assert_eq!(classify_item(&RawItem::Other("use a::b;".to_string())), Ok(ItemClass::Rust));
}

#[test]
fn items_are_built() {
    let item = Item::try_from(RawItem::Struct(state_struct("S"))).unwrap();
    assert!(item.map_rust_item().is_none());
    let fvm_item = item.map_fvm_item().unwrap();
    assert_eq!(fvm_item.filter_map_storage_item().unwrap().ident(), "S");
    assert!(fvm_item.filter_map_event_item().is_none());
    assert!(fvm_item.filter_map_impl_block().is_none());

    let item =
        Item::try_from(RawItem::Struct(raw_struct("E", vec![fvm(vec![tag("event", 1)], 0)]))).unwrap();
    assert_eq!(item.map_fvm_item().unwrap().filter_map_event_item().unwrap().ident(), "E");

    let item = Item::try_from(RawItem::Impl(raw_impl(vec![], None, vec![message("m")]))).unwrap();
    assert!(item.map_fvm_item().unwrap().filter_map_impl_block().is_some());

    let plain = RawItem::Struct(raw_struct("P", vec![other("derive", 0)]));
    let item = Item::try_from(plain.clone()).unwrap();
    assert!(item.map_fvm_item().is_none());
    assert_eq!(item.map_rust_item(), Some(&plain));

    let actor = raw_struct("A", vec![other("doc", 3), fvm(vec![tag("actor", 1)], 0)]);
    let item = Item::try_from(RawItem::Struct(actor)).unwrap();
    assert_eq!(
        item.map_rust_item(),
        Some(&RawItem::Struct(raw_struct("A", vec![other("doc", 3)])))
    );

    let untouched = RawItem::Impl(raw_impl(vec![other("doc", 0)], None, vec![plain_method("p")]));
    assert_eq!(Item::try_from(untouched.clone()).unwrap(), Item::Rust(untouched));

    let use_item = RawItem::Other("use a::b;".to_string());
    assert_eq!(Item::try_from(use_item.clone()).unwrap(), Item::Rust(use_item));

    let bad = RawItem::Struct(raw_struct("B", vec![fvm(vec![tag("bogus", 1)], 0)]));
    assert_eq!(Item::try_from(bad).unwrap_err().kind(), Some(ErrorKind::UnknownArgument));
}

#[test]
fn module_without_state_is_rejected() {
    let m = module(vec![RawItem::Impl(raw_impl(vec![], None, vec![message("m")]))]);
    assert_eq!(parts(&ItemMod::try_from(m).unwrap_err()), one(ErrorKind::MissingState, sp(200)));
    assert_eq!(
        parts(&ItemMod::try_from(module(vec![])).unwrap_err()),
        one(ErrorKind::MissingState, sp(200))
    );
    let m = module(vec![RawItem::Impl(raw_impl(vec![], None, vec![message("m")]))]);
    assert_eq!(parts(&Contract::new(m).unwrap_err()), one(ErrorKind::MissingState, sp(200)));
}

#[test]
fn module_with_two_states_is_rejected() {
    let m = module(vec![
        RawItem::Struct(state_struct("A")),
        RawItem::Other("use a::b;".to_string()),
        RawItem::Struct(state_struct("B")),
    ]);
    assert_eq!(parts(&ItemMod::try_from(m.clone()).unwrap_err()), one(ErrorKind::MultipleStates, sp(200)));
    assert_eq!(parts(&Contract::new(m).unwrap_err()), one(ErrorKind::MultipleStates, sp(200)));
}

#[test]
fn module_rejections() {
    let mut m = module(vec![RawItem::Struct(state_struct("A"))]);
    m.content = None;
    assert_eq!(parts(&ItemMod::try_from(m).unwrap_err()), one(ErrorKind::OutOfLineModule, sp(200)));
    let mut m = module(vec![RawItem::Struct(state_struct("A"))]);
    m.attrs = vec![fvm(vec![], 4)];
    assert_eq!(parts(&ItemMod::try_from(m).unwrap_err()), one(ErrorKind::EmptyAttribute, sp(4)));
    let mut generic = state_struct("A");
    generic.generic_params = 1;
    let m = module(vec![RawItem::Struct(generic), RawItem::Struct(state_struct("B"))]);
    assert_eq!(parts(&ItemMod::try_from(m).unwrap_err()), one(ErrorKind::GenericState, sp(91)));
}

fn hello_world() -> RawModule {
    let mut say_hello = method("say_hello", vec![fvm(vec![tag("message", 1)], 0)], vec![ref_mut()]);
    say_hello.output = Some("Option<RawBytes>".to_string());
    let m2 = method(
        "m2",
        vec![fvm(vec![tag("message", 1)], 0)],
        vec![ref_shared(), typed("params: RawBytes")],
    );
    module(vec![
        RawItem::Other("use fvm_macro::*;".to_string()),
        RawItem::Struct(state_struct("HelloWorld")),
        RawItem::Struct(raw_struct("Said", vec![fvm(vec![tag("event", 1)], 0)])),
        RawItem::Impl(raw_impl(
            vec![],
            None,
            vec![
                plain_method("say_hi"),
                RawImplMember::Method(say_hello),
                constructor("new"),
                RawImplMember::Method(m2),
            ],
        )),
        RawItem::Impl(raw_impl(vec![], Some(relative("Greeter")), vec![message("greet_all")])),
        RawItem::Impl(raw_impl(vec![], None, vec![plain_method("helper")])),
        RawItem::Impl(raw_impl(vec![fvm(vec![tag("impl", 1)], 0)], None, vec![message("m3")])),
    ])
}

#[test]
fn module_is_built() {
    let m = ItemMod::try_from(hello_world()).unwrap();
    assert_eq!(m.ident(), "hello_world");
    assert_eq!(m.vis(), "pub");
    assert_eq!(m.attrs(), &[other("allow", 0)]);
    assert_eq!(m.span(), sp(200));
    assert_eq!(m.items().len(), 7);
    assert_eq!(m.state().ident(), "HelloWorld");
    let mut impls = m.impls();
    let mut count = 0;
    while let Some(block) = impls.next() {
        assert_eq!(block.self_type(), "HelloWorld");
        count += 1;
    }
    assert_eq!(count, 3);
    let mut events = m.events();
    assert_eq!(events.next().unwrap().ident(), "Said");
    assert!(events.next().is_none());
    let contract = Contract::new(hello_world()).unwrap();
    assert_eq!(contract.module(), &m);
}

#[test]
fn dispatch_numbers_inherent_messages_in_order() {
    let m = ItemMod::try_from(hello_world()).unwrap();
    let table = generate_dispatch(&m).unwrap();
    assert_eq!(table.len(), 3);
    assert_eq!(
        table.arm(0),
        &DispatchArm { index: 2, handler: "say_hello".to_string(), passes_params: false }
    );
    assert_eq!(
        table.arm(1),
        &DispatchArm { index: 3, handler: "m2".to_string(), passes_params: true }
    );
    assert_eq!(
        table.arm(2),
        &DispatchArm { index: 4, handler: "m3".to_string(), passes_params: false }
    );
    assert_eq!(table.route(1), Ok(Route::Constructor));
    assert_eq!(table.route(2), Ok(Route::Message(0)));
    assert_eq!(table.route(3), Ok(Route::Message(1)));
    assert_eq!(table.route(4), Ok(Route::Message(2)));
    assert_eq!(table.route(5), Err(Abort::UnhandledMessage));
    assert_eq!(table.route(99), Err(Abort::UnhandledMessage));
    assert_eq!(table.route(0), Err(Abort::UnhandledMessage));
    assert_eq!(table.invoke(3, 77), Ok(Action::RunMessage(1)));
    assert_eq!(table.invoke(99, 1), Err(Abort::UnhandledMessage));
    let code = generate_storage_struct(&m).unwrap();
    assert_eq!(code.state.ident(), "HelloWorld");
    assert_eq!(code.table, table);
}

#[test]
fn output_type_is_named_in_upper_camel_case() {
    assert_eq!(output_ident("say_hello"), "SayHelloOutput");
    assert_eq!(output_ident("greet_all"), "GreetAllOutput");
    assert_eq!(output_ident("m"), "MOutput");
    assert_eq!(output_ident_from("Abc".to_string()), "AbcOutput");
    assert_eq!(output_ident_from(String::new()), "Output");
}

#[test]
fn inherent_impl_emits_constructors_messages_others() {
    let m = ItemMod::try_from(hello_world()).unwrap();
    let mut impls = m.impls();
    let block = impls.next().unwrap();
    let code = generate_item_impl(block);
    assert_eq!(code.block, block);
    let names: Vec<String> = code
        .members
        .iter()
        .map(|member| match member {
            MemberCode::Constructor(c) => format!("constructor {}", c.ident()),
            MemberCode::InherentMessage(m) => format!("message {}", m.ident()),
            MemberCode::TraitMessage(m, alias) => format!("trait {} {}", m.ident(), alias),
            MemberCode::Other(RawImplMember::Method(o)) => format!("other {}", o.ident),
            MemberCode::Other(RawImplMember::Other(o)) => format!("other {}", o.tokens),
        })
        .collect();
    assert_eq!(
        names,
        vec![
            "constructor new".to_string(),
            "message say_hello".to_string(),
            "message m2".to_string(),
            "other say_hi".to_string(),
        ]
    );
    let trait_block = impls.next().unwrap();
    let code = generate_item_impl(trait_block);
    assert_eq!(code.members.len(), 1);
    match &code.members[0] {
        MemberCode::TraitMessage(m, alias) => {
            assert_eq!(m.ident(), "greet_all");
            assert_eq!(alias, "GreetAllOutput");
        }
        _ => panic!("expected a trait message"),
    }
}

#[test]
fn contract_code_holds_everything_in_order() {
    let contract = Contract::new(hello_world()).unwrap();
    let code = generate_code(&contract).unwrap();
    assert_eq!(code.module, contract.module());
    assert_eq!(code.state.state.ident(), "HelloWorld");
    assert_eq!(code.state.table.len(), 3);
    assert_eq!(code.impls.len(), 3);
    assert_eq!(
        code.rust_items,
        vec![
            &RawItem::Other("use fvm_macro::*;".to_string()),
            &RawItem::Impl(raw_impl(vec![], None, vec![plain_method("helper")])),
        ]
    );
}

#[test]
fn only_pub_is_accepted_where_pub_is_required() {
    assert_eq!(ensure_pub_visibility(sp(1), &RawVisibility::Public(sp(2))), Ok(()));
    let err = ensure_pub_visibility(sp(1), &RawVisibility::Inherited).unwrap_err();
    assert_eq!(parts(&err), one(ErrorKind::NonPubVisibility, sp(1)));
    let err = ensure_pub_visibility(sp(1), &RawVisibility::Crate(sp(3))).unwrap_err();
    assert_eq!(parts(&err), one(ErrorKind::NonPubVisibility, sp(3)));
    let err = ensure_pub_visibility(sp(1), &RawVisibility::Restricted(sp(4))).unwrap_err();
    assert_eq!(parts(&err), one(ErrorKind::NonPubVisibility, sp(4)));
}

#[test]
fn getters_that_guard_the_partial_ones() {
    let m = Message::try_from(method("m", vec![fvm(vec![tag("message", 1)], 0)], vec![typed("x: u8")]))
        .unwrap();
    assert!(!m.takes_receiver());
    let m = Message::try_from(method("m", vec![fvm(vec![tag("message", 1)], 0)], vec![])).unwrap();
    assert!(!m.takes_receiver());
    let mut raw = method("m", vec![fvm(vec![tag("message", 1)], 0)], vec![ref_mut()]);
    raw.vis = RawVisibility::Crate(sp(7));
    let m = Message::try_from(raw).unwrap();
    assert!(m.takes_receiver());
    assert_eq!(m.declared_visibility(), RawVisibility::Crate(sp(7)));
    let f = field("from", vec![fvm(vec![tag("topic", 1)], 0)]);
    assert!(EventField::new(&f).topic());
}

#[test]
fn contract_declarations_are_walked_in_order() {
    let m = ItemMod::try_from(hello_world()).unwrap();
    let mut iter = IterFvmItems::new(&m);
    let mut kinds = Vec::new();
    while let Some(item) = iter.next() {
        kinds.push((
            item.filter_map_storage_item().is_some(),
            item.filter_map_event_item().is_some(),
            item.filter_map_impl_block().is_some(),
        ));
    }
    assert_eq!(
        kinds,
        vec![
            (true, false, false),
            (false, true, false),
            (false, false, true),
            (false, false, true),
            (false, false, true),
        ]
    );
    assert!(iter.next().is_none());
}

#[test]
fn members_hand_out_their_annotations() {
    assert_eq!(plain_method("p").attrs(), &[other("inline", 0)]);
    assert_eq!(const_member(vec![other("doc", 4)]).attrs(), &[other("doc", 4)]);
}

#[test]
fn rejected_members_are_reported_together() {
    let raw = raw_impl(
        vec![],
        None,
        vec![
            message("ok"),
            RawImplMember::Method(method(
                "m",
                vec![fvm(vec![tag("message", 1), tag("topic", 2)], 0)],
                vec![ref_mut()],
            )),
            plain_method("p"),
            const_member(vec![fvm(vec![tag("topic", 8)], 7)]),
            RawImplMember::Method(method("n", vec![fvm(vec![tag("payable", 1)], 0)], vec![])),
        ],
    );
    assert_eq!(
        parts(&ItemImpl::try_from(raw).unwrap_err()),
        vec![
            Diagnostic { kind: ErrorKind::ConflictingArgument, span: sp(2) },
            Diagnostic { kind: ErrorKind::UnexpectedAttribute, span: sp(8) },
            Diagnostic { kind: ErrorKind::InvalidMethodAttribute, span: sp(102) },
        ]
    );
}

#[test]
fn rejected_declarations_are_reported_together() {
    let mut generic = state_struct("A");
    generic.generic_params = 1;
    let mut unsafe_impl = raw_impl(vec![], None, vec![message("m")]);
    unsafe_impl.unsafety = Some(sp(6));
    let m = module(vec![
        RawItem::Struct(generic),
        RawItem::Other("use a::b;".to_string()),
        RawItem::Impl(unsafe_impl),
        RawItem::Struct(raw_struct("E", vec![fvm(vec![tag("event", 1), tag("payable", 2)], 0)])),
    ]);
    assert_eq!(
        parts(&ItemMod::try_from(m).unwrap_err()),
        vec![
            Diagnostic { kind: ErrorKind::GenericState, span: sp(91) },
            Diagnostic { kind: ErrorKind::UnsafeImpl, span: sp(6) },
            Diagnostic { kind: ErrorKind::ConflictingArgument, span: sp(2) },
        ]
    );
}

#[test]
fn generators_agree_with_the_whole() {
    let contract = Contract::new(hello_world()).unwrap();
    let state = generator::State::from(&contract).generate_code().unwrap();
    assert_eq!(state.state.ident(), "HelloWorld");
    assert_eq!(state.table.len(), 3);
    assert_eq!(state.table.arm(2).index, 4);
    let impls = generator::ItemImpls::from(&contract).generate_code().unwrap();
    assert_eq!(impls.len(), 3);
    assert_eq!(impls[0].members.len(), 4);
    assert_eq!(impls[1].members.len(), 1);
    assert_eq!(impls[2].members.len(), 1);
    let whole = generator::Contract::from(&contract);
    assert_eq!(whole.as_ref().module(), contract.module());
    let code = whole.generate_code().unwrap();
    assert_eq!(code.state.table, state.table);
    assert_eq!(code.impls.len(), impls.len());
}

#[test]
fn len_counts_what_next_will_hand_out() {
    let two = Message::try_from(method(
        "m",
        vec![fvm(vec![tag("message", 1)], 0)],
        vec![ref_shared(), typed("a: u8"), typed("b: u8")],
    ))
    .unwrap();
    assert_eq!(two.inputs().len(), 2);
    let none = Message::try_from(method("m", vec![fvm(vec![tag("message", 1)], 0)], vec![ref_mut()]))
        .unwrap();
    assert_eq!(none.inputs().len(), 0);
    let c = Constructor::try_from(method(
        "new",
        vec![fvm(vec![tag("constructor", 1)], 0)],
        vec![typed("a: u8")],
    ))
    .unwrap();
    assert_eq!(c.inputs().len(), 1);
    assert_eq!(c.declared_inputs().len(), 1);
    let mut walked = 0;
    let mut iter = two.inputs();
    let promised = iter.len();
    while iter.next().is_some() {
        walked += 1;
    }
    assert_eq!(walked, promised);
}

#[test]
fn inherent_message_saves_before_its_statements() {
    let mut raw = method("m", vec![fvm(vec![tag("message", 1)], 0)], vec![ref_mut()]);
    raw.statements = vec!["a();".to_string(), "b()".to_string()];
    let m = Message::try_from(raw).unwrap();
    let a = "a();".to_string();
    let b = "b()".to_string();
    assert_eq!(
        generate_inherent_message(&m),
        vec![BodyStep::SaveState, BodyStep::Statement(&a), BodyStep::Statement(&b)]
    );
    assert_eq!(
        generate_trait_message(&m),
        vec![BodyStep::Statement(&a), BodyStep::Statement(&b)]
    );
    let mut raw = method("new", vec![fvm(vec![tag("constructor", 1)], 0)], vec![]);
    raw.statements = vec![];
    let c = Constructor::try_from(raw).unwrap();
    assert_eq!(generate_inherent_constructor(&c), Vec::<BodyStep>::new());
    let mut raw = method("m", vec![fvm(vec![tag("message", 1)], 0)], vec![ref_mut()]);
    raw.statements = vec![];
    let empty = Message::try_from(raw).unwrap();
    assert_eq!(generate_inherent_message(&empty), vec![BodyStep::SaveState]);
}

#[test]
fn declarations_keep_their_text() {
    let actor = raw_struct("A", vec![other("doc", 3), fvm(vec![tag("actor", 1)], 0)]);
    let text = actor.tokens.clone();
    match Item::try_from(RawItem::Struct(actor)).unwrap() {
        Item::Rust(RawItem::Struct(s)) => {
            assert_eq!(s.tokens, text);
            assert_eq!(s.attrs, vec![other("doc", 3)]);
        }
        _ => panic!("expected a struct passed through"),
    }
    let event = Event::try_from(raw_struct("E", vec![fvm(vec![tag("event", 1), tag("anonymous", 2)], 0)]))
        .unwrap();
    assert!(event.is_anonymous());
    assert!(!Event::try_from(raw_struct("E", vec![fvm(vec![tag("event", 1)], 0)])).unwrap().is_anonymous());
}

#[test]
fn generated_state_is_the_module_state() {
    let contract = Contract::new(hello_world()).unwrap();
    let code = generate_code(&contract).unwrap();
    assert_eq!(code.state.state, contract.module().state());
}
