//! The closed vocabulary of contract tags and the checks on their use.

use vstd::prelude::*;
use vstd::string::*;
use crate::error::{collect, single, Diagnostic, Error, ErrorKind, Span};
use crate::grammar::same_text;
use crate::selector::{extend_bytes, Selector};
use crate::syntax::{Literal, RawAttribute, RawMeta, RawTag, TagArgument, TagShape};

verus! {

/// The kinds of tag, without the data that a tag may carry.
#[derive(Debug, Clone, Copy, PartialEq, Eq, Structural, Hash)]
pub enum AttributeArgKind {
    Actor,
    State,
    Event,
    Anonymous,
    Topic,
    Message,
    Constructor,
    Payable,
    Selector,
    Extension,
    Namespace,
    Implementation,
    HandleStatus,
    ReturnsResult,
}

/// A selector given by the user: four bytes, or the wildcard.
#[derive(Debug, Copy, Clone, PartialEq, Eq, PartialOrd, Ord, Hash)]
pub enum SelectorOrWildcard {
    Wildcard,
    UserProvided(Selector),
}

/// What a `SelectorOrWildcard` stands for.
pub enum SelectorView {
    Wildcard,
    UserProvided(Seq<u8>),
}

impl View for SelectorOrWildcard {
    type V = SelectorView;

    open spec fn view(&self) -> SelectorView {
        match self {
            SelectorOrWildcard::Wildcard => SelectorView::Wildcard,
            SelectorOrWildcard::UserProvided(s) => SelectorView::UserProvided(s@),
        }
    }
}

/// A byte string that scopes the selectors of an inherent impl block.
#[derive(Debug, Default, PartialEq, Eq, PartialOrd, Ord, Hash)]
pub struct Namespace {
    bytes: Vec<u8>,
}

impl View for Namespace {
    type V = Seq<u8>;

    closed spec fn view(&self) -> Seq<u8> {
        self.bytes@
    }
}

impl Clone for Namespace {
    fn clone(&self) -> (copy: Self)
        ensures
            copy@ == self@,
    {
        let mut bytes: Vec<u8> = Vec::new();
        extend_bytes(&mut bytes, self.bytes.as_slice());
        Namespace { bytes }
    }
}

impl Namespace {
    pub fn new(bytes: Vec<u8>) -> (namespace: Self)
        ensures
            namespace@ == bytes@,
    {
        Self { bytes }
    }

    pub fn as_bytes(&self) -> (bytes: &[u8])
        ensures
            bytes@ == self@,
    {
        self.bytes.as_slice()
    }
}

/// One recognised tag with the data it carries.
#[derive(Debug, PartialEq, Eq, Hash)]
pub enum AttributeArg {
    Actor,
    State,
    Event,
    Anonymous,
    Topic,
    Message,
    Constructor,
    Payable,
    Implementation,
    Selector(SelectorOrWildcard),
    Namespace(Namespace),
}

/// What an `AttributeArg` stands for.
pub enum ArgView {
    Actor,
    State,
    Event,
    Anonymous,
    Topic,
    Message,
    Constructor,
    Payable,
    Implementation,
    Selector(SelectorView),
    Namespace(Seq<u8>),
}

impl View for AttributeArg {
    type V = ArgView;

    open spec fn view(&self) -> ArgView {
        match self {
            AttributeArg::Actor => ArgView::Actor,
            AttributeArg::State => ArgView::State,
            AttributeArg::Event => ArgView::Event,
            AttributeArg::Anonymous => ArgView::Anonymous,
            AttributeArg::Topic => ArgView::Topic,
            AttributeArg::Message => ArgView::Message,
            AttributeArg::Constructor => ArgView::Constructor,
            AttributeArg::Payable => ArgView::Payable,
            AttributeArg::Implementation => ArgView::Implementation,
            AttributeArg::Selector(s) => ArgView::Selector(s@),
            AttributeArg::Namespace(n) => ArgView::Namespace(n@),
        }
    }
}

/// The kind of a tag.
pub open spec fn kind_of(arg: ArgView) -> AttributeArgKind {
    match arg {
        ArgView::Actor => AttributeArgKind::Actor,
        ArgView::State => AttributeArgKind::State,
        ArgView::Event => AttributeArgKind::Event,
        ArgView::Anonymous => AttributeArgKind::Anonymous,
        ArgView::Topic => AttributeArgKind::Topic,
        ArgView::Message => AttributeArgKind::Message,
        ArgView::Constructor => AttributeArgKind::Constructor,
        ArgView::Payable => AttributeArgKind::Payable,
        ArgView::Implementation => AttributeArgKind::Implementation,
        ArgView::Selector(_) => AttributeArgKind::Selector,
        ArgView::Namespace(_) => AttributeArgKind::Namespace,
    }
}

impl Clone for AttributeArg {
    fn clone(&self) -> (copy: Self)
        ensures
            copy@ == self@,
    {
        match self {
            AttributeArg::Actor => AttributeArg::Actor,
            AttributeArg::State => AttributeArg::State,
            AttributeArg::Event => AttributeArg::Event,
            AttributeArg::Anonymous => AttributeArg::Anonymous,
            AttributeArg::Topic => AttributeArg::Topic,
            AttributeArg::Message => AttributeArg::Message,
            AttributeArg::Constructor => AttributeArg::Constructor,
            AttributeArg::Payable => AttributeArg::Payable,
            AttributeArg::Implementation => AttributeArg::Implementation,
            AttributeArg::Selector(s) => AttributeArg::Selector(*s),
            AttributeArg::Namespace(n) => AttributeArg::Namespace(n.clone()),
        }
    }
}

impl AttributeArg {
    pub fn kind(&self) -> (kind: AttributeArgKind)
        ensures
            kind == kind_of(self@),
    {
        match self {
            Self::Actor => AttributeArgKind::Actor,
            Self::State => AttributeArgKind::State,
            Self::Event => AttributeArgKind::Event,
            Self::Anonymous => AttributeArgKind::Anonymous,
            Self::Topic => AttributeArgKind::Topic,
            Self::Message => AttributeArgKind::Message,
            Self::Constructor => AttributeArgKind::Constructor,
            Self::Payable => AttributeArgKind::Payable,
            Self::Selector(_) => AttributeArgKind::Selector,
            Self::Namespace(_) => AttributeArgKind::Namespace,
            Self::Implementation => AttributeArgKind::Implementation,
        }
    }
}

/// The tag that a bare name stands for, if the vocabulary holds it.
pub open spec fn named_tag(name: Seq<char>) -> Option<ArgView> {
    if name == "actor"@ {
        Some(ArgView::Actor)
    } else if name == "state"@ {
        Some(ArgView::State)
    } else if name == "message"@ {
        Some(ArgView::Message)
    } else if name == "constructor"@ {
        Some(ArgView::Constructor)
    } else if name == "event"@ {
        Some(ArgView::Event)
    } else if name == "anonymous"@ {
        Some(ArgView::Anonymous)
    } else if name == "topic"@ {
        Some(ArgView::Topic)
    } else if name == "payable"@ {
        Some(ArgView::Payable)
    } else if name == "impl"@ {
        Some(ArgView::Implementation)
    } else {
        None
    }
}

/// The tag that a nested list stands for: `selector` with the wildcard or a
/// byte string of four bytes, or `namespace` with a byte string.
pub open spec fn list_tag(name: Option<String>, args: Seq<TagArgument>) -> Option<ArgView> {
    match name {
        Some(n) => if args.len() != 1 {
            None
        } else if n@ == "selector"@ {
            match args[0] {
                TagArgument::Wildcard => Some(ArgView::Selector(SelectorView::Wildcard)),
                TagArgument::Lit(Literal::ByteStr(b)) => if b@.len() == 4 {
                    Some(ArgView::Selector(SelectorView::UserProvided(b@)))
                } else {
                    None
                },
                _ => None,
            }
        } else if n@ == "namespace"@ {
            match args[0] {
                TagArgument::Lit(Literal::ByteStr(b)) => Some(ArgView::Namespace(b@)),
                _ => None,
            }
        } else {
            None
        },
        None => None,
    }
}

/// What one tag parses to: the tag, or the reason why it is rejected.
pub open spec fn tag_arg(shape: TagShape) -> Result<ArgView, ErrorKind> {
    match shape {
        TagShape::NameValue => Err(ErrorKind::NameValueArgument),
        TagShape::Path(None) => Err(ErrorKind::UnknownPath),
        TagShape::Path(Some(name)) => match named_tag(name@) {
            Some(arg) => Ok(arg),
            None => Err(ErrorKind::UnknownArgument),
        },
        TagShape::List(name, args) => match list_tag(name, args@) {
            Some(arg) => Ok(arg),
            None => Err(ErrorKind::ListArgument),
        },
        TagShape::Literal => Err(ErrorKind::LiteralArgument),
    }
}

/// One parsed tag and where it was written.
#[derive(Debug, PartialEq, Eq, Hash)]
pub struct AttributeFrag {
    pub span: Span,
    pub arg: AttributeArg,
}

impl Clone for AttributeFrag {
    fn clone(&self) -> (copy: Self)
        ensures
            copy@ == self@,
    {
        AttributeFrag { span: self.span, arg: self.arg.clone() }
    }
}

/// What an `AttributeFrag` stands for.
pub struct FragView {
    pub span: Span,
    pub arg: ArgView,
}

impl View for AttributeFrag {
    type V = FragView;

    open spec fn view(&self) -> FragView {
        FragView { span: self.span, arg: self.arg@ }
    }
}

fn parse_named(name: &str) -> (arg: Option<AttributeArg>)
    ensures
        match arg {
            Some(a) => named_tag(name@) == Some(a@),
            None => named_tag(name@) is None,
        },
{
    if same_text(name, "actor") {
        Some(AttributeArg::Actor)
    } else if same_text(name, "state") {
        Some(AttributeArg::State)
    } else if same_text(name, "message") {
        Some(AttributeArg::Message)
    } else if same_text(name, "constructor") {
        Some(AttributeArg::Constructor)
    } else if same_text(name, "event") {
        Some(AttributeArg::Event)
    } else if same_text(name, "anonymous") {
        Some(AttributeArg::Anonymous)
    } else if same_text(name, "topic") {
        Some(AttributeArg::Topic)
    } else if same_text(name, "payable") {
        Some(AttributeArg::Payable)
    } else if same_text(name, "impl") {
        Some(AttributeArg::Implementation)
    } else {
        None
    }
}

fn parse_list(name: &Option<String>, args: &Vec<TagArgument>) -> (arg: Option<AttributeArg>)
    ensures
        match arg {
            Some(a) => list_tag(*name, args@) == Some(a@),
            None => list_tag(*name, args@) is None,
        },
{
    let n = match name {
        Some(n) => n,
        None => {
            return None;
        },
    };
    if args.len() != 1 {
        return None;
    }
    if same_text(n.as_str(), "selector") {
        match &args[0] {
            TagArgument::Wildcard => Some(AttributeArg::Selector(SelectorOrWildcard::Wildcard)),
            TagArgument::Lit(Literal::ByteStr(b)) => {
                if b.len() == 4 {
                    let selector = Selector::from_bytes([b[0], b[1], b[2], b[3]]);
                    assert(selector@ =~= b@);
                    Some(AttributeArg::Selector(SelectorOrWildcard::UserProvided(selector)))
                } else {
                    None
                }
            },
            _ => None,
        }
    } else if same_text(n.as_str(), "namespace") {
        match &args[0] {
            TagArgument::Lit(Literal::ByteStr(b)) => {
                let mut bytes: Vec<u8> = Vec::new();
                extend_bytes(&mut bytes, b.as_slice());
                Some(AttributeArg::Namespace(Namespace::new(bytes)))
            },
            _ => None,
        }
    } else {
        None
    }
}

impl AttributeFrag {
    pub fn kind(&self) -> (arg: &AttributeArg)
        ensures
            *arg == self.arg,
    {
        &self.arg
    }

    pub fn span(&self) -> (span: Span)
        ensures
            span == self.span,
    {
        self.span
    }

    /// Parses one tag: a name of the vocabulary, `selector(..)` or
    /// `namespace(..)`; every other shape is rejected at the tag's location.
    pub fn try_from(tag: &RawTag) -> (res: Result<Self, Error>)
        ensures
            match res {
                Ok(frag) => tag_arg(tag.shape) == Ok::<ArgView, ErrorKind>(frag@.arg) && frag.span
                    == tag.span,
                Err(e) => tag_arg(tag.shape) is Err && e@ == single(
                    tag_arg(tag.shape)->Err_0,
                    tag.span,
                ),
            },
    {
        let span = tag.span;
        match &tag.shape {
            TagShape::NameValue => Err(Error::new(ErrorKind::NameValueArgument, span)),
            TagShape::Path(None) => Err(Error::new(ErrorKind::UnknownPath, span)),
            TagShape::Path(Some(name)) => match parse_named(name.as_str()) {
                Some(arg) => Ok(AttributeFrag { span, arg }),
                None => Err(Error::new(ErrorKind::UnknownArgument, span)),
            },
            TagShape::List(name, args) => match parse_list(name, args) {
                Some(arg) => Ok(AttributeFrag { span, arg }),
                None => Err(Error::new(ErrorKind::ListArgument, span)),
            },
            TagShape::Literal => Err(Error::new(ErrorKind::LiteralArgument, span)),
        }
    }
}


/// A declaration that carries annotations.
pub trait Attrs {
    /// The annotations on the declaration, in order.
    spec fn spec_attrs(&self) -> Seq<RawAttribute>;

    fn attrs(&self) -> (attrs: &[RawAttribute])
        ensures
            attrs@ == self.spec_attrs(),
    ;
}

/// Whether an annotation belongs to the contract vocabulary.
pub open spec fn is_fvm(attr: RawAttribute) -> bool {
    match attr.name {
        Some(n) => n@ == "fvm_macro"@,
        None => false,
    }
}

/// The diagnostic for a tag that is rejected.
pub open spec fn tag_error(tag: RawTag) -> Option<Seq<Diagnostic>> {
    match tag_arg(tag.shape) {
        Err(kind) => Some(single(kind, tag.span)),
        Ok(_) => None,
    }
}

/// The diagnostics of all rejected tags among the first `n`, in order; none
/// where no tag is rejected.
pub open spec fn tag_errors(tags: Seq<RawTag>, n: int) -> Option<Seq<Diagnostic>>
    decreases n,
{
    if n <= 0 {
        None
    } else {
        collect(tag_errors(tags, n - 1), tag_error(tags[n - 1]))
    }
}

/// The parsed form of each tag; meaningful where no tag is rejected.
pub open spec fn parsed_tags(tags: Seq<RawTag>) -> Seq<FragView> {
    Seq::new(
        tags.len(),
        |i: int| FragView { span: tags[i].span, arg: tag_arg(tags[i].shape)->Ok_0 },
    )
}

/// What one annotation parses to as a contract annotation: its tags, or
/// the diagnostics of all its rejected tags together.
pub open spec fn fvm_attribute(attr: RawAttribute) -> Result<Seq<FragView>, Seq<Diagnostic>> {
    if !is_fvm(attr) {
        Err(single(ErrorKind::NonFvmAttribute, attr.span))
    } else {
        match attr.meta {
            RawMeta::Malformed => Err(single(ErrorKind::AttributeStructure, attr.span)),
            RawMeta::Other => Err(single(ErrorKind::UnknownAttribute, attr.span)),
            RawMeta::List(tags) => match tag_errors(tags@, tags@.len() as int) {
                Some(e) => Err(e),
                None => if tags@.len() == 0 {
                    Err(single(ErrorKind::EmptyAttribute, attr.span))
                } else {
                    Ok(parsed_tags(tags@))
                },
            },
        }
    }
}

/// The views of a sequence of tags.
pub open spec fn frag_views(frags: Seq<AttributeFrag>) -> Seq<FragView> {
    frags.map_values(|f: AttributeFrag| f@)
}

/// The tags of one or more contract annotations on a declaration, in order.
#[derive(Debug, PartialEq, Eq, Hash)]
pub struct FvmAttribute {
    args: Vec<AttributeFrag>,
}

impl Clone for FvmAttribute {
    fn clone(&self) -> (copy: Self)
        ensures
            copy@ == self@,
    {
        proof {
            use_type_invariant(self);
        }
        let mut args: Vec<AttributeFrag> = Vec::new();
        let mut i: usize = 0;
        while i < self.args.len()
            invariant
                i <= self.args@.len(),
                args@.len() == i,
                forall|j: int| 0 <= j < i ==> (#[trigger] args@[j])@ == self.args@[j]@,
            decreases self.args@.len() - i,
        {
            args.push(self.args[i].clone());
            i += 1;
        }
        assert(frag_views(args@) =~= frag_views(self.args@));
        FvmAttribute { args }
    }
}

impl View for FvmAttribute {
    type V = Seq<FragView>;

    closed spec fn view(&self) -> Seq<FragView> {
        frag_views(self.args@)
    }
}

/// The range covered by the first tag joined, in turn, with the first `n` tags.
pub open spec fn joined_span(frags: Seq<FragView>, n: int) -> Span
    recommends
        0 < frags.len(),
        0 <= n <= frags.len(),
    decreases n,
{
    if n <= 0 {
        frags[0].span
    } else {
        joined_span(frags, n - 1).spec_join(frags[n - 1].span)
    }
}

/// The diagnostics for the tags among the first `n` whose kind is not in `compatible`.
pub open spec fn conflicts(frags: Seq<FragView>, compatible: Seq<AttributeArgKind>, n: int) -> Seq<
    Diagnostic,
>
    decreases n,
{
    if n <= 0 {
        Seq::empty()
    } else {
        let rest = conflicts(frags, compatible, n - 1);
        if compatible.contains(kind_of(frags[n - 1].arg)) {
            rest
        } else {
            rest.push(Diagnostic { kind: ErrorKind::ConflictingArgument, span: frags[n - 1].span })
        }
    }
}

/// Whether a tag of the given form occurs.
pub open spec fn has_arg(frags: Seq<FragView>, arg: ArgView) -> bool {
    exists|i: int| 0 <= i < frags.len() && (#[trigger] frags[i]).arg == arg
}

/// The bytes of the first `namespace` tag from `from` on.
pub open spec fn namespace_from(frags: Seq<FragView>, from: int) -> Option<Seq<u8>>
    decreases frags.len() - from,
{
    if from < 0 || from >= frags.len() {
        None
    } else {
        match frags[from].arg {
            ArgView::Namespace(bytes) => Some(bytes),
            _ => namespace_from(frags, from + 1),
        }
    }
}

/// The first `selector` tag from `from` on.
pub open spec fn selector_from(frags: Seq<FragView>, from: int) -> Option<SelectorView>
    decreases frags.len() - from,
{
    if from < 0 || from >= frags.len() {
        None
    } else {
        match frags[from].arg {
            ArgView::Selector(selector) => Some(selector),
            _ => selector_from(frags, from + 1),
        }
    }
}

/// The tag lists of several annotations.
pub open spec fn attr_views(attrs: Seq<FvmAttribute>) -> Seq<Seq<FragView>> {
    attrs.map_values(|a: FvmAttribute| a@)
}

/// All tags of the given lists, one list after the other.
pub open spec fn flattened(parts: Seq<Seq<FragView>>) -> Seq<FragView>
    decreases parts.len(),
{
    if parts.len() == 0 {
        Seq::empty()
    } else {
        flattened(parts.drop_last()) + parts.last()
    }
}

fn kind_in(kind: AttributeArgKind, compatible: &[AttributeArgKind]) -> (found: bool)
    ensures
        found == compatible@.contains(kind),
{
    let mut i: usize = 0;
    while i < compatible.len()
        invariant
            i <= compatible@.len(),
            forall|j: int| 0 <= j < i ==> compatible@[j] != kind,
        decreases compatible@.len() - i,
    {
        if compatible[i] == kind {
            return true;
        }
        i += 1;
    }
    false
}

impl FvmAttribute {
    #[verifier::type_invariant]
    spec fn holds_a_tag(&self) -> bool {
        self.args@.len() > 0
    }

    /// An annotation holds at least one tag. This holds of every value of the type.
    pub open spec fn wf(&self) -> bool {
        self@.len() > 0
    }

    /// The range from the first tag over all tags.
    pub fn span(&self) -> (span: Span)
        ensures
            span == joined_span(self@, self@.len() as int),
    {
        proof {
            use_type_invariant(self);
        }
        let mut span = self.args[0].span;
        let mut i: usize = 0;
        while i < self.args.len()
            invariant
                i <= self.args@.len(),
                self@ == frag_views(self.args@),
                self.wf(),
                span == joined_span(self@, i as int),
            decreases self.args@.len() - i,
        {
            span = span.join(self.args[i].span);
            i += 1;
        }
        span
    }

    /// Checks every tag against the kinds that the declaration admits and
    /// reports all that it does not admit together, in order.
    pub fn ensure_no_conflicts(&self, compatible: &[AttributeArgKind]) -> (res: Result<(), Error>)
        ensures
            match res {
                Ok(()) => conflicts(self@, compatible@, self@.len() as int).len() == 0,
                Err(e) => e@.len() > 0 && e@ == conflicts(self@, compatible@, self@.len() as int),
            },
    {
        let mut err: Option<Error> = None;
        let mut i: usize = 0;
        while i < self.args.len()
            invariant
                i <= self.args@.len(),
                self@ == frag_views(self.args@),
                match err {
                    None => conflicts(self@, compatible@, i as int).len() == 0,
                    Some(e) => e@.len() > 0 && e@ == conflicts(self@, compatible@, i as int),
                },
            decreases self.args@.len() - i,
        {
            let arg = &self.args[i];
            if !kind_in(arg.arg.kind(), compatible) {
                let conflict = Error::new(ErrorKind::ConflictingArgument, arg.span);
                err = match err {
                    Some(e) => Some(e.into_combine(conflict)),
                    None => Some(conflict),
                };
            }
            i += 1;
        }
        match err {
            Some(e) => Err(e),
            None => Ok(()),
        }
    }

    /// Requires the first tag to be of the expected kind.
    pub fn ensure_first(&self, expected: &AttributeArgKind) -> (res: Result<(), Error>)
        ensures
            match res {
                Ok(()) => kind_of(self@[0].arg) == *expected,
                Err(e) => kind_of(self@[0].arg) != *expected && e@ == single(
                    ErrorKind::UnexpectedFirstArgument,
                    joined_span(self@, self@.len() as int),
                ),
            },
    {
        if self.first().arg.kind() != *expected {
            return Err(Error::new(ErrorKind::UnexpectedFirstArgument, self.span()));
        }
        Ok(())
    }

    /// Merges the tags of several annotations into one list; an empty list is rejected.
    pub fn from_expanded(attrs: Vec<FvmAttribute>) -> (res: Result<Self, Error>)
        ensures
            match res {
                Ok(merged) => merged.wf() && merged@ == flattened(attr_views(attrs@)),
                Err(e) => flattened(attr_views(attrs@)).len() == 0 && e@ == single(
                    ErrorKind::EmptyExpansion,
                    Span { lo: 0, hi: 0 },
                ),
            },
    {
        let mut args: Vec<AttributeFrag> = Vec::new();
        let ghost all = attrs@;
        for attr in it: attrs
            invariant
                it.seq() == all,
                frag_views(args@) == flattened(attr_views(all.take(it.index() as int))),
        {
            let FvmAttribute { args: mut tags } = attr;
            proof {
                let i = it.index() as int;
                assert(attr_views(all.take(i + 1)).drop_last() =~= attr_views(all.take(i)));
                assert(attr_views(all.take(i + 1)).last() == all[i]@);
                assert(frag_views(args@ + tags@) =~= frag_views(args@) + frag_views(tags@));
            }
            args.append(&mut tags);
        }
        proof {
            assert(all.take(all.len() as int) == all);
        }
        if args.len() == 0 {
            return Err(Error::new(ErrorKind::EmptyExpansion, Span { lo: 0, hi: 0 }));
        }
        Ok(Self { args })
    }

    pub fn first(&self) -> (frag: &AttributeFrag)
        ensures
            self.wf(),
            frag@ == self@[0],
    {
        proof {
            use_type_invariant(self);
        }
        &self.args[0]
    }

    pub fn is_anonymous(&self) -> (found: bool)
        ensures
            found == has_arg(self@, ArgView::Anonymous),
    {
        let mut i: usize = 0;
        while i < self.args.len()
            invariant
                i <= self.args@.len(),
                self@ == frag_views(self.args@),
                forall|j: int| 0 <= j < i ==> (#[trigger] self@[j]).arg != ArgView::Anonymous,
            decreases self.args@.len() - i,
        {
            if let AttributeArg::Anonymous = self.args[i].arg {
                assert(self@[i as int].arg == ArgView::Anonymous);
                return true;
            }
            i += 1;
        }
        false
    }

    /// The tags, in order.
    pub fn args(&self) -> (args: &[AttributeFrag])
        ensures
            frag_views(args@) == self@,
    {
        self.args.as_slice()
    }

    /// The first namespace given, if any.
    pub fn namespace(&self) -> (namespace: Option<Namespace>)
        ensures
            match namespace {
                Some(n) => namespace_from(self@, 0) == Some(n@),
                None => namespace_from(self@, 0) is None,
            },
    {
        let mut i: usize = 0;
        while i < self.args.len()
            invariant
                i <= self.args@.len(),
                self@ == frag_views(self.args@),
                namespace_from(self@, 0) == namespace_from(self@, i as int),
            decreases self.args@.len() - i,
        {
            if let AttributeArg::Namespace(namespace) = &self.args[i].arg {
                return Some(namespace.clone());
            }
            i += 1;
        }
        None
    }

    /// The first selector given, if any.
    pub fn selector(&self) -> (selector: Option<SelectorOrWildcard>)
        ensures
            match selector {
                Some(s) => selector_from(self@, 0) == Some(s@),
                None => selector_from(self@, 0) is None,
            },
    {
        let mut i: usize = 0;
        while i < self.args.len()
            invariant
                i <= self.args@.len(),
                self@ == frag_views(self.args@),
                selector_from(self@, 0) == selector_from(self@, i as int),
            decreases self.args@.len() - i,
        {
            if let AttributeArg::Selector(selector) = &self.args[i].arg {
                return Some(*selector);
            }
            i += 1;
        }
        None
    }

    pub fn is_payable(&self) -> (found: bool)
        ensures
            found == has_arg(self@, ArgView::Payable),
    {
        let mut i: usize = 0;
        while i < self.args.len()
            invariant
                i <= self.args@.len(),
                self@ == frag_views(self.args@),
                forall|j: int| 0 <= j < i ==> (#[trigger] self@[j]).arg != ArgView::Payable,
            decreases self.args@.len() - i,
        {
            if let AttributeArg::Payable = self.args[i].arg {
                assert(self@[i as int].arg == ArgView::Payable);
                return true;
            }
            i += 1;
        }
        false
    }

    /// Parses an annotation of the contract vocabulary into its tags.
    pub fn try_from(attr: &RawAttribute) -> (res: Result<Self, Error>)
        ensures
            match res {
                Ok(parsed) => parsed.wf() && fvm_attribute(*attr) == Ok::<
                    Seq<FragView>,
                    Seq<Diagnostic>,
                >(parsed@),
                Err(e) => fvm_attribute(*attr) == Err::<Seq<FragView>, Seq<Diagnostic>>(e@),
            },
    {
        if !is_fvm_attribute(attr) {
            return Err(Error::new(ErrorKind::NonFvmAttribute, attr.span));
        }
        let span = attr.span;
        match &attr.meta {
            RawMeta::Malformed => Err(Error::new(ErrorKind::AttributeStructure, span)),
            RawMeta::Other => Err(Error::new(ErrorKind::UnknownAttribute, span)),
            RawMeta::List(tags) => {
                let mut args: Vec<AttributeFrag> = Vec::new();
                let mut err: Option<Error> = None;
                let mut i: usize = 0;
                while i < tags.len()
                    invariant
                        i <= tags@.len(),
                        is_fvm(*attr),
                        attr.meta == RawMeta::List(*tags),
                        match err {
                            None => tag_errors(tags@, i as int) is None && frag_views(args@)
                                == parsed_tags(tags@.take(i as int)),
                            Some(e) => tag_errors(tags@, i as int) == Some(e@),
                        },
                    decreases tags@.len() - i,
                {
                    match AttributeFrag::try_from(&tags[i]) {
                        Ok(frag) => {
                            if err.is_none() {
                                let ghost before = args@;
                                args.push(frag);
                                proof {
                                    assert(frag_views(before).len() == i);
                                    assert(args@[i as int] == frag);
                                    assert forall|j: int| 0 <= j < i + 1 implies frag_views(
                                        args@,
                                    )[j] == parsed_tags(tags@.take(i + 1))[j] by {
                                        if j < i {
                                            assert(frag_views(before)[j] == parsed_tags(
                                                tags@.take(i as int),
                                            )[j]);
                                        }
                                    }
                                    assert(frag_views(args@) =~= parsed_tags(tags@.take(i + 1)));
                                }
                            }
                        },
                        Err(e) => {
                            err = Some(Error::collect(err, e));
                        },
                    }
                    i += 1;
                }
                proof {
                    assert(tags@.take(tags@.len() as int) == tags@);
                }
                if let Some(e) = err {
                    return Err(e);
                }
                if args.len() == 0 {
                    return Err(Error::new(ErrorKind::EmptyAttribute, span));
                }
                Ok(FvmAttribute { args })
            },
        }
    }
}

/// Whether the annotation's path is the identifier `fvm_macro`.
pub fn is_fvm_attribute(attr: &RawAttribute) -> (yes: bool)
    ensures
        yes == is_fvm(*attr),
{
    match &attr.name {
        Some(n) => same_text(n.as_str(), "fvm_macro"),
        None => false,
    }
}


/// An annotation, told apart by whether it belongs to the contract vocabulary.
#[derive(Debug)]
pub enum Attribute {
    Fvm(FvmAttribute),
    Other(RawAttribute),
}

impl Attribute {
    /// Parses a contract annotation; any other annotation is kept as it is.
    pub fn try_from(attr: RawAttribute) -> (res: Result<Self, Error>)
        ensures
            match res {
                Ok(Attribute::Fvm(parsed)) => is_fvm(attr) && parsed.wf() && fvm_attribute(attr)
                    == Ok::<Seq<FragView>, Seq<Diagnostic>>(parsed@),
                Ok(Attribute::Other(other)) => !is_fvm(attr) && other == attr,
                Err(e) => is_fvm(attr) && fvm_attribute(attr) == Err::<
                    Seq<FragView>,
                    Seq<Diagnostic>,
                >(e@),
            },
    {
        if is_fvm_attribute(&attr) {
            return match FvmAttribute::try_from(&attr) {
                Ok(parsed) => Ok(Attribute::Fvm(parsed)),
                Err(e) => Err(e),
            };
        }
        Ok(Attribute::Other(attr))
    }
}

/// The index of the first contract annotation from `from` on.
pub open spec fn first_fvm_from(attrs: Seq<RawAttribute>, from: int) -> Option<int>
    decreases attrs.len() - from,
{
    if from < 0 || from >= attrs.len() {
        None
    } else if is_fvm(attrs[from]) {
        Some(from)
    } else {
        first_fvm_from(attrs, from + 1)
    }
}

/// The diagnostics of an annotation that is rejected; an annotation outside
/// the contract vocabulary never is.
pub open spec fn attr_error(attr: RawAttribute) -> Option<Seq<Diagnostic>> {
    if is_fvm(attr) {
        match fvm_attribute(attr) {
            Err(e) => Some(e),
            Ok(_) => None,
        }
    } else {
        None
    }
}

/// The diagnostics of all rejected annotations among the first `n`, in
/// order; none where no annotation is rejected.
pub open spec fn attr_errors(attrs: Seq<RawAttribute>, n: int) -> Option<Seq<Diagnostic>>
    decreases n,
{
    if n <= 0 {
        None
    } else {
        collect(attr_errors(attrs, n - 1), attr_error(attrs[n - 1]))
    }
}

/// The tag lists of the contract annotations among `attrs`, in order;
/// meaningful where each of them parses.
pub open spec fn fvm_parts(attrs: Seq<RawAttribute>) -> Seq<Seq<FragView>>
    decreases attrs.len(),
{
    if attrs.len() == 0 {
        Seq::empty()
    } else if is_fvm(attrs.last()) {
        fvm_parts(attrs.drop_last()).push(fvm_attribute(attrs.last())->Ok_0)
    } else {
        fvm_parts(attrs.drop_last())
    }
}

/// The annotations among `attrs` that do not belong to the contract vocabulary, in order.
pub open spec fn other_parts(attrs: Seq<RawAttribute>) -> Seq<RawAttribute>
    decreases attrs.len(),
{
    if attrs.len() == 0 {
        Seq::empty()
    } else if is_fvm(attrs.last()) {
        other_parts(attrs.drop_last())
    } else {
        other_parts(attrs.drop_last()).push(attrs.last())
    }
}

/// All contract tags on a declaration, merged in order.
pub open spec fn merged_tags(attrs: Seq<RawAttribute>) -> Seq<FragView> {
    flattened(fvm_parts(attrs))
}

/// Whether any of the annotations belongs to the contract vocabulary.
pub fn contains_fvm_attributes(attrs: &[RawAttribute]) -> (found: bool)
    ensures
        found == (first_fvm_from(attrs@, 0) is Some),
{
    let mut i: usize = 0;
    while i < attrs.len()
        invariant
            i <= attrs@.len(),
            first_fvm_from(attrs@, 0) == first_fvm_from(attrs@, i as int),
        decreases attrs@.len() - i,
    {
        if is_fvm_attribute(&attrs[i]) {
            return true;
        }
        i += 1;
    }
    false
}

/// Parses the first contract annotation among `attrs`, if there is one.
pub fn first_fvm_attribute(attrs: &[RawAttribute]) -> (res: Result<Option<FvmAttribute>, Error>)
    ensures
        match first_fvm_from(attrs@, 0) {
            None => res == Ok::<Option<FvmAttribute>, Error>(None),
            Some(i) => match res {
                Ok(Some(parsed)) => parsed.wf() && fvm_attribute(attrs@[i]) == Ok::<
                    Seq<FragView>,
                    Seq<Diagnostic>,
                >(parsed@),
                Ok(None) => false,
                Err(e) => fvm_attribute(attrs@[i]) == Err::<Seq<FragView>, Seq<Diagnostic>>(e@),
            },
        },
{
    let mut i: usize = 0;
    while i < attrs.len()
        invariant
            i <= attrs@.len(),
            first_fvm_from(attrs@, 0) == first_fvm_from(attrs@, i as int),
        decreases attrs@.len() - i,
    {
        if is_fvm_attribute(&attrs[i]) {
            return match FvmAttribute::try_from(&attrs[i]) {
                Ok(parsed) => Ok(Some(parsed)),
                Err(e) => Err(e),
            };
        }
        i += 1;
    }
    Ok(None)
}

/// Splits the annotations into the parsed contract annotations and the rest,
/// each in order; the rejected annotations are reported together.
pub fn partition_attributes(attrs: Vec<RawAttribute>) -> (res: Result<
    (Vec<FvmAttribute>, Vec<RawAttribute>),
    Error,
>)
    ensures
        match res {
            Ok((fvm, others)) => attr_errors(attrs@, attrs@.len() as int) is None && attr_views(
                fvm@,
            ) == fvm_parts(attrs@) && others@ == other_parts(attrs@),
            Err(e) => attr_errors(attrs@, attrs@.len() as int) == Some(e@),
        },
{
    let mut fvm: Vec<FvmAttribute> = Vec::new();
    let mut others: Vec<RawAttribute> = Vec::new();
    let mut err: Option<Error> = None;
    let ghost all = attrs@;
    for attr in it: attrs
        invariant
            it.seq() == all,
            all == attrs@,
            match err {
                None => attr_errors(all, it.index() as int) is None && attr_views(fvm@)
                    == fvm_parts(all.take(it.index() as int)),
                Some(e) => attr_errors(all, it.index() as int) == Some(e@),
            },
            others@ == other_parts(all.take(it.index() as int)),
    {
        proof {
            let i = it.index() as int;
            assert(all.take(i + 1).drop_last() == all.take(i));
            assert(attr == all[i]);
        }
        match Attribute::try_from(attr) {
            Ok(Attribute::Fvm(parsed)) => {
                if err.is_none() {
                    let ghost before = fvm@;
                    fvm.push(parsed);
                    assert(attr_views(fvm@) =~= attr_views(before).push(parsed@));
                }
            },
            Ok(Attribute::Other(other)) => {
                others.push(other);
            },
            Err(e) => {
                err = Some(Error::collect(err, e));
            },
        }
    }
    proof {
        assert(all.take(all.len() as int) == all);
    }
    match err {
        Some(e) => Err(e),
        None => Ok((fvm, others)),
    }
}

/// What `sanitize_attributes` reports for a declaration, if it rejects it.
pub open spec fn sanitize_error(
    parent_span: Span,
    attrs: Seq<RawAttribute>,
    is_valid_first: AttributeArgKind,
    compatible: Seq<AttributeArgKind>,
) -> Option<Seq<Diagnostic>> {
    let merged = merged_tags(attrs);
    match attr_errors(attrs, attrs.len() as int) {
        Some(e) => Some(e),
        None => if merged.len() == 0 {
            Some(
                single(ErrorKind::EmptyExpansion, Span { lo: 0, hi: 0 }) + single(
                    ErrorKind::AtThisInvocation,
                    parent_span,
                ),
            )
        } else if kind_of(merged[0].arg) != is_valid_first {
            Some(
                single(ErrorKind::UnexpectedFirstArgument, joined_span(merged, merged.len() as int))
                    + single(ErrorKind::AtThisInvocation, parent_span),
            )
        } else if conflicts(merged, compatible, merged.len() as int).len() > 0 {
            Some(conflicts(merged, compatible, merged.len() as int))
        } else {
            None
        },
    }
}

/// Parses and merges the contract annotations of one declaration, requires
/// the first tag to be of the kind that the declaration stands for, and
/// rejects every tag whose kind is not among `compatible`. Hands back the
/// merged tags and the other annotations.
pub fn sanitize_attributes(
    parent_span: Span,
    attrs: Vec<RawAttribute>,
    is_valid_first: &AttributeArgKind,
    compatible: &[AttributeArgKind],
) -> (res: Result<(FvmAttribute, Vec<RawAttribute>), Error>)
    ensures
        match res {
            Ok((normalized, others)) => sanitize_error(
                parent_span,
                attrs@,
                *is_valid_first,
                compatible@,
            ) is None && normalized.wf() && normalized@ == merged_tags(attrs@) && others@
                == other_parts(attrs@),
            Err(e) => sanitize_error(parent_span, attrs@, *is_valid_first, compatible@) == Some(e@),
        },
{
    let (fvm_attrs, other_attrs) = match partition_attributes(attrs) {
        Ok(parts) => parts,
        Err(e) => {
            return Err(e);
        },
    };
    let normalized = match FvmAttribute::from_expanded(fvm_attrs) {
        Ok(normalized) => normalized,
        Err(e) => {
            return Err(e.into_combine(Error::new(ErrorKind::AtThisInvocation, parent_span)));
        },
    };
    match normalized.ensure_first(is_valid_first) {
        Ok(()) => {},
        Err(e) => {
            return Err(e.into_combine(Error::new(ErrorKind::AtThisInvocation, parent_span)));
        },
    }
    match normalized.ensure_no_conflicts(compatible) {
        Ok(()) => {},
        Err(e) => {
            return Err(e);
        },
    }
    Ok((normalized, other_attrs))
}


/// The kind of the first tag of the first contract annotation among `attrs`:
/// none where there is no such annotation, the diagnostics where it does not parse.
pub open spec fn first_tag_kind(attrs: Seq<RawAttribute>) -> Result<
    Option<AttributeArgKind>,
    Seq<Diagnostic>,
> {
    match first_fvm_from(attrs, 0) {
        None => Ok(None),
        Some(i) => match fvm_attribute(attrs[i]) {
            Ok(frags) => Ok(Some(kind_of(frags[0].arg))),
            Err(e) => Err(e),
        },
    }
}

/// The kind by which a declaration is classified: that of its first tag.
pub fn first_fvm_kind(attrs: &[RawAttribute]) -> (res: Result<Option<AttributeArgKind>, Error>)
    ensures
        match res {
            Ok(kind) => first_tag_kind(attrs@) == Ok::<Option<AttributeArgKind>, Seq<Diagnostic>>(
                kind,
            ),
            Err(e) => first_tag_kind(attrs@) == Err::<Option<AttributeArgKind>, Seq<Diagnostic>>(
                e@,
            ),
        },
{
    match first_fvm_attribute(attrs) {
        Ok(Some(attr)) => Ok(Some(attr.first().arg.kind())),
        Ok(None) => Ok(None),
        Err(e) => Err(e),
    }
}

/// Parses the contract annotations among `attrs` and leaves the others
/// where they are; the rejected annotations are reported together.
pub fn fvm_attributes_of(attrs: &[RawAttribute]) -> (res: Result<Vec<FvmAttribute>, Error>)
    ensures
        match res {
            Ok(fvm) => attr_errors(attrs@, attrs@.len() as int) is None && attr_views(fvm@)
                == fvm_parts(attrs@) && forall|j: int|
                0 <= j < fvm@.len() ==> (#[trigger] fvm@[j]).wf(),
            Err(e) => attr_errors(attrs@, attrs@.len() as int) == Some(e@),
        },
{
    let mut fvm: Vec<FvmAttribute> = Vec::new();
    let mut err: Option<Error> = None;
    let mut i: usize = 0;
    while i < attrs.len()
        invariant
            i <= attrs@.len(),
            match err {
                None => attr_errors(attrs@, i as int) is None && attr_views(fvm@) == fvm_parts(
                    attrs@.take(i as int),
                ),
                Some(e) => attr_errors(attrs@, i as int) == Some(e@),
            },
            forall|j: int| 0 <= j < fvm@.len() ==> (#[trigger] fvm@[j]).wf(),
        decreases attrs@.len() - i,
    {
        proof {
            assert(attrs@.take(i + 1).drop_last() == attrs@.take(i as int));
        }
        if is_fvm_attribute(&attrs[i]) {
            match FvmAttribute::try_from(&attrs[i]) {
                Ok(parsed) => {
                    if err.is_none() {
                        let ghost before = fvm@;
                        fvm.push(parsed);
                        assert(attr_views(fvm@) =~= attr_views(before).push(parsed@));
                    }
                },
                Err(e) => {
                    err = Some(Error::collect(err, e));
                },
            }
        }
        i += 1;
    }
    proof {
        assert(attrs@.take(attrs@.len() as int) == attrs@);
    }
    match err {
        Some(e) => Err(e),
        None => Ok(fvm),
    }
}

} // verus!
