//! The grammar of an annotation's body: from its tokens to its tags.

use vstd::prelude::*;
use vstd::string::*;
use crate::error::Span;
use crate::syntax::{Literal, RawMeta, RawTag, TagArgument, TagShape};

verus! {

/// What a token is.
#[derive(Debug, PartialEq, Eq)]
pub enum TokenKind {
    /// An identifier; `_` is one.
    Ident(String),
    /// One character of punctuation.
    Punct(char),
    Lit(Literal),
    /// A parenthesised group with its tokens.
    Parens(Vec<SpannedToken>),
    /// A group in brackets or braces.
    Group,
}

/// One token with its location.
#[derive(Debug, PartialEq, Eq)]
pub struct SpannedToken {
    pub kind: TokenKind,
    pub span: Span,
}

/// What a tag's shape stands for.
pub enum ShapeView {
    Path(Option<String>),
    NameValue,
    List(Option<String>, Seq<TagArgument>),
    Literal,
}

/// What a tag stands for.
pub struct TagView {
    pub shape: ShapeView,
    pub span: Span,
}

/// What an annotation's body stands for.
pub enum MetaView {
    List(Seq<TagView>),
    Other,
    Malformed,
}

pub open spec fn shape_view(shape: TagShape) -> ShapeView {
    match shape {
        TagShape::Path(name) => ShapeView::Path(name),
        TagShape::NameValue => ShapeView::NameValue,
        TagShape::List(name, args) => ShapeView::List(name, args@),
        TagShape::Literal => ShapeView::Literal,
    }
}

pub open spec fn tag_view(tag: RawTag) -> TagView {
    TagView { shape: shape_view(tag.shape), span: tag.span }
}

pub open spec fn tag_views(tags: Seq<RawTag>) -> Seq<TagView> {
    tags.map_values(|t: RawTag| tag_view(t))
}

pub open spec fn meta_view(meta: RawMeta) -> MetaView {
    match meta {
        RawMeta::List(tags) => MetaView::List(tag_views(tags@)),
        RawMeta::Other => MetaView::Other,
        RawMeta::Malformed => MetaView::Malformed,
    }
}

/// Whether a token is the comma that parts two pieces.
pub open spec fn is_comma(token: SpannedToken) -> bool {
    token.kind == TokenKind::Punct(',')
}

/// Where the piece that starts at `from` ends: at the next comma, or at the end.
pub open spec fn piece_end(tokens: Seq<SpannedToken>, from: int) -> int
    decreases tokens.len() - from,
{
    if from < 0 || from >= tokens.len() {
        tokens.len() as int
    } else if is_comma(tokens[from]) {
        from
    } else {
        piece_end(tokens, from + 1)
    }
}

/// The pieces between the commas from `from` on. A comma at the very end
/// parts nothing; two commas in a row hold an empty piece between them.
pub open spec fn pieces_from(tokens: Seq<SpannedToken>, from: int) -> Seq<Seq<SpannedToken>>
    decreases tokens.len() - from,
{
    if from < 0 || from >= tokens.len() {
        Seq::empty()
    } else {
        let end = piece_end(tokens, from);
        if from <= end < tokens.len() {
            seq![tokens.subrange(from, end)] + pieces_from(tokens, end + 1)
        } else {
            seq![tokens.subrange(from, tokens.len() as int)]
        }
    }
}

/// The token sequences that the pieces hold.
pub open spec fn piece_views(pieces: Seq<Vec<SpannedToken>>) -> Seq<Seq<SpannedToken>> {
    pieces.map_values(|p: Vec<SpannedToken>| p@)
}

/// A piece without a comma ends where any of its later positions ends.
pub proof fn lemma_piece_end(tokens: Seq<SpannedToken>, from: int, upto: int)
    requires
        0 <= from <= upto <= tokens.len(),
        forall|j: int| from <= j < upto ==> !is_comma(#[trigger] tokens[j]),
    ensures
        piece_end(tokens, from) == piece_end(tokens, upto),
        upto <= piece_end(tokens, upto) <= tokens.len(),
    decreases tokens.len() - from,
{
    if from < upto {
        lemma_piece_end(tokens, from + 1, upto);
    } else {
        lemma_piece_end_bounds(tokens, upto);
    }
}

/// A piece ends at or after its start, and within the tokens.
pub proof fn lemma_piece_end_bounds(tokens: Seq<SpannedToken>, from: int)
    requires
        0 <= from <= tokens.len(),
    ensures
        from <= piece_end(tokens, from) <= tokens.len(),
    decreases tokens.len() - from,
{
    if from < tokens.len() && !is_comma(tokens[from]) {
        lemma_piece_end_bounds(tokens, from + 1);
    }
}

/// Parts the tokens at their commas.
pub fn split_commas(tokens: Vec<SpannedToken>) -> (pieces: Vec<Vec<SpannedToken>>)
    ensures
        piece_views(pieces@) == pieces_from(tokens@, 0),
{
    let mut pieces: Vec<Vec<SpannedToken>> = Vec::new();
    let mut cur: Vec<SpannedToken> = Vec::new();
    let ghost all = tokens@;
    let ghost mut start: int = 0;
    assert(piece_views(pieces@) + pieces_from(all, 0) =~= pieces_from(all, 0));
    for token in it: tokens
        invariant
            it.seq() == all,
            all == tokens@,
            0 <= start <= it.index(),
            cur@ == all.subrange(start, it.index() as int),
            forall|j: int| start <= j < it.index() ==> !is_comma(#[trigger] all[j]),
            pieces_from(all, 0) == piece_views(pieces@) + pieces_from(all, start),
    {
        let ghost i = it.index() as int;
        assert(token == all[i]);
        let is_sep = match &token.kind {
            TokenKind::Punct(c) => *c == ',',
            _ => false,
        };
        if is_sep {
            proof {
                lemma_piece_end(all, start, i);
                assert(piece_end(all, i) == i);
                assert(pieces_from(all, start) == seq![all.subrange(start, i)] + pieces_from(
                    all,
                    i + 1,
                ));
            }
            let ghost before = pieces@;
            pieces.push(cur);
            cur = Vec::new();
            proof {
                assert(piece_views(pieces@) =~= piece_views(before).push(all.subrange(start, i)));
                assert(piece_views(before) + (seq![all.subrange(start, i)] + pieces_from(
                    all,
                    i + 1,
                )) =~= piece_views(pieces@) + pieces_from(all, i + 1));
                start = i + 1;
                assert(cur@ =~= all.subrange(start, i + 1));
            }
        } else {
            cur.push(token);
            assert(cur@ =~= all.subrange(start, i + 1));
        }
    }
    if cur.len() > 0 {
        proof {
            let n = all.len() as int;
            lemma_piece_end(all, start, n);
            assert(piece_end(all, n) == n);
            assert(pieces_from(all, start) =~= seq![all.subrange(start, n)]);
        }
        let ghost before = pieces@;
        pieces.push(cur);
        assert(piece_views(pieces@) =~= piece_views(before).push(all.subrange(
            start,
            all.len() as int,
        )));
        assert(piece_views(before) + seq![all.subrange(start, all.len() as int)] =~= piece_views(
            pieces@,
        ));
    } else {
        assert(pieces_from(all, start) =~= Seq::<Seq<SpannedToken>>::empty());
        assert(piece_views(pieces@) + Seq::<Seq<SpannedToken>>::empty() =~= piece_views(pieces@));
    }
    pieces
}

/// The argument that one piece of a nested list stands for: the wildcard
/// for `_` alone, a literal for a literal alone, and no more is asked of
/// any other piece.
pub open spec fn arg_of(piece: Seq<SpannedToken>) -> TagArgument {
    if piece.len() == 1 {
        match piece[0].kind {
            TokenKind::Ident(name) => if name@ == "_"@ {
                TagArgument::Wildcard
            } else {
                TagArgument::Other
            },
            TokenKind::Lit(lit) => TagArgument::Lit(lit),
            _ => TagArgument::Other,
        }
    } else {
        TagArgument::Other
    }
}

/// The arguments that the tokens of a nested list stand for.
pub open spec fn args_of(tokens: Seq<SpannedToken>) -> Seq<TagArgument> {
    pieces_from(tokens, 0).map_values(|p: Seq<SpannedToken>| arg_of(p))
}

/// Whether a token can stand in a path: an identifier or a colon.
pub open spec fn is_path_token(token: SpannedToken) -> bool {
    token.kind is Ident || token.kind == TokenKind::Punct(':')
}

/// Whether all tokens can stand in a path.
pub open spec fn is_path(piece: Seq<SpannedToken>) -> bool {
    forall|j: int| 0 <= j < piece.len() ==> is_path_token(#[trigger] piece[j])
}

/// The shape that one piece stands for. A literal alone is a literal; an
/// identifier alone a name; an identifier with a parenthesised group a
/// list; an identifier, `=` and more a name with a value; any other piece
/// of identifiers and colons a longer path. Every other piece is unreadable.
pub open spec fn piece_shape(piece: Seq<SpannedToken>) -> Option<ShapeView> {
    if piece.len() == 0 {
        None
    } else if piece.len() == 1 && piece[0].kind is Lit {
        Some(ShapeView::Literal)
    } else if piece.len() == 1 && piece[0].kind is Ident {
        Some(ShapeView::Path(Some(piece[0].kind->Ident_0)))
    } else if piece.len() == 2 && piece[0].kind is Ident && piece[1].kind is Parens {
        Some(ShapeView::List(Some(piece[0].kind->Ident_0), args_of(piece[1].kind->Parens_0@)))
    } else if piece.len() >= 3 && piece[0].kind is Ident && piece[1].kind == TokenKind::Punct('=') {
        Some(ShapeView::NameValue)
    } else if is_path(piece) {
        Some(ShapeView::Path(None))
    } else {
        None
    }
}

/// The tag that one piece stands for, located from its first to its last token.
pub open spec fn piece_tag(piece: Seq<SpannedToken>) -> Option<TagView> {
    match piece_shape(piece) {
        Some(shape) => Some(TagView { shape, span: piece[0].span.spec_join(piece.last().span) }),
        None => None,
    }
}

/// The tags of the first `n` pieces; none where a piece is unreadable.
pub open spec fn tags_of(pieces: Seq<Seq<SpannedToken>>, n: int) -> Option<Seq<TagView>>
    decreases n,
{
    if n <= 0 {
        Some(Seq::empty())
    } else {
        match (tags_of(pieces, n - 1), piece_tag(pieces[n - 1])) {
            (Some(tags), Some(tag)) => Some(tags.push(tag)),
            _ => None,
        }
    }
}

/// What the tokens between an annotation's parentheses stand for.
pub open spec fn tokens_meta(tokens: Seq<SpannedToken>) -> MetaView {
    let pieces = pieces_from(tokens, 0);
    match tags_of(pieces, pieces.len() as int) {
        Some(tags) => MetaView::List(tags),
        None => MetaView::Malformed,
    }
}

/// What the tokens behind an annotation's path stand for: a tag list where
/// they are one parenthesised group, else another body.
pub open spec fn body_meta(body: Seq<SpannedToken>) -> MetaView {
    if body.len() == 1 && body[0].kind is Parens {
        tokens_meta(body[0].kind->Parens_0@)
    } else {
        MetaView::Other
    }
}

/// Whether two strings hold the same characters.
pub fn same_text(a: &str, b: &str) -> (same: bool)
    ensures
        same == (a@ == b@),
{
    a.to_owned() == b.to_owned()
}

/// Reads one argument of a nested list.
pub fn read_arg(piece: Vec<SpannedToken>) -> (arg: TagArgument)
    ensures
        arg == arg_of(piece@),
{
    if piece.len() != 1 {
        return TagArgument::Other;
    }
    let mut piece = piece;
    let ghost before = piece@;
    let only = piece.pop();
    assert(only == Some(before[0]));
    match only {
        Some(SpannedToken { kind: TokenKind::Ident(name), span: _ }) => {
            if same_text(name.as_str(), "_") {
                TagArgument::Wildcard
            } else {
                TagArgument::Other
            }
        },
        Some(SpannedToken { kind: TokenKind::Lit(lit), span: _ }) => TagArgument::Lit(lit),
        _ => TagArgument::Other,
    }
}

/// Reads the arguments of a nested list.
pub fn read_args(tokens: Vec<SpannedToken>) -> (args: Vec<TagArgument>)
    ensures
        args@ == args_of(tokens@),
{
    let pieces = split_commas(tokens);
    let ghost all = pieces@;
    let mut args: Vec<TagArgument> = Vec::new();
    for piece in it: pieces
        invariant
            it.seq() == all,
            piece_views(all) == pieces_from(tokens@, 0),
            args@.len() == it.index(),
            forall|j: int| 0 <= j < it.index() ==> #[trigger] args@[j] == arg_of(all[j]@),
    {
        assert(piece == all[it.index() as int]);
        args.push(read_arg(piece));
    }
    assert(args@ =~= args_of(tokens@));
    args
}

fn all_path_tokens(piece: &Vec<SpannedToken>) -> (yes: bool)
    ensures
        yes == is_path(piece@),
{
    let mut i: usize = 0;
    while i < piece.len()
        invariant
            i <= piece@.len(),
            forall|j: int| 0 <= j < i ==> is_path_token(#[trigger] piece@[j]),
        decreases piece@.len() - i,
    {
        let ok = match &piece[i].kind {
            TokenKind::Ident(_) => true,
            TokenKind::Punct(c) => *c == ':',
            _ => false,
        };
        if !ok {
            return false;
        }
        i += 1;
    }
    true
}

/// Reads one tag from the tokens between two commas.
pub fn read_piece(piece: Vec<SpannedToken>) -> (tag: Option<RawTag>)
    ensures
        match tag {
            Some(t) => piece_tag(piece@) == Some(tag_view(t)),
            None => piece_tag(piece@) is None,
        },
{
    let n = piece.len();
    if n == 0 {
        return None;
    }
    let span = piece[0].span.join(piece[n - 1].span);
    let first_is_ident = match &piece[0].kind {
        TokenKind::Ident(_) => true,
        _ => false,
    };
    let first_is_lit = match &piece[0].kind {
        TokenKind::Lit(_) => true,
        _ => false,
    };
    if n == 1 && first_is_lit {
        return Some(RawTag { shape: TagShape::Literal, span });
    }
    if n == 1 && first_is_ident {
        let mut piece = piece;
        let ghost before = piece@;
        let only = piece.pop();
        assert(only == Some(before[0]));
        return match only {
            Some(SpannedToken { kind: TokenKind::Ident(name), span: _ }) => Some(
                RawTag { shape: TagShape::Path(Some(name)), span },
            ),
            _ => None,
        };
    }
    let second_is_parens = n >= 2 && match &piece[1].kind {
        TokenKind::Parens(_) => true,
        _ => false,
    };
    if n == 2 && first_is_ident && second_is_parens {
        let mut piece = piece;
        let ghost before = piece@;
        let second = piece.pop();
        let first = piece.pop();
        assert(second == Some(before[1]));
        assert(first == Some(before[0]));
        return match (first, second) {
            (
                Some(SpannedToken { kind: TokenKind::Ident(name), span: _ }),
                Some(SpannedToken { kind: TokenKind::Parens(inner), span: _ }),
            ) => {
                let args = read_args(inner);
                Some(RawTag { shape: TagShape::List(Some(name), args), span })
            },
            _ => None,
        };
    }
    let second_is_equals = n >= 2 && match &piece[1].kind {
        TokenKind::Punct(c) => *c == '=',
        _ => false,
    };
    if n >= 3 && first_is_ident && second_is_equals {
        return Some(RawTag { shape: TagShape::NameValue, span });
    }
    if all_path_tokens(&piece) {
        return Some(RawTag { shape: TagShape::Path(None), span });
    }
    None
}

/// Reads the tags between an annotation's parentheses.
pub fn read_tags(tokens: Vec<SpannedToken>) -> (meta: RawMeta)
    ensures
        meta_view(meta) == tokens_meta(tokens@),
{
    let pieces = split_commas(tokens);
    let ghost all = pieces@;
    let mut tags: Vec<RawTag> = Vec::new();
    let mut readable = true;
    assert(tag_views(tags@) =~= Seq::<TagView>::empty());
    for piece in it: pieces
        invariant
            it.seq() == all,
            piece_views(all) == pieces_from(tokens@, 0),
            readable ==> tags_of(piece_views(all), it.index() as int) == Some(tag_views(tags@)),
            !readable ==> tags_of(piece_views(all), it.index() as int) is None,
    {
        assert(piece == all[it.index() as int]);
        assert(piece_views(all)[it.index() as int] == piece@);
        match read_piece(piece) {
            Some(tag) => {
                if readable {
                    let ghost before = tags@;
                    tags.push(tag);
                    assert(tag_views(tags@) =~= tag_views(before).push(tag_view(tag)));
                }
            },
            None => {
                readable = false;
            },
        }
    }
    assert(piece_views(all).len() == all.len());
    if readable {
        RawMeta::List(tags)
    } else {
        RawMeta::Malformed
    }
}

/// Reads what stands behind an annotation's path.
pub fn read_meta(body: Vec<SpannedToken>) -> (meta: RawMeta)
    ensures
        meta_view(meta) == body_meta(body@),
{
    if body.len() != 1 {
        return RawMeta::Other;
    }
    let mut body = body;
    let ghost before = body@;
    let only = body.pop();
    assert(only == Some(before[0]));
    match only {
        Some(SpannedToken { kind: TokenKind::Parens(inner), span: _ }) => read_tags(inner),
        _ => RawMeta::Other,
    }
}

} // verus!
