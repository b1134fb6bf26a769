//! Small checks shared by the builder.

use vstd::prelude::*;
use vstd::string::*;
use crate::error::{single, Error, ErrorKind, Span};
use crate::selector::{selector_of, Selector};
use crate::syntax::RawVisibility;

verus! {

/// Where a visibility other than `pub` is to be reported.
pub open spec fn bad_visibility(parent_span: Span, vis: RawVisibility) -> Option<Span> {
    match vis {
        RawVisibility::Inherited => Some(parent_span),
        RawVisibility::Restricted(s) => Some(s),
        RawVisibility::Crate(s) => Some(s),
        RawVisibility::Public(_) => None,
    }
}

/// Accepts `pub` and nothing else. A missing visibility is reported at the
/// declaration, any other at the visibility itself.
pub fn ensure_pub_visibility(parent_span: Span, vis: &RawVisibility) -> (res: Result<(), Error>)
    ensures
        match res {
            Ok(()) => bad_visibility(parent_span, *vis) is None,
            Err(e) => match bad_visibility(parent_span, *vis) {
                Some(span) => e@ == single(ErrorKind::NonPubVisibility, span),
                None => false,
            },
        },
{
    let bad = match vis {
        RawVisibility::Inherited => Some(parent_span),
        RawVisibility::Restricted(s) => Some(*s),
        RawVisibility::Crate(s) => Some(*s),
        RawVisibility::Public(_) => None,
    };
    if let Some(span) = bad {
        return Err(Error::new(ErrorKind::NonPubVisibility, span));
    }
    Ok(())
}

/// The selector of the bare name, read as a big-endian number.
pub fn local_message_id(ident: &str) -> (id: u32)
    ensures
        id == Selector::spec_be_u32(selector_of(vstd::utf8::encode_utf8(ident@))),
{
    let input = ident.as_bytes_vec();
    let selector = Selector::compute(input.as_slice());
    selector.into_be_u32()
}

} // verus!
