//! Translation of a batch of texts.

use crate::error::{RQError, RQResult};
use vstd::prelude::*;

verus! {

/// Accepts the answer to a translation request for `requested` texts. The
/// answer must hold one translation for each text, in the order of the
/// texts; an answer of another length is refused whole, since nothing tells
/// which text each of its translations belongs to.
pub fn check_translations(requested: usize, translations: Vec<String>) -> (r: RQResult<
    Vec<String>,
>)
    ensures
        translations@.len() == requested ==> r == Ok::<Vec<String>, RQError>(translations),
        translations@.len() != requested ==> r == Err::<Vec<String>, RQError>(
            RQError::ProtocolMismatch,
        ),
{
    if translations.len() != requested {
        Err(RQError::ProtocolMismatch)
    } else {
        Ok(translations)
    }
}

} // verus!
