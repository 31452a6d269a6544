//! The one error of the library, and the rule by which a batch of documents
//! fails.

use crate::json::{Json, parsed_document};
use vstd::prelude::*;

verus! {

/// Why a document was refused.
#[derive(Debug, Clone, Copy, PartialEq, Eq, Structural)]
pub enum Cause {
    /// The text is not a JSON document.
    Syntax,
    /// The document does not have the shape that its kind of record has.
    Shape,
}

/// What a transform reports instead of a table.
#[derive(Debug, Clone, Copy, PartialEq, Eq, Structural)]
pub enum TransformError {
    /// The document at the given place of the batch was refused. It is the
    /// first one of the batch that is.
    MalformedInput { document: usize, cause: Cause },
}

/// The documents that the texts of a batch parse to.
pub open spec fn parsed_batch(texts: Seq<Seq<char>>) -> Seq<Option<Json>> {
    Seq::new(texts.len(), |i: int| parsed_document(texts[i]))
}

/// The texts of a batch of documents.
pub open spec fn texts_of(documents: Seq<String>) -> Seq<Seq<char>> {
    Seq::new(documents.len(), |i: int| documents[i]@)
}

/// The records of the first `n` documents of a batch, in the order of the
/// documents, or the refusal of the first document among them that is not a
/// JSON document or that the decoder refuses.
pub open spec fn batch_of<T>(
    documents: Seq<Option<Json>>,
    decode: spec_fn(Json) -> Option<Seq<T>>,
    n: int,
) -> Result<Seq<T>, TransformError>
    decreases n,
{
    if n <= 0 {
        Ok(Seq::empty())
    } else {
        match batch_of(documents, decode, n - 1) {
            Err(e) => Err(e),
            Ok(front) => match documents[n - 1] {
                None => Err(TransformError::MalformedInput { document: (n - 1) as usize, cause: Cause::Syntax }),
                Some(json) => match decode(json) {
                    None => Err(
                        TransformError::MalformedInput { document: (n - 1) as usize, cause: Cause::Shape },
                    ),
                    Some(records) => Ok(front + records),
                },
            },
        }
    }
}

/// Once a batch has failed, it has failed however many more documents are
/// taken.
pub proof fn batch_failure_stays<T>(
    documents: Seq<Option<Json>>,
    decode: spec_fn(Json) -> Option<Seq<T>>,
    n: int,
    m: int,
)
    requires
        0 <= n <= m,
        batch_of(documents, decode, n) is Err,
    ensures
        batch_of(documents, decode, m) == batch_of(documents, decode, n),
    decreases m - n,
{
    if n < m {
        batch_failure_stays(documents, decode, n, m - 1);
    }
}

} // verus!
