//! The metric of an artifact: the number of pages of the document.

use vstd::prelude::*;

verus! {

/// The error of `lopdf`. It is carried through and never looked into.
#[verifier::external_type_specification]
#[verifier::external_body]
pub struct ExDocumentError(lopdf::Error);

/// Why no page count could be had.
#[derive(Debug, Clone, Copy, PartialEq, Eq, Structural)]
pub enum ExtractError {
    /// The artifact is no document that can be read.
    Malformed,
}

/// The page count that a loaded total stands for, as the table holds it: the
/// total reduced to 32 bits, and no count where the document did not load.
pub open spec fn page_count_spec(total: Option<usize>) -> Result<u32, ExtractError> {
    match total {
        Some(total) => Ok((total as int % 0x1_0000_0000) as u32),
        None => Err(ExtractError::Malformed),
    }
}

/// Loads `bytes` with `lopdf::Document::load_mem` and counts what
/// `Document::get_pages` lists. Trusted, and nothing is claimed of the outcome:
/// the loader decides whether the bytes are a document and how many pages it
/// finds, and for a damaged document two loads need not agree.
#[verifier::external_body]
fn load_page_total(bytes: &[u8]) -> (r: Result<usize, lopdf::Error>) {
    match lopdf::Document::load_mem(bytes) {
        Ok(document) => Ok(document.get_pages().len()),
        Err(error) => Err(error),
    }
}

/// Turns the outcome of loading a document into a page count.
pub fn page_count_from(loaded: Result<usize, lopdf::Error>) -> (r: Result<u32, ExtractError>)
    ensures
        r == page_count_spec(
            match loaded {
                Ok(total) => Some(total),
                Err(_) => None,
            },
        ),
{
    match loaded {
        Ok(total) => {
            let wide: u64 = total as u64;
            Ok((wide % 0x1_0000_0000) as u32)
        },
        Err(_) => Err(ExtractError::Malformed),
    }
}

/// Counts the pages of the document that `bytes` holds. Whether the bytes
/// load as a document, and with how many pages, is for the loader to say; the
/// only error is that they did not.
pub fn extract_page_count(bytes: &[u8]) -> (r: Result<u32, ExtractError>)
    ensures
        r matches Err(e) ==> e == ExtractError::Malformed,
{
    page_count_from(load_page_total(bytes))
}

} // verus!
