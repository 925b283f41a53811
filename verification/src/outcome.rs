//! What a completed request amounts to for the resource it was issued for.
//!
//! Every way a fetch can go wrong ends as a message for the user: the
//! transport failed, the body is no text, the text is no catalog answer, or
//! the answer holds no catalog. None of them is retried.
//!
//! The resume arrives as HTML and is kept as Markdown. The converter is the
//! host's: it is handed the text of the body, once, and only for a body that
//! is text.

use vstd::prelude::*;
use crate::artwork::{Artwork, ArtworkView, ArtworksResponse, CatalogView};
use crate::catalog::{decode, decoded, DecodeError, DecodeErrorView};
use crate::json::parsed;
use crate::text::concat;
use crate::transport::{body_text, completion_view, Completion};

verus! {

/// The artworks to show for a decoded answer: the contents of its first
/// catalog. An answer that could not be decoded, or that holds no catalog,
/// gives the message to show instead.
pub open spec fn first_contents(answer: Result<Seq<CatalogView>, DecodeErrorView>) -> Result<
    Seq<ArtworkView>,
    Seq<char>,
> {
    match answer {
        Err(error) => Err("Parse error: "@ + error.description()),
        Ok(catalogs) => if catalogs.len() == 0 {
            Err("No data returned"@)
        } else {
            Ok(catalogs[0].contents)
        },
    }
}

/// The text that a completed request delivered, or the message to show in
/// its place. The messages are the same for every resource.
pub open spec fn document(completion: Result<Seq<u8>, Seq<char>>) -> Result<Seq<char>, Seq<char>> {
    match completion {
        Err(reason) => Err("Fetch error: "@ + reason),
        Ok(bytes) => match body_text(bytes) {
            None => Err("failed to read response text"@),
            Some(text) => Ok(text),
        },
    }
}

/// What a completed catalog request amounts to.
pub open spec fn catalog_result(completion: Result<Seq<u8>, Seq<char>>) -> Result<
    Seq<ArtworkView>,
    Seq<char>,
> {
    match document(completion) {
        Err(message) => Err(message),
        Ok(text) => first_contents(decoded(parsed(text))),
    }
}

/// `markdown` is what `convert` made of a text that reads `html`.
pub open spec fn converted<F: FnOnce(&str) -> String>(
    convert: F,
    html: Seq<char>,
    markdown: String,
) -> bool {
    exists|text: &str| text@ == html && call_ensures(convert, (text,), markdown)
}

/// Picks the artworks to show out of a decoded answer.
pub fn first_catalog(answer: Result<Vec<ArtworksResponse>, DecodeError>) -> (artworks: Result<
    Vec<Artwork>,
    String,
>)
    ensures
        match artworks {
            Ok(artworks) => first_contents(
                match answer {
                    Ok(catalogs) => Ok(catalogs.deep_view()),
                    Err(error) => Err(error.deep_view()),
                },
            ) == Ok::<Seq<ArtworkView>, Seq<char>>(artworks.deep_view()),
            Err(message) => first_contents(
                match answer {
                    Ok(catalogs) => Ok(catalogs.deep_view()),
                    Err(error) => Err(error.deep_view()),
                },
            ) == Err::<Seq<ArtworkView>, Seq<char>>(message@),
        },
{
    match answer {
        Err(error) => {
            let reason = error.message();
            Err(concat("Parse error: ", reason.as_str()))
        },
        Ok(mut catalogs) => {
            if catalogs.len() == 0 {
                Err(String::from_str("No data returned"))
            } else {
                let first = catalogs.swap_remove(0);
                Ok(first.contents)
            }
        },
    }
}

/// Reads the text that a completed request delivered.
pub fn read_document(completion: &Completion) -> (text: Result<&str, String>)
    ensures
        match document(completion_view(*completion)) {
            Ok(delivered) => text matches Ok(read) && read@ == delivered,
            Err(message) => text matches Err(shown) && shown@ == message,
        },
{
    match completion {
        Err(reason) => Err(concat("Fetch error: ", reason.as_str())),
        Ok(response) => match response.text() {
            None => Err(String::from_str("failed to read response text")),
            Some(text) => Ok(text),
        },
    }
}

/// Works out what a completed catalog request amounts to.
pub fn catalog_outcome(completion: Completion) -> (outcome: Result<Vec<Artwork>, String>)
    ensures
        match outcome {
            Ok(artworks) => catalog_result(completion_view(completion)) == Ok::<
                Seq<ArtworkView>,
                Seq<char>,
            >(artworks.deep_view()),
            Err(message) => catalog_result(completion_view(completion)) == Err::<
                Seq<ArtworkView>,
                Seq<char>,
            >(message@),
        },
{
    match read_document(&completion) {
        Err(message) => Err(message),
        Ok(text) => first_catalog(decode(text)),
    }
}

/// Works out what a completed resume request amounts to: the document,
/// converted to Markdown by `convert`.
pub fn resume_outcome<F: FnOnce(&str) -> String>(completion: Completion, convert: F) -> (outcome:
    Result<String, String>)
    requires
        forall|html: &str| call_requires(convert, (html,)),
    ensures
        match document(completion_view(completion)) {
            Ok(html) => outcome matches Ok(markdown) && converted(convert, html, markdown),
            Err(message) => outcome matches Err(shown) && shown@ == message,
        },
{
    match read_document(&completion) {
        Err(message) => Err(message),
        Ok(html) => Ok(convert(html)),
    }
}

} // verus!
