//! Reading the artwork catalog out of the server's answer.
//!
//! The answer is a JSON array of catalogs. A catalog is an object with the
//! members `type` and `name`, both strings, and `contents`, an array of
//! artworks. An artwork is an object with a string `name` and, optionally, a
//! string `info`; an `info` of `null` counts as absent. Members that the
//! schema does not name are ignored. The first entry that does not fit,
//! reading front to back, decides the error.
//!
//! The whole text is parsed first, and the schema is read off the parsed
//! document. Five things follow from that.
//!
//! - A text that is not JSON is refused for that, wherever in the text the
//!   fault lies: the parser's complaint comes before the error of shape of
//!   an entry that stands in front of the fault.
//! - A member that the schema ignores must still be a value that the parser
//!   accepts. A number too large for it, such as `1e999`, fails the whole
//!   answer even where nothing reads the member.
//! - A member that an object writes twice counts as written the last time
//!   only: the parser keeps one value per name, so a repetition cannot be
//!   seen, let alone refused.
//! - An array never stands in for an object, not even one that lists the
//!   members' values in the schema's order.
//! - An error of shape names the member that does not fit but no line or
//!   column; only the parser's own complaints carry a position.

use vstd::prelude::*;
use crate::artwork::{Artwork, ArtworkView, ArtworksResponse, CatalogView};
use crate::json::{error_message, member, parse, parsed, tree, trees, Json};
use crate::text::concat;

verus! {

/// A member that the schema names.
#[derive(Clone, Copy, Debug, PartialEq, Eq, Structural)]
pub enum Field {
    Type,
    Name,
    Contents,
    Info,
}

/// Why a well-formed JSON document is no catalog answer.
#[derive(Clone, Copy, Debug, PartialEq, Eq, Structural)]
pub enum SchemaError {
    /// The document is not an array.
    NotAnArray,
    /// An entry that must be an object is something else.
    NotAnObject,
    /// An object lacks a member it must have.
    MissingField(Field),
    /// A member holds a value of the wrong kind.
    WrongType(Field),
}

/// Why a text is no catalog answer.
#[derive(Debug)]
pub enum DecodeError {
    /// The text is not JSON; the parser's complaint is attached.
    Syntax(String),
    /// The text is JSON of the wrong shape.
    Schema(SchemaError),
}

/// A [`DecodeError`] as a mathematical value.
pub enum DecodeErrorView {
    Syntax(Seq<char>),
    Schema(SchemaError),
}

impl DeepView for DecodeError {
    type V = DecodeErrorView;

    open spec fn deep_view(&self) -> DecodeErrorView {
        match *self {
            DecodeError::Syntax(message) => DecodeErrorView::Syntax(message@),
            DecodeError::Schema(error) => DecodeErrorView::Schema(error),
        }
    }
}

impl Field {
    /// The name of the member in the document.
    pub open spec fn key(self) -> Seq<char> {
        match self {
            Field::Type => "type"@,
            Field::Name => "name"@,
            Field::Contents => "contents"@,
            Field::Info => "info"@,
        }
    }

    pub fn name(&self) -> (name: &'static str)
        ensures
            name@ == self.key(),
    {
        match self {
            Field::Type => "type",
            Field::Name => "name",
            Field::Contents => "contents",
            Field::Info => "info",
        }
    }
}

impl SchemaError {
    /// The error in words.
    pub open spec fn description(self) -> Seq<char> {
        match self {
            SchemaError::NotAnArray => "expected an array of catalogs"@,
            SchemaError::NotAnObject => "expected an object"@,
            SchemaError::MissingField(field) => "missing field `"@ + field.key() + "`"@,
            SchemaError::WrongType(field) => "invalid type for field `"@ + field.key() + "`"@,
        }
    }

    pub fn message(&self) -> (message: String)
        ensures
            message@ == self.description(),
    {
        match self {
            SchemaError::NotAnArray => String::from_str("expected an array of catalogs"),
            SchemaError::NotAnObject => String::from_str("expected an object"),
            SchemaError::MissingField(field) => {
                let mut message = concat("missing field `", field.name());
                message.append("`");
                message
            },
            SchemaError::WrongType(field) => {
                let mut message = concat("invalid type for field `", field.name());
                message.append("`");
                message
            },
        }
    }
}

impl DecodeErrorView {
    /// The error in words: the parser's complaint, or the description of what
    /// does not fit the schema.
    pub open spec fn description(self) -> Seq<char> {
        match self {
            DecodeErrorView::Syntax(message) => message,
            DecodeErrorView::Schema(error) => error.description(),
        }
    }
}

impl DecodeError {
    pub fn message(&self) -> (message: String)
        ensures
            message@ == self.deep_view().description(),
    {
        match self {
            DecodeError::Syntax(message) => message.clone(),
            DecodeError::Schema(error) => error.message(),
        }
    }
}

/// The string that the object `value` holds under `field`.
pub open spec fn text_member(value: Json, field: Field) -> Result<Seq<char>, SchemaError> {
    match value.member(field.key()) {
        None => Err(SchemaError::MissingField(field)),
        Some(Json::Text(text)) => Ok(text),
        Some(_) => Err(SchemaError::WrongType(field)),
    }
}

/// The artwork that `value` describes.
pub open spec fn artwork_in(value: Json) -> Result<ArtworkView, SchemaError> {
    if !(value is Object) {
        Err(SchemaError::NotAnObject)
    } else {
        match text_member(value, Field::Name) {
            Err(error) => Err(error),
            Ok(name) => match value.member(Field::Info.key()) {
                None | Some(Json::Null) => Ok(ArtworkView { name, info: None }),
                Some(Json::Text(info)) => Ok(ArtworkView { name, info: Some(info) }),
                Some(_) => Err(SchemaError::WrongType(Field::Info)),
            },
        }
    }
}

/// What `one` reads out of each of `items`, in their order, or the error of
/// the first of them that it cannot read.
pub open spec fn entries_in<V>(
    items: Seq<Json>,
    one: spec_fn(Json) -> Result<V, SchemaError>,
) -> Result<Seq<V>, SchemaError>
    decreases items.len(),
{
    if items.len() == 0 {
        Ok(Seq::empty())
    } else {
        match entries_in(items.drop_last(), one) {
            Err(error) => Err(error),
            Ok(front) => match one(items.last()) {
                Err(error) => Err(error),
                Ok(entry) => Ok(front.push(entry)),
            },
        }
    }
}

/// The artworks that `items` describe, or the error of the first that
/// describes none.
pub open spec fn artworks_in(items: Seq<Json>) -> Result<Seq<ArtworkView>, SchemaError> {
    entries_in(items, |value: Json| artwork_in(value))
}

/// The catalog that `value` describes.
pub open spec fn catalog_in(value: Json) -> Result<CatalogView, SchemaError> {
    if !(value is Object) {
        Err(SchemaError::NotAnObject)
    } else {
        match text_member(value, Field::Type) {
            Err(error) => Err(error),
            Ok(response_type) => match text_member(value, Field::Name) {
                Err(error) => Err(error),
                Ok(name) => match value.member(Field::Contents.key()) {
                    None => Err(SchemaError::MissingField(Field::Contents)),
                    Some(Json::Array(items)) => match artworks_in(items) {
                        Err(error) => Err(error),
                        Ok(contents) => Ok(CatalogView { response_type, name, contents }),
                    },
                    Some(_) => Err(SchemaError::WrongType(Field::Contents)),
                },
            },
        }
    }
}

/// The catalogs that `items` describe, or the error of the first that
/// describes none.
pub open spec fn catalogs_in(items: Seq<Json>) -> Result<Seq<CatalogView>, SchemaError> {
    entries_in(items, |value: Json| catalog_in(value))
}

/// The catalogs of an answer.
pub open spec fn answer_in(document: Json) -> Result<Seq<CatalogView>, SchemaError> {
    match document {
        Json::Array(items) => catalogs_in(items),
        _ => Err(SchemaError::NotAnArray),
    }
}

/// The catalogs of an answer, given what parsing its text gave.
pub open spec fn decoded(outcome: Result<Json, Seq<char>>) -> Result<
    Seq<CatalogView>,
    DecodeErrorView,
> {
    match outcome {
        Err(message) => Err(DecodeErrorView::Syntax(message)),
        Ok(document) => match answer_in(document) {
            Err(error) => Err(DecodeErrorView::Schema(error)),
            Ok(catalogs) => Ok(catalogs),
        },
    }
}

fn read_text(value: &serde_json::Value, field: Field) -> (text: Result<String, SchemaError>)
    ensures
        match text {
            Ok(text) => text_member(tree(*value), field) == Ok::<Seq<char>, SchemaError>(text@),
            Err(error) => text_member(tree(*value), field) == Err::<Seq<char>, SchemaError>(error),
        },
{
    match member(value, field.name()) {
        None => Err(SchemaError::MissingField(field)),
        Some(inner) => match inner.as_str() {
            Some(text) => Ok(String::from_str(text)),
            None => Err(SchemaError::WrongType(field)),
        },
    }
}

/// Reads one artwork.
pub fn read_artwork(value: &serde_json::Value) -> (artwork: Result<Artwork, SchemaError>)
    ensures
        match artwork {
            Ok(artwork) => artwork_in(tree(*value)) == Ok::<ArtworkView, SchemaError>(
                artwork.deep_view(),
            ),
            Err(error) => artwork_in(tree(*value)) == Err::<ArtworkView, SchemaError>(error),
        },
{
    if !value.is_object() {
        return Err(SchemaError::NotAnObject);
    }
    let name = match read_text(value, Field::Name) {
        Ok(name) => name,
        Err(error) => {
            return Err(error);
        },
    };
    let info = match member(value, Field::Info.name()) {
        None => None,
        Some(inner) => {
            if inner.is_null() {
                None
            } else {
                match inner.as_str() {
                    Some(text) => Some(String::from_str(text)),
                    None => {
                        return Err(SchemaError::WrongType(Field::Info));
                    },
                }
            }
        },
    };
    Ok(Artwork { name, info })
}

/// Reads every one of `items` with `read`, front to back, and stops at the
/// first that cannot be read. `one` says what `read` makes of a tree.
fn read_entries<E: DeepView, F: Fn(&serde_json::Value) -> Result<E, SchemaError>>(
    items: &Vec<serde_json::Value>,
    read: F,
    Ghost(one): Ghost<spec_fn(Json) -> Result<E::V, SchemaError>>,
) -> (entries: Result<Vec<E>, SchemaError>)
    requires
        forall|value: &serde_json::Value| call_requires(read, (value,)),
        forall|value: &serde_json::Value, entry: Result<E, SchemaError>|
            #[trigger] call_ensures(read, (value,), entry) ==> match entry {
                Ok(entry) => one(tree(*value)) == Ok::<E::V, SchemaError>(entry.deep_view()),
                Err(error) => one(tree(*value)) == Err::<E::V, SchemaError>(error),
            },
    ensures
        match entries {
            Ok(entries) => entries_in(trees(items@), one) == Ok::<Seq<E::V>, SchemaError>(
                entries.deep_view(),
            ),
            Err(error) => entries_in(trees(items@), one) == Err::<Seq<E::V>, SchemaError>(error),
        },
{
    let mut entries: Vec<E> = Vec::new();
    let mut i: usize = 0;
    assert(trees(items@).take(0) == Seq::<Json>::empty());
    assert(entries.deep_view() == Seq::<E::V>::empty());
    while i < items.len()
        invariant
            i <= items.len(),
            forall|value: &serde_json::Value| call_requires(read, (value,)),
            forall|value: &serde_json::Value, entry: Result<E, SchemaError>|
                #[trigger] call_ensures(read, (value,), entry) ==> match entry {
                    Ok(entry) => one(tree(*value)) == Ok::<E::V, SchemaError>(entry.deep_view()),
                    Err(error) => one(tree(*value)) == Err::<E::V, SchemaError>(error),
                },
            entries_in(trees(items@).take(i as int), one) == Ok::<Seq<E::V>, SchemaError>(
                entries.deep_view(),
            ),
        decreases items.len() - i,
    {
        let ghost all = trees(items@);
        let ghost next = all.take(i + 1);
        assert(next.drop_last() == all.take(i as int));
        assert(next.last() == tree(items@[i as int]));
        match read(&items[i]) {
            Ok(entry) => {
                let ghost before = entries.deep_view();
                entries.push(entry);
                assert(entries.deep_view() == before.push(entry.deep_view()));
            },
            Err(error) => {
                proof {
                    lemma_error_stays(all, one, i + 1);
                }
                return Err(error);
            },
        }
        i += 1;
    }
    assert(trees(items@).take(i as int) == trees(items@));
    Ok(entries)
}

/// An error among the first `upto` entries is the error of the whole list.
proof fn lemma_error_stays<V>(
    items: Seq<Json>,
    one: spec_fn(Json) -> Result<V, SchemaError>,
    upto: int,
)
    requires
        0 <= upto <= items.len(),
        entries_in(items.take(upto), one) is Err,
    ensures
        entries_in(items, one) == entries_in(items.take(upto), one),
    decreases items.len() - upto,
{
    if upto < items.len() {
        let next = items.take(upto + 1);
        assert(next.drop_last() == items.take(upto));
        lemma_error_stays(items, one, upto + 1);
    } else {
        assert(items.take(upto) == items);
    }
}

/// Reads the artworks of a catalog.
pub fn read_artworks(items: &Vec<serde_json::Value>) -> (artworks: Result<
    Vec<Artwork>,
    SchemaError,
>)
    ensures
        match artworks {
            Ok(artworks) => artworks_in(trees(items@)) == Ok::<Seq<ArtworkView>, SchemaError>(
                artworks.deep_view(),
            ),
            Err(error) => artworks_in(trees(items@)) == Err::<Seq<ArtworkView>, SchemaError>(
                error,
            ),
        },
{
    read_entries(items, read_artwork, Ghost(|value: Json| artwork_in(value)))
}

/// Reads one catalog.
pub fn read_catalog(value: &serde_json::Value) -> (catalog: Result<ArtworksResponse, SchemaError>)
    ensures
        match catalog {
            Ok(catalog) => catalog_in(tree(*value)) == Ok::<CatalogView, SchemaError>(
                catalog.deep_view(),
            ),
            Err(error) => catalog_in(tree(*value)) == Err::<CatalogView, SchemaError>(error),
        },
{
    if !value.is_object() {
        return Err(SchemaError::NotAnObject);
    }
    let response_type = match read_text(value, Field::Type) {
        Ok(text) => text,
        Err(error) => {
            return Err(error);
        },
    };
    let name = match read_text(value, Field::Name) {
        Ok(text) => text,
        Err(error) => {
            return Err(error);
        },
    };
    let contents = match member(value, Field::Contents.name()) {
        None => {
            return Err(SchemaError::MissingField(Field::Contents));
        },
        Some(inner) => match inner.as_array() {
            None => {
                return Err(SchemaError::WrongType(Field::Contents));
            },
            Some(items) => match read_artworks(items) {
                Ok(artworks) => artworks,
                Err(error) => {
                    return Err(error);
                },
            },
        },
    };
    Ok(ArtworksResponse { response_type, name, contents })
}

/// Reads the catalogs of an answer that was parsed already.
pub fn read_answer(document: &serde_json::Value) -> (catalogs: Result<
    Vec<ArtworksResponse>,
    SchemaError,
>)
    ensures
        match catalogs {
            Ok(catalogs) => answer_in(tree(*document)) == Ok::<Seq<CatalogView>, SchemaError>(
                catalogs.deep_view(),
            ),
            Err(error) => answer_in(tree(*document)) == Err::<Seq<CatalogView>, SchemaError>(
                error,
            ),
        },
{
    match document.as_array() {
        Some(items) => read_entries(items, read_catalog, Ghost(|value: Json| catalog_in(value))),
        None => Err(SchemaError::NotAnArray),
    }
}

/// Reads the catalogs of an answer from its text.
pub fn decode(text: &str) -> (catalogs: Result<Vec<ArtworksResponse>, DecodeError>)
    ensures
        match catalogs {
            Ok(catalogs) => decoded(parsed(text@)) == Ok::<Seq<CatalogView>, DecodeErrorView>(
                catalogs.deep_view(),
            ),
            Err(error) => decoded(parsed(text@)) == Err::<Seq<CatalogView>, DecodeErrorView>(
                error.deep_view(),
            ),
        },
{
    match parse(text) {
        Err(error) => Err(DecodeError::Syntax(error_message(&error))),
        Ok(document) => match read_answer(&document) {
            Ok(catalogs) => Ok(catalogs),
            Err(error) => Err(DecodeError::Schema(error)),
        },
    }
}

} // verus!
