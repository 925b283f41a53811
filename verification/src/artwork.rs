//! The artwork catalog as the server describes it.

use vstd::prelude::*;

verus! {

/// One artwork of the catalog.
#[derive(Debug)]
pub struct Artwork {
    pub name: String,
    pub info: Option<String>,
}

/// An artwork as a mathematical value.
pub struct ArtworkView {
    pub name: Seq<char>,
    pub info: Option<Seq<char>>,
}

impl DeepView for Artwork {
    type V = ArtworkView;

    open spec fn deep_view(&self) -> ArtworkView {
        ArtworkView { name: self.name@, info: self.info.deep_view() }
    }
}

impl Clone for Artwork {
    fn clone(&self) -> (copy: Self)
        ensures
            copy == *self,
    {
        let info = match &self.info {
            Some(text) => Some(text.clone()),
            None => None,
        };
        Artwork { name: self.name.clone(), info }
    }
}

/// One catalog of the server's answer: a named list of artworks.
#[derive(Debug)]
pub struct ArtworksResponse {
    pub response_type: String,
    pub name: String,
    pub contents: Vec<Artwork>,
}

/// A catalog as a mathematical value.
pub struct CatalogView {
    pub response_type: Seq<char>,
    pub name: Seq<char>,
    pub contents: Seq<ArtworkView>,
}

impl DeepView for ArtworksResponse {
    type V = CatalogView;

    open spec fn deep_view(&self) -> CatalogView {
        CatalogView {
            response_type: self.response_type@,
            name: self.name@,
            contents: self.contents.deep_view(),
        }
    }
}

} // verus!
