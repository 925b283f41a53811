//! The configuration the application is started with.

use vstd::prelude::*;
use crate::fetch::Resource;
use crate::text::{concat, lowercase, trim_end_matches, without_trailing};
use crate::theme::ThemeMode;
use crate::transport::{FetchRequest, FetchRequestView};

verus! {

/// The settings of one installation. The value is built once by the host and
/// handed to whatever needs it.
#[derive(Debug)]
pub struct AppConfig {
    pub name: String,
    pub website: String,
    /// Where the resume document is fetched from.
    pub resume: String,
    /// Where the artwork catalog is fetched from.
    pub artworks: String,
    pub repository: String,
    /// `auto`, `dark` or `light`, in any case.
    pub default_theme: String,
}

#[derive(Debug)]
pub struct Config {
    pub app: AppConfig,
}

impl Clone for AppConfig {
    fn clone(&self) -> (copy: Self)
        ensures
            copy == *self,
    {
        AppConfig {
            name: self.name.clone(),
            website: self.website.clone(),
            resume: self.resume.clone(),
            artworks: self.artworks.clone(),
            repository: self.repository.clone(),
            default_theme: self.default_theme.clone(),
        }
    }
}

impl Clone for Config {
    fn clone(&self) -> (copy: Self)
        ensures
            copy == *self,
    {
        Config { app: self.app.clone() }
    }
}

/// The theme setting of a configuration that names none.
pub fn default_theme() -> (setting: String)
    ensures
        setting@ == "auto"@,
{
    String::from_str("auto")
}

/// The address under which the artworks are published: the catalog address
/// without its trailing `/index.json`.
pub open spec fn artworks_site(catalog_url: Seq<char>) -> Seq<char> {
    without_trailing(catalog_url, "/index.json"@)
}

/// The address of the page of the artwork called `name`.
pub open spec fn artwork_page(catalog_url: Seq<char>, name: Seq<char>) -> Seq<char> {
    artworks_site(catalog_url) + "/"@ + name + "/"@
}

impl AppConfig {
    /// The theme mode that the configuration asks for.
    pub fn theme_mode(&self) -> (mode: ThemeMode)
        ensures
            mode == ThemeMode::named_by(lowercase(self.default_theme@)),
    {
        ThemeMode::from_str(self.default_theme.as_str())
    }

    /// The address under which the artworks are published.
    pub fn artworks_base(&self) -> (base: &str)
        ensures
            base@ == artworks_site(self.artworks@),
    {
        proof {
            reveal_strlit("/index.json");
        }
        trim_end_matches(self.artworks.as_str(), "/index.json")
    }

    /// The address of the page of the artwork called `name`.
    pub fn artwork_url(&self, name: &str) -> (url: String)
        ensures
            url@ == artwork_page(self.artworks@, name@),
    {
        let mut url = concat(self.artworks_base(), "/");
        url.append(name);
        url.append("/");
        url
    }
}

impl Config {
    /// The request that fetches `resource`: a request to the address that
    /// the configuration gives for it.
    pub open spec fn request_for(self, resource: Resource) -> FetchRequestView {
        FetchRequestView {
            resource,
            url: match resource {
                Resource::Catalog => self.app.artworks@,
                Resource::ResumeDocument => self.app.resume@,
            },
        }
    }

    /// Builds the request that fetches `resource`.
    pub fn request(&self, resource: Resource) -> (request: FetchRequest)
        ensures
            request.deep_view() == self.request_for(resource),
    {
        let url = match resource {
            Resource::Catalog => self.app.artworks.clone(),
            Resource::ResumeDocument => self.app.resume.clone(),
        };
        FetchRequest { resource, url }
    }
}

} // verus!
