//! The state of the running application, without its windows.
//!
//! The host owns the window, the network and the clock. Once per frame it
//! looks at its completion channels and hands what it found to [`MeguiApp`];
//! when the user clicks, it tells the application what was clicked and issues
//! the requests it is handed back.

use vstd::prelude::*;
use crate::artwork::{Artwork, ArtworkView};
use crate::config::Config;
use crate::fetch::{Demand, FetchSlot, Resource};
use crate::outcome::{catalog_outcome, catalog_result, converted, document, resume_outcome};
use crate::selection::SelectedArtworks;
use crate::text::{lowercase, str_eq};
use crate::theme::ThemeMode;
use crate::transport::{completion_view, Completion, FetchRequest, FetchRequestView};

verus! {

/// A page of the main panel.
#[derive(Clone, Copy, Debug, PartialEq, Eq, Structural)]
pub enum Page {
    Artworks,
    Resume,
    About,
}

impl Page {
    /// The URL fragment of a page.
    pub open spec fn hash(self) -> Seq<char> {
        match self {
            Page::Artworks => "#/artworks"@,
            Page::Resume => "#/resume"@,
            Page::About => "#/about"@,
        }
    }

    /// The page that a URL fragment names, with or without the slash.
    pub open spec fn parse(hash: Seq<char>) -> Option<Page> {
        if hash == "#/artworks"@ || hash == "#artworks"@ {
            Some(Page::Artworks)
        } else if hash == "#/resume"@ || hash == "#resume"@ {
            Some(Page::Resume)
        } else if hash == "#/about"@ || hash == "#about"@ {
            Some(Page::About)
        } else {
            None
        }
    }

    /// The heading shown for a page.
    pub open spec fn heading(self) -> Seq<char> {
        match self {
            Page::Artworks => "Artworks"@,
            Page::Resume => "Resume"@,
            Page::About => "About"@,
        }
    }

    pub fn to_hash(&self) -> (hash: &'static str)
        ensures
            hash@ == self.hash(),
    {
        match self {
            Page::Artworks => "#/artworks",
            Page::Resume => "#/resume",
            Page::About => "#/about",
        }
    }

    pub fn from_hash(hash: &str) -> (view: Option<Page>)
        ensures
            view == Page::parse(hash@),
    {
        if str_eq(hash, "#/artworks") || str_eq(hash, "#artworks") {
            Some(Page::Artworks)
        } else if str_eq(hash, "#/resume") || str_eq(hash, "#resume") {
            Some(Page::Resume)
        } else if str_eq(hash, "#/about") || str_eq(hash, "#about") {
            Some(Page::About)
        } else {
            None
        }
    }

    pub fn title(&self) -> (title: &'static str)
        ensures
            title@ == self.heading(),
    {
        match self {
            Page::Artworks => "Artworks",
            Page::Resume => "Resume",
            Page::About => "About",
        }
    }
}

/// What the host has to do after a click in the menu.
#[derive(Debug)]
pub struct Navigation {
    /// The request to issue, if the click started a fetch.
    pub request: Option<FetchRequest>,
    /// The fragment to show in the address bar.
    pub hash: &'static str,
}

/// The application.
#[derive(Debug)]
pub struct MeguiApp {
    pub config: Config,
    pub current_view: Page,
    pub theme_mode: ThemeMode,
    /// The artwork catalog.
    pub catalog: FetchSlot<Vec<Artwork>>,
    /// The resume document, as Markdown.
    pub resume: FetchSlot<String>,
    pub selected_artworks: SelectedArtworks,
    pub sidebar_open: bool,
    pub settings_open: bool,
}

/// What the catalog slot is handed for what the channel held.
pub open spec fn catalog_message(message: Option<Completion>) -> Option<
    Result<Seq<ArtworkView>, Seq<char>>,
> {
    match message {
        Some(completion) => Some(catalog_result(completion_view(completion))),
        None => None,
    }
}

impl MeguiApp {
    /// The request for the artwork catalog.
    pub open spec fn catalog_request(self) -> FetchRequestView {
        self.config.request_for(Resource::Catalog)
    }

    /// The request for the resume document.
    pub open spec fn resume_request(self) -> FetchRequestView {
        self.config.request_for(Resource::ResumeDocument)
    }

    /// The page to start on, given the fragment of the current URL where the
    /// host has one: the page it names, and the artworks otherwise.
    pub open spec fn start_view(location_hash: Option<Seq<char>>) -> Page {
        match location_hash {
            Some(hash) => match Page::parse(hash) {
                Some(view) => view,
                None => Page::Artworks,
            },
            None => Page::Artworks,
        }
    }

    /// Whether a request of the application is in flight.
    pub open spec fn fetching(self) -> bool {
        self.catalog is Loading || self.resume is Loading
    }

    /// Starts the application and, with it, the first fetch of the catalog.
    /// The host issues the request returned.
    pub fn new(config: Config, initial_view: Page) -> (started: (MeguiApp, FetchRequest))
        ensures
            started.0.config == config,
            started.0.current_view == initial_view,
            started.0.theme_mode == ThemeMode::named_by(lowercase(config.app.default_theme@)),
            started.0.catalog is Loading,
            started.0.resume is Idle,
            started.0.selected_artworks@ == Seq::<ArtworkView>::empty(),
            started.0.sidebar_open,
            !started.0.settings_open,
            started.1.deep_view() == started.0.catalog_request(),
    {
        let theme_mode = config.app.theme_mode();
        let request = config.request(Resource::Catalog);
        let app = MeguiApp {
            config,
            current_view: initial_view,
            theme_mode,
            catalog: FetchSlot::Loading,
            resume: FetchSlot::Idle,
            selected_artworks: SelectedArtworks::new(),
            sidebar_open: true,
            settings_open: false,
        };
        (app, request)
    }

    /// The page to start on, given the fragment of the current URL where the
    /// host has one.
    pub fn get_view_from_url(location_hash: Option<&str>) -> (view: Page)
        ensures
            view == MeguiApp::start_view(
                match location_hash {
                    Some(hash) => Some(hash@),
                    None => None,
                },
            ),
    {
        match location_hash {
            Some(hash) => match Page::from_hash(hash) {
                Some(view) => view,
                None => Page::Artworks,
            },
            None => Page::Artworks,
        }
    }

    /// The fragment that the address bar shows for the current page.
    pub fn url_hash(&self) -> (hash: &'static str)
        ensures
            hash@ == self.current_view.hash(),
    {
        self.current_view.to_hash()
    }

    /// Whether a request for `resource` is in flight.
    pub open spec fn loading(self, resource: Resource) -> bool {
        match resource {
            Resource::Catalog => self.catalog is Loading,
            Resource::ResumeDocument => self.resume is Loading,
        }
    }

    /// The request for `resource`.
    pub open spec fn request_for(self, resource: Resource) -> FetchRequestView {
        self.config.request_for(resource)
    }

    pub fn is_loading(&self, resource: Resource) -> (loading: bool)
        ensures
            loading == self.loading(resource),
    {
        match resource {
            Resource::Catalog => self.catalog.is_loading(),
            Resource::ResumeDocument => self.resume.is_loading(),
        }
    }

    /// Asks for a fresh copy of `resource`. Returns the request to issue, and
    /// none while a request for the resource is in flight. What the slot of
    /// the resource held is given up; the other resource is not touched.
    pub fn trigger(&mut self, resource: Resource) -> (request: Option<FetchRequest>)
        ensures
            request is Some <==> !old(self).loading(resource),
            request matches Some(issued) ==> issued.deep_view() == old(self).request_for(resource),
            final(self).loading(resource),
            *final(self) == match resource {
                Resource::Catalog => MeguiApp { catalog: FetchSlot::Loading, ..*old(self) },
                Resource::ResumeDocument => MeguiApp { resume: FetchSlot::Loading, ..*old(self) },
            },
    {
        match resource {
            Resource::Catalog => {
                if self.catalog.trigger() {
                    Some(self.config.request(resource))
                } else {
                    None
                }
            },
            Resource::ResumeDocument => {
                if self.resume.trigger() {
                    Some(self.config.request(resource))
                } else {
                    None
                }
            },
        }
    }

    /// Asks for a fresh copy of the catalog. Returns the request to issue,
    /// and none while a catalog request is in flight.
    pub fn start_artworks_fetch(&mut self) -> (request: Option<FetchRequest>)
        ensures
            request is Some <==> !(old(self).catalog is Loading),
            request matches Some(issued) ==> issued.deep_view() == old(self).catalog_request(),
            *final(self) == (MeguiApp { catalog: FetchSlot::Loading, ..*old(self) }),
    {
        self.trigger(Resource::Catalog)
    }

    /// Looks after the catalog: `message` is what the catalog's completion
    /// channel held, if anything. Returns whether the message was consumed.
    pub fn process_fetch_response(&mut self, message: Option<Completion>) -> (consumed: bool)
        ensures
            consumed == (old(self).catalog is Loading && message is Some),
            final(self).catalog.deep_view() == old(self).catalog.deep_view().after_poll(
                catalog_message(message),
            ),
            consumed ==> !(final(self).catalog is Loading),
            !consumed ==> *final(self) == *old(self),
            *final(self) == (MeguiApp { catalog: final(self).catalog, ..*old(self) }),
    {
        if !self.catalog.is_loading() {
            return false;
        }
        match message {
            None => false,
            Some(completion) => {
                let outcome = catalog_outcome(completion);
                self.catalog.poll(Some(outcome))
            },
        }
    }

    /// What becomes of the resume slot when the channel held `message`: the
    /// slot `after`, given what it was `before`. A slot that is not waiting,
    /// or finds no message, stays as it is; a failure leaves its message; a
    /// document leaves what `convert` made of it.
    pub open spec fn resume_polled<F: FnOnce(&str) -> String>(
        before: FetchSlot<String>,
        message: Option<Completion>,
        convert: F,
        after: FetchSlot<String>,
    ) -> bool {
        if before is Loading && message is Some {
            match document(completion_view(message->0)) {
                Ok(html) => after matches FetchSlot::Succeeded(markdown) && converted(
                    convert,
                    html,
                    markdown,
                ),
                Err(reason) => after matches FetchSlot::Failed(shown) && shown@ == reason,
            }
        } else {
            after == before
        }
    }

    /// Looks after the resume: `message` is what the resume's completion
    /// channel held, if anything, and `convert` turns HTML into Markdown. A
    /// resume that arrived is shown at once. Returns whether the message was
    /// consumed.
    pub fn process_resume_response<F: FnOnce(&str) -> String>(
        &mut self,
        message: Option<Completion>,
        convert: F,
    ) -> (consumed: bool)
        requires
            forall|html: &str| call_requires(convert, (html,)),
        ensures
            consumed == (old(self).resume is Loading && message is Some),
            MeguiApp::resume_polled(old(self).resume, message, convert, final(self).resume),
            consumed ==> !(final(self).resume is Loading),
            final(self).current_view == if consumed && final(self).resume is Succeeded {
                Page::Resume
            } else {
                old(self).current_view
            },
            !consumed ==> *final(self) == *old(self),
            *final(self) == (MeguiApp {
                resume: final(self).resume,
                current_view: final(self).current_view,
                ..*old(self)
            }),
    {
        if !self.resume.is_loading() {
            return false;
        }
        match message {
            None => false,
            Some(completion) => {
                let outcome = resume_outcome(completion, convert);
                if outcome.is_ok() {
                    self.current_view = Page::Resume;
                }
                self.resume.poll(Some(outcome))
            },
        }
    }

    /// Handles a click on the menu entry of `target`. The artworks and the
    /// about page are shown at once. The resume is shown if it is there and
    /// fetched if it is neither there nor on its way.
    pub fn navigate(&mut self, target: Page) -> (todo: Navigation)
        ensures
            final(self).current_view == match target {
                Page::Resume => if old(self).resume.demanded() is Show {
                    Page::Resume
                } else {
                    old(self).current_view
                },
                _ => target,
            },
            final(self).resume == if target is Resume && old(self).resume.demanded() is Fetch {
                FetchSlot::Loading
            } else {
                old(self).resume
            },
            todo.request is Some <==> (target is Resume && old(self).resume.demanded() is Fetch),
            todo.request matches Some(issued) ==> issued.deep_view() == old(self).resume_request(),
            todo.hash@ == final(self).current_view.hash(),
            *final(self) == (MeguiApp {
                resume: final(self).resume,
                current_view: final(self).current_view,
                ..*old(self)
            }),
    {
        let mut request: Option<FetchRequest> = None;
        match target {
            Page::Resume => {
                match self.resume.demand() {
                    Demand::Fetch => {
                        request = Some(self.config.request(Resource::ResumeDocument));
                    },
                    Demand::Show => {
                        self.current_view = Page::Resume;
                    },
                    Demand::Wait => {},
                }
            },
            _ => {
                self.current_view = target;
            },
        }
        Navigation { request, hash: self.current_view.to_hash() }
    }

    /// Whether the host must draw another frame soon: it must while a request
    /// is in flight, since nothing else wakes it when the result arrives.
    pub fn needs_repaint(&self) -> (repaint: bool)
        ensures
            repaint == self.fetching(),
    {
        self.catalog.is_loading() || self.resume.is_loading()
    }

    /// The work of one frame before anything is drawn: both resources are
    /// looked after, the catalog first. Returns whether another frame is
    /// needed soon.
    pub fn update<F: FnOnce(&str) -> String>(
        &mut self,
        catalog_completion: Option<Completion>,
        resume_completion: Option<Completion>,
        convert: F,
    ) -> (repaint: bool)
        requires
            forall|html: &str| call_requires(convert, (html,)),
        ensures
            final(self).catalog.deep_view() == old(self).catalog.deep_view().after_poll(
                catalog_message(catalog_completion),
            ),
            MeguiApp::resume_polled(
                old(self).resume,
                resume_completion,
                convert,
                final(self).resume,
            ),
            final(self).current_view == if old(self).resume is Loading && final(self).resume
                is Succeeded {
                Page::Resume
            } else {
                old(self).current_view
            },
            repaint == final(self).fetching(),
            *final(self) == (MeguiApp {
                catalog: final(self).catalog,
                resume: final(self).resume,
                current_view: final(self).current_view,
                ..*old(self)
            }),
    {
        self.process_fetch_response(catalog_completion);
        self.process_resume_response(resume_completion, convert);
        self.needs_repaint()
    }

    /// The heading of the current page.
    pub fn title(&self) -> (title: &'static str)
        ensures
            title@ == self.current_view.heading(),
    {
        self.current_view.title()
    }
}

} // verus!
