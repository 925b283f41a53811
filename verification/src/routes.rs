//! The pages of the application and their URL fragments.

use vstd::prelude::*;
use crate::config::Config;
use crate::fetch::{Demand, FetchSlot, Resource};
use crate::transport::FetchRequest;
use crate::text::str_eq;

verus! {

/// A page of the application.
#[derive(Clone, Copy, Debug, PartialEq, Eq, Structural)]
pub enum Route {
    Home,
    Artworks,
    Resume,
    About,
}

impl Route {
    /// The canonical URL fragment of a route.
    pub open spec fn hash(self) -> Seq<char> {
        match self {
            Route::Home => "#/home"@,
            Route::Artworks => "#/artworks"@,
            Route::Resume => "#/resume"@,
            Route::About => "#/about"@,
        }
    }

    /// The route that a URL fragment names, if any. Each route answers to its
    /// canonical fragment and to the same fragment without the slash; the
    /// home page also answers to `#/`, to `#` and to the empty fragment.
    pub open spec fn parse(hash: Seq<char>) -> Option<Route> {
        if hash == "#/home"@ || hash == "#home"@ || hash == "#/"@ || hash == "#"@ || hash == ""@ {
            Some(Route::Home)
        } else if hash == "#/artworks"@ || hash == "#artworks"@ {
            Some(Route::Artworks)
        } else if hash == "#/resume"@ || hash == "#resume"@ {
            Some(Route::Resume)
        } else if hash == "#/about"@ || hash == "#about"@ {
            Some(Route::About)
        } else {
            None
        }
    }

    /// The heading shown for a route.
    pub open spec fn heading(self) -> Seq<char> {
        match self {
            Route::Home => "Home"@,
            Route::Artworks => "Artworks"@,
            Route::Resume => "Resume"@,
            Route::About => "About"@,
        }
    }

    pub fn to_hash(&self) -> (hash: &'static str)
        ensures
            hash@ == self.hash(),
    {
        match self {
            Route::Home => "#/home",
            Route::Artworks => "#/artworks",
            Route::Resume => "#/resume",
            Route::About => "#/about",
        }
    }

    pub fn from_hash(hash: &str) -> (route: Option<Route>)
        ensures
            route == Route::parse(hash@),
    {
        if str_eq(hash, "#/home") || str_eq(hash, "#home") || str_eq(hash, "#/") || str_eq(
            hash,
            "#",
        ) || str_eq(hash, "") {
            Some(Route::Home)
        } else if str_eq(hash, "#/artworks") || str_eq(hash, "#artworks") {
            Some(Route::Artworks)
        } else if str_eq(hash, "#/resume") || str_eq(hash, "#resume") {
            Some(Route::Resume)
        } else if str_eq(hash, "#/about") || str_eq(hash, "#about") {
            Some(Route::About)
        } else {
            None
        }
    }

    /// The route to start on, given the fragment of the current URL where the
    /// host has one: the route it names, and the home page otherwise.
    pub fn get_from_url(location_hash: Option<&str>) -> (route: Route)
        ensures
            route == match location_hash {
                Some(hash) => match Route::parse(hash@) {
                    Some(named) => named,
                    None => Route::Home,
                },
                None => Route::Home,
            },
    {
        match location_hash {
            Some(hash) => match Route::from_hash(hash) {
                Some(named) => named,
                None => Route::Home,
            },
            None => Route::Home,
        }
    }

    pub fn title(&self) -> (title: &'static str)
        ensures
            title@ == self.heading(),
    {
        match self {
            Route::Home => "Home",
            Route::Artworks => "Artworks",
            Route::Resume => "Resume",
            Route::About => "About",
        }
    }

    /// The route shown after a click on the menu entry of `target`, where
    /// asking for the resume leads to `demand`. Every page but the resume is
    /// shown at once; the resume is shown only if it is there.
    pub open spec fn after_click(self, target: Route, demand: Demand) -> Route {
        match target {
            Route::Resume => if demand is Show {
                Route::Resume
            } else {
                self
            },
            _ => target,
        }
    }

    /// Handles a click on the menu entry of `target`. A click on the resume
    /// asks the resume's slot for the document. Returns the request that the
    /// host must now issue, if the click started a fetch: the request for the
    /// resume that `config` names.
    pub fn navigate<T>(
        &mut self,
        target: Route,
        resume: &mut FetchSlot<T>,
        config: &Config,
    ) -> (request: Option<FetchRequest>)
        ensures
            request is Some <==> (target is Resume && old(resume).demanded() is Fetch),
            request matches Some(issued) ==> issued.deep_view() == config.request_for(
                Resource::ResumeDocument,
            ),
            *final(self) == old(self).after_click(target, old(resume).demanded()),
            request is Some ==> *final(resume) == old(resume).after_trigger(),
            request is None ==> *final(resume) == *old(resume),
    {
        match target {
            Route::Resume => match resume.demand() {
                Demand::Fetch => Some(config.request(Resource::ResumeDocument)),
                Demand::Show => {
                    *self = Route::Resume;
                    None
                },
                Demand::Wait => None,
            },
            _ => {
                *self = target;
                None
            },
        }
    }

    /// Every route is found again from its canonical fragment.
    pub proof fn lemma_hash_round_trip(route: Route)
        ensures
            Route::parse(route.hash()) == Some(route),
    {
        reveal_strlit("#/home");
        reveal_strlit("#home");
        reveal_strlit("#/");
        reveal_strlit("#");
        reveal_strlit("");
        reveal_strlit("#/artworks");
        reveal_strlit("#artworks");
        reveal_strlit("#/resume");
        reveal_strlit("#resume");
        reveal_strlit("#/about");
        reveal_strlit("#about");
        assert("#/home"@.len() == 6 && "#home"@.len() == 5 && "#/"@.len() == 2 && "#"@.len() == 1
            && ""@.len() == 0);
        assert("#/artworks"@.len() == 10 && "#artworks"@.len() == 9);
        assert("#/resume"@.len() == 8 && "#resume"@.len() == 7);
        assert("#/about"@.len() == 7 && "#about"@.len() == 6);
        assert("#/about"@[1] == '/' && "#resume"@[1] == 'r');
    }
}

} // verus!
