//! The state of one remotely fetched resource.
//!
//! A [`FetchSlot`] never performs a request itself. `trigger` tells the host
//! whether it has to issue one, and `poll` takes whatever the host's
//! completion channel held when it was looked at. Between the two the slot is
//! `Loading`, and while it is, a further `trigger` asks for nothing: at most
//! one request per resource is in flight.

use vstd::prelude::*;

verus! {

/// The documents the application fetches. Each has a slot of its own.
#[derive(Clone, Copy, Debug, PartialEq, Eq, Structural)]
pub enum Resource {
    Catalog,
    ResumeDocument,
}

/// The most recent fetch of a resource.
#[derive(Debug)]
pub enum FetchSlot<T> {
    /// Nothing was requested yet.
    Idle,
    /// A request is in flight and its result has not been seen.
    Loading,
    /// The last request delivered this payload.
    Succeeded(T),
    /// The last request failed, for the reason given.
    Failed(String),
}

/// What a fetch slot holds, with the payload and the message as mathematical
/// values.
pub enum SlotView<V> {
    Idle,
    Loading,
    Succeeded(V),
    Failed(Seq<char>),
}

impl<T: DeepView> DeepView for FetchSlot<T> {
    type V = SlotView<T::V>;

    open spec fn deep_view(&self) -> SlotView<T::V> {
        match *self {
            FetchSlot::Idle => SlotView::Idle,
            FetchSlot::Loading => SlotView::Loading,
            FetchSlot::Succeeded(payload) => SlotView::Succeeded(payload.deep_view()),
            FetchSlot::Failed(message) => SlotView::Failed(message@),
        }
    }
}

impl<V> SlotView<V> {
    /// The counterpart of [`FetchSlot::after_poll`] on mathematical values.
    pub open spec fn after_poll(self, message: Option<Result<V, Seq<char>>>) -> Self {
        if self is Loading {
            match message {
                Some(Ok(payload)) => SlotView::Succeeded(payload),
                Some(Err(reason)) => SlotView::Failed(reason),
                None => self,
            }
        } else {
            self
        }
    }
}

/// What becomes of a click on the menu entry of a page that is fetched when
/// it is first asked for.
#[derive(Clone, Copy, Debug, PartialEq, Eq, Structural)]
pub enum Demand {
    /// Nothing is there and nothing is on its way: a request goes out now.
    Fetch,
    /// The payload is there: the page is shown.
    Show,
    /// A request is in flight: the click does nothing.
    Wait,
}

/// Something that happens to a slot: the user or the system asks for a fresh
/// fetch, or the render loop looks at the completion channel and finds a
/// result there or nothing.
pub enum FetchEvent<T> {
    Trigger,
    Poll(Option<Result<T, String>>),
}

impl<T> FetchSlot<T> {
    /// The number of requests for this resource that are in flight.
    pub open spec fn outstanding(self) -> nat {
        if self is Loading {
            1
        } else {
            0
        }
    }

    /// The slot after a trigger. Whatever was held before is replaced.
    pub open spec fn after_trigger(self) -> Self {
        FetchSlot::Loading
    }

    /// Whether a trigger in this state makes the host issue a request.
    pub open spec fn trigger_issues(self) -> bool {
        !(self is Loading)
    }

    /// Whether a poll in this state takes `message` off the channel.
    pub open spec fn poll_consumes(self, message: Option<Result<T, String>>) -> bool {
        self is Loading && message is Some
    }

    /// The slot after a poll that found `message` on the completion channel.
    /// Without a request in flight there is no channel and nothing changes;
    /// without a message the slot keeps waiting.
    pub open spec fn after_poll(self, message: Option<Result<T, String>>) -> Self {
        if self is Loading {
            match message {
                Some(Ok(payload)) => FetchSlot::Succeeded(payload),
                Some(Err(reason)) => FetchSlot::Failed(reason),
                None => self,
            }
        } else {
            self
        }
    }

    /// The slot after one event.
    pub open spec fn step(self, event: FetchEvent<T>) -> Self {
        match event {
            FetchEvent::Trigger => self.after_trigger(),
            FetchEvent::Poll(message) => self.after_poll(message),
        }
    }

    /// The slot after a sequence of events, first to last.
    pub open spec fn run(self, events: Seq<FetchEvent<T>>) -> Self
        decreases events.len(),
    {
        if events.len() == 0 {
            self
        } else {
            self.run(events.drop_last()).step(events.last())
        }
    }

    /// The number of requests the host is made to issue over `events`.
    pub open spec fn requests_issued(self, events: Seq<FetchEvent<T>>) -> nat
        decreases events.len(),
    {
        if events.len() == 0 {
            0
        } else {
            let before = self.run(events.drop_last());
            let issued: nat = if events.last() is Trigger && before.trigger_issues() {
                1
            } else {
                0
            };
            self.requests_issued(events.drop_last()) + issued
        }
    }

    /// The number of results taken off the completion channel over `events`.
    pub open spec fn results_consumed(self, events: Seq<FetchEvent<T>>) -> nat
        decreases events.len(),
    {
        if events.len() == 0 {
            0
        } else {
            let before = self.run(events.drop_last());
            let consumed: nat = match events.last() {
                FetchEvent::Poll(message) => if before.poll_consumes(message) {
                    1
                } else {
                    0
                },
                FetchEvent::Trigger => 0,
            };
            self.results_consumed(events.drop_last()) + consumed
        }
    }

    /// What asking for the payload leads to in this state.
    pub open spec fn demanded(self) -> Demand {
        match self {
            FetchSlot::Loading => Demand::Wait,
            FetchSlot::Succeeded(_) => Demand::Show,
            _ => Demand::Fetch,
        }
    }

    pub fn new() -> (slot: Self)
        ensures
            slot is Idle,
    {
        FetchSlot::Idle
    }

    pub fn is_loading(&self) -> (loading: bool)
        ensures
            loading == (*self is Loading),
    {
        match self {
            FetchSlot::Loading => true,
            _ => false,
        }
    }

    /// Asks for a fresh fetch. Returns whether the host must now issue a
    /// request: it must unless one is already in flight, in which case the
    /// slot is left as it is.
    pub fn trigger(&mut self) -> (issue: bool)
        ensures
            issue == old(self).trigger_issues(),
            *final(self) == old(self).after_trigger(),
            final(self).outstanding() == 1,
    {
        if self.is_loading() {
            false
        } else {
            *self = FetchSlot::Loading;
            true
        }
    }

    /// Hands the slot what the completion channel held. Returns whether the
    /// message was consumed, which is when the host drops the channel.
    pub fn poll(&mut self, message: Option<Result<T, String>>) -> (consumed: bool)
        ensures
            consumed == old(self).poll_consumes(message),
            *final(self) == old(self).after_poll(message),
            consumed ==> final(self).outstanding() == 0,
            !consumed ==> *final(self) == *old(self),
    {
        if !self.is_loading() {
            return false;
        }
        match message {
            Some(Ok(payload)) => {
                *self = FetchSlot::Succeeded(payload);
                true
            },
            Some(Err(reason)) => {
                *self = FetchSlot::Failed(reason);
                true
            },
            None => false,
        }
    }

    /// Asks for the payload: triggers a fetch where there is neither a
    /// payload nor a request in flight, and changes nothing otherwise.
    pub fn demand(&mut self) -> (demand: Demand)
        ensures
            demand == old(self).demanded(),
            demand is Fetch ==> *final(self) == old(self).after_trigger(),
            !(demand is Fetch) ==> *final(self) == *old(self),
    {
        match self {
            FetchSlot::Loading => Demand::Wait,
            FetchSlot::Succeeded(_) => Demand::Show,
            _ => {
                *self = FetchSlot::Loading;
                Demand::Fetch
            },
        }
    }

    /// However triggers and polls are interleaved, every request that was
    /// issued and whose result was not yet consumed is accounted for by the
    /// slot being `Loading`, so there is never more than one.
    pub proof fn law_single_flight(self, events: Seq<FetchEvent<T>>)
        ensures
            self.outstanding() + self.requests_issued(events) == self.results_consumed(events)
                + self.run(events).outstanding(),
            self.run(events).outstanding() <= 1,
        decreases events.len(),
    {
        if events.len() > 0 {
            self.law_single_flight(events.drop_last());
        }
    }

    /// A trigger that follows a trigger issues nothing and changes nothing.
    pub proof fn law_trigger_while_loading(self)
        ensures
            !self.after_trigger().trigger_issues(),
            self.after_trigger().after_trigger() == self.after_trigger(),
    {
    }

    /// A poll that finds no message leaves the slot as it is, however often
    /// it is repeated.
    pub proof fn law_poll_without_message(self)
        ensures
            self.after_poll(None) == self,
            !self.poll_consumes(None),
    {
    }
}

} // verus!
