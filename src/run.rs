use vstd::prelude::*;

use crate::activation::{
    advance_spec, request_spec, stage_ok, start_spec, Activation, Outcome, Reply, Request,
};
use crate::enumerate::{after_page, initial, request_of, Enumeration, PageRequest};
use crate::medal::PageReply;

verus! {

/// Pause, in milliseconds, after each page fetch and after each badge.
pub const DEFAULT_PAUSE_MS: u64 = 1000;

/// The fixed interval kept between requests to the badge service.
#[derive(PartialEq, Eq, Structural, Clone, Copy, Debug)]
pub struct Pacing {
    pub delay_ms: u64,
}

impl Pacing {
    pub fn new(delay_ms: u64) -> (r: Self)
        ensures
            r.delay_ms == delay_ms,
    {
        Pacing { delay_ms }
    }

    pub fn fixed() -> (r: Self)
        ensures
            r.delay_ms == DEFAULT_PAUSE_MS,
    {
        Pacing { delay_ms: DEFAULT_PAUSE_MS }
    }
}

#[derive(PartialEq, Eq, Structural, Clone, Copy, Debug)]
pub enum Phase {
    /// The badge listing is being read.
    Enumerating,
    /// The badges are being activated, one after the other.
    Activating,
    /// Every collected badge has its outcome.
    Done,
    /// The listing could not be read completely; no badge was tried.
    Aborted,
}

/// What the run asks of the badge service next.
#[derive(PartialEq, Eq, Structural, Clone, Copy, Debug)]
pub enum Action {
    /// Fetch this page of the badge listing.
    FetchPage(u64),
    /// A request for the badge being activated.
    Badge(Request),
    Finished,
    Aborted,
}

/// The next action, to be performed after a pause of `pause_ms`.
#[derive(PartialEq, Eq, Structural, Clone, Copy, Debug)]
pub struct Command {
    pub pause_ms: u64,
    pub action: Action,
}

/// One pass of the activation workflow: read every page of the listing, then
/// activate each collected badge once, in listing order, recording its outcome.
pub struct Run {
    pub pacing: Pacing,
    pub phase: Phase,
    pub enumeration: Enumeration,
    /// Index of the badge being activated.
    pub current: usize,
    pub activation: Option<Activation>,
    /// Outcome of each badge tried so far, in listing order.
    pub outcomes: Vec<Outcome>,
    pub pause_ms: u64,
}

impl Run {
    pub open spec fn wf(&self) -> bool {
        match self.phase {
            Phase::Enumerating => {
                &&& request_of(self.enumeration@) is Fetch
                &&& self.outcomes@.len() == 0
            },
            Phase::Activating => {
                &&& self.current < self.enumeration.medals@.len()
                &&& self.outcomes@.len() == self.current
                &&& self.activation is Some
                &&& stage_ok(self.activation.unwrap().stage)
                &&& !(self.activation.unwrap().stage is Finished)
            },
            Phase::Done => self.outcomes@.len() == self.enumeration.medals@.len(),
            Phase::Aborted => self.outcomes@.len() == 0,
        }
    }

    pub open spec fn action_spec(&self) -> Action {
        match self.phase {
            Phase::Enumerating => match request_of(self.enumeration@) {
                PageRequest::Fetch(p) => Action::FetchPage(p),
                _ => Action::Aborted,
            },
            Phase::Activating => Action::Badge(request_spec(self.activation.unwrap())),
            Phase::Done => Action::Finished,
            Phase::Aborted => Action::Aborted,
        }
    }

    /// The phase that follows a page reply, from the enumeration it left.
    pub open spec fn phase_after_page(&self) -> Phase {
        match request_of(self.enumeration@) {
            PageRequest::Fetch(_) => Phase::Enumerating,
            PageRequest::Exceeded => Phase::Aborted,
            PageRequest::Complete => if self.enumeration.medals@.len() == 0 {
                Phase::Done
            } else {
                Phase::Activating
            },
        }
    }

    /// Starts a run that collects the inactive badges (every badge when
    /// `include_lighted`), keeping `pacing` between requests.
    pub fn new(include_lighted: bool, pacing: Pacing) -> (r: Self)
        ensures
            r.wf(),
            r.phase == Phase::Enumerating,
            r.enumeration@ == initial(include_lighted),
            r.outcomes@.len() == 0,
            r.pacing == pacing,
            r.action_spec() == Action::FetchPage(1),
    {
        Run {
            pacing,
            phase: Phase::Enumerating,
            enumeration: Enumeration::new(include_lighted),
            current: 0,
            activation: None,
            outcomes: Vec::new(),
            pause_ms: 0,
        }
    }

    pub fn next_command(&self) -> (r: Command)
        requires
            self.wf(),
        ensures
            r.action == self.action_spec(),
            r.pause_ms == self.pause_ms,
    {
        let action = match self.phase {
            Phase::Enumerating => match self.enumeration.next_request() {
                PageRequest::Fetch(p) => Action::FetchPage(p),
                _ => Action::Aborted,
            },
            Phase::Activating => match self.activation {
                Some(a) => Action::Badge(a.request()),
                None => Action::Aborted,
            },
            Phase::Done => Action::Finished,
            Phase::Aborted => Action::Aborted,
        };
        Command { pause_ms: self.pause_ms, action }
    }

    /// Takes the reply to a page fetch, `None` when the fetch failed. A failed
    /// fetch aborts the run before any badge is tried, whatever earlier pages
    /// gave. Once the last page is read, activation starts with the first
    /// collected badge.
    pub fn on_page(&mut self, reply: Option<PageReply>)
        requires
            old(self).wf(),
            old(self).phase == Phase::Enumerating,
        ensures
            final(self).wf(),
            final(self).pacing == old(self).pacing,
            final(self).outcomes@.len() == 0,
            reply is None ==> final(self).phase == Phase::Aborted,
            reply is None ==> final(self).enumeration@ == old(self).enumeration@,
            reply is Some ==> final(self).enumeration@ == after_page(
                old(self).enumeration@,
                reply.unwrap()@,
            ),
            reply is Some ==> final(self).phase == final(self).phase_after_page(),
            reply is Some ==> final(self).pause_ms == old(self).pacing.delay_ms,
            final(self).phase == Phase::Activating ==> final(self).current == 0
                && final(self).activation == Some(start_spec(final(self).enumeration.medals@[0])),
    {
        match reply {
            None => {
                self.phase = Phase::Aborted;
                self.pause_ms = 0;
            },
            Some(page) => {
                self.enumeration.record_page(page);
                self.pause_ms = self.pacing.delay_ms;
                match self.enumeration.next_request() {
                    PageRequest::Fetch(_) => {},
                    PageRequest::Exceeded => {
                        self.phase = Phase::Aborted;
                    },
                    PageRequest::Complete => {
                        if self.enumeration.medals.len() == 0 {
                            self.phase = Phase::Done;
                        } else {
                            self.current = 0;
                            self.activation = Some(Activation::new(&self.enumeration.medals[0]));
                            self.phase = Phase::Activating;
                        }
                    },
                }
            },
        }
    }

    /// Takes the badge service's reply for the badge being activated. When
    /// that badge's activation ends, its outcome is recorded and the next
    /// badge is started, or the run is done.
    pub fn on_reply(&mut self, reply: Reply)
        requires
            old(self).wf(),
            old(self).phase == Phase::Activating,
        ensures
            final(self).wf(),
            final(self).pacing == old(self).pacing,
            final(self).enumeration@ == old(self).enumeration@,
            ({
                let a = advance_spec(old(self).activation.unwrap(), reply);
                let i = old(self).current;
                let n = old(self).enumeration.medals@.len();
                if let crate::activation::Stage::Finished(o) = a.stage {
                    &&& final(self).outcomes@ == old(self).outcomes@.push(o)
                    &&& final(self).pause_ms == old(self).pacing.delay_ms
                    &&& (i + 1 == n ==> final(self).phase == Phase::Done)
                    &&& (i + 1 < n ==> final(self).phase == Phase::Activating
                        && final(self).current == i + 1
                        && final(self).activation == Some(
                        start_spec(old(self).enumeration.medals@[i + 1]),
                    ))
                } else {
                    &&& final(self).outcomes@ == old(self).outcomes@
                    &&& final(self).pause_ms == 0
                    &&& final(self).phase == Phase::Activating
                    &&& final(self).current == i
                    &&& final(self).activation == Some(a)
                }
            }),
    {
        let mut a = self.activation.unwrap();
        a.advance(reply);
        match a.stage {
            crate::activation::Stage::Finished(o) => {
                self.outcomes.push(o);
                self.pause_ms = self.pacing.delay_ms;
                let n = self.enumeration.medals.len();
                let next = self.current + 1;
                if next < n {
                    self.current = next;
                    self.activation = Some(Activation::new(&self.enumeration.medals[next]));
                } else {
                    self.current = next;
                    self.activation = None;
                    self.phase = Phase::Done;
                }
            },
            _ => {
                self.activation = Some(a);
                self.pause_ms = 0;
            },
        }
    }
}

} // verus!
