//! A session with a browser through its driver.
//!
//! The calls to the driver are made by the caller. Here stands what is
//! decided: how the browser is asked for, how long an element is looked for,
//! which of the elements found is handed out, when the run is slowed down
//! for an onlooker, and that the session is closed once.

use vstd::prelude::*;
use vstd::string::*;
use crate::driver::DriverKind;
use crate::error::{ErrorView, HarnessError};
use crate::poll::{
    action_of, phase_after, PollAction, PollEvent, PollPhase, PollPolicy, Poller,
};
use crate::text::{same_text, str_view, texts};

verus! {

/// How a browser is asked for when a session is opened.
#[derive(Clone, Copy, Debug, PartialEq, Eq, Structural)]
pub struct Capabilities {
    pub browser: DriverKind,
    pub headless: bool,
}

/// Firefox and Chrome run without a window unless the run is shown to an
/// onlooker; Safari and Edge are asked for as they are.
pub open spec fn capabilities_for(browser: DriverKind, demo_mode: bool) -> Capabilities {
    Capabilities {
        browser,
        headless: !demo_mode && (browser == DriverKind::Firefox || browser == DriverKind::Chrome),
    }
}

/// How `browser` is asked for.
pub fn determine_capabilities(browser: DriverKind, demo_mode: bool) -> (r: Capabilities)
    ensures
        r == capabilities_for(browser, demo_mode),
{
    match browser {
        DriverKind::Firefox => Capabilities { browser, headless: !demo_mode },
        DriverKind::Safari => Capabilities { browser, headless: false },
        DriverKind::Chrome => Capabilities { browser, headless: !demo_mode },
        DriverKind::Edge => Capabilities { browser, headless: false },
    }
}

/// An element is looked for for three seconds, every half second.
pub open spec fn query_wait() -> PollPolicy {
    PollPolicy { timeout_ms: 3000, interval_ms: 500 }
}

/// The policy by which an element is looked for.
pub fn query_policy() -> (r: PollPolicy)
    ensures
        r == query_wait(),
{
    PollPolicy { timeout_ms: 3000, interval_ms: 500 }
}

/// The pause after an action that changes the page, in milliseconds: a
/// second where the run is shown to an onlooker, none otherwise.
pub open spec fn pause_for(demo_mode: bool) -> u64 {
    if demo_mode {
        1000
    } else {
        0
    }
}

/// What is said where no element was found.
pub open spec fn no_such_element_text() -> Seq<char> {
    "no such element"@
}

/// What is said where one element was asked for and several were found.
pub open spec fn too_many_elements_text() -> Seq<char> {
    "too many elements received"@
}

/// The element handed out where one is asked for: the one that was found,
/// if polling ended well and found exactly one.
pub open spec fn single_of(phase: PollPhase, found: Seq<Seq<char>>) -> Result<Seq<char>, ErrorView> {
    if phase == PollPhase::Succeeded && found.len() == 1 {
        Ok(found[0])
    } else if phase == PollPhase::Succeeded && found.len() > 1 {
        Err(ErrorView::SessionFailure(too_many_elements_text()))
    } else {
        Err(ErrorView::SessionFailure(no_such_element_text()))
    }
}

/// The event that a probe with these findings is to the poller.
pub open spec fn probe_event(found: Seq<Seq<char>>) -> PollEvent {
    PollEvent::Probed(found.len() > 0)
}

/// What a list of elements with their texts holds: pairs of an element's
/// identity and the text that it shows.
pub open spec fn shown(found: Seq<(String, String)>) -> Seq<(Seq<char>, Seq<char>)> {
    found.map_values(|e: (String, String)| (e.0@, e.1@))
}

/// The elements that show exactly `text`, in their order.
pub open spec fn showing(found: Seq<(Seq<char>, Seq<char>)>, text: Seq<char>) -> Seq<Seq<char>>
    decreases found.len(),
{
    if found.len() == 0 {
        seq![]
    } else if found.last().1 == text {
        showing(found.drop_last(), text).push(found.last().0)
    } else {
        showing(found.drop_last(), text)
    }
}

/// Picks from the elements that a search found those that show exactly
/// `text`.
pub fn elements_showing(found: &Vec<(String, String)>, text: &str) -> (r: Vec<String>)
    ensures
        texts(r@) == showing(shown(found@), text@),
{
    let mut out: Vec<String> = Vec::new();
    let mut i: usize = 0;
    assert(shown(found@).take(0) == Seq::<(Seq<char>, Seq<char>)>::empty());
    assert(texts(out@) =~= Seq::<Seq<char>>::empty());
    while i < found.len()
        invariant
            i <= found.len(),
            texts(out@) == showing(shown(found@).take(i as int), text@),
        decreases found.len() - i,
    {
        let ghost next = shown(found@).take(i + 1);
        assert(next.drop_last() == shown(found@).take(i as int));
        assert(next.last() == (found@[i as int].0@, found@[i as int].1@));
        if same_text(found[i].1.as_str(), text) {
            let ghost before = texts(out@);
            out.push(found[i].0.clone());
            assert(texts(out@) =~= before.push(found@[i as int].0@));
        }
        i += 1;
    }
    assert(shown(found@).take(found.len() as int) == shown(found@));
    out
}

/// A search for the elements that match a selector, repeated until some are
/// found or the time has run out.
#[derive(Debug)]
pub struct ElementQuery {
    poller: Poller,
    found: Vec<String>,
}

impl ElementQuery {
    /// What the query waits for.
    pub closed spec fn spec_phase(&self) -> PollPhase {
        self.poller.spec_phase()
    }

    /// The elements that the latest probe found, by their identities.
    pub closed spec fn spec_found(&self) -> Seq<Seq<char>> {
        texts(self.found@)
    }

    /// The policy by which the query polls.
    pub closed spec fn spec_policy(&self) -> PollPolicy {
        self.poller.spec_policy()
    }

    /// A query at its beginning.
    pub fn new() -> (r: ElementQuery)
        ensures
            r.spec_phase() == PollPhase::Timing,
            r.spec_found() == Seq::<Seq<char>>::empty(),
            r.spec_policy() == query_wait(),
    {
        let r = ElementQuery { poller: Poller::new(query_policy()), found: Vec::new() };
        assert(r.spec_found() =~= Seq::<Seq<char>>::empty());
        r
    }

    /// What the query asks of its caller now; `Probe` is one search for the
    /// elements.
    pub fn action(&self) -> (r: PollAction)
        ensures
            r == action_of(self.spec_policy(), self.spec_phase()),
    {
        self.poller.action()
    }

    /// Takes in the time since the query began, in milliseconds.
    pub fn elapsed(&mut self, ms: u64) -> (r: PollAction)
        ensures
            final(self).spec_policy() == old(self).spec_policy(),
            final(self).spec_found() == old(self).spec_found(),
            final(self).spec_phase() == phase_after(
                old(self).spec_policy(),
                old(self).spec_phase(),
                PollEvent::Elapsed(ms),
            ),
            r == action_of(final(self).spec_policy(), final(self).spec_phase()),
    {
        self.poller.step(PollEvent::Elapsed(ms))
    }

    /// Takes in what a search found. A search that was not asked for is
    /// ignored.
    pub fn probed(&mut self, found: Vec<String>) -> (r: PollAction)
        ensures
            final(self).spec_policy() == old(self).spec_policy(),
            final(self).spec_found() == if old(self).spec_phase() == PollPhase::Probing {
                texts(found@)
            } else {
                old(self).spec_found()
            },
            final(self).spec_phase() == phase_after(
                old(self).spec_policy(),
                old(self).spec_phase(),
                probe_event(texts(found@)),
            ),
            r == action_of(final(self).spec_policy(), final(self).spec_phase()),
    {
        let success = found.len() > 0;
        match self.poller.phase() {
            PollPhase::Probing => {
                self.found = found;
            },
            _ => {},
        }
        self.poller.step(PollEvent::Probed(success))
    }

    /// Takes in that the pause was made.
    pub fn paused(&mut self) -> (r: PollAction)
        ensures
            final(self).spec_policy() == old(self).spec_policy(),
            final(self).spec_found() == old(self).spec_found(),
            final(self).spec_phase() == phase_after(
                old(self).spec_policy(),
                old(self).spec_phase(),
                PollEvent::Paused,
            ),
            r == action_of(final(self).spec_policy(), final(self).spec_phase()),
    {
        self.poller.step(PollEvent::Paused)
    }

    /// The one element that the query found. Fails where it found none in
    /// time, and where it found several.
    pub fn single(&self) -> (r: Result<String, HarnessError>)
        ensures
            match r {
                Ok(element) => single_of(self.spec_phase(), self.spec_found()) == Ok::<
                    Seq<char>,
                    ErrorView,
                >(element@),
                Err(error) => single_of(self.spec_phase(), self.spec_found()) == Err::<
                    Seq<char>,
                    ErrorView,
                >(error@),
            },
    {
        if self.poller.has_succeeded() && self.found.len() == 1 {
            Ok(self.found[0].clone())
        } else if self.poller.has_succeeded() && self.found.len() > 1 {
            Err(HarnessError::SessionFailure(String::from_str("too many elements received")))
        } else {
            Err(HarnessError::SessionFailure(String::from_str("no such element")))
        }
    }

    /// Every element that the latest search found: none where the time ran
    /// out.
    pub fn all(&self) -> (r: Vec<String>)
        ensures
            texts(r@) == self.spec_found(),
    {
        let r = self.found.clone();
        assert(texts(r@) =~= texts(self.found@)) by {
            assert(r@ == self.found@);
        }
        r
    }
}

/// What a page has to do about the window that the driver acts on.
#[derive(Clone, Copy, Debug, PartialEq, Eq, Structural)]
pub enum WindowStep {
    /// The driver acts on the page's window already.
    Stay,
    /// Switch to the page's window, then pause for so many milliseconds.
    Switch { pause_ms: u64 },
}

/// An open session: its identity, whether the run is shown to an onlooker,
/// and the window that the driver acted on when last asked or told.
#[derive(Debug)]
pub struct SessionHandle {
    id: String,
    demo_mode: bool,
    window: Option<String>,
    open: bool,
}

impl SessionHandle {
    /// The identity of the session.
    pub closed spec fn spec_id(&self) -> Seq<char> {
        self.id@
    }

    /// Whether the run is shown to an onlooker.
    pub closed spec fn spec_demo_mode(&self) -> bool {
        self.demo_mode
    }

    /// The window that the driver is known to act on.
    pub closed spec fn spec_window(&self) -> Option<Seq<char>> {
        match self.window {
            Some(w) => Some(w@),
            None => None,
        }
    }

    /// Whether the session has not been closed.
    pub closed spec fn spec_open(&self) -> bool {
        self.open
    }

    /// The record of a session that has just been opened.
    pub fn open(id: &str, demo_mode: bool) -> (r: SessionHandle)
        ensures
            r.spec_id() == id@,
            r.spec_demo_mode() == demo_mode,
            r.spec_window() is None,
            r.spec_open(),
    {
        SessionHandle { id: String::from_str(id), demo_mode, window: None, open: true }
    }

    /// The identity of the session.
    pub fn id(&self) -> (r: &str)
        ensures
            r@ == self.spec_id(),
    {
        self.id.as_str()
    }

    /// Whether the run is shown to an onlooker.
    pub fn demo_mode(&self) -> (r: bool)
        ensures
            r == self.spec_demo_mode(),
    {
        self.demo_mode
    }

    /// The window that the driver is known to act on, if any is known.
    pub fn window(&self) -> (r: Option<&str>)
        ensures
            str_view(r) == self.spec_window(),
    {
        match &self.window {
            Some(window) => Some(window.as_str()),
            None => None,
        }
    }

    /// Whether the session has not been closed.
    pub fn is_open(&self) -> (r: bool)
        ensures
            r == self.spec_open(),
    {
        self.open
    }

    /// The pause to make after an action that changes the page, in
    /// milliseconds.
    pub fn demo_pause(&self) -> (r: u64)
        ensures
            r == pause_for(self.spec_demo_mode()),
    {
        if self.demo_mode {
            1000
        } else {
            0
        }
    }

    /// A new search for elements.
    pub fn query(&self) -> (r: ElementQuery)
        ensures
            r.spec_phase() == PollPhase::Timing,
            r.spec_found() == Seq::<Seq<char>>::empty(),
            r.spec_policy() == query_wait(),
    {
        ElementQuery::new()
    }

    /// Makes sure that the driver acts on the window `wanted`, given the
    /// window `current` that it acts on now.
    pub fn ensure_window(&mut self, current: &str, wanted: &str) -> (r: WindowStep)
        ensures
            final(self).spec_id() == old(self).spec_id(),
            final(self).spec_demo_mode() == old(self).spec_demo_mode(),
            final(self).spec_open() == old(self).spec_open(),
            final(self).spec_window() == Some(wanted@),
            r == if current@ == wanted@ {
                WindowStep::Stay
            } else {
                WindowStep::Switch { pause_ms: pause_for(old(self).spec_demo_mode()) }
            },
    {
        let step = if same_text(current, wanted) {
            WindowStep::Stay
        } else {
            WindowStep::Switch { pause_ms: self.demo_pause() }
        };
        self.window = Some(String::from_str(wanted));
        step
    }

    /// Closes the session. Returns whether the driver is to be asked to end
    /// it: on the first call only.
    pub fn close(&mut self) -> (r: bool)
        ensures
            final(self).spec_id() == old(self).spec_id(),
            final(self).spec_demo_mode() == old(self).spec_demo_mode(),
            final(self).spec_window() == old(self).spec_window(),
            !final(self).spec_open(),
            r == old(self).spec_open(),
    {
        let was_open = self.open;
        self.open = false;
        was_open
    }
}

/// A search that is due and finds exactly one element ends at once and hands
/// out that element.
pub proof fn lemma_single_found_at_once(found: Seq<Seq<char>>)
    requires
        found.len() == 1,
    ensures
        phase_after(query_wait(), PollPhase::Probing, probe_event(found)) == PollPhase::Succeeded,
        action_of(query_wait(), PollPhase::Succeeded) == PollAction::Succeed,
        single_of(PollPhase::Succeeded, found) == Ok::<Seq<char>, ErrorView>(found[0]),
{
}

/// A query is given up on the first reading of the clock at or after three
/// seconds, and then hands out no element; before that it goes on looking.
pub proof fn lemma_query_gives_up(ms: u64, found: Seq<Seq<char>>)
    ensures
        ms >= 3000 ==> phase_after(query_wait(), PollPhase::Timing, PollEvent::Elapsed(ms))
            == PollPhase::TimedOut,
        ms < 3000 ==> phase_after(query_wait(), PollPhase::Timing, PollEvent::Elapsed(ms))
            == PollPhase::Probing,
        action_of(query_wait(), PollPhase::TimedOut) == PollAction::GiveUp,
        single_of(PollPhase::TimedOut, found) is Err,
        phase_after(query_wait(), PollPhase::Probing, probe_event(Seq::<Seq<char>>::empty()))
            == PollPhase::Pausing,
        action_of(query_wait(), PollPhase::Pausing) == PollAction::Pause(500),
{
}

} // verus!
