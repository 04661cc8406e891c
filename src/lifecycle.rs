use vstd::prelude::*;

use crate::window::{describes, window_for_label, window_spec, ContentSource, WindowName, WindowSpec};

verus! {

/// Where a managed window stands. Once built, a window is never destroyed while
/// the process runs: closing it only hides it.
#[derive(Clone, Copy, Debug, PartialEq, Eq, Structural)]
pub enum WindowState {
    Absent,
    Visible,
    Hidden,
}

/// What the host must do to bring a window forward.
pub enum OpenStep {
    /// Build the window from this description, then show and focus it.
    Construct(WindowSpec),
    /// Show the existing window, then focus it.
    ShowAndFocus,
}

/// What the host must do with a close request.
#[derive(Clone, Copy, Debug, PartialEq, Eq, Structural)]
pub enum CloseDecision {
    /// Suppress the close and hide the window.
    HideInstead,
    /// Let the close go ahead: the window is not one the shell manages.
    Allow,
}

/// Whether an open request on a window in state `s` builds it.
pub open spec fn needs_construction(s: WindowState) -> bool {
    s == WindowState::Absent
}

/// The state after an open request; `built` tells whether a construction, if
/// one was needed, succeeded.
pub open spec fn after_open(s: WindowState, built: bool) -> WindowState {
    if s == WindowState::Absent && !built {
        WindowState::Absent
    } else {
        WindowState::Visible
    }
}

/// The state after a close request on a managed window.
pub open spec fn after_close(s: WindowState) -> WindowState {
    if s == WindowState::Absent {
        WindowState::Absent
    } else {
        WindowState::Hidden
    }
}

/// A user request on one window.
#[derive(Clone, Copy, Debug, PartialEq, Eq, Structural)]
pub enum Request {
    Open,
    Close,
}

/// The state of one window after a run of requests from state `s`, with every
/// construction succeeding, and how many constructions the run made.
pub open spec fn replay(s: WindowState, reqs: Seq<Request>) -> (WindowState, nat)
    decreases reqs.len(),
{
    if reqs.len() == 0 {
        (s, 0)
    } else {
        let (prev, built) = replay(s, reqs.drop_last());
        match reqs.last() {
            Request::Open => (
                after_open(prev, true),
                built + if needs_construction(prev) { 1nat } else { 0nat },
            ),
            Request::Close => (after_close(prev), built),
        }
    }
}

/// Tracks the state of each managed window and decides how to answer open and
/// close requests.
pub struct WindowRegistry {
    chat: WindowState,
    world: WindowState,
    settings: WindowState,
    zen: WindowState,
    source: ContentSource,
    backend_url: String,
}

impl WindowRegistry {
    pub closed spec fn state(&self, name: WindowName) -> WindowState {
        match name {
            WindowName::Chat => self.chat,
            WindowName::World => self.world,
            WindowName::Settings => self.settings,
            WindowName::Zen => self.zen,
        }
    }

    pub closed spec fn content_source(&self) -> ContentSource {
        self.source
    }

    pub closed spec fn backend(&self) -> Seq<char> {
        self.backend_url@
    }

    /// A registry in which no window has been built yet.
    pub fn new(source: ContentSource, backend_url: String) -> (r: WindowRegistry)
        ensures
            forall|n: WindowName| #[trigger] r.state(n) == WindowState::Absent,
            r.content_source() == source,
            r.backend() == backend_url@,
    {
        WindowRegistry {
            chat: WindowState::Absent,
            world: WindowState::Absent,
            settings: WindowState::Absent,
            zen: WindowState::Absent,
            source,
            backend_url,
        }
    }

    pub fn state_of(&self, name: WindowName) -> (r: WindowState)
        ensures
            r == self.state(name),
    {
        match name {
            WindowName::Chat => self.chat,
            WindowName::World => self.world,
            WindowName::Settings => self.settings,
            WindowName::Zen => self.zen,
        }
    }

    fn set_state(&mut self, name: WindowName, s: WindowState)
        ensures
            final(self).state(name) == s,
            forall|n: WindowName| n != name ==> #[trigger] final(self).state(n) == old(self).state(n),
            final(self).content_source() == old(self).content_source(),
            final(self).backend() == old(self).backend(),
    {
        match name {
            WindowName::Chat => self.chat = s,
            WindowName::World => self.world = s,
            WindowName::Settings => self.settings = s,
            WindowName::Zen => self.zen = s,
        }
    }

    /// Answers an open request: a window that exists is shown and focused,
    /// one that does not is to be built. The registry learns of the build's
    /// outcome through `construction_finished`.
    pub fn open_or_focus(&mut self, name: WindowName) -> (r: OpenStep)
        ensures
            r is Construct <==> needs_construction(old(self).state(name)),
            r matches OpenStep::Construct(ws) ==> describes(
                ws,
                name,
                old(self).content_source(),
                old(self).backend(),
            ),
            final(self).state(name) == if needs_construction(old(self).state(name)) {
                old(self).state(name)
            } else {
                after_open(old(self).state(name), true)
            },
            forall|n: WindowName| n != name ==> #[trigger] final(self).state(n) == old(self).state(n),
            final(self).content_source() == old(self).content_source(),
            final(self).backend() == old(self).backend(),
    {
        if self.state_of(name) == WindowState::Absent {
            OpenStep::Construct(window_spec(name, self.source, self.backend_url.as_str()))
        } else {
            self.set_state(name, WindowState::Visible);
            OpenStep::ShowAndFocus
        }
    }

    /// Records the outcome of building window `name`. A failed build leaves
    /// the window absent, so that the next open request tries again.
    pub fn construction_finished(&mut self, name: WindowName, built: bool)
        requires
            needs_construction(old(self).state(name)),
        ensures
            final(self).state(name) == after_open(old(self).state(name), built),
            forall|n: WindowName| n != name ==> #[trigger] final(self).state(n) == old(self).state(n),
            final(self).content_source() == old(self).content_source(),
            final(self).backend() == old(self).backend(),
    {
        if built {
            self.set_state(name, WindowState::Visible);
        }
    }

    /// Answers a close request on the window registered under `label`: a
    /// managed window is hidden instead of closed, any other closes.
    pub fn close_requested(&mut self, label: &str) -> (r: CloseDecision)
        ensures
            r == CloseDecision::HideInstead <==> window_for_label(label@) is Some,
            window_for_label(label@) matches Some(name) ==> final(self).state(name) == after_close(
                old(self).state(name),
            ),
            forall|n: WindowName|
                window_for_label(label@) != Some(n) ==> #[trigger] final(self).state(n) == old(
                    self,
                ).state(n),
            final(self).content_source() == old(self).content_source(),
            final(self).backend() == old(self).backend(),
    {
        match WindowName::from_label(label) {
            Some(name) => {
                if self.state_of(name) != WindowState::Absent {
                    self.set_state(name, WindowState::Hidden);
                }
                CloseDecision::HideInstead
            },
            None => CloseDecision::Allow,
        }
    }
}

proof fn lemma_replay_counts_one_build(reqs: Seq<Request>)
    ensures
        replay(WindowState::Absent, reqs).1 == if replay(WindowState::Absent, reqs).0
            == WindowState::Absent {
            0nat
        } else {
            1nat
        },
    decreases reqs.len(),
{
    if reqs.len() > 0 {
        lemma_replay_counts_one_build(reqs.drop_last());
    }
}

/// Open requests on one window, with any close requests between them, end
/// with the window visible, and build it exactly once over the whole run.
pub proof fn lemma_open_builds_once(reqs: Seq<Request>)
    requires
        reqs.len() > 0,
        reqs.last() == Request::Open,
    ensures
        replay(WindowState::Absent, reqs) == (WindowState::Visible, 1nat),
{
    lemma_replay_counts_one_build(reqs);
}

/// Closing a window that exists hides it and never makes it absent: the next
/// open request shows the same window instead of building a new one.
pub proof fn lemma_close_keeps_window(s: WindowState, built: bool)
    requires
        s != WindowState::Absent,
    ensures
        after_close(s) == WindowState::Hidden,
        !needs_construction(after_close(s)),
        after_open(after_close(s), built) == WindowState::Visible,
{
}

} // verus!
