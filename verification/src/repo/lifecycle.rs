//! The lifecycle of a repository.
//!
//! A repository is created uninitialized, may be opened, closed and opened
//! again, and its storage may be prepared at any time. Each call is one step
//! of the machine below; none of them can fail.
use vstd::prelude::*;

verus! {

/// Where a repository stands between creation and release.
#[derive(Clone, Copy, Debug, PartialEq, Eq, Structural)]
pub enum RepoState {
    /// Created, never opened.
    Uninitialized,
    /// Usable: the resources for block and data access are held.
    Open,
    /// Released; it may be opened again.
    Closed,
}

/// A call that moves the lifecycle.
#[derive(Clone, Copy, Debug, PartialEq, Eq, Structural)]
pub enum LifecycleEvent {
    Init,
    Open,
    Close,
}

/// The lifecycle of one repository: its state, and whether its backing
/// storage has been prepared.
#[derive(Clone, Copy, Debug, PartialEq, Eq, Structural)]
pub struct Lifecycle {
    pub state: RepoState,
    pub prepared: bool,
}

impl Lifecycle {
    /// The lifecycle of a repository that was just assembled over storage
    /// that nobody prepared.
    pub open spec fn fresh() -> Lifecycle {
        Lifecycle { state: RepoState::Uninitialized, prepared: false }
    }

    /// After `init`: the storage is prepared, the state is what it was.
    pub open spec fn after_init(self) -> Lifecycle {
        Lifecycle { state: self.state, prepared: true }
    }

    /// After `open`: the repository is open, from whatever state.
    pub open spec fn after_open(self) -> Lifecycle {
        Lifecycle { state: RepoState::Open, prepared: self.prepared }
    }

    /// After `close`: an open repository is closed; one that is not open
    /// stays as it is.
    pub open spec fn after_close(self) -> Lifecycle {
        Lifecycle {
            state: if self.state == RepoState::Open {
                RepoState::Closed
            } else {
                self.state
            },
            prepared: self.prepared,
        }
    }

    /// After one call.
    pub open spec fn after(self, event: LifecycleEvent) -> Lifecycle {
        match event {
            LifecycleEvent::Init => self.after_init(),
            LifecycleEvent::Open => self.after_open(),
            LifecycleEvent::Close => self.after_close(),
        }
    }

    /// After a run of calls, the first of `events` made first.
    pub open spec fn after_all(self, events: Seq<LifecycleEvent>) -> Lifecycle
        decreases events.len(),
    {
        if events.len() == 0 {
            self
        } else {
            self.after_all(events.drop_last()).after(events.last())
        }
    }

    /// A fresh lifecycle.
    pub fn new() -> (lifecycle: Lifecycle)
        ensures
            lifecycle == Lifecycle::fresh(),
    {
        Lifecycle { state: RepoState::Uninitialized, prepared: false }
    }

    /// Marks the storage as prepared.
    pub fn init(&mut self)
        ensures
            *final(self) == old(self).after_init(),
    {
        self.prepared = true;
    }

    /// Moves to `Open`.
    pub fn open(&mut self)
        ensures
            *final(self) == old(self).after_open(),
    {
        self.state = RepoState::Open;
    }

    /// Moves an open lifecycle to `Closed`.
    pub fn close(&mut self)
        ensures
            *final(self) == old(self).after_close(),
    {
        if self.state == RepoState::Open {
            self.state = RepoState::Closed;
        }
    }

    /// Makes the step that `event` names.
    pub fn step(&mut self, event: LifecycleEvent)
        ensures
            *final(self) == old(self).after(event),
    {
        match event {
            LifecycleEvent::Init => self.init(),
            LifecycleEvent::Open => self.open(),
            LifecycleEvent::Close => self.close(),
        }
    }

    /// Whether the storage has been prepared.
    pub fn is_initialized(&self) -> (prepared: bool)
        ensures
            prepared == self.prepared,
    {
        self.prepared
    }

    /// The state.
    pub fn state(&self) -> (state: RepoState)
        ensures
            state == self.state,
    {
        self.state
    }
}

/// Preparing the storage a second time changes nothing.
pub proof fn lemma_init_is_idempotent(lifecycle: Lifecycle)
    ensures
        lifecycle.after_init().after_init() == lifecycle.after_init(),
        lifecycle.after_init().prepared,
{
}

/// Closing a repository that was never opened changes nothing, and closing a
/// second time changes nothing.
pub proof fn lemma_close_is_idempotent(lifecycle: Lifecycle)
    ensures
        Lifecycle::fresh().after_close() == Lifecycle::fresh(),
        lifecycle.state != RepoState::Open ==> lifecycle.after_close() == lifecycle,
        lifecycle.after_close().after_close() == lifecycle.after_close(),
        lifecycle.after_close().state != RepoState::Open,
{
}

/// Opening a repository that is open changes nothing, and a closed
/// repository can be opened again.
pub proof fn lemma_open_from_any_state(lifecycle: Lifecycle)
    ensures
        lifecycle.after_open().state == RepoState::Open,
        lifecycle.after_open().after_open() == lifecycle.after_open(),
        lifecycle.after_close().after_open().state == RepoState::Open,
        lifecycle.after_open().after_close().state == RepoState::Closed,
{
}

/// Storage that was prepared stays prepared, whatever calls follow; storage
/// that was not is prepared exactly when one of the calls is `init`.
pub proof fn lemma_prepared_by_init_only(lifecycle: Lifecycle, events: Seq<LifecycleEvent>)
    ensures
        lifecycle.after_all(events).prepared == (lifecycle.prepared || events.contains(
            LifecycleEvent::Init,
        )),
    decreases events.len(),
{
    if events.len() > 0 {
        let before = events.drop_last();
        lemma_prepared_by_init_only(lifecycle, before);
        if before.contains(LifecycleEvent::Init) {
            let i = choose|i: int| 0 <= i < before.len() && before[i] == LifecycleEvent::Init;
            assert(events[i] == LifecycleEvent::Init);
        }
        if events.contains(LifecycleEvent::Init) && events.last() != LifecycleEvent::Init {
            let i = choose|i: int| 0 <= i < events.len() && events[i] == LifecycleEvent::Init;
            assert(before[i] == LifecycleEvent::Init);
        }
        if events.last() == LifecycleEvent::Init {
            assert(events[events.len() - 1] == LifecycleEvent::Init);
        }
    } else {
        assert(!events.contains(LifecycleEvent::Init));
    }
}

/// After any run of calls the state is the one the last `open` or `close`
/// left: a repository is open exactly when the last of them was an `open`.
pub proof fn lemma_state_after_last_call(lifecycle: Lifecycle, events: Seq<LifecycleEvent>)
    requires
        events.len() > 0,
    ensures
        events.last() == LifecycleEvent::Open ==> lifecycle.after_all(events).state
            == RepoState::Open,
        events.last() == LifecycleEvent::Close ==> lifecycle.after_all(events).state
            != RepoState::Open,
        events.last() == LifecycleEvent::Init ==> lifecycle.after_all(events).state
            == lifecycle.after_all(events.drop_last()).state,
{
}

} // verus!
