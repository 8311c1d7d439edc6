//! The connection lifecycle: lazy, once-only initialization with retry.
//!
//! `Database` owns the shared handle and the initialization flag as one
//! unit; the caller is expected to guard the whole value with a single
//! lock, so that checking the flag and driving initialization form one
//! atomic region and concurrent first callers cannot race a second
//! attempt. The manager itself performs no I/O: it is a state machine
//! that, fed the outcome of each outside step as an event, answers with
//! the next action — resolve the path, open the connection (up to three
//! attempts with a fixed one-second pause between them), provision the
//! schema once, then serve every later request from the cached handle.
//! On any failure the lifecycle resets, so a later request retries the
//! full sequence from path resolution onward; nothing is cached until
//! provisioning has succeeded.

use vstd::prelude::*;
use vstd::string::StringExecFns;

use crate::errors::StoreError;

verus! {

/// How many connection attempts are made before giving up.
pub const MAX_CONNECT_ATTEMPTS: u8 = 3;

/// The fixed pause between two connection attempts, in seconds.
pub const BACKOFF_SECONDS: u64 = 1;

/// The connection string for a database file: read-write-create mode, so
/// that a missing file is created on first open.
pub open spec fn spec_connection_url(path: Seq<char>) -> Seq<char> {
    "sqlite:"@ + path + "?mode=rwc"@
}

/// Builds the connection string for a database file.
pub fn connection_url(path: &str) -> (r: String)
    ensures
        r@ == spec_connection_url(path@),
{
    let mut url = String::new();
    url.append("sqlite:");
    url.append(path);
    url.append("?mode=rwc");
    proof {
        assert(url@ =~= spec_connection_url(path@));
    }
    url
}

/// Where the lifecycle stands.
pub enum InitPhase {
    /// Nothing has run yet, or the last initialization failed.
    Start,
    /// Path resolution was requested.
    PathPending,
    /// The numbered connection attempt at the given location is underway.
    ConnectPending { url: String, attempt: u8 },
    /// The pause before the next connection attempt is underway.
    BackoffPending { url: String, attempt: u8 },
    /// The connection is open; schema provisioning was requested.
    ProvisionPending,
    /// The handle is cached; every later request is served from it.
    Ready,
}

/// What the surrounding application reports back to the manager.
pub enum InitEvent<H> {
    /// A caller asked for the handle.
    HandleRequested,
    /// Path resolution finished.
    PathOutcome(Result<String, StoreError>),
    /// A connection attempt finished, with the handle or the cause.
    ConnectOutcome(Result<H, String>),
    /// The pause between attempts elapsed.
    BackoffDone,
    /// Schema provisioning finished.
    ProvisionOutcome(Result<(), String>),
}

/// What the manager asks the surrounding application to do next.
pub enum InitAction {
    /// Resolve the storage path and report the outcome.
    ResolvePath,
    /// Open the connection at the given location; `attempt` numbers the try.
    Connect { url: String, attempt: u8 },
    /// Wait the given pause, then report it elapsed.
    Backoff { seconds: u64 },
    /// Provision the schema on the just-opened connection and report back.
    Provision,
    /// Initialization is complete; the handle is cached.
    Complete,
    /// Initialization failed; surface the error to the caller.
    Fail(StoreError),
    /// Nothing to do: the event does not belong to the current phase.
    Idle,
}

/// The lifecycle phase with only what the transition rules depend on.
pub enum LifecyclePhase {
    Start,
    PathPending,
    Connecting { attempt: u8 },
    Backing { attempt: u8 },
    Provisioning,
    Ready,
}

/// An event reduced to its kind.
pub enum EventKind {
    Request,
    PathOk,
    PathErr,
    ConnectOk,
    ConnectErr,
    BackoffElapsed,
    ProvisionOk,
    ProvisionErr,
}

/// An action reduced to its kind.
pub enum ActionKind {
    ResolvePath,
    Connect,
    Backoff,
    Provision,
    Complete,
    Fail,
    Idle,
}

/// The kind of an event.
pub open spec fn event_kind<H>(ev: InitEvent<H>) -> EventKind {
    match ev {
        InitEvent::HandleRequested => EventKind::Request,
        InitEvent::PathOutcome(Ok(_)) => EventKind::PathOk,
        InitEvent::PathOutcome(Err(_)) => EventKind::PathErr,
        InitEvent::ConnectOutcome(Ok(_)) => EventKind::ConnectOk,
        InitEvent::ConnectOutcome(Err(_)) => EventKind::ConnectErr,
        InitEvent::BackoffDone => EventKind::BackoffElapsed,
        InitEvent::ProvisionOutcome(Ok(_)) => EventKind::ProvisionOk,
        InitEvent::ProvisionOutcome(Err(_)) => EventKind::ProvisionErr,
    }
}

/// The kind of an action.
pub open spec fn action_kind(a: InitAction) -> ActionKind {
    match a {
        InitAction::ResolvePath => ActionKind::ResolvePath,
        InitAction::Connect { .. } => ActionKind::Connect,
        InitAction::Backoff { .. } => ActionKind::Backoff,
        InitAction::Provision => ActionKind::Provision,
        InitAction::Complete => ActionKind::Complete,
        InitAction::Fail(_) => ActionKind::Fail,
        InitAction::Idle => ActionKind::Idle,
    }
}

/// The transition rules of the lifecycle: from a phase and an event kind
/// to the next phase and the kind of action requested.
pub open spec fn spec_step(p: LifecyclePhase, k: EventKind) -> (LifecyclePhase, ActionKind) {
    match (p, k) {
        (LifecyclePhase::Start, EventKind::Request) => (
            LifecyclePhase::PathPending,
            ActionKind::ResolvePath,
        ),
        (LifecyclePhase::Ready, EventKind::Request) => (LifecyclePhase::Ready, ActionKind::Complete),
        (LifecyclePhase::PathPending, EventKind::PathOk) => (
            LifecyclePhase::Connecting { attempt: 1 },
            ActionKind::Connect,
        ),
        (LifecyclePhase::PathPending, EventKind::PathErr) => (
            LifecyclePhase::Start,
            ActionKind::Fail,
        ),
        (LifecyclePhase::Connecting { attempt }, EventKind::ConnectOk) => (
            LifecyclePhase::Provisioning,
            ActionKind::Provision,
        ),
        (LifecyclePhase::Connecting { attempt }, EventKind::ConnectErr) => if attempt
            < MAX_CONNECT_ATTEMPTS {
            (LifecyclePhase::Backing { attempt }, ActionKind::Backoff)
        } else {
            (LifecyclePhase::Start, ActionKind::Fail)
        },
        (LifecyclePhase::Backing { attempt }, EventKind::BackoffElapsed) => (
            LifecyclePhase::Connecting { attempt: (attempt + 1) as u8 },
            ActionKind::Connect,
        ),
        (LifecyclePhase::Provisioning, EventKind::ProvisionOk) => (
            LifecyclePhase::Ready,
            ActionKind::Complete,
        ),
        (LifecyclePhase::Provisioning, EventKind::ProvisionErr) => (
            LifecyclePhase::Start,
            ActionKind::Fail,
        ),
        (_, _) => (p, ActionKind::Idle),
    }
}

/// The once-only connection manager: the handle and the initialization
/// flag, owned together so that a single lock can guard both as one unit.
pub struct Database<H> {
    pub phase: InitPhase,
    /// The connection opened but not yet provisioned.
    pub pending: Option<H>,
    /// The cached handle, present exactly when the lifecycle is ready.
    pub handle: Option<H>,
    /// Set exactly when provisioning has succeeded and the handle is cached.
    pub initialized: bool,
}

impl<H> Database<H> {
    /// The lifecycle phase of this manager.
    pub open spec fn lifecycle(self) -> LifecyclePhase {
        match self.phase {
            InitPhase::Start => LifecyclePhase::Start,
            InitPhase::PathPending => LifecyclePhase::PathPending,
            InitPhase::ConnectPending { url, attempt } => LifecyclePhase::Connecting { attempt },
            InitPhase::BackoffPending { url, attempt } => LifecyclePhase::Backing { attempt },
            InitPhase::ProvisionPending => LifecyclePhase::Provisioning,
            InitPhase::Ready => LifecyclePhase::Ready,
        }
    }

    /// The manager's validity: the flag, the cached handle and the phase
    /// agree, a connection waiting for provisioning exists exactly in the
    /// provisioning phase, and attempt counters stay in the retry budget.
    pub open spec fn inv(self) -> bool {
        &&& (self.initialized <==> self.phase is Ready)
        &&& (self.handle is Some <==> self.phase is Ready)
        &&& (self.pending is Some <==> self.phase is ProvisionPending)
        &&& (self.phase matches InitPhase::ConnectPending { attempt, .. } ==> 1 <= attempt
            <= MAX_CONNECT_ATTEMPTS)
        &&& (self.phase matches InitPhase::BackoffPending { attempt, .. } ==> 1 <= attempt
            < MAX_CONNECT_ATTEMPTS)
    }

    /// A fresh manager: nothing resolved, nothing cached.
    pub fn new() -> (r: Self)
        ensures
            r.inv(),
            r.phase is Start,
            r.handle is None,
            r.pending is None,
            !r.initialized,
    {
        Database { phase: InitPhase::Start, pending: None, handle: None, initialized: false }
    }

    /// The cached handle: present exactly when the lifecycle is ready, and
    /// served without any further work.
    pub fn get_pool(&self) -> (r: Option<&H>)
        ensures
            (r is Some) <==> self.handle is Some,
            r matches Some(h) ==> self.handle == Some(*h),
            self.inv() ==> ((r is Some) <==> self.phase is Ready),
    {
        self.handle.as_ref()
    }

    /// The connection that was opened and awaits provisioning.
    pub fn pending_connection(&self) -> (r: Option<&H>)
        ensures
            (r is Some) <==> self.pending is Some,
            r matches Some(h) ==> self.pending == Some(*h),
    {
        self.pending.as_ref()
    }

    /// Feeds one event to the lifecycle and answers with the next action.
    ///
    /// The phase moves and the action is chosen exactly as the transition
    /// rules (`spec_step`) say; the clauses below pin down what each
    /// produced action and phase carry. The handle is cached, and the flag
    /// set, only when provisioning succeeds; any failure resets the
    /// lifecycle to the start with nothing cached.
    pub fn on_event(&mut self, ev: InitEvent<H>) -> (r: InitAction)
        requires
            old(self).inv(),
        ensures
            final(self).inv(),
            ({
                let (p, k) = spec_step(old(self).lifecycle(), event_kind(ev));
                final(self).lifecycle() == p && action_kind(r) == k
            }),
            action_kind(r) is Idle ==> *final(self) == *old(self),
            old(self).phase is Ready ==> *final(self) == *old(self),
            old(self).initialized ==> final(self).initialized,
            (old(self).phase, ev) matches (
                InitPhase::PathPending,
                InitEvent::PathOutcome(Ok(path)),
            ) ==> {
                &&& final(self).phase matches InitPhase::ConnectPending { url, attempt } && url@
                    == spec_connection_url(path@) && attempt == 1
                &&& r matches InitAction::Connect { url, attempt } && url@ == spec_connection_url(
                    path@,
                ) && attempt == 1
            },
            (old(self).phase, ev) matches (
                InitPhase::PathPending,
                InitEvent::PathOutcome(Err(e)),
            ) ==> (r matches InitAction::Fail(f) && f == e),
            (old(self).phase, ev) matches (
                InitPhase::ConnectPending { url: u0, attempt: a0 },
                InitEvent::ConnectOutcome(Ok(h)),
            ) ==> final(self).pending == Some(h),
            (old(self).phase, ev) matches (
                InitPhase::ConnectPending { url: u0, attempt: a0 },
                InitEvent::ConnectOutcome(Err(cause)),
            ) ==> (if a0 < MAX_CONNECT_ATTEMPTS {
                &&& final(self).phase matches InitPhase::BackoffPending { url, attempt } && url
                    == u0 && attempt == a0
                &&& r matches InitAction::Backoff { seconds } && seconds == BACKOFF_SECONDS
            } else {
                r matches InitAction::Fail(StoreError::ConnectionFailed { attempts, last_error })
                    && attempts == MAX_CONNECT_ATTEMPTS && last_error == cause
            }),
            (old(self).phase, ev) matches (
                InitPhase::BackoffPending { url: u0, attempt: a0 },
                InitEvent::BackoffDone,
            ) ==> {
                &&& final(self).phase matches InitPhase::ConnectPending { url, attempt } && url
                    == u0 && attempt == a0 + 1
                &&& r matches InitAction::Connect { url, attempt } && url == u0 && attempt == a0
                    + 1
            },
            (old(self).phase, ev) matches (
                InitPhase::ProvisionPending,
                InitEvent::ProvisionOutcome(Ok(u)),
            ) ==> {
                &&& final(self).handle == old(self).pending
                &&& final(self).initialized
            },
            (old(self).phase, ev) matches (
                InitPhase::ProvisionPending,
                InitEvent::ProvisionOutcome(Err(m)),
            ) ==> {
                &&& final(self).pending is None
                &&& final(self).handle is None
                &&& r matches InitAction::Fail(StoreError::SchemaError { message }) && message
                    == m
            },
    {
        match ev {
            InitEvent::HandleRequested => {
                match &self.phase {
                    InitPhase::Start => {
                        self.phase = InitPhase::PathPending;
                        InitAction::ResolvePath
                    },
                    InitPhase::Ready => InitAction::Complete,
                    _ => InitAction::Idle,
                }
            },
            InitEvent::PathOutcome(res) => {
                match &self.phase {
                    InitPhase::PathPending => {
                        match res {
                            Ok(path) => {
                                let url = connection_url(path.as_str());
                                let action_url = url.clone();
                                self.phase = InitPhase::ConnectPending { url, attempt: 1 };
                                InitAction::Connect { url: action_url, attempt: 1 }
                            },
                            Err(e) => {
                                self.phase = InitPhase::Start;
                                InitAction::Fail(e)
                            },
                        }
                    },
                    _ => InitAction::Idle,
                }
            },
            InitEvent::ConnectOutcome(res) => {
                match &self.phase {
                    InitPhase::ConnectPending { url, attempt } => {
                        let a = *attempt;
                        let u = url.clone();
                        match res {
                            Ok(h) => {
                                self.pending = Some(h);
                                self.phase = InitPhase::ProvisionPending;
                                InitAction::Provision
                            },
                            Err(cause) => {
                                if a < MAX_CONNECT_ATTEMPTS {
                                    self.phase = InitPhase::BackoffPending { url: u, attempt: a };
                                    InitAction::Backoff { seconds: BACKOFF_SECONDS }
                                } else {
                                    self.phase = InitPhase::Start;
                                    InitAction::Fail(
                                        StoreError::ConnectionFailed {
                                            attempts: MAX_CONNECT_ATTEMPTS,
                                            last_error: cause,
                                        },
                                    )
                                }
                            },
                        }
                    },
                    _ => InitAction::Idle,
                }
            },
            InitEvent::BackoffDone => {
                match &self.phase {
                    InitPhase::BackoffPending { url, attempt } => {
                        let a = *attempt;
                        let u = url.clone();
                        let action_url = u.clone();
                        self.phase = InitPhase::ConnectPending { url: u, attempt: a + 1 };
                        InitAction::Connect { url: action_url, attempt: a + 1 }
                    },
                    _ => InitAction::Idle,
                }
            },
            InitEvent::ProvisionOutcome(res) => {
                match &self.phase {
                    InitPhase::ProvisionPending => {
                        match res {
                            Ok(_) => {
                                let opened = self.pending.take();
                                self.handle = opened;
                                self.initialized = true;
                                self.phase = InitPhase::Ready;
                                InitAction::Complete
                            },
                            Err(m) => {
                                self.pending = None;
                                self.phase = InitPhase::Start;
                                InitAction::Fail(StoreError::SchemaError { message: m })
                            },
                        }
                    },
                    _ => InitAction::Idle,
                }
            },
        }
    }
}


/// The lifecycle phase reached by running a sequence of events.
pub open spec fn run_phases(p: LifecyclePhase, evs: Seq<EventKind>) -> LifecyclePhase
    decreases evs.len(),
{
    if evs.len() == 0 {
        p
    } else {
        run_phases(spec_step(p, evs[0]).0, evs.drop_first())
    }
}

/// How many provisioning requests a sequence of events causes.
pub open spec fn provision_count(p: LifecyclePhase, evs: Seq<EventKind>) -> nat
    decreases evs.len(),
{
    if evs.len() == 0 {
        0
    } else {
        (if spec_step(p, evs[0]).1 is Provision {
            1nat
        } else {
            0nat
        }) + provision_count(spec_step(p, evs[0]).0, evs.drop_first())
    }
}

/// How many failures a sequence of events surfaces.
pub open spec fn fail_count(p: LifecyclePhase, evs: Seq<EventKind>) -> nat
    decreases evs.len(),
{
    if evs.len() == 0 {
        0
    } else {
        (if spec_step(p, evs[0]).1 is Fail {
            1nat
        } else {
            0nat
        }) + fail_count(spec_step(p, evs[0]).0, evs.drop_first())
    }
}

/// How many provisioning requests a run may still make before it next
/// fails: none once provisioning was requested or the handle is cached.
pub open spec fn provision_credit(p: LifecyclePhase) -> nat {
    match p {
        LifecyclePhase::Provisioning => 0,
        LifecyclePhase::Ready => 0,
        _ => 1,
    }
}

/// Once the handle is cached the lifecycle never moves again: every later
/// event leaves it ready, and no provisioning and no failure ever follows.
/// In particular, every caller after a successful initialization is served
/// from the cache.
pub proof fn lemma_ready_is_stable(evs: Seq<EventKind>)
    ensures
        run_phases(LifecyclePhase::Ready, evs) is Ready,
        provision_count(LifecyclePhase::Ready, evs) == 0,
        fail_count(LifecyclePhase::Ready, evs) == 0,
    decreases evs.len(),
{
    if evs.len() > 0 {
        lemma_ready_is_stable(evs.drop_first());
    }
}

/// Along any run, the provisioning requests never outnumber the surfaced
/// failures by more than the credit of the starting phase: each successful
/// pass provisions at most once.
pub proof fn lemma_provision_bounded(p: LifecyclePhase, evs: Seq<EventKind>)
    ensures
        provision_count(p, evs) <= provision_credit(p) + fail_count(p, evs),
    decreases evs.len(),
{
    if evs.len() > 0 {
        lemma_provision_bounded(spec_step(p, evs[0]).0, evs.drop_first());
    }
}

/// A cold start that surfaces no failure provisions the schema at most
/// once, however many callers drive it and whatever the events are.
pub proof fn lemma_provision_at_most_once(evs: Seq<EventKind>)
    requires
        fail_count(LifecyclePhase::Start, evs) == 0,
    ensures
        provision_count(LifecyclePhase::Start, evs) <= 1,
{
    lemma_provision_bounded(LifecyclePhase::Start, evs);
}

/// A run that reaches the ready phase from any earlier phase in which no
/// provisioning is underway must request provisioning at least once.
pub proof fn lemma_reaching_ready_provisions(p: LifecyclePhase, evs: Seq<EventKind>)
    requires
        !(p is Ready),
        !(p is Provisioning),
        run_phases(p, evs) is Ready,
    ensures
        provision_count(p, evs) >= 1,
    decreases evs.len(),
{
    let (p1, a) = spec_step(p, evs[0]);
    if !(a is Provision) {
        assert(!(p1 is Ready) && !(p1 is Provisioning));
        lemma_reaching_ready_provisions(p1, evs.drop_first());
    }
}

/// A cold start that ends with the handle cached and surfaced no failure
/// provisions the schema exactly once, regardless of how many callers
/// requested the handle along the way.
pub proof fn lemma_success_provisions_exactly_once(evs: Seq<EventKind>)
    requires
        run_phases(LifecyclePhase::Start, evs) is Ready,
        fail_count(LifecyclePhase::Start, evs) == 0,
    ensures
        provision_count(LifecyclePhase::Start, evs) == 1,
{
    lemma_provision_bounded(LifecyclePhase::Start, evs);
    lemma_reaching_ready_provisions(LifecyclePhase::Start, evs);
}

} // verus!
