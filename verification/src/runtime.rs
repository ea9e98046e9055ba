//! Lifecycle bookkeeping of the Pylon runtime.
//!
//! The runtime is initialized on the first acquisition of a lease and
//! terminated when the last lease is released, or by an explicit shutdown
//! while no lease is held. `RuntimeState` records the number of live leases
//! and whether the runtime is initialized; each operation returns what the
//! caller must do to the SDK (initialize it, terminate it, or nothing).

use vstd::prelude::*;
use vstd::string::StringExecFns;
use crate::error::{PylonError, PylonResult};

verus! {

/// Pylon version information.
#[derive(Debug)]
pub struct PylonVersion {
    /// Major version number.
    pub major: u32,
    /// Minor version number.
    pub minor: u32,
    /// Patch-level version number.
    pub subminor: u32,
    /// Build number.
    pub build: u32,
}

/// What the runtime bookkeeping holds: the number of live leases and whether
/// the SDK is initialized.
pub struct RuntimeView {
    pub leases: nat,
    pub initialized: bool,
}

impl RuntimeView {
    /// The runtime is initialized exactly while a lease is held.
    pub open spec fn wf(self) -> bool {
        self.initialized <==> self.leases > 0
    }

    /// The state after a lease is acquired (initializing first when needed).
    pub open spec fn acquired(self) -> RuntimeView {
        RuntimeView { leases: self.leases + 1, initialized: true }
    }

    /// The state after a lease is released. Releasing with no lease held
    /// changes nothing; releasing the last lease terminates the runtime.
    pub open spec fn released(self) -> RuntimeView {
        if self.leases == 0 {
            self
        } else if self.leases == 1 {
            RuntimeView { leases: 0, initialized: false }
        } else {
            RuntimeView { leases: (self.leases - 1) as nat, initialized: self.initialized }
        }
    }

    /// Whether releasing a lease in this state terminates the runtime.
    pub open spec fn release_terminates(self) -> bool {
        self.leases == 1 && self.initialized
    }

    /// The state after `n` leases are acquired one after the other.
    pub open spec fn acquired_n(self, n: nat) -> RuntimeView
        decreases n,
    {
        if n == 0 {
            self
        } else {
            self.acquired_n((n - 1) as nat).acquired()
        }
    }

    /// The state after `n` leases are released one after the other.
    pub open spec fn released_n(self, n: nat) -> RuntimeView
        decreases n,
    {
        if n == 0 {
            self
        } else {
            self.released_n((n - 1) as nat).released()
        }
    }
}

/// The runtime bookkeeping shared by every handle of the process.
pub struct RuntimeState {
    leases: usize,
    initialized: bool,
}

impl View for RuntimeState {
    type V = RuntimeView;

    closed spec fn view(&self) -> RuntimeView {
        RuntimeView { leases: self.leases as nat, initialized: self.initialized }
    }
}

/// What the caller must do to the SDK after acquiring a lease.
#[derive(Clone, Copy, Debug, PartialEq, Eq, Structural)]
pub enum RuntimeStart {
    /// The SDK was not initialized: initialize it now.
    Initialize,
    /// The SDK is already initialized: nothing to do.
    AlreadyInitialized,
}

/// A counted hold on the runtime. An active lease is counted once in the
/// runtime state until it is released.
pub struct RuntimeLease {
    active: bool,
}

impl View for RuntimeLease {
    type V = bool;

    closed spec fn view(&self) -> bool {
        self.active
    }
}

/// Keeps the Pylon runtime alive for explicit lifecycle management.
pub struct RuntimeGuard {
    lease: RuntimeLease,
}

impl View for RuntimeGuard {
    type V = bool;

    closed spec fn view(&self) -> bool {
        self.lease@
    }
}

/// The message of the error returned by a shutdown while leases are held.
pub open spec fn leases_alive_message() -> Seq<char> {
    "Cannot shutdown runtime while handles are alive"@
}

impl RuntimeState {
    /// The runtime is initialized exactly while a lease is held.
    #[verifier::type_invariant]
    spec fn well_formed(self) -> bool {
        self.initialized <==> self.leases > 0
    }

    /// The state of a process that has not touched the runtime.
    pub fn new() -> (r: RuntimeState)
        ensures
            r@ == (RuntimeView { leases: 0, initialized: false }),
    {
        RuntimeState { leases: 0, initialized: false }
    }

    /// The number of live leases.
    pub fn leases(&self) -> (r: usize)
        ensures
            r == self@.leases,
            self@.wf(),
    {
        proof { use_type_invariant(self); }
        self.leases
    }

    /// Whether the SDK is initialized.
    pub fn is_initialized(&self) -> (r: bool)
        ensures
            r == self@.initialized,
            self@.wf(),
    {
        proof { use_type_invariant(self); }
        self.initialized
    }

    /// Acquires a lease. When the runtime is not initialized, `shim` is the
    /// outcome of loading the shim: a failure is returned unchanged and the
    /// state is left as it was; on success the caller is told to initialize
    /// the SDK. When the runtime is initialized, `shim` is not consulted.
    pub fn acquire(&mut self, shim: PylonResult<()>) -> (r: PylonResult<(RuntimeLease, RuntimeStart)>)
        requires
            old(self)@.leases < usize::MAX,
        ensures
            old(self)@.initialized ==> (r matches Ok((lease, start)) && lease@
                && start == RuntimeStart::AlreadyInitialized),
            !old(self)@.initialized ==> (shim matches Err(e) ==> r == Err::<(RuntimeLease, RuntimeStart), PylonError>(e)),
            !old(self)@.initialized ==> (shim is Ok ==> (r matches Ok((lease, start)) && lease@
                && start == RuntimeStart::Initialize)),
            r is Ok ==> final(self)@ == old(self)@.acquired(),
            r is Err ==> final(self)@ == old(self)@,
            old(self)@.wf(),
            final(self)@.wf(),
    {
        proof { use_type_invariant(&*self); }
        let start = if !self.initialized {
            match shim {
                Err(e) => { return Err(e); },
                Ok(()) => {},
            }
            RuntimeStart::Initialize
        } else {
            RuntimeStart::AlreadyInitialized
        };
        *self = RuntimeState { leases: self.leases + 1, initialized: true };
        Ok((RuntimeLease { active: true }, start))
    }

    /// Releases one lease and says whether the SDK must be terminated now:
    /// exactly when the last lease of an initialized runtime goes. With no
    /// lease held nothing changes.
    pub(crate) fn release(&mut self) -> (terminate: bool)
        ensures
            final(self)@ == old(self)@.released(),
            terminate == old(self)@.release_terminates(),
            old(self)@.wf(),
            final(self)@.wf(),
    {
        proof { use_type_invariant(&*self); }
        if self.leases == 0 {
            return false;
        }
        let leases = self.leases - 1;
        let terminate = leases == 0 && self.initialized;
        *self = RuntimeState { leases, initialized: leases > 0 };
        terminate
    }
}

impl RuntimeLease {
    /// Whether this lease is still counted in the runtime state.
    pub fn is_active(&self) -> (r: bool)
        ensures
            r == self@,
    {
        self.active
    }

    /// A copy of this lease: an active lease is counted once more, an
    /// inactive one yields another inactive lease and changes nothing. An
    /// active lease is always counted in `state`, so `state` holds a lease.
    pub fn duplicate(&self, state: &mut RuntimeState) -> (r: RuntimeLease)
        requires
            self@ ==> 0 < old(state)@.leases < usize::MAX,
        ensures
            r@ == self@,
            self@ ==> final(state)@ == (RuntimeView { leases: old(state)@.leases + 1, initialized: old(state)@.initialized }),
            !self@ ==> final(state)@ == old(state)@,
            old(state)@.wf(),
            final(state)@.wf(),
    {
        proof { use_type_invariant(&*state); }
        if self.active {
            state.leases = state.leases + 1;
        }
        RuntimeLease { active: self.active }
    }

    /// Gives the lease up: an active lease becomes inactive and releases its
    /// count (the result says whether the SDK must be terminated now); an
    /// inactive lease changes nothing.
    pub fn release(&mut self, state: &mut RuntimeState) -> (terminate: bool)
        ensures
            !final(self)@,
            old(self)@ ==> final(state)@ == old(state)@.released() && terminate == old(state)@.release_terminates(),
            !old(self)@ ==> final(state)@ == old(state)@ && !terminate,
            old(state)@.wf(),
            final(state)@.wf(),
    {
        proof { use_type_invariant(&*state); }
        if self.active {
            self.active = false;
            state.release()
        } else {
            false
        }
    }
}

impl RuntimeGuard {
    /// Acquires a lease held by a new guard; see `RuntimeState::acquire`.
    pub fn new(state: &mut RuntimeState, shim: PylonResult<()>) -> (r: PylonResult<(RuntimeGuard, RuntimeStart)>)
        requires
            old(state)@.leases < usize::MAX,
        ensures
            old(state)@.initialized ==> (r matches Ok((guard, start)) && guard@
                && start == RuntimeStart::AlreadyInitialized),
            !old(state)@.initialized ==> (shim matches Err(e) ==> r == Err::<(RuntimeGuard, RuntimeStart), PylonError>(e)),
            !old(state)@.initialized ==> (shim is Ok ==> (r matches Ok((guard, start)) && guard@
                && start == RuntimeStart::Initialize)),
            r is Ok ==> final(state)@ == old(state)@.acquired(),
            r is Err ==> final(state)@ == old(state)@,
            old(state)@.wf(),
            final(state)@.wf(),
    {
        match state.acquire(shim) {
            Ok((lease, start)) => Ok((RuntimeGuard { lease }, start)),
            Err(e) => Err(e),
        }
    }

    /// The lease that this guard holds.
    pub fn into_lease(self) -> (r: RuntimeLease)
        ensures
            r@ == self@,
    {
        self.lease
    }
}

/// Explicitly initializes the runtime: acquires a lease held by a guard.
pub fn init(state: &mut RuntimeState, shim: PylonResult<()>) -> (r: PylonResult<(RuntimeGuard, RuntimeStart)>)
    requires
        old(state)@.leases < usize::MAX,
    ensures
        old(state)@.initialized ==> (r matches Ok((guard, start)) && guard@
            && start == RuntimeStart::AlreadyInitialized),
        !old(state)@.initialized ==> (shim matches Err(e) ==> r == Err::<(RuntimeGuard, RuntimeStart), PylonError>(e)),
        !old(state)@.initialized ==> (shim is Ok ==> (r matches Ok((guard, start)) && guard@
            && start == RuntimeStart::Initialize)),
        r is Ok ==> final(state)@ == old(state)@.acquired(),
        r is Err ==> final(state)@ == old(state)@,
        old(state)@.wf(),
        final(state)@.wf(),
{
    RuntimeGuard::new(state, shim)
}

/// Explicitly terminates the runtime. While any lease is held this is
/// refused with an error and nothing changes; otherwise the runtime ends up
/// uninitialized and the result says whether the SDK must be terminated now
/// (exactly when it was initialized).
pub fn shutdown(state: &mut RuntimeState) -> (r: PylonResult<bool>)
    ensures
        r is Err <==> old(state)@.leases != 0,
        r is Err ==> final(state)@ == old(state)@ && (r matches Err(PylonError::Msg(m)) && m@
            == leases_alive_message()),
        r matches Ok(terminate) ==> terminate == old(state)@.initialized && final(state)@ == (
        RuntimeView { leases: 0, initialized: false }),
        old(state)@.wf(),
        final(state)@.wf(),
{
    proof { use_type_invariant(&*state); }
    if state.leases != 0 {
        let m = "Cannot shutdown runtime while handles are alive";
        proof { reveal_strlit("Cannot shutdown runtime while handles are alive"); }
        return Err(PylonError::Msg(String::from_str(m)));
    }
    if state.initialized {
        state.initialized = false;
        Ok(true)
    } else {
        Ok(false)
    }
}

/// Every operation keeps the bookkeeping well formed: the runtime is
/// initialized exactly while a lease is held.
pub proof fn lemma_operations_keep_wf(s: RuntimeView)
    requires
        s.wf(),
    ensures
        s.acquired().wf(),
        s.released().wf(),
        s.leases > 0 ==> (RuntimeView { leases: s.leases + 1, initialized: s.initialized }).wf(),
        (RuntimeView { leases: 0, initialized: false }).wf(),
{
}

/// The first lease initializes the runtime; later leases find it initialized.
pub proof fn lemma_first_lease_initializes(s: RuntimeView)
    requires
        s.wf(),
    ensures
        s.acquired().initialized,
        s.leases > 0 ==> s.initialized,
{
}

/// Releasing the last lease terminates the runtime and leaves it
/// uninitialized; releasing any other lease does not terminate it; releasing
/// with no lease held changes nothing.
pub proof fn lemma_last_release_terminates(s: RuntimeView)
    requires
        s.wf(),
    ensures
        s.leases == 1 ==> s.release_terminates() && s.released() == (RuntimeView { leases: 0, initialized: false }),
        s.leases != 1 ==> !s.release_terminates(),
        s.leases == 0 ==> s.released() == s,
{
}

/// Acquiring a lease and releasing it again gives back the state it started
/// from; the release terminates the runtime exactly when that lease was the
/// only one.
pub proof fn lemma_acquire_then_release(s: RuntimeView)
    requires
        s.wf(),
    ensures
        s.acquired().released() == s,
        s.acquired().release_terminates() <==> s.leases == 0,
{
}

/// Copying a held lease and releasing the copy gives back the state it
/// started from without terminating the runtime.
pub proof fn lemma_duplicate_then_release(s: RuntimeView)
    requires
        s.wf(),
        s.leases > 0,
    ensures
        (RuntimeView { leases: s.leases + 1, initialized: s.initialized }).released() == s,
        !(RuntimeView { leases: s.leases + 1, initialized: s.initialized }).release_terminates(),
{
}

proof fn lemma_acquired_n(s: RuntimeView, n: nat)
    ensures
        s.acquired_n(n) == (RuntimeView {
            leases: s.leases + n,
            initialized: if n > 0 { true } else { s.initialized },
        }),
    decreases n,
{
    if n > 0 {
        lemma_acquired_n(s, (n - 1) as nat);
    }
}

proof fn lemma_released_n(t: RuntimeView, k: nat)
    requires
        t.leases >= k,
    ensures
        t.released_n(k) == (if k == 0 {
            t
        } else if t.leases == k {
            RuntimeView { leases: 0, initialized: false }
        } else {
            RuntimeView { leases: (t.leases - k) as nat, initialized: t.initialized }
        }),
    decreases k,
{
    if k > 0 {
        lemma_released_n(t, (k - 1) as nat);
    }
}

/// After any number of acquisitions followed by as many releases, the
/// bookkeeping is back where it started: when no lease was held before, the
/// runtime has been terminated again (each handle keeps the runtime alive
/// only while it exists).
pub proof fn lemma_balanced_leases(s: RuntimeView, n: nat)
    requires
        s.wf(),
    ensures
        s.acquired_n(n).released_n(n) == s,
{
    lemma_acquired_n(s, n);
    lemma_released_n(s.acquired_n(n), n);
}

/// An operation on the runtime as seen from the handles: acquiring a lease
/// (which succeeds or fails to load the shim), copying a held lease,
/// releasing a held lease, or an explicit shutdown.
pub enum LeaseEvent {
    Acquire,
    AcquireFails,
    Duplicate,
    Release,
    Shutdown,
}

/// A call that the bookkeeping asks the caller to make to the SDK.
pub enum SdkCall {
    Initialize,
    Terminate,
}

/// The runtime bookkeeping together with the number of active leases that
/// exist in the process.
pub struct RuntimeSystem {
    pub state: RuntimeView,
    pub live: nat,
}

impl RuntimeSystem {
    /// The process before any handle exists.
    pub open spec fn start() -> RuntimeSystem {
        RuntimeSystem { state: RuntimeView { leases: 0, initialized: false }, live: 0 }
    }

    /// The effect of one event, as the contracts of `RuntimeState::acquire`,
    /// `RuntimeLease::duplicate`, `RuntimeLease::release` and `shutdown` state
    /// it. With no active lease there is none to copy or release, and copying
    /// or releasing an inactive lease changes nothing.
    pub open spec fn step(self, e: LeaseEvent) -> RuntimeSystem {
        match e {
            LeaseEvent::Acquire => RuntimeSystem { state: self.state.acquired(), live: self.live + 1 },
            LeaseEvent::AcquireFails => self,
            LeaseEvent::Duplicate => if self.live > 0 {
                RuntimeSystem {
                    state: RuntimeView { leases: self.state.leases + 1, initialized: self.state.initialized },
                    live: self.live + 1,
                }
            } else {
                self
            },
            LeaseEvent::Release => if self.live > 0 {
                RuntimeSystem { state: self.state.released(), live: (self.live - 1) as nat }
            } else {
                self
            },
            LeaseEvent::Shutdown => if self.state.leases == 0 {
                RuntimeSystem { state: RuntimeView { leases: 0, initialized: false }, live: self.live }
            } else {
                self
            },
        }
    }

    /// The SDK calls asked for by one event: `Initialize` when a lease is
    /// acquired on an uninitialized runtime, `Terminate` when the last lease
    /// of an initialized runtime is released or an accepted shutdown finds
    /// the runtime initialized.
    pub open spec fn calls(self, e: LeaseEvent) -> Seq<SdkCall> {
        match e {
            LeaseEvent::Acquire => if !self.state.initialized { seq![SdkCall::Initialize] } else { seq![] },
            LeaseEvent::Release => if self.live > 0 && self.state.release_terminates() {
                seq![SdkCall::Terminate]
            } else {
                seq![]
            },
            LeaseEvent::Shutdown => if self.state.leases == 0 && self.state.initialized {
                seq![SdkCall::Terminate]
            } else {
                seq![]
            },
            _ => seq![],
        }
    }

    /// The system after a sequence of events.
    pub open spec fn run(self, events: Seq<LeaseEvent>) -> RuntimeSystem
        decreases events.len(),
    {
        if events.len() == 0 {
            self
        } else {
            self.run(events.drop_last()).step(events.last())
        }
    }

    /// The SDK calls asked for by a sequence of events, in order.
    pub open spec fn run_calls(self, events: Seq<LeaseEvent>) -> Seq<SdkCall>
        decreases events.len(),
    {
        if events.len() == 0 {
            seq![]
        } else {
            self.run_calls(events.drop_last()) + self.run(events.drop_last()).calls(events.last())
        }
    }

    /// The lease count equals the number of active leases, and the runtime
    /// is initialized exactly while one exists.
    pub open spec fn consistent(self) -> bool {
        &&& self.state.leases == self.live
        &&& self.state.wf()
    }
}

/// Whether a sequence of SDK calls alternates `Initialize` and `Terminate`,
/// beginning with `Initialize`.
pub open spec fn alternating(calls: Seq<SdkCall>) -> bool {
    forall|i: int| 0 <= i < calls.len() ==> (#[trigger] calls[i] == if i % 2 == 0 {
        SdkCall::Initialize
    } else {
        SdkCall::Terminate
    })
}

/// From the start of the process, after any sequence of events: the lease
/// count equals the number of active leases, the runtime is initialized
/// exactly while a lease is held, and the SDK calls asked for strictly
/// alternate, beginning with `Initialize`; an odd number of them leaves the
/// runtime initialized.
pub proof fn lemma_runtime_history(events: Seq<LeaseEvent>)
    ensures
        RuntimeSystem::start().run(events).consistent(),
        alternating(RuntimeSystem::start().run_calls(events)),
        RuntimeSystem::start().run(events).state.initialized <==> RuntimeSystem::start().run_calls(
            events,
        ).len() % 2 == 1,
    decreases events.len(),
{
    if events.len() > 0 {
        let prefix = events.drop_last();
        lemma_runtime_history(prefix);
        let before = RuntimeSystem::start().run(prefix);
        let calls_before = RuntimeSystem::start().run_calls(prefix);
        let new_calls = before.calls(events.last());
        let all = calls_before + new_calls;
        assert(RuntimeSystem::start().run_calls(events) == all);
        assert(RuntimeSystem::start().run(events) == before.step(events.last()));
        if new_calls.len() == 1 {
            assert(all[calls_before.len() as int] == new_calls[0]);
        }
        assert forall|i: int| 0 <= i < all.len() implies (#[trigger] all[i] == if i % 2 == 0 {
            SdkCall::Initialize
        } else {
            SdkCall::Terminate
        }) by {
            if i < calls_before.len() {
                assert(all[i] == calls_before[i]);
            }
        }
    }
}

} // verus!
