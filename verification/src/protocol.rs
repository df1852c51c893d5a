//! Whole sessions of the manager: sequences of acquisitions and releases, how
//! often they make the embedding program call into the operating system, and
//! what holds of them however the releases are ordered.
//!
//! The manager is used under one lock, so what concurrent tunnel sessions do
//! to it is some sequence of steps; a statement about every sequence is a
//! statement about every interleaving.

use vstd::prelude::*;
use crate::backend::{enable_outcome, NativeReply};
use crate::error::InhibitError;
use crate::handle::HandleModel;
use crate::manager::{ManagerModel, ReleaseOutcome};

verus! {

/// One use of the manager.
pub enum Step {
    /// An acquisition, with the reply to the enable call where one was made.
    Acquire(Option<NativeReply>),
    /// The release of the handle that the session got as its `n`-th, counted
    /// from zero. Where the session has fewer handles the step does nothing.
    Release(nat),
}

/// A manager in the middle of a session, the handles granted in it, and the
/// native calls made so far.
pub struct Session {
    pub manager: ManagerModel,
    /// The handles granted in this session, in the order of their grant, each
    /// as its holder has it now.
    pub handles: Seq<HandleModel>,
    /// How often the native enable call was made.
    pub enables: nat,
    /// How often the backend was disengaged.
    pub disables: nat,
}

impl Session {
    /// A session that starts at `manager` with no handle and no call made.
    pub open spec fn begin(manager: ManagerModel) -> Session {
        Session { manager, handles: Seq::empty(), enables: 0, disables: 0 }
    }

    /// The session after one more step. The enable call is made where the
    /// manager asks for it and the step brings its reply; the backend is
    /// disengaged where the release says so.
    pub open spec fn step(self, step: Step) -> Session {
        match step {
            Step::Acquire(reply) => {
                let (manager, result) = self.manager.acquire(reply);
                Session {
                    manager,
                    handles: match result {
                        Ok(handle) => self.handles.push(handle),
                        Err(_) => self.handles,
                    },
                    enables: if self.manager.enable_request().is_some() && reply.is_some() {
                        self.enables + 1
                    } else {
                        self.enables
                    },
                    disables: self.disables,
                }
            },
            Step::Release(n) => if n < self.handles.len() {
                let (manager, handle, outcome) = self.manager.release(self.handles[n as int]);
                Session {
                    manager,
                    handles: self.handles.update(n as int, handle),
                    enables: self.enables,
                    disables: if outcome is Disengaged {
                        self.disables + 1
                    } else {
                        self.disables
                    },
                }
            } else {
                self
            },
        }
    }

    /// The session after `steps`, taken in order.
    pub open spec fn after(self, steps: Seq<Step>) -> Session
        decreases steps.len(),
    {
        if steps.len() == 0 {
            self
        } else {
            self.after(steps.drop_last()).step(steps.last())
        }
    }
}

/// One acquisition for each of `replies`, in order.
pub open spec fn acquisitions(replies: Seq<Option<NativeReply>>) -> Seq<Step> {
    Seq::new(replies.len(), |i: int| Step::Acquire(replies[i]))
}

/// One release for each entry of `order`, in order.
pub open spec fn releases(order: Seq<nat>) -> Seq<Step> {
    Seq::new(order.len(), |i: int| Step::Release(order[i]))
}

/// Whether `order` names each of the first `n` handles exactly once.
pub open spec fn each_once(order: Seq<nat>, n: nat) -> bool {
    &&& order.len() == n
    &&& order.no_duplicates()
    &&& forall|i: int| 0 <= i < order.len() ==> #[trigger] order[i] < n
}

/// Whether the first of `replies` is a reply that engages the backend of
/// `manager`.
pub open spec fn first_engages(manager: ManagerModel, replies: Seq<Option<NativeReply>>) -> bool {
    &&& replies.len() >= 1
    &&& replies[0] matches Some(r)
    &&& enable_outcome(manager.backend.platform, r) is Ok
}

/// Steps taken one after the other are the steps of the joined sequence.
pub proof fn lemma_after_concat(session: Session, first: Seq<Step>, then_steps: Seq<Step>)
    ensures
        session.after(first + then_steps) == session.after(first).after(then_steps),
    decreases then_steps.len(),
{
    if then_steps.len() == 0 {
        assert(first + then_steps =~= first);
    } else {
        lemma_after_concat(session, first, then_steps.drop_last());
        assert((first + then_steps).drop_last() =~= first + then_steps.drop_last());
        assert((first + then_steps).last() == then_steps.last());
    }
}

/// No step breaks the manager's invariant or changes its platform.
pub proof fn lemma_step_keeps_well_formed(session: Session, step: Step)
    requires
        session.manager.well_formed(),
    ensures
        session.step(step).manager.well_formed(),
        session.step(step).manager.backend.platform == session.manager.backend.platform,
{
}

/// Whatever the sessions do and in whatever order, the backend is engaged
/// exactly while a handle is outstanding.
pub proof fn session_stays_well_formed(start: ManagerModel, steps: Seq<Step>)
    requires
        start.well_formed(),
    ensures
        Session::begin(start).after(steps).manager.well_formed(),
        Session::begin(start).after(steps).manager.backend.engaged() <==> Session::begin(
            start,
        ).after(steps).manager.active > 0,
        Session::begin(start).after(steps).manager.backend.platform == start.backend.platform,
    decreases steps.len(),
{
    if steps.len() > 0 {
        session_stays_well_formed(start, steps.drop_last());
        lemma_step_keeps_well_formed(
            Session::begin(start).after(steps.drop_last()),
            steps.last(),
        );
    }
}

/// After `n` acquisitions on an idle manager, the first of which engages the
/// backend, `n` handles are outstanding, each with a number of its own, and
/// the enable call was made once.
pub proof fn acquisitions_count(start: ManagerModel, replies: Seq<Option<NativeReply>>)
    requires
        start.well_formed(),
        start.active == 0,
        first_engages(start, replies),
    ensures
        ({
            let session = Session::begin(start).after(acquisitions(replies));
            &&& session.manager.well_formed()
            &&& session.manager.active == replies.len()
            &&& session.manager.issued == start.issued + replies.len()
            &&& session.manager.backend.platform == start.backend.platform
            &&& session.handles.len() == replies.len()
            &&& forall|i: int|
                0 <= i < replies.len() ==> #[trigger] session.handles[i] == (HandleModel {
                    id: (start.issued + i) as nat,
                    consumed: false,
                })
            &&& session.enables == 1
            &&& session.disables == 0
        }),
    decreases replies.len(),
{
    let steps = acquisitions(replies);
    assert(steps.last() == Step::Acquire(replies.last()));
    if replies.len() == 1 {
        assert(steps.drop_last().len() == 0);
        assert(Session::begin(start).after(steps.drop_last()) == Session::begin(start));
    } else {
        let earlier = replies.drop_last();
        assert(steps.drop_last() =~= acquisitions(earlier));
        acquisitions_count(start, earlier);
    }
}

/// What holds while the handles of a session are released one by one, each
/// once: after `done` releases that many holders have left, the released
/// handles are spent, and the backend was disengaged by the last release and
/// by no other.
proof fn lemma_release_phase(session: Session, order: Seq<nat>, done: nat)
    requires
        session.manager.well_formed(),
        session.manager.active == session.handles.len(),
        forall|i: int| 0 <= i < session.handles.len() ==> !(#[trigger] session.handles[i]).consumed,
        each_once(order, session.handles.len()),
        done <= order.len(),
    ensures
        ({
            let later = session.after(releases(order).take(done as int));
            &&& later.manager.well_formed()
            &&& later.manager.active == session.handles.len() - done
            &&& later.manager.issued == session.manager.issued
            &&& later.manager.backend.platform == session.manager.backend.platform
            &&& later.handles.len() == session.handles.len()
            &&& forall|i: int|
                0 <= i < session.handles.len() ==> ((#[trigger] later.handles[i]).consumed
                    <==> order.take(done as int).contains(i as nat))
            &&& later.enables == session.enables
            &&& later.disables == session.disables + if done > 0 && done == order.len() {
                1nat
            } else {
                0nat
            }
        }),
    decreases done,
{
    let steps = releases(order).take(done as int);
    if done == 0 {
        assert(steps.len() == 0);
        assert(order.take(0).len() == 0);
    } else {
        let before: nat = (done - 1) as nat;
        lemma_release_phase(session, order, before);
        let earlier = session.after(releases(order).take(before as int));
        assert(steps.drop_last() =~= releases(order).take(before as int));
        assert(steps.last() == Step::Release(order[before as int]));
        let later = earlier.step(Step::Release(order[before as int]));
        assert(session.after(steps) == later);
        let which = order[before as int];
        assert(which < session.handles.len());
        assert(!order.take(before as int).contains(which)) by {
            if order.take(before as int).contains(which) {
                let k = choose|k: int|
                    0 <= k < order.take(before as int).len() && order.take(before as int)[k]
                        == which;
                assert(order[k] == order[before as int]);
            }
        }
        assert(!earlier.handles[which as int].consumed);
        assert(order.take(done as int) =~= order.take(before as int).push(which));
        assert forall|i: int| 0 <= i < session.handles.len() implies ((
        #[trigger] later.handles[i]).consumed <==> order.take(done as int).contains(i as nat)) by {
            if i == which {
                assert(order.take(done as int)[before as int] == which);
            } else {
                assert(later.handles[i] == earlier.handles[i]);
                if order.take(before as int).contains(i as nat) {
                    let k = choose|k: int|
                        0 <= k < order.take(before as int).len() && order.take(before as int)[k]
                            == i as nat;
                    assert(order.take(done as int)[k] == i as nat);
                }
                if order.take(done as int).contains(i as nat) {
                    let k = choose|k: int|
                        0 <= k < order.take(done as int).len() && order.take(done as int)[k]
                            == i as nat;
                    assert(k != before);
                    assert(order.take(before as int)[k] == i as nat);
                }
            }
        }
    }
}

/// However many sessions acquire and in whatever order they release, the
/// enable call is made once and the backend is disengaged once: `n`
/// acquisitions on an idle manager, the first of which engages the backend,
/// followed by the release of each of the `n` handles, in any order, end with
/// nothing outstanding and the backend idle.
pub proof fn engaged_and_disengaged_once(
    start: ManagerModel,
    replies: Seq<Option<NativeReply>>,
    order: Seq<nat>,
)
    requires
        start.well_formed(),
        start.active == 0,
        first_engages(start, replies),
        each_once(order, replies.len()),
    ensures
        ({
            let end = Session::begin(start).after(acquisitions(replies) + releases(order));
            &&& end.enables == 1
            &&& end.disables == 1
            &&& end.manager.active == 0
            &&& !end.manager.backend.engaged()
            &&& end.manager.well_formed()
            &&& forall|i: int| 0 <= i < end.handles.len() ==> (#[trigger] end.handles[i]).consumed
        }),
{
    acquisitions_count(start, replies);
    let held = Session::begin(start).after(acquisitions(replies));
    lemma_release_phase(held, order, order.len());
    assert(releases(order).take(order.len() as int) =~= releases(order));
    lemma_after_concat(Session::begin(start), acquisitions(replies), releases(order));
    let end = held.after(releases(order));
    assert(order.take(order.len() as int) =~= order);
    assert forall|i: int| 0 <= i < end.handles.len() implies (#[trigger] end.handles[i]).consumed by {
        lemma_names_all(order, i as nat);
    }
}

/// Releasing a handle a second time changes neither the manager nor the
/// handle, and disengages nothing.
pub proof fn second_release_is_void(manager: ManagerModel, handle: HandleModel)
    ensures
        ({
            let (once, spent, _) = manager.release(handle);
            once.release(spent) == (once, spent, ReleaseOutcome::AlreadyReleased)
        }),
{
}

/// An acquisition on an idle manager whose enable call was not made or did
/// not succeed is refused as `BackendUnavailable` and leaves the manager as
/// it was, with nothing outstanding.
pub proof fn failed_enable_changes_nothing(manager: ManagerModel, reply: Option<NativeReply>)
    requires
        manager.active == 0,
        reply matches Some(r) ==> enable_outcome(manager.backend.platform, r) is Err,
    ensures
        manager.acquire(reply) == (
            manager,
            Err::<HandleModel, InhibitError>(InhibitError::BackendUnavailable),
        ),
{
}

/// The backend is touched on the way from no holder to one and from one to
/// none, and nowhere else: every other acquisition and release only counts.
pub proof fn only_edges_touch_backend(
    manager: ManagerModel,
    reply: Option<NativeReply>,
    handle: HandleModel,
)
    requires
        manager.well_formed(),
    ensures
        manager.active > 0 ==> manager.enable_request().is_none() && manager.acquire(
            reply,
        ).0.backend == manager.backend && manager.acquire(reply).0.active == manager.active + 1,
        manager.active != 1 ==> manager.release(handle).0.backend == manager.backend
            && !(manager.release(handle).2 is Disengaged),
        manager.active == 1 && !handle.consumed ==> manager.release(handle).2 is Disengaged
            && !manager.release(handle).0.backend.engaged(),
{
}

/// The numbers below `n`.
spec fn below(n: nat) -> Set<nat> {
    Set::new(|v: nat| v < n)
}

/// There are `n` numbers below `n`.
proof fn lemma_below_len(n: nat)
    ensures
        below(n).finite(),
        below(n).len() == n,
    decreases n,
{
    if n == 0 {
        assert(below(0) =~= Set::empty());
    } else {
        let m: nat = (n - 1) as nat;
        lemma_below_len(m);
        assert(below(n) =~= below(m).insert(m));
    }
}

/// A sequence that names each of the first `n` numbers once names `which`.
proof fn lemma_names_all(order: Seq<nat>, which: nat)
    requires
        each_once(order, order.len()),
        which < order.len(),
    ensures
        order.contains(which),
{
    let named = order.to_set();
    assert(named.subset_of(below(order.len()))) by {
        assert forall|v: nat| named.contains(v) implies below(order.len()).contains(v) by {
            let k = choose|k: int| 0 <= k < order.len() && order[k] == v;
            assert(order[k] < order.len());
        }
    }
    lemma_below_len(order.len());
    order.unique_seq_to_set();
    vstd::set_lib::lemma_subset_equality(named, below(order.len()));
    assert(below(order.len()).contains(which));
    assert(named.contains(which));
}

} // verus!
