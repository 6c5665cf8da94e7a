//! Database handles: opening, unique registration, configuration and
//! release of the engine's named-database identifiers.
//!
//! The engine's handle-open primitive must run inside a transaction, must
//! never be called concurrently, and must never produce two live handles for
//! one identifier. The decision logic that upholds this is verified here as
//! a small step machine: an unverified driver performs each engine call
//! (begin, handle-open, comparator installation, commit) and reports its
//! outcome back; the machine decides what happens next and keeps the
//! environment's registry exact. The exclusive borrow of the environment
//! that every step takes serialises the whole open against the engine, as
//! the registry mutex does in the driver.

use crate::environment::{Environment, EnvView};
use crate::error::Error;
use crate::keys::OrdKey;
use vstd::prelude::*;

verus! {

/// Describes the options used for creating or opening a database.
#[derive(Clone, Copy, Debug)]
pub struct DatabaseOptions {
    /// The engine flags to open the database with.
    pub flags: u32,
    /// Whether a custom key comparator is bound; set through `sort_keys_as`.
    pub key_cmp: bool,
    /// Whether a custom duplicate-value comparator is bound; set through
    /// `sort_values_as`.
    pub val_cmp: bool,
}

impl DatabaseOptions {
    /// Whether a custom key comparator is bound.
    pub open spec fn key_cmp_installed(&self) -> bool {
        self.key_cmp
    }

    /// Whether a custom duplicate-value comparator is bound.
    pub open spec fn val_cmp_installed(&self) -> bool {
        self.val_cmp
    }

    /// Options with the given engine flags, using natural key and value
    /// ordering.
    pub fn new(flags: u32) -> (o: DatabaseOptions)
        ensures
            o.flags == flags,
            !o.key_cmp_installed(),
            !o.val_cmp_installed(),
    {
        DatabaseOptions { flags, key_cmp: false, val_cmp: false }
    }

    /// Options with no flags set: shorthand for `new` on the empty flag set.
    pub fn defaults() -> (o: DatabaseOptions)
        ensures
            o.flags == 0,
            !o.key_cmp_installed(),
            !o.val_cmp_installed(),
    {
        DatabaseOptions::new(crate::db::empty())
    }

    /// Binds `keys::entry_cmp_as::<K>` as the key comparator: keys order as
    /// `K` values, and keys that fail to parse as `K` compare equal.
    ///
    /// The binding must be in place before any record is written to or read
    /// from a database opened with these options, in every process that ever
    /// opens that database; nothing at run time can detect a violation. The
    /// comparator is therefore a parameter of opening, never a mutation of
    /// an already-open handle.
    pub fn sort_keys_as<K: OrdKey>(&mut self)
        ensures
            final(self).flags == old(self).flags,
            final(self).key_cmp_installed(),
            final(self).val_cmp_installed() == old(self).val_cmp_installed(),
    {
        self.key_cmp = true;
    }

    /// Binds `keys::entry_cmp_as::<V>` as the duplicate-value comparator,
    /// under the same contract as `sort_keys_as`. Only meaningful together
    /// with the duplicate-sort flag; the pairing is not checked, matching
    /// the engine's own permissive behaviour.
    pub fn sort_values_as<V: OrdKey>(&mut self)
        ensures
            final(self).flags == old(self).flags,
            final(self).key_cmp_installed() == old(self).key_cmp_installed(),
            final(self).val_cmp_installed(),
    {
        self.val_cmp = true;
    }
}

/// A handle on one opened database: the identifier the engine assigned and
/// the identity of the environment it was opened against. A handle is
/// produced only by a completed open flow, is consumed by `delete`, and is
/// otherwise released through `close`; while it lives, its identifier stays
/// registered in its environment.
#[derive(Debug, PartialEq, Eq, Structural)]
pub struct Database {
    /// Identity of the environment this handle was opened against.
    pub env_id: u64,
    /// The identifier the engine assigned to this database.
    pub dbi: u32,
}

/// Where an open flow stands: which engine reply it waits for next.
#[derive(Clone, Copy, Debug, PartialEq, Eq, Structural)]
pub enum FlowState {
    /// Waiting for the implicit write transaction to begin.
    AwaitBegin,
    /// Waiting for the handle-open primitive to assign an identifier.
    AwaitDbi,
    /// Waiting for the key comparator installation on `dbi`.
    AwaitKeyCmp { dbi: u32 },
    /// Waiting for the duplicate-value comparator installation on `dbi`.
    AwaitValCmp { dbi: u32 },
    /// Waiting for the transaction to commit; `dbi` is registered.
    AwaitCommit { dbi: u32 },
    /// The flow ended, in a handle or in an error.
    Finished,
}

/// What the engine reported for the step the driver just performed.
#[derive(Clone, Copy, Debug, PartialEq, Eq, Structural)]
pub enum EngineEvent {
    /// The call succeeded.
    Done,
    /// The handle-open primitive succeeded and assigned this identifier.
    DoneDbi(u32),
    /// The call failed with this engine status.
    Failed(i32),
}

/// What the driver must do next with the engine.
#[derive(Debug, PartialEq, Eq, Structural)]
pub enum OpenAction {
    /// Call the handle-open primitive inside the transaction.
    OpenDbi,
    /// Install the key comparator on this identifier, inside the transaction.
    SetKeyCmp(u32),
    /// Install the duplicate-value comparator on this identifier.
    SetValCmp(u32),
    /// Commit the transaction.
    Commit,
    /// Abort the transaction, then report this error to the caller.
    AbortAndFail(Error),
    /// The transaction is already resolved; report this error to the caller.
    Fail(Error),
    /// The open completed: hand this handle to the caller.
    Finish(Database),
}

/// One in-flight open: the decision state between two engine calls. The
/// driver holds the environment's registry lock (here: the exclusive borrow)
/// for the whole life of the flow, because the engine's handle-open
/// primitive must be serialised.
#[derive(Debug, PartialEq, Eq, Structural)]
pub struct OpenFlow {
    /// Identity of the environment the open runs against.
    pub env_id: u64,
    /// Whether a key comparator is to be installed.
    pub want_key_cmp: bool,
    /// Whether a duplicate-value comparator is to be installed.
    pub want_val_cmp: bool,
    /// Which engine reply the flow waits for.
    pub state: FlowState,
}

/// The transition of an open flow on one engine reply: the next flow state,
/// the registry after the step, and the action the driver must take.
///
/// Reading it top to bottom gives the whole open algorithm: begin the
/// transaction; open the identifier; register it, refusing with `Reopened`
/// an identifier a live handle already owns (the registry untouched);
/// install the comparators that the options bound; commit; hand out the
/// handle. An engine failure before registration aborts and leaves the
/// registry as it was. An engine failure after registration — a comparator
/// installation or the commit — also aborts the open, but leaves the
/// identifier registered: no live handle was produced, and the slot is
/// surrendered rather than ever risking a double registration.
pub open spec fn step_spec(flow: OpenFlow, env: EnvView, ev: EngineEvent) -> (OpenFlow, EnvView, OpenAction) {
    match (flow.state, ev) {
        (FlowState::AwaitBegin, EngineEvent::Done) => (
            OpenFlow { state: FlowState::AwaitDbi, ..flow },
            env,
            OpenAction::OpenDbi,
        ),
        (FlowState::AwaitBegin, EngineEvent::Failed(c)) => (
            OpenFlow { state: FlowState::Finished, ..flow },
            env,
            OpenAction::Fail(Error::Engine(c)),
        ),
        (FlowState::AwaitDbi, EngineEvent::DoneDbi(d)) => {
            if env.is_open(d) {
                (
                    OpenFlow { state: FlowState::Finished, ..flow },
                    env,
                    OpenAction::AbortAndFail(Error::Reopened),
                )
            } else {
                let env2 = EnvView { env_id: env.env_id, dbis: env.dbis.push(d) };
                if flow.want_key_cmp {
                    (
                        OpenFlow { state: FlowState::AwaitKeyCmp { dbi: d }, ..flow },
                        env2,
                        OpenAction::SetKeyCmp(d),
                    )
                } else if flow.want_val_cmp {
                    (
                        OpenFlow { state: FlowState::AwaitValCmp { dbi: d }, ..flow },
                        env2,
                        OpenAction::SetValCmp(d),
                    )
                } else {
                    (
                        OpenFlow { state: FlowState::AwaitCommit { dbi: d }, ..flow },
                        env2,
                        OpenAction::Commit,
                    )
                }
            }
        },
        (FlowState::AwaitDbi, EngineEvent::Failed(c)) => (
            OpenFlow { state: FlowState::Finished, ..flow },
            env,
            OpenAction::AbortAndFail(Error::Engine(c)),
        ),
        (FlowState::AwaitKeyCmp { dbi }, EngineEvent::Done) => {
            if flow.want_val_cmp {
                (
                    OpenFlow { state: FlowState::AwaitValCmp { dbi }, ..flow },
                    env,
                    OpenAction::SetValCmp(dbi),
                )
            } else {
                (
                    OpenFlow { state: FlowState::AwaitCommit { dbi }, ..flow },
                    env,
                    OpenAction::Commit,
                )
            }
        },
        (FlowState::AwaitKeyCmp { .. }, EngineEvent::Failed(c)) => (
            OpenFlow { state: FlowState::Finished, ..flow },
            env,
            OpenAction::AbortAndFail(Error::Engine(c)),
        ),
        (FlowState::AwaitValCmp { dbi }, EngineEvent::Done) => (
            OpenFlow { state: FlowState::AwaitCommit { dbi }, ..flow },
            env,
            OpenAction::Commit,
        ),
        (FlowState::AwaitValCmp { .. }, EngineEvent::Failed(c)) => (
            OpenFlow { state: FlowState::Finished, ..flow },
            env,
            OpenAction::AbortAndFail(Error::Engine(c)),
        ),
        (FlowState::AwaitCommit { dbi }, EngineEvent::Done) => (
            OpenFlow { state: FlowState::Finished, ..flow },
            env,
            OpenAction::Finish(Database { env_id: flow.env_id, dbi }),
        ),
        (FlowState::AwaitCommit { .. }, EngineEvent::Failed(c)) => (
            OpenFlow { state: FlowState::Finished, ..flow },
            env,
            OpenAction::Fail(Error::Engine(c)),
        ),
        _ => arbitrary(),
    }
}

impl OpenFlow {
    /// Which engine replies the flow can take next: an identifier only from
    /// the handle-open primitive, plain success or a status elsewhere, and
    /// nothing once finished.
    pub open spec fn accepts(&self, ev: EngineEvent) -> bool {
        match self.state {
            FlowState::AwaitDbi => ev is DoneDbi || ev is Failed,
            FlowState::Finished => false,
            _ => ev is Done || ev is Failed,
        }
    }

    /// Feeds one engine reply into the flow and decides the driver's next
    /// action, exactly as `step_spec` says. The registry's invariant and the
    /// environment's identity survive every step.
    pub fn step(&mut self, env: &mut Environment, ev: EngineEvent) -> (act: OpenAction)
        requires
            old(self).env_id == old(env)@.env_id,
            old(env)@.wf(),
            old(self).accepts(ev),
        ensures
            (*final(self), final(env)@, act) == step_spec(*old(self), old(env)@, ev),
            final(env)@.env_id == old(env)@.env_id,
            final(env)@.wf(),
    {
        match (self.state, ev) {
            (FlowState::AwaitBegin, EngineEvent::Done) => {
                self.state = FlowState::AwaitDbi;
                OpenAction::OpenDbi
            },
            (FlowState::AwaitBegin, EngineEvent::Failed(c)) => {
                self.state = FlowState::Finished;
                OpenAction::Fail(Error::Engine(c))
            },
            (FlowState::AwaitDbi, EngineEvent::DoneDbi(d)) => {
                if env.contains_dbi(d) {
                    self.state = FlowState::Finished;
                    OpenAction::AbortAndFail(Error::Reopened)
                } else {
                    env.dbis.push(d);
                    proof {
                        let s = old(env)@.dbis;
                        let t = env@.dbis;
                        assert forall|i: int, j: int| 0 <= i < j < t.len() implies t[i] != t[j] by {
                            if j == s.len() {
                                assert(t[i] == s[i]);
                                if s[i] == d {
                                    assert(s.contains(d));
                                }
                            }
                        }
                    }
                    if self.want_key_cmp {
                        self.state = FlowState::AwaitKeyCmp { dbi: d };
                        OpenAction::SetKeyCmp(d)
                    } else if self.want_val_cmp {
                        self.state = FlowState::AwaitValCmp { dbi: d };
                        OpenAction::SetValCmp(d)
                    } else {
                        self.state = FlowState::AwaitCommit { dbi: d };
                        OpenAction::Commit
                    }
                }
            },
            (FlowState::AwaitDbi, EngineEvent::Failed(c)) => {
                self.state = FlowState::Finished;
                OpenAction::AbortAndFail(Error::Engine(c))
            },
            (FlowState::AwaitKeyCmp { dbi }, EngineEvent::Done) => {
                if self.want_val_cmp {
                    self.state = FlowState::AwaitValCmp { dbi };
                    OpenAction::SetValCmp(dbi)
                } else {
                    self.state = FlowState::AwaitCommit { dbi };
                    OpenAction::Commit
                }
            },
            (FlowState::AwaitKeyCmp { .. }, EngineEvent::Failed(c)) => {
                self.state = FlowState::Finished;
                OpenAction::AbortAndFail(Error::Engine(c))
            },
            (FlowState::AwaitValCmp { dbi }, EngineEvent::Done) => {
                self.state = FlowState::AwaitCommit { dbi };
                OpenAction::Commit
            },
            (FlowState::AwaitValCmp { .. }, EngineEvent::Failed(c)) => {
                self.state = FlowState::Finished;
                OpenAction::AbortAndFail(Error::Engine(c))
            },
            (FlowState::AwaitCommit { dbi }, EngineEvent::Done) => {
                self.state = FlowState::Finished;
                OpenAction::Finish(Database { env_id: self.env_id, dbi })
            },
            (FlowState::AwaitCommit { .. }, EngineEvent::Failed(c)) => {
                self.state = FlowState::Finished;
                OpenAction::Fail(Error::Engine(c))
            },
            _ => {
                proof {
                    assert(false);
                }
                OpenAction::Fail(Error::Mismatch)
            },
        }
    }
}

impl Database {
    /// Starts opening a database in the environment: the flow that decides
    /// every step of the open. The driver holds the environment exclusively
    /// for the flow's whole life, begins the implicit write transaction, and
    /// reports each engine outcome through `OpenFlow::step`; the flow ends
    /// in a `Database` handle or in an error, with the registry exact either
    /// way.
    ///
    /// Naming a database (rather than opening the unnamed default one) is
    /// the driver's affair: the engine must have reserved capacity for named
    /// databases, and the name goes verbatim into the handle-open primitive
    /// that the `OpenDbi` action stands for.
    pub fn open(env: &Environment, options: &DatabaseOptions) -> (flow: OpenFlow)
        ensures
            flow.env_id == env@.env_id,
            flow.want_key_cmp == options.key_cmp_installed(),
            flow.want_val_cmp == options.val_cmp_installed(),
            flow.state == FlowState::AwaitBegin,
    {
        OpenFlow {
            env_id: env.env_id,
            want_key_cmp: options.key_cmp,
            want_val_cmp: options.val_cmp,
            state: FlowState::AwaitBegin,
        }
    }

    /// Deletes this database, consuming the handle. The driver runs the
    /// engine's handle-delete primitive — one short transaction that drops
    /// the database's contents and invalidates the identifier — and hands
    /// its status in. On success the identifier leaves the registry and no
    /// close must follow: the engine released the slot already. On failure
    /// the handle comes back with the engine's error, the registry is
    /// untouched, and the handle's ordinary close still applies later.
    pub fn delete(self, env: &mut Environment, engine_status: Result<(), i32>) -> (r: Result<
        (),
        (Error, Database),
    >)
        requires
            self.env_id == old(env)@.env_id,
        ensures
            final(env)@.env_id == old(env)@.env_id,
            engine_status is Ok ==> r is Ok && final(env)@.dbis == old(env)@.dbis.remove_value(
                self.dbi,
            ),
            engine_status matches Err(c) ==> r matches Err((e, h)) && e == Error::Engine(c) && h
                == self && final(env)@ == old(env)@,
    {
        match engine_status {
            Ok(()) => {
                env.forget_dbi(self.dbi);
                Ok(())
            },
            Err(c) => Err((Error::Engine(c), self)),
        }
    }

    /// Releases the handle at the end of its life: its identifier leaves the
    /// registry and the slot becomes reusable. The driver closes the dbi
    /// against the engine — local bookkeeping with no failure path — after
    /// this bookkeeping has run; the release is single-shot, since the
    /// handle is consumed.
    pub fn close(self, env: &mut Environment)
        requires
            self.env_id == old(env)@.env_id,
        ensures
            final(env)@.env_id == old(env)@.env_id,
            final(env)@.dbis == old(env)@.dbis.remove_value(self.dbi),
    {
        env.forget_dbi(self.dbi);
    }

    /// Checks that `other_env` is the environment this handle was opened
    /// against, by identity. Collaborating operations call this before
    /// handing the handle to the engine, so that a handle never crosses into
    /// a foreign environment's unsafe calls.
    pub fn assert_same_env(&self, other_env: &Environment) -> (r: Result<(), Error>)
        ensures
            r is Ok <==> self.env_id == other_env@.env_id,
            r matches Err(e) ==> e == Error::Mismatch,
    {
        if self.env_id != other_env.env_id {
            Err(Error::Mismatch)
        } else {
            Ok(())
        }
    }

    /// The underlying integer identifier of this database.
    pub fn dbi(&self) -> (d: u32)
        ensures
            d == self.dbi,
    {
        self.dbi
    }
}

/// Runs a flow through a sequence of engine replies: the flow and registry
/// after the last step, and the last action decided.
pub open spec fn run_spec(flow: OpenFlow, env: EnvView, evs: Seq<EngineEvent>) -> (
    OpenFlow,
    EnvView,
    OpenAction,
)
    recommends
        evs.len() > 0,
    decreases evs.len(),
{
    let (f, e, a) = step_spec(flow, env, evs[0]);
    if evs.len() <= 1 {
        (f, e, a)
    } else {
        run_spec(f, e, evs.subrange(1, evs.len() as int))
    }
}

/// The engine replies of a fully successful open that assigns `d`: the
/// transaction begins, the handle-open primitive yields `d`, each bound
/// comparator installs, and the commit succeeds.
pub open spec fn success_events(flow: OpenFlow, d: u32) -> Seq<EngineEvent> {
    seq![EngineEvent::Done, EngineEvent::DoneDbi(d)] + (if flow.want_key_cmp {
        seq![EngineEvent::Done]
    } else {
        Seq::empty()
    }) + (if flow.want_val_cmp {
        seq![EngineEvent::Done]
    } else {
        Seq::empty()
    }) + seq![EngineEvent::Done]
}

/// Registering a fresh identifier keeps the registry exact: the identifier
/// becomes open, every other identifier keeps its status, and no identifier
/// is ever held twice.
pub proof fn lemma_register_keeps_wf(env: EnvView, d: u32)
    requires
        env.wf(),
        !env.is_open(d),
    ensures
        ({
            let after = EnvView { env_id: env.env_id, dbis: env.dbis.push(d) };
            &&& after.wf()
            &&& after.is_open(d)
            &&& forall|x: u32| x != d ==> after.is_open(x) == env.is_open(x)
        }),
{
    let s = env.dbis;
    let t = s.push(d);
    assert(t[s.len() as int] == d);
    assert forall|i: int, j: int| 0 <= i < j < t.len() implies t[i] != t[j] by {
        if j == s.len() {
            assert(t[i] == s[i]);
            if s[i] == d {
                assert(s.contains(d));
            }
        }
    }
    assert forall|x: u32| x != d implies
        (EnvView { env_id: env.env_id, dbis: t }).is_open(x) == env.is_open(x) by {
        if t.contains(x) {
            let k = choose|k: int| 0 <= k < t.len() && t[k] == x;
            assert(k < s.len());
            assert(s[k] == x);
        }
        if s.contains(x) {
            let k = choose|k: int| 0 <= k < s.len() && s[k] == x;
            assert(t[k] == x);
        }
    }
}

/// A fresh identifier opens. A flow at its start, run through a fully
/// successful engine exchange assigning an identifier that no live handle
/// owns, ends by handing out the handle for exactly that identifier; the
/// identifier is then registered, every other identifier keeps its status,
/// and the registry invariant survives.
pub proof fn lemma_open_success(flow: OpenFlow, env: EnvView, d: u32)
    requires
        env.wf(),
        !env.is_open(d),
        flow.state == FlowState::AwaitBegin,
        flow.env_id == env.env_id,
    ensures
        ({
            let (f2, e2, a2) = run_spec(flow, env, success_events(flow, d));
            &&& a2 == OpenAction::Finish(Database { env_id: env.env_id, dbi: d })
            &&& e2 == EnvView { env_id: env.env_id, dbis: env.dbis.push(d) }
            &&& e2.wf()
            &&& e2.is_open(d)
            &&& (forall|x: u32| x != d ==> e2.is_open(x) == env.is_open(x))
            &&& f2.state == FlowState::Finished
        }),
{
    reveal_with_fuel(run_spec, 8);
    lemma_register_keeps_wf(env, d);
    let evs = success_events(flow, d);
    let begin = EngineEvent::Done;
    let opened = EngineEvent::DoneDbi(d);
    let done = EngineEvent::Done;
    if flow.want_key_cmp && flow.want_val_cmp {
        assert(evs =~= seq![begin, opened, done, done, done]);
        let t1 = evs.subrange(1, 5);
        let t2 = t1.subrange(1, 4);
        let t3 = t2.subrange(1, 3);
        let t4 = t3.subrange(1, 2);
        assert(t1 =~= seq![opened, done, done, done]);
        assert(t2 =~= seq![done, done, done]);
        assert(t3 =~= seq![done, done]);
        assert(t4 =~= seq![done]);
    } else if flow.want_key_cmp {
        assert(evs =~= seq![begin, opened, done, done]);
        let t1 = evs.subrange(1, 4);
        let t2 = t1.subrange(1, 3);
        let t3 = t2.subrange(1, 2);
        assert(t1 =~= seq![opened, done, done]);
        assert(t2 =~= seq![done, done]);
        assert(t3 =~= seq![done]);
    } else if flow.want_val_cmp {
        assert(evs =~= seq![begin, opened, done, done]);
        let t1 = evs.subrange(1, 4);
        let t2 = t1.subrange(1, 3);
        let t3 = t2.subrange(1, 2);
        assert(t1 =~= seq![opened, done, done]);
        assert(t2 =~= seq![done, done]);
        assert(t3 =~= seq![done]);
    } else {
        assert(evs =~= seq![begin, opened, done]);
        let t1 = evs.subrange(1, 3);
        let t2 = t1.subrange(1, 2);
        assert(t1 =~= seq![opened, done]);
        assert(t2 =~= seq![done]);
    }
}

/// Opening an identifier that a live handle already owns is refused: at the
/// registration step the flow reports `Reopened`, has the transaction
/// aborted, and leaves the registry exactly as it was.
pub proof fn lemma_reopen_refused(flow: OpenFlow, env: EnvView, d: u32)
    requires
        env.is_open(d),
        flow.state == FlowState::AwaitDbi,
    ensures
        step_spec(flow, env, EngineEvent::DoneDbi(d)) == (
            OpenFlow { state: FlowState::Finished, ..flow },
            env,
            OpenAction::AbortAndFail(Error::Reopened),
        ),
{
}

/// Opening the same (environment, name) pair twice without closing the
/// first handle: the engine assigns the same name the same identifier, so
/// the first open succeeds, and the second attempt ends in `Reopened` at
/// its registration step, the registry unchanged by it.
pub proof fn lemma_open_twice_reopened(flow1: OpenFlow, flow2: OpenFlow, env: EnvView, d: u32)
    requires
        env.wf(),
        !env.is_open(d),
        flow1.state == FlowState::AwaitBegin,
        flow1.env_id == env.env_id,
        flow2.state == FlowState::AwaitBegin,
        flow2.env_id == env.env_id,
    ensures
        ({
            let (f1, e1, a1) = run_spec(flow1, env, success_events(flow1, d));
            let (f2, e2, a2) = run_spec(
                flow2,
                e1,
                seq![EngineEvent::Done, EngineEvent::DoneDbi(d)],
            );
            &&& a1 == OpenAction::Finish(Database { env_id: env.env_id, dbi: d })
            &&& a2 == OpenAction::AbortAndFail(Error::Reopened)
            &&& e2 == e1
        }),
{
    reveal_with_fuel(run_spec, 8);
    lemma_open_success(flow1, env, d);
    let (f1, e1, a1) = run_spec(flow1, env, success_events(flow1, d));
    let evs2 = seq![EngineEvent::Done, EngineEvent::DoneDbi(d)];
    let t1 = evs2.subrange(1, 2);
    assert(t1 =~= seq![EngineEvent::DoneDbi(d)]);
}

/// Opening two distinct names against the same environment: the engine
/// assigns distinct names distinct identifiers, so both opens succeed
/// independently and the two handles carry different identifiers.
pub proof fn lemma_open_distinct_names(
    flow1: OpenFlow,
    flow2: OpenFlow,
    env: EnvView,
    d1: u32,
    d2: u32,
)
    requires
        env.wf(),
        !env.is_open(d1),
        !env.is_open(d2),
        d1 != d2,
        flow1.state == FlowState::AwaitBegin,
        flow1.env_id == env.env_id,
        flow2.state == FlowState::AwaitBegin,
        flow2.env_id == env.env_id,
    ensures
        ({
            let (f1, e1, a1) = run_spec(flow1, env, success_events(flow1, d1));
            let (f2, e2, a2) = run_spec(flow2, e1, success_events(flow2, d2));
            &&& a1 == OpenAction::Finish(Database { env_id: env.env_id, dbi: d1 })
            &&& a2 == OpenAction::Finish(Database { env_id: env.env_id, dbi: d2 })
            &&& e2.wf()
            &&& e2.is_open(d1)
            &&& e2.is_open(d2)
        }),
{
    lemma_open_success(flow1, env, d1);
    let (f1, e1, a1) = run_spec(flow1, env, success_events(flow1, d1));
    lemma_open_success(flow2, e1, d2);
}

/// After a handle is released by its normal close, opening the same name
/// again succeeds: the registry that `close` leaves behind no longer owns
/// the identifier, so even an engine that hands the very same slot out
/// again is accepted.
pub proof fn lemma_reopen_after_close(flow: OpenFlow, env: EnvView, d: u32)
    requires
        env.wf(),
        flow.state == FlowState::AwaitBegin,
        flow.env_id == env.env_id,
    ensures
        ({
            let after = EnvView { env_id: env.env_id, dbis: env.dbis.remove_value(d) };
            let (f2, e2, a2) = run_spec(flow, after, success_events(flow, d));
            &&& !after.is_open(d)
            &&& a2 == OpenAction::Finish(Database { env_id: env.env_id, dbi: d })
            &&& e2.wf()
            &&& e2.is_open(d)
        }),
{
    crate::environment::lemma_remove_open(env, d);
    let after = EnvView { env_id: env.env_id, dbis: env.dbis.remove_value(d) };
    lemma_open_success(flow, after, d);
}

/// After `delete` succeeds on a handle, an open of the same name succeeds
/// and produces a fresh handle: a successful delete leaves the registry
/// without the handle's identifier, exactly as `close` does, and the engine
/// is free to assign the name a new slot — or the same one — either of
/// which the registry accepts. (That the recreated database starts empty is
/// the engine's dropping of its contents, outside this layer.)
pub proof fn lemma_reopen_after_delete(flow: OpenFlow, env: EnvView, d: u32)
    requires
        env.wf(),
        flow.state == FlowState::AwaitBegin,
        flow.env_id == env.env_id,
    ensures
        ({
            let after = EnvView { env_id: env.env_id, dbis: env.dbis.remove_value(d) };
            &&& !after.is_open(d)
            &&& forall|d2: u32|
                !after.is_open(d2) ==> {
                    let (f2, e2, a2) = run_spec(flow, after, success_events(flow, d2));
                    a2 == OpenAction::Finish(Database { env_id: env.env_id, dbi: d2 })
                }
        }),
{
    crate::environment::lemma_remove_open(env, d);
    let after = EnvView { env_id: env.env_id, dbis: env.dbis.remove_value(d) };
    assert forall|d2: u32| !after.is_open(d2) implies {
        let (f2, e2, a2) = run_spec(flow, after, success_events(flow, d2));
        a2 == OpenAction::Finish(Database { env_id: env.env_id, dbi: d2 })
    } by {
        lemma_open_success(flow, after, d2);
    }
}

/// The registry after a row of fully successful opens, each assigning the
/// next identifier of `ids`, run one after the other against the same
/// environment.
pub open spec fn opens_run(flow: OpenFlow, env: EnvView, ids: Seq<u32>) -> EnvView
    decreases ids.len(),
{
    if ids.len() == 0 {
        env
    } else {
        let (f, e, a) = run_spec(flow, env, success_events(flow, ids[0]));
        opens_run(flow, e, ids.subrange(1, ids.len() as int))
    }
}

/// Whether a row of opens, run one after the other, each end by handing out
/// the handle for their own identifier.
pub open spec fn opens_all_finish(flow: OpenFlow, env: EnvView, ids: Seq<u32>) -> bool
    decreases ids.len(),
{
    ids.len() == 0 || {
        let (f, e, a) = run_spec(flow, env, success_events(flow, ids[0]));
        &&& a == OpenAction::Finish(Database { env_id: env.env_id, dbi: ids[0] })
        &&& opens_all_finish(flow, e, ids.subrange(1, ids.len() as int))
    }
}

/// Any number of opens against one environment, with pairwise-distinct
/// identifiers that no live handle owns, all succeed when run one after the
/// other: each hands out its own identifier, afterwards every identifier is
/// registered, everything open before stays open, and the registry is never
/// corrupted. Opens can only run one after the other: each step of a flow
/// holds the environment by exclusive borrow, which serialises competing
/// opens just as the driver's registry lock serialises competing threads.
pub proof fn lemma_serialised_opens_all_succeed(flow: OpenFlow, env: EnvView, ids: Seq<u32>)
    requires
        env.wf(),
        flow.state == FlowState::AwaitBegin,
        flow.env_id == env.env_id,
        forall|i: int| 0 <= i < ids.len() ==> !env.is_open(ids[i]),
        forall|i: int, j: int| 0 <= i < j < ids.len() ==> ids[i] != ids[j],
    ensures
        opens_all_finish(flow, env, ids),
        opens_run(flow, env, ids).wf(),
        opens_run(flow, env, ids).env_id == env.env_id,
        forall|i: int| 0 <= i < ids.len() ==> opens_run(flow, env, ids).is_open(ids[i]),
        forall|x: u32| env.is_open(x) ==> opens_run(flow, env, ids).is_open(x),
    decreases ids.len(),
{
    if ids.len() > 0 {
        let d = ids[0];
        assert(!env.is_open(d));
        lemma_open_success(flow, env, d);
        let (f, e, a) = run_spec(flow, env, success_events(flow, d));
        let tail = ids.subrange(1, ids.len() as int);
        assert forall|i: int| 0 <= i < tail.len() implies !e.is_open(tail[i]) by {
            assert(tail[i] == ids[i + 1]);
            assert(ids[i + 1] != d);
        }
        lemma_serialised_opens_all_succeed(flow, e, tail);
        let fin = opens_run(flow, e, tail);
        assert(opens_run(flow, env, ids) == fin);
        assert(fin.is_open(d));
        assert forall|i: int| 0 <= i < ids.len() implies fin.is_open(ids[i]) by {
            if i > 0 {
                assert(tail[i - 1] == ids[i]);
            }
        }
        assert forall|x: u32| env.is_open(x) implies fin.is_open(x) by {
            if x != d {
                assert(e.is_open(x));
            }
        }
    }
}

} // verus!
