//! The global lifecycle manager.
//!
//! The native engine is a non-reentrant, process-global singleton: it is
//! set up at most once at a time, torn down exactly once when the last
//! session ends, and holds one active data directory for the whole
//! process. This module makes those transitions explicit. `EngineState`
//! is the state the owning lock protects; every acquire or release is a
//! single atomic transition of `(reference_count, active_data_directory)`
//! paired with the corresponding native call, whose outcome the caller
//! hands in.
//!
//! A spec-level model (`LifecycleModel`, `lifecycle_step`, `run`) mirrors
//! the executable state machine, and the proof functions at the end state
//! the two laws the manager lives by: the reference count never goes
//! negative, and teardown happens exactly once per maximal run of
//! acquisitions that returns the count to zero.

use vstd::prelude::*;

use crate::marshal::CBuffer;

verus! {

/// Failure of an acquisition.
#[derive(Debug, PartialEq, Eq)]
pub enum InitError {
    /// The native setup call reported failure; the manager's state is
    /// unchanged and the caller may retry.
    NativeSetupFailed,
}

/// A capability token: while it is alive, the engine is initialized.
///
/// A `Core` is created only by a successful acquisition, which
/// incremented the global reference count; it is never copied, only
/// moved or borrowed, and it is consumed — exactly once — by
/// `EngineState::release`.
pub struct Core {
    token: (),
}

/// The spec-level image of the manager's state.
pub struct LifecycleModel {
    /// How many sessions are alive. Modelled as `int` so that "never
    /// goes negative" is a statement, not a typing accident.
    pub reference_count: int,
    /// The data directory the most recent successful directory setup
    /// recorded, terminator excluded; `None` after a default setup or
    /// after teardown.
    pub active_data_directory: Option<Seq<u8>>,
}

/// One operation on the manager, with the native call's reported
/// outcome where the operation makes one.
pub enum LifecycleOp {
    AcquireDefault { succeeded: bool },
    AcquireWithDirectory { directory: Seq<u8>, succeeded: bool },
    Release,
}

/// The state of a process that has never set the engine up.
pub open spec fn lifecycle_init() -> LifecycleModel {
    LifecycleModel { reference_count: 0, active_data_directory: None }
}

/// When an operation may be attempted: releasing with no live session
/// is a programming error, excluded rather than handled.
pub open spec fn op_enabled(m: LifecycleModel, op: LifecycleOp) -> bool {
    match op {
        LifecycleOp::Release => m.reference_count > 0,
        _ => true,
    }
}

/// Whether this step performs the native teardown: only the release of
/// the last live session does.
pub open spec fn tears_down(m: LifecycleModel, op: LifecycleOp) -> bool {
    op is Release && m.reference_count == 1
}

/// The manager's transition relation, as a function: what one atomic
/// acquire or release does to the state.
pub open spec fn lifecycle_step(m: LifecycleModel, op: LifecycleOp) -> LifecycleModel {
    match op {
        LifecycleOp::AcquireDefault { succeeded } => if succeeded {
            LifecycleModel {
                reference_count: m.reference_count + 1,
                active_data_directory: None,
            }
        } else {
            m
        },
        LifecycleOp::AcquireWithDirectory { directory, succeeded } => if succeeded {
            LifecycleModel {
                reference_count: m.reference_count + 1,
                active_data_directory: Some(directory),
            }
        } else {
            m
        },
        LifecycleOp::Release => if m.reference_count == 1 {
            LifecycleModel { reference_count: 0, active_data_directory: None }
        } else {
            LifecycleModel {
                reference_count: m.reference_count - 1,
                active_data_directory: m.active_data_directory,
            }
        },
    }
}

/// The state after a whole sequence of operations.
pub open spec fn run(m: LifecycleModel, ops: Seq<LifecycleOp>) -> LifecycleModel
    decreases ops.len(),
{
    if ops.len() == 0 {
        m
    } else {
        run(lifecycle_step(m, ops[0]), ops.drop_first())
    }
}

/// Every operation of the sequence is enabled in the state it runs in.
pub open spec fn ops_enabled(m: LifecycleModel, ops: Seq<LifecycleOp>) -> bool
    decreases ops.len(),
{
    ops.len() == 0 || (op_enabled(m, ops[0]) && ops_enabled(
        lifecycle_step(m, ops[0]),
        ops.drop_first(),
    ))
}

/// How many native teardown calls a sequence of operations performs.
pub open spec fn teardown_count(m: LifecycleModel, ops: Seq<LifecycleOp>) -> nat
    decreases ops.len(),
{
    if ops.len() == 0 {
        0
    } else {
        (if tears_down(m, ops[0]) {
            1nat
        } else {
            0nat
        }) + teardown_count(lifecycle_step(m, ops[0]), ops.drop_first())
    }
}

/// How many times a sequence of operations returns the reference count
/// to zero: steps whose pre-state has live sessions and whose post-state
/// has none. Each such step ends one maximal run of acquisitions.
pub open spec fn zero_returns(m: LifecycleModel, ops: Seq<LifecycleOp>) -> nat
    decreases ops.len(),
{
    if ops.len() == 0 {
        0
    } else {
        (if m.reference_count > 0 && lifecycle_step(m, ops[0]).reference_count == 0 {
            1nat
        } else {
            0nat
        }) + zero_returns(lifecycle_step(m, ops[0]), ops.drop_first())
    }
}

/// The manager's invariant: the count is a true count, and a data
/// directory is recorded only while some session is alive.
pub open spec fn lifecycle_inv(m: LifecycleModel) -> bool {
    &&& m.reference_count >= 0
    &&& m.reference_count == 0 ==> m.active_data_directory is None
}

/// The invariant holds of the initial state and is preserved by every
/// enabled step.
pub proof fn lemma_step_preserves_inv(m: LifecycleModel, op: LifecycleOp)
    requires
        lifecycle_inv(m),
        op_enabled(m, op),
    ensures
        lifecycle_inv(lifecycle_step(m, op)),
{
}

/// Law: over every enabled sequence of acquire and release operations,
/// the reference count never goes negative — at the end and at every
/// intermediate state.
pub proof fn lemma_reference_count_never_negative(
    m: LifecycleModel,
    ops: Seq<LifecycleOp>,
    i: int,
)
    requires
        lifecycle_inv(m),
        ops_enabled(m, ops),
        0 <= i <= ops.len(),
    ensures
        run(m, ops.take(i)).reference_count >= 0,
        lifecycle_inv(run(m, ops.take(i))),
    decreases i,
{
    if i == 0 {
        assert(ops.take(0) =~= Seq::<LifecycleOp>::empty());
    } else {
        lemma_step_preserves_inv(m, ops[0]);
        assert(ops.take(i).drop_first() =~= ops.drop_first().take(i - 1));
        lemma_reference_count_never_negative(
            lifecycle_step(m, ops[0]),
            ops.drop_first(),
            i - 1,
        );
        assert(run(m, ops.take(i)) == run(
            lifecycle_step(m, ops.take(i)[0]),
            ops.take(i).drop_first(),
        ));
    }
}

/// Law: over every enabled sequence of operations, the native teardown
/// is invoked exactly once per maximal run of acquisitions that returns
/// the reference count to zero — no leaked engine, no double teardown.
pub proof fn lemma_teardown_once_per_cycle(m: LifecycleModel, ops: Seq<LifecycleOp>)
    requires
        lifecycle_inv(m),
        ops_enabled(m, ops),
    ensures
        teardown_count(m, ops) == zero_returns(m, ops),
    decreases ops.len(),
{
    if ops.len() > 0 {
        lemma_step_preserves_inv(m, ops[0]);
        lemma_teardown_once_per_cycle(lifecycle_step(m, ops[0]), ops.drop_first());
    }
}

/// The lock-protected state of the global lifecycle manager: how many
/// sessions are alive, and which data directory the engine was last
/// pointed at.
pub struct EngineState {
    pub reference_count: usize,
    pub active_data_directory: Option<CBuffer>,
}

impl EngineState {
    /// What this state looks like in the spec-level model.
    pub open spec fn abs(&self) -> LifecycleModel {
        LifecycleModel {
            reference_count: self.reference_count as int,
            active_data_directory: match self.active_data_directory {
                Some(c) => Some(c.content()),
                None => None,
            },
        }
    }

    /// Well-formedness: any recorded directory is a real C buffer, and
    /// none is recorded while no session is alive.
    pub open spec fn wf(&self) -> bool {
        &&& match self.active_data_directory {
            Some(c) => c.wf(),
            None => true,
        }
        &&& self.reference_count == 0 ==> self.active_data_directory is None
    }

    /// The state of a process that has never set the engine up.
    pub fn new() -> (r: EngineState)
        ensures
            r.wf(),
            r.abs() == lifecycle_init(),
    {
        EngineState { reference_count: 0, active_data_directory: None }
    }

    /// Complete one default acquisition, `native_ok` being what the
    /// native default setup call — made under the same hold of the lock
    /// — reported. On success the count rises by one, the recorded
    /// directory is cleared, and a capability token is issued; on
    /// failure the state is unchanged.
    pub fn acquire_default(&mut self, native_ok: bool) -> (r: Result<Core, InitError>)
        requires
            old(self).wf(),
            old(self).reference_count < usize::MAX,
        ensures
            final(self).wf(),
            r is Ok <==> native_ok,
            r is Err ==> r == Err::<Core, InitError>(InitError::NativeSetupFailed),
            final(self).abs() == lifecycle_step(
                old(self).abs(),
                LifecycleOp::AcquireDefault { succeeded: native_ok },
            ),
    {
        if native_ok {
            self.reference_count = self.reference_count + 1;
            self.active_data_directory = None;
            Ok(Core { token: () })
        } else {
            Err(InitError::NativeSetupFailed)
        }
    }

    /// Complete one acquisition with a data directory, `native_ok` being
    /// what the native directory setup call — handed exactly the buffer
    /// `directory`, under the same hold of the lock — reported. On
    /// success the count rises by one and `directory` becomes the
    /// recorded directory, whatever was recorded before: the engine
    /// re-homes its data directory globally on every successful
    /// directory setup. On failure the state is unchanged.
    ///
    /// Hazard, inherited from the engine being a singleton: a successful
    /// call while other sessions are alive silently overrides the data
    /// directory for all of them; two live sessions wanting different
    /// directories cannot coexist correctly.
    pub fn acquire_with_directory(&mut self, directory: CBuffer, native_ok: bool) -> (r: Result<
        Core,
        InitError,
    >)
        requires
            old(self).wf(),
            directory.wf(),
            old(self).reference_count < usize::MAX,
        ensures
            final(self).wf(),
            r is Ok <==> native_ok,
            r is Err ==> r == Err::<Core, InitError>(InitError::NativeSetupFailed),
            final(self).abs() == lifecycle_step(
                old(self).abs(),
                LifecycleOp::AcquireWithDirectory {
                    directory: directory.content(),
                    succeeded: native_ok,
                },
            ),
    {
        if native_ok {
            self.reference_count = self.reference_count + 1;
            self.active_data_directory = Some(directory);
            Ok(Core { token: () })
        } else {
            Err(InitError::NativeSetupFailed)
        }
    }

    /// Release one session, consuming its token: the count falls by one,
    /// and the result says whether this caller — still under the same
    /// hold of the lock — must now make the one native teardown call,
    /// which is owed exactly when the last live session just ended.
    pub fn release(&mut self, session: Core) -> (teardown: bool)
        requires
            old(self).wf(),
            old(self).reference_count > 0,
        ensures
            final(self).wf(),
            teardown == (old(self).reference_count == 1),
            teardown == tears_down(old(self).abs(), LifecycleOp::Release),
            final(self).abs() == lifecycle_step(old(self).abs(), LifecycleOp::Release),
            teardown ==> final(self).reference_count == 0,
            teardown ==> final(self).active_data_directory is None,
    {
        let Core { token: _ } = session;
        if self.reference_count == 1 {
            self.reference_count = 0;
            self.active_data_directory = None;
            true
        } else {
            self.reference_count = self.reference_count - 1;
            false
        }
    }
}

} // verus!
