use vstd::prelude::*;
use std::sync::Arc;
use std::sync::atomic::AtomicU64;

pub mod atomic;
pub mod chain;
pub mod ctrlc;
pub mod memory;
pub mod never;
pub mod python;
pub mod timer;

pub use atomic::on_atomic;
pub use atomic::CancelAtomic;
pub use chain::answered;
pub use chain::answers_of;
pub use chain::chain_label_of;
pub use chain::flattened;
pub use chain::innermost;
pub use chain::innermost_cancelled_of;
pub use chain::innermost_cause_of;
pub use chain::is_innermost;
pub use chain::label_or_own;
pub use chain::lemma_innermost;
pub use chain::none_cancelled;
pub use chain::CancelChain;
pub use ctrlc::on_sigint;
pub use ctrlc::CancelCtrlc;
pub use ctrlc::CtrlcError;
pub use ctrlc::CtrlcRegistry;
pub use memory::on_memory;
pub use memory::CancelMemory;
pub use never::never;
pub use never::CancelNever;
pub use python::on_python;
pub use python::python_exception;
pub use python::CancelPython;
pub use python::PythonException;
pub use timer::on_timeout;
pub use timer::CancelTimer;

verus! {

/// What a trigger is, as far as contracts are concerned: which kind of
/// condition it stands for, which shared state it is a handle to, and, for a
/// composite, what its members are, oldest first.
///
/// The state of a trigger lives in atomics that any thread may set at any
/// moment, so a contract cannot say what a query will answer. What it can
/// say is which answers are possible at all: whether the trigger can be
/// cancelled ([`TriggerModel::can_fire`]), and which labels it can give
/// ([`TriggerModel::may_blame`], [`TriggerModel::may_name`]). What a chain
/// makes of the answers of its members is decided by functions of those
/// answers, and is exact.
pub enum TriggerModel {
    /// The trigger that never fires.
    Never,
    /// A manually cancelled flag.
    Atomic(CancelAtomic),
    /// The flag of a timer.
    Timer(CancelTimer),
    /// A flag that the interrupt signal sets.
    Ctrlc(CancelCtrlc),
    /// A limit on the memory in use.
    Memory(CancelMemory),
    /// A flag that a pending interrupt of the Python interpreter sets.
    Python(CancelPython),
    /// A stack of triggers, oldest first.
    Chain(Seq<TriggerModel>),
    /// A trigger whose every query also bumps the given checkpoint stamp.
    Transferred(Box<TriggerModel>, AtomicU64),
}

/// Whether a chain with the given members can be cancelled at all: it can
/// if one of its members can.
pub open spec fn chain_can_fire(members: Seq<TriggerModel>) -> bool
    decreases members,
{
    exists|i: int| 0 <= i < members.len() && (#[trigger] members[i]).can_fire()
}

/// Whether a chain with the given members can name `name` as the cause of
/// its cancellation: it can if one of its members can.
pub open spec fn chain_may_blame(members: Seq<TriggerModel>, name: Seq<char>) -> bool
    decreases members,
{
    exists|i: int| 0 <= i < members.len() && (#[trigger] members[i]).may_blame(name)
}

/// Whether a chain with the given members can give `name` as its label: the
/// label of a member that can be cancelled, or the chain's own.
pub open spec fn chain_may_name(members: Seq<TriggerModel>, name: Seq<char>) -> bool
    decreases members,
{
    ||| exists|i: int|
        0 <= i < members.len() && (#[trigger] members[i]).can_fire() && members[i].may_name(name)
    ||| name == CancelChain::own_label()
}

impl TriggerModel {
    /// Whether the trigger can be cancelled at all, that is, whether
    /// `is_cancelled` can answer true. Only the trigger that never fires,
    /// and what is made of nothing else, cannot.
    pub open spec fn can_fire(self) -> bool
        decreases self,
    {
        match self {
            TriggerModel::Never => false,
            TriggerModel::Atomic(_) => true,
            TriggerModel::Timer(_) => true,
            TriggerModel::Ctrlc(_) => true,
            TriggerModel::Memory(_) => true,
            TriggerModel::Python(_) => true,
            TriggerModel::Chain(members) => chain_can_fire(members),
            TriggerModel::Transferred(inner, _) => inner.can_fire(),
        }
    }

    /// Whether the trigger can name `name` as the cause of its
    /// cancellation. A single trigger names itself and nothing else, and a
    /// composite names what one of its parts names.
    pub open spec fn may_blame(self, name: Seq<char>) -> bool
        decreases self,
    {
        match self {
            TriggerModel::Never => false,
            TriggerModel::Atomic(_) => name == CancelAtomic::own_label(),
            TriggerModel::Timer(_) => name == CancelTimer::own_label(),
            TriggerModel::Ctrlc(_) => name == CancelCtrlc::own_label(),
            TriggerModel::Memory(_) => name == CancelMemory::own_label(),
            TriggerModel::Python(_) => name == CancelPython::own_label(),
            TriggerModel::Chain(members) => chain_may_blame(members, name),
            TriggerModel::Transferred(inner, _) => inner.may_blame(name),
        }
    }

    /// Whether `label` can answer `name`.
    pub open spec fn may_name(self, name: Seq<char>) -> bool
        decreases self,
    {
        match self {
            TriggerModel::Never => name == CancelNever::own_label(),
            TriggerModel::Atomic(_) => name == CancelAtomic::own_label(),
            TriggerModel::Timer(_) => name == CancelTimer::own_label(),
            TriggerModel::Ctrlc(_) => name == CancelCtrlc::own_label(),
            TriggerModel::Memory(_) => name == CancelMemory::own_label(),
            TriggerModel::Python(_) => name == CancelPython::own_label(),
            TriggerModel::Chain(members) => chain_may_name(members, name),
            TriggerModel::Transferred(inner, _) => inner.may_name(name),
        }
    }
}

/// A monotonic, shareable cancellation condition with a diagnostic label.
///
/// A trigger can be queried from any thread that holds a handle to it, and a
/// clone of a handle reacts to the same signal as the handle itself. Once a
/// trigger is cancelled it stays cancelled.
///
/// The triggers that can stand in a [`CancelChain`] are those that
/// [`DynamicCancellationTrigger`] lists, so every implementation says which
/// of them it is ([`CancellationTrigger::model`]).
pub trait CancellationTrigger: Send + Sync + Sized {
    /// What this trigger is.
    spec fn model(&self) -> TriggerModel;

    /// Returns true if this trigger is cancelled.
    fn is_cancelled(&self) -> (r: bool)
        ensures
            r ==> self.model().can_fire(),
    ;

    /// The label of this trigger or, for a composite, the label of the
    /// member that signalled the cancellation.
    fn label(&self) -> (r: &'static str)
        ensures
            self.model().may_name(r@),
    ;

    /// Both questions in one query: the label of what cancelled this
    /// trigger if it is cancelled, and nothing if it is not. A checkpoint
    /// asks this, so that the cause it names is the cause of the very
    /// answer that made it fail.
    fn cause(&self) -> (r: Option<&'static str>)
        ensures
            r matches Some(label) ==> self.model().may_blame(label@),
    ;

    /// This trigger as an entry of a chain.
    fn into_dynamic(self) -> (r: DynamicCancellationTrigger)
        ensures
            r@ == self.model(),
    ;
}

/// Any of this crate's triggers, as one type: what a [`CancelChain`] holds
/// and what a flattened snapshot of a chain is.
pub enum DynamicCancellationTrigger {
    Never(CancelNever),
    Atomic(CancelAtomic),
    Timer(CancelTimer),
    Ctrlc(CancelCtrlc),
    Memory(CancelMemory),
    Python(CancelPython),
    Chain(CancelChain),
    /// A trigger whose every query also bumps `stamp`, the checkpoint stamp
    /// of the thread it was taken from.
    Transferred { inner: Box<DynamicCancellationTrigger>, stamp: Arc<AtomicU64> },
}

impl DynamicCancellationTrigger {
    /// What this trigger is.
    pub open spec fn spec_model(&self) -> TriggerModel
        decreases self,
    {
        match self {
            DynamicCancellationTrigger::Never(_) => TriggerModel::Never,
            DynamicCancellationTrigger::Atomic(t) => TriggerModel::Atomic(*t),
            DynamicCancellationTrigger::Timer(t) => TriggerModel::Timer(*t),
            DynamicCancellationTrigger::Ctrlc(t) => TriggerModel::Ctrlc(*t),
            DynamicCancellationTrigger::Memory(t) => TriggerModel::Memory(*t),
            DynamicCancellationTrigger::Python(t) => TriggerModel::Python(*t),
            DynamicCancellationTrigger::Chain(t) => TriggerModel::Chain(t.members()),
            DynamicCancellationTrigger::Transferred { inner, stamp } => TriggerModel::Transferred(
                Box::new(inner.spec_model()),
                **stamp,
            ),
        }
    }
}

impl View for DynamicCancellationTrigger {
    type V = TriggerModel;

    open spec fn view(&self) -> TriggerModel {
        self.spec_model()
    }
}

impl Clone for DynamicCancellationTrigger {
    /// Another handle to the same trigger.
    fn clone(&self) -> (r: Self)
        ensures
            r@ == self@,
        decreases self,
    {
        match self {
            DynamicCancellationTrigger::Never(t) => DynamicCancellationTrigger::Never(*t),
            DynamicCancellationTrigger::Atomic(t) => DynamicCancellationTrigger::Atomic(t.clone()),
            DynamicCancellationTrigger::Timer(t) => DynamicCancellationTrigger::Timer(t.clone()),
            DynamicCancellationTrigger::Ctrlc(t) => DynamicCancellationTrigger::Ctrlc(t.clone()),
            DynamicCancellationTrigger::Memory(t) => DynamicCancellationTrigger::Memory(t.clone()),
            DynamicCancellationTrigger::Python(t) => DynamicCancellationTrigger::Python(t.clone()),
            DynamicCancellationTrigger::Chain(t) => DynamicCancellationTrigger::Chain(t.clone()),
            DynamicCancellationTrigger::Transferred { inner, stamp } => {
                let inner_copy = (**inner).clone();
                DynamicCancellationTrigger::Transferred {
                    inner: Box::new(inner_copy),
                    stamp: stamp.clone(),
                }
            },
        }
    }
}

impl DynamicCancellationTrigger {
    /// Whether the trigger is cancelled.
    pub fn is_cancelled(&self) -> (r: bool)
        ensures
            r ==> self@.can_fire(),
        decreases self, 0nat,
    {
        match self {
            DynamicCancellationTrigger::Never(t) => t.is_cancelled(),
            DynamicCancellationTrigger::Atomic(t) => t.is_cancelled(),
            DynamicCancellationTrigger::Timer(t) => t.is_cancelled(),
            DynamicCancellationTrigger::Ctrlc(t) => t.is_cancelled(),
            DynamicCancellationTrigger::Memory(t) => t.is_cancelled(),
            DynamicCancellationTrigger::Python(t) => t.is_cancelled(),
            DynamicCancellationTrigger::Chain(t) => t.is_cancelled(),
            DynamicCancellationTrigger::Transferred { inner, stamp } => {
                stamp.fetch_add(1, std::sync::atomic::Ordering::SeqCst);
                inner.is_cancelled()
            },
        }
    }

    /// The label of the trigger or, for a composite, of the member that
    /// signalled the cancellation.
    pub fn label(&self) -> (r: &'static str)
        ensures
            self@.may_name(r@),
        decreases self, 0nat,
    {
        match self {
            DynamicCancellationTrigger::Never(t) => t.label(),
            DynamicCancellationTrigger::Atomic(t) => t.label(),
            DynamicCancellationTrigger::Timer(t) => t.label(),
            DynamicCancellationTrigger::Ctrlc(t) => t.label(),
            DynamicCancellationTrigger::Memory(t) => t.label(),
            DynamicCancellationTrigger::Python(t) => t.label(),
            DynamicCancellationTrigger::Chain(t) => t.label(),
            DynamicCancellationTrigger::Transferred { inner, .. } => inner.label(),
        }
    }
}

impl DynamicCancellationTrigger {
    /// The label of what cancelled the trigger, if it is cancelled.
    pub fn cause(&self) -> (r: Option<&'static str>)
        ensures
            r matches Some(label) ==> self@.may_blame(label@),
        decreases self, 0nat,
    {
        match self {
            DynamicCancellationTrigger::Never(t) => t.cause(),
            DynamicCancellationTrigger::Atomic(t) => t.cause(),
            DynamicCancellationTrigger::Timer(t) => t.cause(),
            DynamicCancellationTrigger::Ctrlc(t) => t.cause(),
            DynamicCancellationTrigger::Memory(t) => t.cause(),
            DynamicCancellationTrigger::Python(t) => t.cause(),
            DynamicCancellationTrigger::Chain(t) => t.cause(),
            DynamicCancellationTrigger::Transferred { inner, stamp } => {
                stamp.fetch_add(1, std::sync::atomic::Ordering::SeqCst);
                inner.cause()
            },
        }
    }
}

impl CancellationTrigger for DynamicCancellationTrigger {
    open spec fn model(&self) -> TriggerModel {
        self@
    }

    fn cause(&self) -> (r: Option<&'static str>) {
        DynamicCancellationTrigger::cause(self)
    }

    fn is_cancelled(&self) -> (r: bool) {
        DynamicCancellationTrigger::is_cancelled(self)
    }

    fn label(&self) -> (r: &'static str) {
        DynamicCancellationTrigger::label(self)
    }

    fn into_dynamic(self) -> (r: DynamicCancellationTrigger) {
        self
    }
}

} // verus!
