use vstd::prelude::*;
use vstd::string::StringExecFns;

verus! {

/// The cause reported when the trigger behind a cancellation is not known.
pub const UNKNOWN_CAUSE: &'static str = "UnknownCancellationTrigger";

/// The outcome of a checkpoint that found its trigger cancelled. It carries
/// the label of the trigger that caused it.
///
/// An error type `E` of an action that runs inside a cancellation scope is
/// expected to be constructible from `Cancelled`, so that checkpoints can be
/// propagated with `?`.
#[derive(Clone, Copy, Debug)]
pub struct Cancelled {
    cause: &'static str,
}

/// The result of a cancellable operation.
pub type Cancellable<TResult> = Result<TResult, Cancelled>;

impl View for Cancelled {
    type V = Seq<char>;

    /// The label of the trigger that caused the cancellation.
    closed spec fn view(&self) -> Seq<char> {
        self.cause@
    }
}

impl Cancelled {
    /// The text that [`Cancelled::message`] puts in front of the cause.
    pub open spec fn message_prefix() -> Seq<char> {
        "Operation cancelled (caused by `"@
    }

    /// The text that [`Cancelled::message`] puts behind the cause.
    pub open spec fn message_suffix() -> Seq<char> {
        "`)"@
    }

    /// A cancellation caused by the trigger with the given label.
    pub fn new(cause: &'static str) -> (r: Self)
        ensures
            r@ == cause@,
    {
        Cancelled { cause }
    }

    /// The label of the trigger that caused the cancellation, or
    /// [`UNKNOWN_CAUSE`] if it was never determined.
    pub fn cause(&self) -> (r: &'static str)
        ensures
            r@ == self@,
    {
        self.cause
    }

    /// A human-readable description that names the cause.
    pub fn message(&self) -> (r: String)
        ensures
            r@ == Self::message_prefix() + self@ + Self::message_suffix(),
    {
        let mut text = String::from_str("Operation cancelled (caused by `");
        text.append(self.cause);
        text.append("`)");
        text
    }
}

impl Default for Cancelled {
    /// A cancellation of unknown cause.
    fn default() -> (r: Self)
        ensures
            r@ == UNKNOWN_CAUSE@,
    {
        Cancelled::new(UNKNOWN_CAUSE)
    }
}

} // verus!
