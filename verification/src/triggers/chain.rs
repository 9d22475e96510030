use vstd::prelude::*;
use crate::triggers::CancellationTrigger;
use crate::triggers::CancelNever;
use crate::triggers::chain_can_fire;
use crate::triggers::chain_may_blame;
use crate::triggers::chain_may_name;
use crate::triggers::DynamicCancellationTrigger;
use crate::triggers::TriggerModel;

verus! {

/// A stack of triggers that is itself a trigger: it is cancelled if any of
/// its members is.
///
/// Scopes use it to register the triggers of nested actions, but it can be
/// used to combine triggers by hand as well. A query asks every member,
/// oldest first, and decides from the answers: the most recently added
/// member that is cancelled is the one that counts, since the innermost
/// scope is the most telling cause.
pub struct CancelChain(Vec<DynamicCancellationTrigger>);

/// What a chain with the given members collapses to: nothing to check, the
/// one member itself, or the whole chain.
pub open spec fn flattened(members: Seq<TriggerModel>) -> TriggerModel {
    if members.len() == 0 {
        TriggerModel::Never
    } else if members.len() == 1 {
        members[0]
    } else {
        TriggerModel::Chain(members)
    }
}

impl CancelChain {
    /// The label of a chain none of whose members is cancelled.
    pub open spec fn own_label() -> Seq<char> {
        "CancelChain"@
    }

    /// The members, oldest first.
    pub closed spec fn members(&self) -> Seq<TriggerModel>
        decreases self,
    {
        Seq::new(
            self.0.len() as nat,
            |i: int|
                if 0 <= i < self.0.len() {
                    self.0[i].spec_model()
                } else {
                    TriggerModel::Never
                },
        )
    }

    /// An empty chain.
    pub fn new() -> (r: Self)
        ensures
            r@ == Seq::<TriggerModel>::empty(),
    {
        let r = CancelChain(Vec::new());
        assert(r@ =~= Seq::<TriggerModel>::empty());
        r
    }

    /// The number of members.
    pub fn len(&self) -> (r: usize)
        ensures
            r == self@.len(),
    {
        self.0.len()
    }

    /// Removes the most recently added trigger and returns it, if there is
    /// one.
    pub fn pop(&mut self) -> (r: Option<DynamicCancellationTrigger>)
        ensures
            match r {
                Some(trigger) => {
                    &&& old(self)@.len() > 0
                    &&& trigger@ == old(self)@.last()
                    &&& final(self)@ == old(self)@.drop_last()
                },
                None => old(self)@.len() == 0 && final(self)@ == old(self)@,
            },
    {
        let r = self.0.pop();
        assert(r is Some ==> self@ =~= old(self)@.drop_last());
        assert(r is None ==> self@ =~= old(self)@);
        r
    }

    /// Adds a trigger on top of those already present.
    pub fn push<T: CancellationTrigger + 'static>(&mut self, trigger: T)
        ensures
            final(self)@ == old(self)@.push(trigger.model()),
    {
        let entry = trigger.into_dynamic();
        self.0.push(entry);
        assert(self@ =~= old(self)@.push(trigger.model()));
    }

    /// A snapshot of this chain in its simplest form: the trigger that never
    /// fires for an empty chain, a handle to the one member for a chain of
    /// one, and a copy of the chain otherwise. Checking the snapshot of a
    /// short chain needs no walk over a vector.
    pub fn clone_and_flatten(&self) -> (r: DynamicCancellationTrigger)
        ensures
            r@ == flattened(self@),
    {
        if self.0.len() == 0 {
            DynamicCancellationTrigger::Never(CancelNever)
        } else if self.0.len() == 1 {
            self.0[0].clone()
        } else {
            DynamicCancellationTrigger::Chain(self.clone())
        }
    }
}

impl View for CancelChain {
    type V = Seq<TriggerModel>;

    open spec fn view(&self) -> Seq<TriggerModel> {
        self.members()
    }
}

impl Default for CancelChain {
    fn default() -> (r: Self)
        ensures
            r@ == Seq::<TriggerModel>::empty(),
    {
        CancelChain::new()
    }
}

impl Clone for CancelChain {
    /// A chain of handles to the same triggers, in the same order.
    fn clone(&self) -> (r: Self)
        ensures
            r@ == self@,
        decreases self,
    {
        let mut copies: Vec<DynamicCancellationTrigger> = Vec::new();
        let mut i: usize = 0;
        while i < self.0.len()
            invariant
                i <= self.0.len(),
                copies@.len() == i,
                forall|j: int| 0 <= j < i ==> (#[trigger] copies@[j]).spec_model() == self@[j],
            decreases self.0.len() - i,
        {
            copies.push(self.0[i].clone());
            i = i + 1;
        }
        let r = CancelChain(copies);
        assert(r@ =~= self@);
        r
    }
}

/// Among the answers of a chain's members, oldest first, the one at `i` is
/// the innermost "cancelled": it is one, and no member added later gave one.
pub open spec fn is_innermost(answers: Seq<bool>, i: int) -> bool {
    &&& 0 <= i < answers.len()
    &&& answers[i]
    &&& forall|j: int| i < j < answers.len() ==> !answers[j]
}

/// None of the answers is "cancelled".
pub open spec fn none_cancelled(answers: Seq<bool>) -> bool {
    forall|j: int| 0 <= j < answers.len() ==> !answers[j]
}

/// The place of the innermost "cancelled" among the answers of a chain's
/// members, oldest first, if there is one.
pub open spec fn innermost(answers: Seq<bool>) -> Option<int>
    decreases answers.len(),
{
    if answers.len() == 0 {
        None
    } else if answers.last() {
        Some(answers.len() - 1)
    } else {
        innermost(answers.drop_last())
    }
}

/// [`innermost`] finds the innermost "cancelled" where there is one, and
/// nothing only where no answer is "cancelled".
pub proof fn lemma_innermost(answers: Seq<bool>)
    ensures
        match innermost(answers) {
            Some(i) => is_innermost(answers, i),
            None => none_cancelled(answers),
        },
        forall|i: int| is_innermost(answers, i) ==> innermost(answers) == Some(i),
    decreases answers.len(),
{
    if answers.len() > 0 {
        let earlier = answers.drop_last();
        lemma_innermost(earlier);
        if !answers.last() {
            match innermost(earlier) {
                Some(i) => {
                    assert(is_innermost(earlier, i));
                    assert(answers[i] == earlier[i]);
                    assert forall|j: int| i < j < answers.len() implies !answers[j] by {
                        if j < earlier.len() {
                            assert(answers[j] == earlier[j]);
                        }
                    }
                },
                None => {
                    assert forall|j: int| 0 <= j < answers.len() implies !answers[j] by {
                        if j < earlier.len() {
                            assert(answers[j] == earlier[j]);
                        }
                    }
                },
            }
            assert forall|i: int| is_innermost(answers, i) implies innermost(answers) == Some(
                i,
            ) by {
                assert(i < earlier.len());
                assert(earlier[i] == answers[i]);
                assert forall|j: int| i < j < earlier.len() implies !earlier[j] by {
                    assert(earlier[j] == answers[j]);
                }
                assert(is_innermost(earlier, i));
            }
        } else {
            assert forall|i: int| is_innermost(answers, i) implies innermost(answers) == Some(
                i,
            ) by {
                if i < answers.len() - 1 {
                    assert(!answers[answers.len() - 1]);
                }
            }
        }
    }
}

/// The label of a chain, given the label of its innermost cancelled member
/// if it has one: that label, or the chain's own.
pub open spec fn label_or_own(innermost: Option<Seq<char>>) -> Seq<char> {
    match innermost {
        Some(label) => label,
        None => CancelChain::own_label(),
    }
}

/// The verdict of a chain on the answers of its members, oldest first: the
/// place of the most recently added member that answered "cancelled". The
/// chain is cancelled exactly if there is one.
pub fn innermost_cancelled_of(answers: &Vec<bool>) -> (r: Option<usize>)
    ensures
        match r {
            Some(i) => is_innermost(answers@, i as int) && innermost(answers@) == Some(i as int),
            None => none_cancelled(answers@) && innermost(answers@) is None,
        },
{
    let mut i: usize = answers.len();
    while i > 0
        invariant
            i <= answers.len(),
            forall|j: int| i <= j < answers.len() ==> !answers[j],
        decreases i,
    {
        i = i - 1;
        if answers[i] {
            proof {
                lemma_innermost(answers@);
            }
            return Some(i);
        }
    }
    proof {
        lemma_innermost(answers@);
        if innermost(answers@) is Some {
            assert(answers@[innermost(answers@).unwrap()]);
        }
    }
    None
}

/// The label of a chain, given the label of its innermost cancelled member
/// if it has one.
pub fn chain_label_of(innermost: Option<&'static str>) -> (r: &'static str)
    ensures
        r@ == label_or_own(
            match innermost {
                Some(label) => Some(label@),
                None => None,
            },
        ),
{
    match innermost {
        Some(label) => label,
        None => "CancelChain",
    }
}

/// Which of the members of a chain, oldest first, named a cause: the
/// answers "cancelled" and "not cancelled" behind what they said.
pub open spec fn answered(causes: Seq<Option<&'static str>>) -> Seq<bool> {
    Seq::new(causes.len(), |i: int| causes[i] is Some)
}

/// Which of the members of a chain, oldest first, named a cause: the
/// answers "cancelled" and "not cancelled" behind what they said.
pub fn answers_of(causes: &Vec<Option<&'static str>>) -> (r: Vec<bool>)
    ensures
        r@ == answered(causes@),
{
    let mut answers: Vec<bool> = Vec::new();
    let mut i: usize = 0;
    while i < causes.len()
        invariant
            i <= causes.len(),
            answers@.len() == i,
            forall|j: int| 0 <= j < i ==> answers@[j] == (causes@[j] is Some),
        decreases causes.len() - i,
    {
        answers.push(causes[i].is_some());
        i = i + 1;
    }
    assert(answers@ =~= answered(causes@));
    answers
}

/// What cancelled a chain, given what each of its members named as the
/// cause of its own cancellation, oldest first: what the innermost
/// cancelled member named, and nothing if no member is cancelled.
pub fn innermost_cause_of(causes: &Vec<Option<&'static str>>) -> (r: Option<&'static str>)
    ensures
        r == match innermost(answered(causes@)) {
            Some(i) => causes@[i],
            None => None,
        },
        r is Some <==> exists|i: int| 0 <= i < causes@.len() && causes@[i] is Some,
{
    let answers = answers_of(causes);
    proof {
        lemma_innermost(answers@);
    }
    match innermost_cancelled_of(&answers) {
        Some(i) => {
            assert(answers@[i as int]);
            causes[i]
        },
        None => {
            assert forall|i: int| 0 <= i < causes@.len() implies !(causes@[i] is Some) by {
                assert(!answers@[i]);
            }
            None
        },
    }
}

impl CancelChain {
    /// Asks every member what cancelled it, and returns what they said,
    /// oldest member first.
    pub fn causes(&self) -> (r: Vec<Option<&'static str>>)
        ensures
            r@.len() == self@.len(),
            forall|i: int|
                0 <= i < self@.len() ==> (#[trigger] r@[i] matches Some(label)
                    ==> self@[i].may_blame(label@)),
        decreases self, 0nat,
    {
        let mut causes: Vec<Option<&'static str>> = Vec::new();
        let mut i: usize = 0;
        while i < self.0.len()
            invariant
                i <= self.0.len(),
                causes@.len() == i,
                self@.len() == self.0.len(),
                forall|j: int|
                    0 <= j < i ==> (#[trigger] causes@[j] matches Some(label)
                        ==> self@[j].may_blame(label@)),
            decreases self.0.len() - i,
        {
            let cause = self.0[i].cause();
            assert(self@[i as int] == self.0[i as int]@);
            causes.push(cause);
            i = i + 1;
        }
        causes
    }

    /// The label of what cancelled the chain, if it is cancelled:
    /// [`innermost_cause_of`] the [causes](CancelChain::causes) that the
    /// members named.
    pub fn cause(&self) -> (r: Option<&'static str>)
        ensures
            r matches Some(label) ==> chain_may_blame(self@, label@),
        decreases self, 1nat,
    {
        let causes = self.causes();
        let cause = innermost_cause_of(&causes);
        proof {
            lemma_innermost(answered(causes@));
            match innermost(answered(causes@)) {
                Some(i) => {
                    assert(self@[i].may_blame(causes@[i].unwrap()@));
                },
                None => {},
            }
        }
        cause
    }

    /// Asks every member whether it is cancelled, and returns the answers,
    /// oldest member first.
    pub fn answers(&self) -> (r: Vec<bool>)
        ensures
            r@.len() == self@.len(),
            forall|i: int| 0 <= i < self@.len() ==> (#[trigger] r@[i] ==> self@[i].can_fire()),
        decreases self, 0nat,
    {
        let mut answers: Vec<bool> = Vec::new();
        let mut i: usize = 0;
        while i < self.0.len()
            invariant
                i <= self.0.len(),
                answers@.len() == i,
                self@.len() == self.0.len(),
                forall|j: int| 0 <= j < i ==> (#[trigger] answers@[j] ==> self@[j].can_fire()),
            decreases self.0.len() - i,
        {
            let answer = self.0[i].is_cancelled();
            assert(self@[i as int] == self.0[i as int]@);
            answers.push(answer);
            i = i + 1;
        }
        answers
    }

    /// Whether any member is cancelled: the verdict of
    /// [`innermost_cancelled_of`] on the [answers](CancelChain::answers) of
    /// the members.
    pub fn is_cancelled(&self) -> (r: bool)
        ensures
            r ==> chain_can_fire(self@),
        decreases self, 1nat,
    {
        let answers = self.answers();
        match innermost_cancelled_of(&answers) {
            Some(i) => {
                assert(answers@[i as int]);
                assert(self@[i as int].can_fire());
                true
            },
            None => false,
        }
    }

    /// The label of the most recently added member that is cancelled, or
    /// the chain's own label if none is: [`chain_label_of`] on the label of
    /// the member that [`innermost_cancelled_of`] finds.
    pub fn label(&self) -> (r: &'static str)
        ensures
            chain_may_name(self@, r@),
        decreases self, 1nat,
    {
        let answers = self.answers();
        match innermost_cancelled_of(&answers) {
            Some(i) => {
                let name = self.0[i].label();
                assert(self@[i as int] == self.0[i as int]@);
                assert(answers@[i as int]);
                assert(self@[i as int].can_fire());
                chain_label_of(Some(name))
            },
            None => chain_label_of(None),
        }
    }
}

impl CancellationTrigger for CancelChain {
    open spec fn model(&self) -> TriggerModel {
        TriggerModel::Chain(self@)
    }

    fn cause(&self) -> (r: Option<&'static str>) {
        CancelChain::cause(self)
    }

    fn is_cancelled(&self) -> (r: bool) {
        CancelChain::is_cancelled(self)
    }

    fn label(&self) -> (r: &'static str) {
        CancelChain::label(self)
    }

    fn into_dynamic(self) -> (r: DynamicCancellationTrigger) {
        DynamicCancellationTrigger::Chain(self)
    }
}

} // verus!
