//! Sequences of outside actions that end at the first failure.

use vstd::prelude::*;

verus! {

/// What the one who carries out a workflow does next.
#[derive(Debug, PartialEq, Eq)]
pub enum Directive<A, E> {
    /// Perform this action, and report how it went.
    Perform(A),
    /// Stop: no action is left.
    Finished,
    /// Stop: an action failed, for this reason.
    Failed(E),
}

/// The actions still to be performed, in order.
#[derive(Debug)]
pub struct Workflow<A> {
    steps: Vec<A>,
}

/// What a list of actions stands for.
pub open spec fn views<A: View>(actions: Seq<A>) -> Seq<A::V> {
    Seq::new(actions.len(), |i: int| actions[i]@)
}

/// How a workflow goes on from a report: which actions remain, and what to do
/// next. A success calls for the first action that remains, a failure for none.
pub open spec fn after_report<A, E>(remaining: Seq<A>, report: Result<(), E>) -> (
    Seq<A>,
    Directive<A, E>,
) {
    match report {
        Err(cause) => (Seq::empty(), Directive::Failed(cause)),
        Ok(_) => if remaining.len() > 0 {
            (remaining.skip(1), Directive::Perform(remaining[0]))
        } else {
            (remaining, Directive::Finished)
        },
    }
}

/// The directives that a series of reports draws from a workflow.
pub open spec fn directives<A, E>(remaining: Seq<A>, reports: Seq<Result<(), E>>) -> Seq<
    Directive<A, E>,
>
    decreases reports.len(),
{
    if reports.len() == 0 {
        Seq::empty()
    } else {
        let (rest, directive) = after_report(remaining, reports[0]);
        seq![directive] + directives(rest, reports.skip(1))
    }
}

impl<A> View for Workflow<A> {
    type V = Seq<A>;

    closed spec fn view(&self) -> Seq<A> {
        self.steps@
    }
}

impl<A> Workflow<A> {
    /// A workflow of these actions.
    pub fn new(steps: Vec<A>) -> (workflow: Workflow<A>)
        ensures
            workflow@ == steps@,
    {
        Workflow { steps }
    }

    /// Takes the report on the last action, or `Ok` at the start, and says
    /// what to do next.
    pub fn advance<E>(&mut self, report: Result<(), E>) -> (directive: Directive<A, E>)
        ensures
            (final(self)@, directive) == after_report(old(self)@, report),
    {
        match report {
            Err(cause) => {
                self.steps.clear();
                Directive::Failed(cause)
            },
            Ok(_) => {
                if self.steps.len() > 0 {
                    let step = self.steps.remove(0);
                    assert(self@ =~= old(self)@.skip(1));
                    Directive::Perform(step)
                } else {
                    Directive::Finished
                }
            },
        }
    }
}

/// A workflow whose actions all succeed performs each of them, in order, and
/// then finishes.
pub proof fn law_success_performs_every_step<A, E>(steps: Seq<A>, reports: Seq<Result<(), E>>)
    requires
        reports.len() == steps.len() + 1,
        forall|i: int| 0 <= i < reports.len() ==> #[trigger] reports[i] is Ok,
    ensures
        directives(steps, reports) == steps.map_values(
            |step: A| Directive::<A, E>::Perform(step),
        ).push(Directive::Finished),
    decreases steps.len(),
{
    reveal_with_fuel(directives, 2);
    let performed = steps.map_values(|step: A| Directive::<A, E>::Perform(step));
    assert(reports[0] is Ok);
    if steps.len() == 0 {
        assert(directives(steps, reports) =~= performed.push(Directive::Finished));
    } else {
        let rest = steps.skip(1);
        assert forall|i: int| 0 <= i < reports.skip(1).len() implies #[trigger] reports.skip(
            1,
        )[i] is Ok by {
            assert(reports[i + 1] is Ok);
        }
        law_success_performs_every_step(rest, reports.skip(1));
        assert(performed.push(Directive::Finished) =~= seq![
            Directive::<A, E>::Perform(steps[0]),
        ] + rest.map_values(|step: A| Directive::<A, E>::Perform(step)).push(Directive::Finished));
    }
}

/// The first failure ends a workflow: the actions before it have been
/// performed in order, its cause is what comes out, and no action follows.
pub proof fn law_failure_ends_workflow<A, E>(
    steps: Seq<A>,
    reports: Seq<Result<(), E>>,
    failure: int,
)
    requires
        0 <= failure < reports.len(),
        failure <= steps.len(),
        reports[failure] is Err,
        forall|i: int| 0 <= i < failure ==> #[trigger] reports[i] is Ok,
    ensures
        directives(steps, reports).len() == reports.len(),
        forall|i: int|
            0 <= i < failure ==> #[trigger] directives(steps, reports)[i]
                == Directive::<A, E>::Perform(steps[i]),
        directives(steps, reports)[failure] == Directive::<A, E>::Failed(reports[failure]->Err_0),
        forall|i: int|
            failure < i < reports.len() ==> !(#[trigger] directives(steps, reports)[i] is Perform),
    decreases failure,
{
    let (rest, directive) = after_report(steps, reports[0]);
    let tail = reports.skip(1);
    assert(directives(steps, reports) == seq![directive] + directives(rest, tail));
    if failure == 0 {
        lemma_nothing_left(rest, tail);
    } else {
        assert(reports[0] is Ok);
        assert forall|i: int| 0 <= i < failure - 1 implies #[trigger] tail[i] is Ok by {
            assert(reports[i + 1] is Ok);
        }
        law_failure_ends_workflow(rest, tail, failure - 1);
        assert forall|i: int| failure < i < reports.len() implies !(#[trigger] directives(
            steps,
            reports,
        )[i] is Perform) by {
            assert(directives(steps, reports)[i] == directives(rest, tail)[i - 1]);
        }
        assert forall|i: int| 0 <= i < failure implies #[trigger] directives(steps, reports)[i]
            == Directive::<A, E>::Perform(steps[i]) by {
            if i > 0 {
                assert(directives(steps, reports)[i] == directives(rest, tail)[i - 1]);
            }
        }
    }
}

/// A workflow with no actions left never calls for one.
proof fn lemma_nothing_left<A, E>(remaining: Seq<A>, reports: Seq<Result<(), E>>)
    requires
        remaining.len() == 0,
    ensures
        directives(remaining, reports).len() == reports.len(),
        forall|i: int|
            0 <= i < reports.len() ==> !(#[trigger] directives(remaining, reports)[i] is Perform),
    decreases reports.len(),
{
    if reports.len() > 0 {
        let (rest, directive) = after_report(remaining, reports[0]);
        lemma_nothing_left(rest, reports.skip(1));
        assert(directives(remaining, reports) == seq![directive] + directives(
            rest,
            reports.skip(1),
        ));
        assert forall|i: int| 0 <= i < reports.len() implies !(#[trigger] directives(
            remaining,
            reports,
        )[i] is Perform) by {
            if i > 0 {
                assert(directives(remaining, reports)[i] == directives(
                    rest,
                    reports.skip(1),
                )[i - 1]);
            }
        }
    }
}

} // verus!
