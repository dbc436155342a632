//! A model of the workspace on disk, and what the steps do to it. The
//! model is what the steps are meant to do; the caller that carries them
//! out is held to it.

use crate::lang::command::StepView;
use crate::lang::languages::LanguageRunner;
use crate::lang::traits::{DepManager, Solver};

use crate::paths::PathView;
use vstd::prelude::*;

verus! {

/// What is at a path.
pub enum Entry {
    /// A file with this text.
    File(Seq<char>),
    /// A directory.
    Dir,
    /// An alias of another path.
    Alias(PathView),
}

/// The workspace: what is at each path that holds something.
pub type Workspace = Map<PathView, Entry>;

/// The workspace after one step.
pub open spec fn apply_step(w: Workspace, step: StepView) -> Workspace {
    match step {
        StepView::WriteIfAbsent { path, contents } => if w.dom().contains(path) {
            w
        } else {
            w.insert(path, Entry::File(contents))
        },
        StepView::RunIfAbsent { path, command } => if w.dom().contains(path) {
            w
        } else {
            w.insert(path, Entry::Dir)
        },
        StepView::CopyTemplateIfAbsent { path, template, template_contents } => if w.dom().contains(
            path,
        ) {
            w
        } else {
            let with_template = if w.dom().contains(template) {
                w
            } else {
                w.insert(template, Entry::File(template_contents))
            };
            with_template.insert(path, with_template[template])
        },
        StepView::Link { target, link } => w.insert(link, Entry::Alias(target)),
    }
}

/// The workspace after a sequence of steps, taken in order.
pub open spec fn apply_steps(w: Workspace, steps: Seq<StepView>) -> Workspace
    decreases steps.len(),
{
    if steps.len() == 0 {
        w
    } else {
        apply_steps(apply_step(w, steps.first()), steps.drop_first())
    }
}

/// Whether a step only ever creates what is missing.
pub open spec fn creates_only(step: StepView) -> bool {
    !(step is Link)
}

/// The path that a creating step makes sure of.
pub open spec fn goal(step: StepView) -> PathView {
    match step {
        StepView::WriteIfAbsent { path, .. } => path,
        StepView::RunIfAbsent { path, .. } => path,
        StepView::CopyTemplateIfAbsent { path, .. } => path,
        StepView::Link { link, .. } => link,
    }
}

/// Whether everything in `small` is in `large` unchanged.
pub open spec fn kept_in(small: Workspace, large: Workspace) -> bool {
    forall|p: PathView| #[trigger]
        small.dom().contains(p) ==> large.dom().contains(p) && large[p] == small[p]
}

/// Any single step can be repeated without a further change.
pub proof fn lemma_step_is_idempotent(w: Workspace, step: StepView)
    ensures
        apply_step(apply_step(w, step), step) == apply_step(w, step),
{
    assert(apply_step(apply_step(w, step), step) =~= apply_step(w, step));
}

/// A creating step leaves what exists as it is, reaches its goal, and
/// changes nothing where its goal is reached already.
pub proof fn lemma_creating_step(w: Workspace, step: StepView)
    requires
        creates_only(step),
    ensures
        kept_in(w, apply_step(w, step)),
        apply_step(w, step).dom().contains(goal(step)),
        w.dom().contains(goal(step)) ==> apply_step(w, step) == w,
{
}

/// Creating steps leave what exists as it is.
pub proof fn lemma_creating_steps_keep(w: Workspace, steps: Seq<StepView>)
    requires
        forall|i: int| 0 <= i < steps.len() ==> creates_only(#[trigger] steps[i]),
    ensures
        kept_in(w, apply_steps(w, steps)),
    decreases steps.len(),
{
    if steps.len() > 0 {
        lemma_creating_step(w, steps.first());
        let rest = steps.drop_first();
        assert forall|i: int| 0 <= i < rest.len() implies creates_only(#[trigger] rest[i]) by {
            assert(rest[i] == steps[i + 1]);
        }
        lemma_creating_steps_keep(apply_step(w, steps.first()), rest);
    }
}

/// After creating steps, the goal of each is reached.
pub proof fn lemma_creating_steps_reach(w: Workspace, steps: Seq<StepView>, i: int)
    requires
        forall|k: int| 0 <= k < steps.len() ==> creates_only(#[trigger] steps[k]),
        0 <= i < steps.len(),
    ensures
        apply_steps(w, steps).dom().contains(goal(steps[i])),
    decreases steps.len(),
{
    let rest = steps.drop_first();
    let w1 = apply_step(w, steps.first());
    assert forall|k: int| 0 <= k < rest.len() implies creates_only(#[trigger] rest[k]) by {
        assert(rest[k] == steps[k + 1]);
    }
    if i == 0 {
        lemma_creating_step(w, steps.first());
        lemma_creating_steps_keep(w1, rest);
    } else {
        assert(rest[i - 1] == steps[i]);
        lemma_creating_steps_reach(w1, rest, i - 1);
    }
}

/// Creating steps whose goals are all reached change nothing.
pub proof fn lemma_reached_steps_are_idle(w: Workspace, steps: Seq<StepView>)
    requires
        forall|k: int| 0 <= k < steps.len() ==> creates_only(#[trigger] steps[k]),
        forall|k: int| 0 <= k < steps.len() ==> w.dom().contains(goal(#[trigger] steps[k])),
    ensures
        apply_steps(w, steps) == w,
    decreases steps.len(),
{
    if steps.len() > 0 {
        lemma_creating_step(w, steps.first());
        let rest = steps.drop_first();
        assert forall|k: int| 0 <= k < rest.len() implies creates_only(#[trigger] rest[k])
            && w.dom().contains(goal(rest[k])) by {
            assert(rest[k] == steps[k + 1]);
        }
        lemma_reached_steps_are_idle(w, rest);
    }
}

/// A sequence of creating steps can be repeated without a further change:
/// the second pass finds everything in place.
pub proof fn lemma_creating_steps_are_idempotent(w: Workspace, steps: Seq<StepView>)
    requires
        forall|k: int| 0 <= k < steps.len() ==> creates_only(#[trigger] steps[k]),
    ensures
        apply_steps(apply_steps(w, steps), steps) == apply_steps(w, steps),
{
    let after = apply_steps(w, steps);
    assert forall|k: int| 0 <= k < steps.len() implies after.dom().contains(
        goal(#[trigger] steps[k]),
    ) by {
        lemma_creating_steps_reach(w, steps, k);
    }
    lemma_reached_steps_are_idle(after, steps);
}

/// Preparing a workspace twice in a row leaves it as preparing it once
/// does, for either adapter: neither the solver's setup nor the
/// environment's writes or runs anything the second time.
pub proof fn lemma_setup_is_idempotent(runner: LanguageRunner, w: Workspace)
    ensures
        apply_steps(apply_steps(w, runner.solver_setup()), runner.solver_setup()) == apply_steps(
            w,
            runner.solver_setup(),
        ),
        apply_steps(apply_steps(w, runner.env_setup()), runner.env_setup()) == apply_steps(
            w,
            runner.env_setup(),
        ),
        apply_steps(
            apply_steps(w, runner.solver_setup() + runner.env_setup()),
            runner.solver_setup() + runner.env_setup(),
        ) == apply_steps(w, runner.solver_setup() + runner.env_setup()),
{
    lemma_creating_steps_are_idempotent(w, runner.solver_setup());
    lemma_creating_steps_are_idempotent(w, runner.env_setup());
    lemma_creating_steps_are_idempotent(w, runner.solver_setup() + runner.env_setup());
}

} // verus!
