//! Plans: what a handler wants done, in order, for the caller to carry out.
use vstd::prelude::*;

use crate::exec::{opt_view, CommandRunner, CommandView, ExecError};

verus! {

/// One thing for the caller to do.
///
/// A plan is carried out in order. The first command that fails stops it:
/// nothing after that step is done.
#[derive(Debug)]
pub enum Step {
    /// A progress message.
    Info(String),
    /// A detail under the current message.
    Status(String),
    /// A message that a stage succeeded.
    Success(String),
    /// A warning.
    Warn(String),
    /// A section title.
    Header(String),
    /// A plain line of output.
    Line(String),
    /// A question put to the user, answered by one line of input.
    Ask(String),
    /// Run this command.
    Run(CommandRunner),
    /// Remove the build-result links in the working directory (those that
    /// `nuke::is_removable_result_link` accepts).
    RemoveResultLinks,
}

/// What a step is.
pub ghost enum StepView {
    Info(Seq<char>),
    Status(Seq<char>),
    Success(Seq<char>),
    Warn(Seq<char>),
    Header(Seq<char>),
    Line(Seq<char>),
    Ask(Seq<char>),
    Run(CommandView),
    RemoveResultLinks,
}

impl View for Step {
    type V = StepView;

    open spec fn view(&self) -> StepView {
        match self {
            Step::Info(s) => StepView::Info(s@),
            Step::Status(s) => StepView::Status(s@),
            Step::Success(s) => StepView::Success(s@),
            Step::Warn(s) => StepView::Warn(s@),
            Step::Header(s) => StepView::Header(s@),
            Step::Line(s) => StepView::Line(s@),
            Step::Ask(s) => StepView::Ask(s@),
            Step::Run(c) => StepView::Run(c@),
            Step::RemoveResultLinks => StepView::RemoveResultLinks,
        }
    }
}

/// The views of the steps of a plan.
pub open spec fn plan_view(p: Seq<Step>) -> Seq<StepView> {
    p.map_values(|s: Step| s@)
}

/// The commands that a plan runs, in order.
pub open spec fn commands_of(p: Seq<StepView>) -> Seq<CommandView>
    decreases p.len(),
{
    if p.len() == 0 {
        Seq::empty()
    } else {
        commands_of(p.drop_last()) + match p.last() {
            StepView::Run(c) => seq![c],
            _ => Seq::empty(),
        }
    }
}

/// The commands of two plans run one after the other are those of the first,
/// then those of the second.
pub proof fn lemma_commands_of_append(a: Seq<StepView>, b: Seq<StepView>)
    ensures
        commands_of(a + b) == commands_of(a) + commands_of(b),
    decreases b.len(),
{
    if b.len() == 0 {
        assert(a + b =~= a);
        assert(commands_of(b) =~= Seq::<CommandView>::empty());
        assert(commands_of(a) + commands_of(b) =~= commands_of(a));
    } else {
        lemma_commands_of_append(a, b.drop_last());
        assert((a + b).drop_last() =~= a + b.drop_last());
        assert((a + b).last() == b.last());
        let tail = match b.last() {
            StepView::Run(c) => seq![c],
            _ => Seq::<CommandView>::empty(),
        };
        assert(commands_of(a) + commands_of(b.drop_last()) + tail =~= commands_of(a) + (commands_of(b.drop_last()) + tail));
    }
}

/// Appends every step of `more` to `p`, emptying `more`.
pub fn append_plan(p: &mut Vec<Step>, more: &mut Vec<Step>)
    ensures
        plan_view(final(p)@) == plan_view(old(p)@) + plan_view(old(more)@),
        final(more)@.len() == 0,
{
    p.append(more);
    assert(plan_view(p@) =~= plan_view(old(p)@) + plan_view(old(more)@));
}

/// Why carrying out a plan stopped: the command that failed, and the title of
/// the section it ran in (the last header before it), if any.
#[derive(Debug, PartialEq, Eq)]
pub struct StepFailure {
    pub section: Option<String>,
    pub error: ExecError,
}

/// Where the carrying out of a plan stands.
pub ghost struct ExecutionView {
    /// The steps still to be done, in order.
    pub rest: Seq<StepView>,
    /// The title of the last header handed out.
    pub section: Option<Seq<char>>,
    /// The failure that stopped the plan, with its section.
    pub failure: Option<(Option<Seq<char>>, ExecError)>,
}

/// Carries out a plan step by step. The caller takes each step with `next`,
/// does it, and reports how each command went with `record`. The first failing
/// command stops the plan: nothing after it is handed out.
pub struct Execution {
    rest: Vec<Step>,
    section: Option<String>,
    failure: Option<StepFailure>,
}

impl View for Execution {
    type V = ExecutionView;

    closed spec fn view(&self) -> ExecutionView {
        ExecutionView {
            rest: plan_view(self.rest@),
            section: opt_view(self.section),
            failure: match self.failure {
                Some(f) => Some((opt_view(f.section), f.error)),
                None => None,
            },
        }
    }
}

impl Execution {
    /// Starts carrying out `plan` from its first step.
    pub fn start(plan: Vec<Step>) -> (r: Execution)
        ensures
            r@ == (ExecutionView { rest: plan_view(plan@), section: None, failure: None }),
    {
        Execution { rest: plan, section: None, failure: None }
    }

    /// The next step to do: none once the plan is done or has failed. A header
    /// becomes the section that later failures are reported in.
    pub fn next(&mut self) -> (r: Option<Step>)
        ensures
            old(self)@.failure is Some || old(self)@.rest.len() == 0 ==> (r is None && final(self)@ == old(self)@),
            old(self)@.failure is None && old(self)@.rest.len() > 0 ==> (r matches Some(s)
                && s@ == old(self)@.rest[0]
                && final(self)@.rest == old(self)@.rest.drop_first()
                && final(self)@.failure is None
                && final(self)@.section == match s@ {
                    StepView::Header(t) => Some(t),
                    _ => old(self)@.section,
                }),
    {
        if self.failure.is_some() || self.rest.len() == 0 {
            return None;
        }
        let s = self.rest.remove(0);
        assert(plan_view(self.rest@) =~= plan_view(old(self).rest@).drop_first());
        if let Step::Header(t) = &s {
            self.section = Some(t.clone());
        }
        Some(s)
    }

    /// Records how the command last handed out went. A failure stops the plan.
    pub fn record(&mut self, outcome: Result<(), ExecError>)
        ensures
            outcome is Ok ==> final(self)@ == old(self)@,
            outcome matches Err(e) ==> final(self)@ == (ExecutionView {
                rest: Seq::empty(),
                section: old(self)@.section,
                failure: Some((old(self)@.section, e)),
            }),
    {
        if let Err(e) = outcome {
            let section = match &self.section {
                Some(t) => Some(t.clone()),
                None => None,
            };
            self.failure = Some(StepFailure { section, error: e });
            self.rest = Vec::new();
            assert(plan_view(self.rest@) =~= Seq::<StepView>::empty());
        }
    }

    /// How the plan ended: the failure that stopped it, if any.
    pub fn finish(self) -> (r: Result<(), StepFailure>)
        ensures
            match self@.failure {
                None => r is Ok,
                Some((section, e)) => r matches Err(f) && opt_view(f.section) == section && f.error == e,
            },
    {
        match self.failure {
            None => Ok(()),
            Some(f) => Err(f),
        }
    }
}

} // verus!
