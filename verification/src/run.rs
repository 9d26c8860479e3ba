//! A run through a plan: the caller performs one step at a time and says
//! how it went, and the run says what comes next.

use vstd::prelude::*;
use crate::error::Error;
use crate::install::{install_plan, install_steps, uninstall_plan, uninstall_steps, Step};
use crate::plan_laws::lemma_unknown_type_ends_plan;
use crate::release::ReleaseBundle;

verus! {

/// Where a run stands.
pub struct RunState {
    /// The steps of the run, in order.
    pub plan: Seq<Step>,
    /// How many of them have been handed out.
    pub position: nat,
    /// The bundles that the steps speak of.
    pub bundles: Seq<ReleaseBundle>,
}

impl RunState {
    /// The step that was handed out last, if any was.
    pub open spec fn last_step(self) -> Option<Step> {
        if 0 < self.position <= self.plan.len() {
            Some(self.plan[self.position - 1])
        } else {
            None
        }
    }

    /// Whether the run ends on `outcome`: the step that was handed out
    /// last has failed, and it is one that the run cannot do without.
    pub open spec fn ends_on(self, outcome: Result<(), Error>) -> bool {
        &&& outcome is Err
        &&& self.last_step() matches Some(step)
        &&& step.required()
    }

    /// Whether every step that gives up on a file names a file that is
    /// there.
    pub open spec fn wf(self) -> bool {
        &&& self.position <= self.plan.len()
        &&& forall|i: int|
            0 <= i < self.plan.len() ==> ((#[trigger] self.plan[i]) matches Step::Reject {
                bundle,
                file,
            } ==> (bundle as int) < self.bundles.len() && (file as int)
                < self.bundles[bundle as int].files@.len())
    }
}

/// A run that is under way.
#[derive(Debug)]
pub struct Run {
    plan: Vec<Step>,
    position: usize,
    bundles: Vec<ReleaseBundle>,
}

/// What the caller of a run does next.
#[derive(Debug)]
pub enum Directive {
    /// Perform `step`, then tell `run` how it went.
    Perform { step: Step, run: Run },
    /// Every step is done.
    Finished,
    /// The run has ended with this failure.
    Failed { error: Error },
}

impl View for Run {
    type V = RunState;

    closed spec fn view(&self) -> RunState {
        RunState { plan: self.plan@, position: self.position as nat, bundles: self.bundles@ }
    }
}

impl Run {
    #[verifier::type_invariant]
    spec fn well_formed(self) -> bool {
        self@.wf()
    }

    /// Sets out on an installation of `bundles` on `platform`. No step
    /// has been handed out yet.
    pub fn install(bundles: Vec<ReleaseBundle>, platform: &str) -> (run: Run)
        ensures
            run@ == (RunState {
                plan: install_steps(bundles@, platform@),
                position: 0,
                bundles: bundles@,
            }),
            run@.wf(),
    {
        let plan = install_plan(&bundles, platform);
        proof {
            lemma_unknown_type_ends_plan(bundles, platform@);
        }
        Run { plan, position: 0, bundles }
    }

    /// Sets out on an uninstallation. No step has been handed out yet.
    pub fn uninstall() -> (run: Run)
        ensures
            run@ == (RunState {
                plan: uninstall_steps(),
                position: 0,
                bundles: Seq::<ReleaseBundle>::empty(),
            }),
            run@.wf(),
    {
        Run { plan: uninstall_plan(), position: 0, bundles: Vec::new() }
    }

    /// The bundles that the steps of this run speak of.
    pub fn bundles(&self) -> (bundles: &Vec<ReleaseBundle>)
        ensures
            bundles@ == self@.bundles,
    {
        &self.bundles
    }

    /// Takes the outcome of the step that was handed out last and says
    /// what comes next. Before the first step there is no outcome: the
    /// caller passes `Ok`.
    ///
    /// A failure of a step that the run cannot do without ends the run
    /// with that failure. A failure of any other step is passed over. The
    /// next step is then handed out, unless it gives up on a file of
    /// unknown type: that ends the run with a failure that names the type.
    /// After the last step the run is finished.
    pub fn advance(self, outcome: Result<(), Error>) -> (directive: Directive)
        ensures
            self@.wf(),
            self@.ends_on(outcome) ==> directive == (Directive::Failed { error: outcome->Err_0 }),
            !self@.ends_on(outcome) && self@.position >= self@.plan.len()
                ==> directive is Finished,
            !self@.ends_on(outcome) && self@.position < self@.plan.len() ==> (
            match self@.plan[self@.position as int] {
                Step::Reject { bundle, file } => directive == (Directive::Failed {
                    error: Error::UnhandledReleaseFileType {
                        release_type: self@.bundles[bundle as int].files@[file as int].file_type,
                    },
                }),
                step => directive matches Directive::Perform { step: next, run } && next == step
                    && run@ == (RunState { position: self@.position + 1, ..self@ }),
            }),
    {
        proof {
            use_type_invariant(&self);
        }
        if self.position > 0 {
            let last = self.plan[self.position - 1];
            if last.is_required() {
                if let Err(error) = outcome {
                    return Directive::Failed { error };
                }
            }
        }
        if self.position >= self.plan.len() {
            return Directive::Finished;
        }
        let step = self.plan[self.position];
        match step {
            Step::Reject { bundle, file } => {
                let release_type = self.bundles[bundle].files[file].file_type.clone();
                Directive::Failed { error: Error::UnhandledReleaseFileType { release_type } }
            },
            _ => {
                let run = Run {
                    plan: self.plan,
                    position: self.position + 1,
                    bundles: self.bundles,
                };
                Directive::Perform { step, run }
            },
        }
    }
}

} // verus!
