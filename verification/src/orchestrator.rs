//! The run as a whole: the three record kinds, synchronised one after the
//! other in a fixed order, and ended by the first failure.

use vstd::prelude::*;
use crate::error::SyncError;

verus! {

/// A kind of record.
#[derive(Clone, Copy, Debug, PartialEq, Eq, Structural)]
pub enum Kind {
    Music,
    Album,
    Artist,
}

/// The order in which the kinds are synchronised.
pub open spec fn run_order() -> Seq<Kind> {
    seq![Kind::Music, Kind::Album, Kind::Artist]
}

impl Kind {
    /// The kind that is synchronised after this one, if there is one.
    pub open spec fn spec_successor(self) -> Option<Kind> {
        match self {
            Kind::Music => Some(Kind::Album),
            Kind::Album => Some(Kind::Artist),
            Kind::Artist => None,
        }
    }

    /// The words that announce the synchronisation of this kind.
    pub open spec fn spec_start_message(self) -> Seq<char> {
        match self {
            Kind::Music => "Starting music sync"@,
            Kind::Album => "Starting album sync"@,
            Kind::Artist => "Starting artist sync"@,
        }
    }

    /// The words that announce that this kind is synchronised.
    pub open spec fn spec_finish_message(self) -> Seq<char> {
        match self {
            Kind::Music => "Music sync finished"@,
            Kind::Album => "Album sync finished"@,
            Kind::Artist => "Artist sync finished"@,
        }
    }

    /// The kind that is synchronised after this one, if there is one.
    pub fn successor(self) -> (next: Option<Kind>)
        ensures
            next == self.spec_successor(),
    {
        match self {
            Kind::Music => Some(Kind::Album),
            Kind::Album => Some(Kind::Artist),
            Kind::Artist => None,
        }
    }

    /// The words that announce the synchronisation of this kind.
    pub fn start_message(self) -> (message: &'static str)
        ensures
            message@ == self.spec_start_message(),
    {
        match self {
            Kind::Music => "Starting music sync",
            Kind::Album => "Starting album sync",
            Kind::Artist => "Starting artist sync",
        }
    }

    /// The words that announce that this kind is synchronised.
    pub fn finish_message(self) -> (message: &'static str)
        ensures
            message@ == self.spec_finish_message(),
    {
        match self {
            Kind::Music => "Music sync finished",
            Kind::Album => "Album sync finished",
            Kind::Artist => "Artist sync finished",
        }
    }
}

/// What the run does next.
#[derive(Debug, PartialEq, Eq)]
pub enum Directive {
    /// Synchronise this kind, and report how it ended.
    Run(Kind),
    /// Every kind is synchronised: the run ends well.
    Complete,
    /// The run ends with this failure.
    Abort(SyncError),
}

impl Directive {
    /// The status with which the process exits on this directive: zero when
    /// the run is complete, one when it is aborted, none while it goes on.
    pub open spec fn spec_exit_status(self) -> Option<i32> {
        match self {
            Directive::Run(_) => None,
            Directive::Complete => Some(0i32),
            Directive::Abort(_) => Some(1i32),
        }
    }

    /// The status with which the process exits on this directive.
    pub fn exit_status(&self) -> (status: Option<i32>)
        ensures
            status == self.spec_exit_status(),
    {
        match self {
            Directive::Run(_) => None,
            Directive::Complete => Some(0),
            Directive::Abort(_) => Some(1),
        }
    }
}

/// Where the run stands.
#[derive(Clone, Copy, Debug, PartialEq, Eq, Structural)]
pub enum Stage {
    /// This kind is being synchronised.
    Running(Kind),
    /// Every kind is synchronised.
    Complete,
    /// A failure ended the run.
    Aborted,
}

/// The run as a mathematical value: its stage, and the kinds that have been
/// started so far.
pub struct OrchestratorView {
    pub stage: Stage,
    pub started: Seq<Kind>,
}

impl OrchestratorView {
    /// The run at its start: the first kind is being synchronised.
    pub open spec fn initial() -> Self {
        OrchestratorView { stage: Stage::Running(Kind::Music), started: seq![Kind::Music] }
    }

    /// The state after the kind that was running has ended with `outcome`.
    pub open spec fn next(self, outcome: Result<(), SyncError>) -> Self
        recommends
            self.stage is Running,
    {
        match (self.stage, outcome) {
            (Stage::Running(kind), Ok(_)) => match kind.spec_successor() {
                Some(following) => OrchestratorView {
                    stage: Stage::Running(following),
                    started: self.started.push(following),
                },
                None => OrchestratorView { stage: Stage::Complete, ..self },
            },
            (Stage::Running(_), Err(_)) => OrchestratorView { stage: Stage::Aborted, ..self },
            _ => self,
        }
    }

    /// What the run does after the kind that was running has ended with
    /// `outcome`: it goes on with the following kind, if there is one, and it
    /// starts no other kind after a failure.
    pub open spec fn directive(self, outcome: Result<(), SyncError>) -> Directive
        recommends
            self.stage is Running,
    {
        match (self.stage, outcome) {
            (Stage::Running(kind), Ok(_)) => match kind.spec_successor() {
                Some(following) => Directive::Run(following),
                None => Directive::Complete,
            },
            (_, Err(error)) => Directive::Abort(error),
            _ => Directive::Complete,
        }
    }

    /// What holds of the run at every moment: the kinds started so far are
    /// the first kinds of the fixed order, each started once, and the kind
    /// that is running is the one started last. A complete run has started
    /// all of them.
    pub open spec fn well_formed(self) -> bool {
        &&& 1 <= self.started.len() <= run_order().len()
        &&& self.started == run_order().take(self.started.len() as int)
        &&& match self.stage {
            Stage::Running(kind) => self.started.last() == kind,
            Stage::Complete => self.started == run_order(),
            Stage::Aborted => true,
        }
    }
}

/// The run is well formed at its start.
pub proof fn lemma_initial_run_well_formed()
    ensures
        OrchestratorView::initial().well_formed(),
{
    assert(OrchestratorView::initial().started =~= run_order().take(1));
}

/// The end of a kind keeps the run well formed.
pub proof fn lemma_next_run_well_formed(run: OrchestratorView, outcome: Result<(), SyncError>)
    requires
        run.well_formed(),
        run.stage is Running,
    ensures
        run.next(outcome).well_formed(),
{
    let after = run.next(outcome);
    assert(after.started =~= run_order().take(after.started.len() as int));
    if after.stage is Complete {
        assert(after.started =~= run_order());
    }
}

/// A run in which every kind succeeds starts the three kinds in their order
/// and is complete after the third.
pub proof fn lemma_run_of_successes()
    ensures
        ({
            let end = OrchestratorView::initial().next(Ok(())).next(Ok(())).next(Ok(()));
            &&& end.stage == Stage::Complete
            &&& end.started == run_order()
            &&& OrchestratorView::initial().next(Ok(())).next(Ok(())).directive(Ok(()))
                == Directive::Complete
        }),
{
    let end = OrchestratorView::initial().next(Ok(())).next(Ok(())).next(Ok(()));
    assert(end.started =~= run_order());
}

/// A failure ends the run: whichever kind was running, no other kind is
/// started, and the run asks to be aborted with the failure.
pub proof fn lemma_failure_ends_run(run: OrchestratorView, error: SyncError)
    requires
        run.well_formed(),
        run.stage is Running,
    ensures
        run.next(Err(error)).stage == Stage::Aborted,
        run.next(Err(error)).started == run.started,
        run.directive(Err(error)) == Directive::Abort(error),
{
}

/// Runs the three kinds in their order.
pub struct Orchestrator {
    stage: Stage,
    started: Ghost<Seq<Kind>>,
}

impl View for Orchestrator {
    type V = OrchestratorView;

    closed spec fn view(&self) -> OrchestratorView {
        OrchestratorView { stage: self.stage, started: self.started@ }
    }
}

impl Orchestrator {
    #[verifier::type_invariant]
    spec fn sound(self) -> bool {
        self@.well_formed()
    }

    /// A run at its start, and its first directive: to synchronise the first
    /// kind.
    pub fn start() -> (out: (Self, Directive))
        ensures
            out.0@ == OrchestratorView::initial(),
            out.0@.well_formed(),
            out.1 == Directive::Run(Kind::Music),
    {
        proof {
            lemma_initial_run_well_formed();
        }
        let orchestrator = Orchestrator {
            stage: Stage::Running(Kind::Music),
            started: Ghost(OrchestratorView::initial().started),
        };
        (orchestrator, Directive::Run(Kind::Music))
    }

    /// The kind that is being synchronised, if one is.
    pub fn running(&self) -> (kind: Option<Kind>)
        ensures
            kind == (match self@.stage {
                Stage::Running(kind) => Some(kind),
                _ => None,
            }),
    {
        match self.stage {
            Stage::Running(kind) => Some(kind),
            _ => None,
        }
    }

    /// Where the run stands.
    pub fn stage(&self) -> (stage: Stage)
        ensures
            stage == self@.stage,
    {
        self.stage
    }

    /// Takes the outcome of the kind that was running and decides how the
    /// run goes on: with the following kind after a success, to its end
    /// after the last kind, and to an abort, with no further kind, after a
    /// failure.
    pub fn kind_ended(self, outcome: Result<(), SyncError>) -> (out: (Self, Directive))
        requires
            self@.stage is Running,
        ensures
            out.0@ == self@.next(outcome),
            out.1 == self@.directive(outcome),
            out.0@.well_formed(),
    {
        proof {
            use_type_invariant(&self);
            lemma_next_run_well_formed(self@, outcome);
        }
        let Orchestrator { stage, started } = self;
        match outcome {
            Err(error) => {
                (Orchestrator { stage: Stage::Aborted, started }, Directive::Abort(error))
            },
            Ok(_) => {
                let following = match stage {
                    Stage::Running(kind) => kind.successor(),
                    _ => None,
                };
                match following {
                    Some(kind) => {
                        let orchestrator = Orchestrator {
                            stage: Stage::Running(kind),
                            started: Ghost(started@.push(kind)),
                        };
                        (orchestrator, Directive::Run(kind))
                    },
                    None => {
                        (Orchestrator { stage: Stage::Complete, started }, Directive::Complete)
                    },
                }
            },
        }
    }
}

} // verus!
