//! The upgrade orchestration: a state machine that sequences storing the
//! upgrade expression, the two evaluator round trips, and the install step.
//!
//! The caller performs each outside operation (the store write, the
//! evaluations, the installer subprocess) and feeds the observed outcome
//! back as an [`Event`]; the machine decides what happens next.  Every
//! decision — what is printed, when the installer may run, when the
//! temporary garbage-collection root is released, and which error ends the
//! attempt — is fixed by [`spec_step`].

use vstd::prelude::*;
use vstd::string::StringExecFns;

use crate::changelog::changelog_report;
use crate::changelog::report_lines;
use crate::changelog::EntryModel;
use crate::changelog::Log;
use crate::error::ErrorModel;
use crate::error::UpgradeError;
use crate::request::build_request;
use crate::request::progress_line;
use crate::request::EvaluationRequest;
use crate::request::RequestModel;
use crate::source::resolve_source;
use crate::source::selected_source;
use crate::source::spec_resolve;
use crate::source::UpgradeTo;
use crate::version::Version;

verus! {

/// What the caller observed from the outside world.
pub enum Event {
    /// The store returned the stable path of the upgrade expression.
    Stored { expr_path: String },
    /// The store could not write the expression.
    StoreFailed { details: String },
    /// The evaluator produced the structured changelog.
    ChangelogEvaluated { log: Log },
    /// The evaluator failed on the changelog attribute.
    ChangelogFailed { details: String },
    /// The evaluator built the package; the caller now holds the build path
    /// and a temporary garbage-collection root keeping it alive.
    Built { build_path: String },
    /// The evaluator failed to build the package attribute.
    BuildFailed { details: String },
    /// The installer ran to completion; `ok` is whether it exited zero.
    InstallExited { ok: bool },
    /// The installer could not be launched at all.
    InstallLaunchFailed,
}

/// The mathematical value of an event.
#[verifier::ext_equal]
pub enum EventModel {
    Stored { expr_path: Seq<char> },
    StoreFailed { details: Seq<char> },
    ChangelogEvaluated { entries: Seq<EntryModel> },
    ChangelogFailed { details: Seq<char> },
    Built { build_path: Seq<char> },
    BuildFailed { details: Seq<char> },
    InstallExited { ok: bool },
    InstallLaunchFailed,
}

impl View for Event {
    type V = EventModel;

    open spec fn view(&self) -> EventModel {
        match self {
            Event::Stored { expr_path } => EventModel::Stored { expr_path: expr_path@ },
            Event::StoreFailed { details } => EventModel::StoreFailed { details: details@ },
            Event::ChangelogEvaluated { log } => EventModel::ChangelogEvaluated { entries: log@ },
            Event::ChangelogFailed { details } => EventModel::ChangelogFailed { details: details@ },
            Event::Built { build_path } => EventModel::Built { build_path: build_path@ },
            Event::BuildFailed { details } => EventModel::BuildFailed { details: details@ },
            Event::InstallExited { ok } => EventModel::InstallExited { ok: *ok },
            Event::InstallLaunchFailed => EventModel::InstallLaunchFailed,
        }
    }
}

/// The single outside operation the caller must perform next.
pub enum Op {
    /// Write the upgrade expression to the content-addressable store and
    /// report the resulting stable path.
    StoreExpression,
    /// Evaluate the request's `changelog` attribute to a structured value.
    EvaluateChangelog { request: EvaluationRequest },
    /// Evaluate the request's `package` attribute as a buildable path,
    /// acquiring a temporary garbage-collection root for the result.
    BuildPackage { request: EvaluationRequest },
    /// Run the installer on the built artifact and report its exit.
    RunInstaller { build_path: String },
    /// Nothing is left to do; the upgrade ended with this result.
    Finish { result: Result<String, UpgradeError> },
}

/// The mathematical value of an operation.
#[verifier::ext_equal]
pub enum OpModel {
    StoreExpression,
    EvaluateChangelog { request: RequestModel },
    BuildPackage { request: RequestModel },
    RunInstaller { build_path: Seq<char> },
    Finish { result: Result<Seq<char>, ErrorModel> },
}

impl View for Op {
    type V = OpModel;

    open spec fn view(&self) -> OpModel {
        match self {
            Op::StoreExpression => OpModel::StoreExpression,
            Op::EvaluateChangelog { request } => OpModel::EvaluateChangelog { request: request@ },
            Op::BuildPackage { request } => OpModel::BuildPackage { request: request@ },
            Op::RunInstaller { build_path } => OpModel::RunInstaller { build_path: build_path@ },
            Op::Finish { result } => OpModel::Finish {
                result: match result {
                    Ok(s) => Ok(s@),
                    Err(e) => Err(e@),
                },
            },
        }
    }
}

/// What the machine asks of its caller after a step: print the lines, then,
/// if `release_gc_root` is set, drop the temporary garbage-collection root
/// of the build — the artifact no longer needs pinning once the installer
/// has run — and finally perform the operation.
pub struct Action {
    pub print: Vec<String>,
    pub release_gc_root: bool,
    pub op: Op,
}

/// The mathematical value of an action.
#[verifier::ext_equal]
pub struct ActionModel {
    pub print: Seq<Seq<char>>,
    pub release_gc_root: bool,
    pub op: OpModel,
}

impl View for Action {
    type V = ActionModel;

    open spec fn view(&self) -> ActionModel {
        ActionModel {
            print: self.print.deep_view(),
            release_gc_root: self.release_gc_root,
            op: self.op@,
        }
    }
}

/// Where the upgrade stands: which outside result the machine waits for.
pub enum Phase {
    /// Waiting for the store to hold the upgrade expression.
    Storing,
    /// Waiting for the changelog evaluation of the stored expression.
    FetchingChangelog { expr_path: String },
    /// Waiting for the package build of the stored expression.
    Building { expr_path: String },
    /// Waiting for the installer's exit; the caller holds the temporary
    /// garbage-collection root of the build.
    Installing,
    /// The upgrade ended; nothing more may happen.
    Finished,
}

/// The mathematical value of a phase.
#[verifier::ext_equal]
pub enum PhaseModel {
    Storing,
    FetchingChangelog { expr_path: Seq<char> },
    Building { expr_path: Seq<char> },
    Installing,
    Finished,
}

impl View for Phase {
    type V = PhaseModel;

    open spec fn view(&self) -> PhaseModel {
        match self {
            Phase::Storing => PhaseModel::Storing,
            Phase::FetchingChangelog { expr_path } => PhaseModel::FetchingChangelog {
                expr_path: expr_path@,
            },
            Phase::Building { expr_path } => PhaseModel::Building { expr_path: expr_path@ },
            Phase::Installing => PhaseModel::Installing,
            Phase::Finished => PhaseModel::Finished,
        }
    }
}

/// The upgrade orchestration state.
pub struct Upgrader {
    /// The resolved upgrade source identifier.
    pub target: String,
    /// The running build's version: the changelog filter threshold.
    pub current: Version,
    /// Which outside result the machine waits for.
    pub phase: Phase,
}

/// The mathematical value of the machine.
#[verifier::ext_equal]
pub struct UpgraderModel {
    pub target: Seq<char>,
    pub current: Version,
    pub phase: PhaseModel,
}

impl View for Upgrader {
    type V = UpgraderModel;

    open spec fn view(&self) -> UpgraderModel {
        UpgraderModel { target: self.target@, current: self.current, phase: self.phase@ }
    }
}

/// The line announcing the build round trip.
pub open spec fn building_line() -> Seq<char> {
    "Building ..."@
}

/// The success message of a finished upgrade, with its leading blank line.
pub open spec fn success_message() -> Seq<char> {
    "\nUpgrade successful."@
}

/// The message of an install that ran and exited non-zero.
pub open spec fn install_failed_message() -> Seq<char> {
    "\nError: nix-env command was not successful!"@
}

/// The message of an installer that could not be launched.
pub open spec fn install_launch_message() -> Seq<char> {
    "Error: failed to execute nix-env --install"@
}

/// The message of a failed store write.
pub open spec fn store_failed_message(details: Seq<char>) -> Seq<char> {
    "could not write the upgrade expression to the store: "@ + details
}

/// The message of a failed changelog evaluation.
pub open spec fn changelog_failed_message(details: Seq<char>) -> Seq<char> {
    "Failed to fetch the changelog! Please report a bug!\n"@ + details
}

/// The message of a failed package build.
pub open spec fn build_failed_message(details: Seq<char>) -> Seq<char> {
    "Failed to build the update! Please report a bug!\n"@ + details
}

/// The transition relation of the machine: from a state and an observed
/// event to the next state and the action asked of the caller; `None` where
/// the event cannot answer the pending operation of the phase.
pub open spec fn spec_step(m: UpgraderModel, e: EventModel) -> Option<(UpgraderModel, ActionModel)> {
    match (m.phase, e) {
        (PhaseModel::Storing, EventModel::Stored { expr_path }) => Some(
            (
                UpgraderModel {
                    phase: PhaseModel::FetchingChangelog { expr_path },
                    ..m
                },
                ActionModel {
                    print: seq![progress_line(m.target)],
                    release_gc_root: false,
                    op: OpModel::EvaluateChangelog {
                        request: RequestModel { expr_path, src: m.target },
                    },
                },
            ),
        ),
        (PhaseModel::Storing, EventModel::StoreFailed { details }) => Some(
            (
                UpgraderModel { phase: PhaseModel::Finished, ..m },
                ActionModel {
                    print: Seq::empty(),
                    release_gc_root: false,
                    op: OpModel::Finish {
                        result: Err(ErrorModel::Storage(store_failed_message(details))),
                    },
                },
            ),
        ),
        (
            PhaseModel::FetchingChangelog { expr_path },
            EventModel::ChangelogEvaluated { entries },
        ) => Some(
            (
                UpgraderModel { phase: PhaseModel::Building { expr_path }, ..m },
                ActionModel {
                    print: report_lines(entries, m.current) + seq![
                        progress_line(m.target),
                        building_line(),
                    ],
                    release_gc_root: false,
                    op: OpModel::BuildPackage {
                        request: RequestModel { expr_path, src: m.target },
                    },
                },
            ),
        ),
        (PhaseModel::FetchingChangelog { .. }, EventModel::ChangelogFailed { details }) => Some(
            (
                UpgraderModel { phase: PhaseModel::Finished, ..m },
                ActionModel {
                    print: Seq::empty(),
                    release_gc_root: false,
                    op: OpModel::Finish {
                        result: Err(ErrorModel::Evaluation(changelog_failed_message(details))),
                    },
                },
            ),
        ),
        (PhaseModel::Building { .. }, EventModel::Built { build_path }) => Some(
            (
                UpgraderModel { phase: PhaseModel::Installing, ..m },
                ActionModel {
                    print: Seq::empty(),
                    release_gc_root: false,
                    op: OpModel::RunInstaller { build_path },
                },
            ),
        ),
        (PhaseModel::Building { .. }, EventModel::BuildFailed { details }) => Some(
            (
                UpgraderModel { phase: PhaseModel::Finished, ..m },
                ActionModel {
                    print: Seq::empty(),
                    release_gc_root: false,
                    op: OpModel::Finish {
                        result: Err(ErrorModel::Evaluation(build_failed_message(details))),
                    },
                },
            ),
        ),
        (PhaseModel::Installing, EventModel::InstallExited { ok }) => Some(
            (
                UpgraderModel { phase: PhaseModel::Finished, ..m },
                ActionModel {
                    print: Seq::empty(),
                    release_gc_root: true,
                    op: OpModel::Finish {
                        result: if ok {
                            Ok(success_message())
                        } else {
                            Err(ErrorModel::Install(install_failed_message()))
                        },
                    },
                },
            ),
        ),
        (PhaseModel::Installing, EventModel::InstallLaunchFailed) => Some(
            (
                UpgraderModel { phase: PhaseModel::Finished, ..m },
                ActionModel {
                    print: Seq::empty(),
                    release_gc_root: true,
                    op: OpModel::Finish {
                        result: Err(ErrorModel::Install(install_launch_message())),
                    },
                },
            ),
        ),
        _ => None,
    }
}

impl Upgrader {
    /// Begin an upgrade toward the chosen source for a tool running at
    /// version `current`.  Resolving the source is the only step that can
    /// fail here; on success the first action asks the caller to store the
    /// upgrade expression.
    pub fn new(t: UpgradeTo, current: Version) -> (r: Result<(Upgrader, Action), UpgradeError>)
        ensures
            match spec_resolve(selected_source(t)) {
                Some(id) => r matches Ok(p) && p.0@ == (UpgraderModel {
                    target: id,
                    current,
                    phase: PhaseModel::Storing,
                }) && p.1@ == (ActionModel {
                    print: Seq::empty(),
                    release_gc_root: false,
                    op: OpModel::StoreExpression,
                }),
                None => r matches Err(e) && e@ == ErrorModel::Configuration(
                    crate::source::not_utf8_message(),
                ),
            },
    {
        match resolve_source(t) {
            Ok(target) => {
                let machine = Upgrader { target, current, phase: Phase::Storing };
                let action = Action {
                    print: Vec::new(),
                    release_gc_root: false,
                    op: Op::StoreExpression,
                };
                proof {
                    assert(action@.print =~= Seq::<Seq<char>>::empty());
                }
                Ok((machine, action))
            },
            Err(e) => Err(e),
        }
    }

    /// One transition: answer the pending outside operation with what it
    /// produced; the machine moves on and asks for the next operation.
    pub fn step(&mut self, e: Event) -> (a: Action)
        requires
            spec_step(old(self)@, e@) is Some,
        ensures
            Some((final(self)@, a@)) == spec_step(old(self)@, e@),
    {
        let ghost ev = e@;
        match e {
            Event::Stored { expr_path } => {
                let (request, line) = build_request(&expr_path, &self.target);
                let mut print: Vec<String> = Vec::new();
                print.push(line);
                self.phase = Phase::FetchingChangelog { expr_path };
                let act = Action {
                    print,
                    release_gc_root: false,
                    op: Op::EvaluateChangelog { request },
                };
                proof {
                    let (m2, a2) = spec_step(old(self)@, ev)->0;
                    assert(act@.print =~= a2.print);
                    assert(act@ =~= a2);
                    assert(self@ =~= m2);
                }
                act
            },
            Event::StoreFailed { details } => {
                self.phase = Phase::Finished;
                let mut msg = String::from_str(
                    "could not write the upgrade expression to the store: ",
                );
                msg.append(details.as_str());
                let act = Action {
                    print: Vec::new(),
                    release_gc_root: false,
                    op: Op::Finish { result: Err(UpgradeError::Storage(msg)) },
                };
                proof {
                    let (m2, a2) = spec_step(old(self)@, ev)->0;
                    assert(act@.print =~= a2.print);
                    assert(act@ =~= a2);
                    assert(self@ =~= m2);
                }
                act
            },
            Event::ChangelogEvaluated { log } => {
                let expr_path = match &self.phase {
                    Phase::FetchingChangelog { expr_path } => expr_path.clone(),
                    _ => vstd::pervasive::unreached(),
                };
                let mut print = changelog_report(&log, &self.current);
                let (request, line) = build_request(&expr_path, &self.target);
                print.push(line);
                print.push(String::from_str("Building ..."));
                self.phase = Phase::Building { expr_path };
                let act = Action {
                    print,
                    release_gc_root: false,
                    op: Op::BuildPackage { request },
                };
                proof {
                    let (m2, a2) = spec_step(old(self)@, ev)->0;
                    assert(act@.print =~= a2.print);
                    assert(act@ =~= a2);
                    assert(self@ =~= m2);
                }
                act
            },
            Event::ChangelogFailed { details } => {
                self.phase = Phase::Finished;
                let mut msg = String::from_str(
                    "Failed to fetch the changelog! Please report a bug!\n",
                );
                msg.append(details.as_str());
                let act = Action {
                    print: Vec::new(),
                    release_gc_root: false,
                    op: Op::Finish { result: Err(UpgradeError::Evaluation(msg)) },
                };
                proof {
                    let (m2, a2) = spec_step(old(self)@, ev)->0;
                    assert(act@.print =~= a2.print);
                    assert(act@ =~= a2);
                    assert(self@ =~= m2);
                }
                act
            },
            Event::Built { build_path } => {
                self.phase = Phase::Installing;
                let act = Action {
                    print: Vec::new(),
                    release_gc_root: false,
                    op: Op::RunInstaller { build_path },
                };
                proof {
                    let (m2, a2) = spec_step(old(self)@, ev)->0;
                    assert(act@.print =~= a2.print);
                    assert(act@ =~= a2);
                    assert(self@ =~= m2);
                }
                act
            },
            Event::BuildFailed { details } => {
                self.phase = Phase::Finished;
                let mut msg = String::from_str(
                    "Failed to build the update! Please report a bug!\n",
                );
                msg.append(details.as_str());
                let act = Action {
                    print: Vec::new(),
                    release_gc_root: false,
                    op: Op::Finish { result: Err(UpgradeError::Evaluation(msg)) },
                };
                proof {
                    let (m2, a2) = spec_step(old(self)@, ev)->0;
                    assert(act@.print =~= a2.print);
                    assert(act@ =~= a2);
                    assert(self@ =~= m2);
                }
                act
            },
            Event::InstallExited { ok } => {
                self.phase = Phase::Finished;
                let result: Result<String, UpgradeError> = if ok {
                    Ok(String::from_str("\nUpgrade successful."))
                } else {
                    Err(
                        UpgradeError::Install(
                            String::from_str("\nError: nix-env command was not successful!"),
                        ),
                    )
                };
                let act = Action { print: Vec::new(), release_gc_root: true, op: Op::Finish {
                    result,
                } };
                proof {
                    let (m2, a2) = spec_step(old(self)@, ev)->0;
                    assert(act@.print =~= a2.print);
                    assert(act@ =~= a2);
                    assert(self@ =~= m2);
                }
                act
            },
            Event::InstallLaunchFailed => {
                self.phase = Phase::Finished;
                let act = Action {
                    print: Vec::new(),
                    release_gc_root: true,
                    op: Op::Finish {
                        result: Err(
                            UpgradeError::Install(
                                String::from_str("Error: failed to execute nix-env --install"),
                            ),
                        ),
                    },
                };
                proof {
                    let (m2, a2) = spec_step(old(self)@, ev)->0;
                    assert(act@.print =~= a2.print);
                    assert(act@ =~= a2);
                    assert(self@ =~= m2);
                }
                act
            },
        }
    }
}

/// The machine and the actions emitted when the events are fed in order
/// from state `m`; `None` if some event does not answer its phase.
pub open spec fn spec_run(m: UpgraderModel, events: Seq<EventModel>) -> Option<
    (UpgraderModel, Seq<ActionModel>),
>
    decreases events.len(),
{
    if events.len() == 0 {
        Some((m, Seq::empty()))
    } else {
        match spec_step(m, events[0]) {
            Some(sa) => match spec_run(sa.0, events.drop_first()) {
                Some(fr) => Some((fr.0, seq![sa.1] + fr.1)),
                None => None,
            },
            None => None,
        }
    }
}

/// The installer runs only as the immediate consequence of a successful
/// build: a run whose events contain no `Built` never asks the caller to
/// run the installer.
pub proof fn lemma_no_build_no_install(m: UpgraderModel, events: Seq<EventModel>)
    requires
        !(m.phase is Installing),
        spec_run(m, events) is Some,
        forall|i: int| 0 <= i < events.len() ==> !((#[trigger] events[i]) is Built),
    ensures
        forall|j: int|
            0 <= j < (spec_run(m, events)->0).1.len() ==> !((#[trigger] (spec_run(
                m,
                events,
            )->0).1[j]).op is RunInstaller),
    decreases events.len(),
{
    if events.len() > 0 {
        let e0 = events[0];
        assert(!(e0 is Built));
        let (m1, a) = spec_step(m, e0)->0;
        assert(!(a.op is RunInstaller));
        assert(!(m1.phase is Installing));
        let rest_events = events.drop_first();
        assert(forall|i: int|
            0 <= i < rest_events.len() ==> !((#[trigger] rest_events[i]) is Built));
        lemma_no_build_no_install(m1, rest_events);
        let rest = (spec_run(m1, rest_events)->0).1;
        let all = (spec_run(m, events)->0).1;
        assert(all =~= seq![a] + rest);
        assert forall|j: int| 0 <= j < all.len() implies !(all[j].op is RunInstaller) by {
            if j > 0 {
                assert(all[j] == rest[j - 1]);
            }
        }
    }
}

/// Once the installer has been launched, its exit — successful or not —
/// finishes the upgrade and releases the garbage-collection root; an exit
/// status of zero is the only way the upgrade succeeds, and a non-zero exit
/// is reported as an install error.
pub proof fn lemma_install_exit_releases_root(m: UpgraderModel, ok: bool)
    requires
        m.phase is Installing,
    ensures
        ({
            let (m2, a) = spec_step(m, EventModel::InstallExited { ok })->0;
            &&& m2.phase is Finished
            &&& a.release_gc_root
            &&& (ok ==> a.op == OpModel::Finish {
                result: Ok::<Seq<char>, ErrorModel>(success_message()),
            })
            &&& (!ok ==> a.op == OpModel::Finish {
                result: Err::<Seq<char>, ErrorModel>(
                    ErrorModel::Install(install_failed_message()),
                ),
            })
        }),
{
}

/// The garbage-collection root is released exactly when the installer's
/// outcome is consumed — never before the build path has been handed to the
/// install step, and always once the install step is over.
pub proof fn lemma_release_only_after_install_launched(m: UpgraderModel, e: EventModel)
    requires
        spec_step(m, e) is Some,
    ensures
        (spec_step(m, e)->0).1.release_gc_root <==> m.phase is Installing,
{
}

/// Every outcome is terminal for the invocation: once the machine has
/// finished, no event moves it again — there are no retries.
pub proof fn lemma_finished_is_terminal(m: UpgraderModel, e: EventModel)
    requires
        m.phase is Finished,
    ensures
        spec_step(m, e) is None,
{
}

/// An installer that cannot even be launched also finishes the upgrade,
/// also releases the garbage-collection root, and reports an install error
/// with its own message.
pub proof fn lemma_install_launch_failure_releases_root(m: UpgraderModel)
    requires
        m.phase is Installing,
    ensures
        ({
            let (m2, a) = spec_step(m, EventModel::InstallLaunchFailed)->0;
            &&& m2.phase is Finished
            &&& a.release_gc_root
            &&& a.op == OpModel::Finish {
                result: Err::<Seq<char>, ErrorModel>(
                    ErrorModel::Install(install_launch_message()),
                ),
            }
        }),
{
}

} // verus!
