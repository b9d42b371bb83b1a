//! Registering the agent: what has to happen on the host, in which order,
//! and what each answer of the host leads to.
//!
//! Nothing here touches the host. A `Registrar` hands out one effect at a
//! time; the caller performs it and reports how it went.

use crate::config::{LaunchConfig, LaunchConfigView};
use crate::error::{RunError, RunErrorView};
use crate::plist::{plist_file, PlistFile, PlistFileView};
use vstd::prelude::*;

verus! {

/// The service manager's command.
pub const SERVICE_MANAGER: &'static str = "launchctl";

/// Something for the caller to do on the host.
#[derive(Debug, Clone, PartialEq, Eq)]
pub enum Effect {
    /// Create the directory `path` and the directories above it, where
    /// they do not exist yet.
    CreateDir { path: String },
    /// Write `contents` to the file `path`, in place of what it held.
    WriteFile { path: String, contents: String },
    /// Run `program` with `args` and wait until it exits.
    Run { program: String, args: Vec<String> },
}

/// An `Effect` with its strings as sequences of characters.
pub enum EffectView {
    CreateDir { path: Seq<char> },
    WriteFile { path: Seq<char>, contents: Seq<char> },
    Run { program: Seq<char>, args: Seq<Seq<char>> },
}

impl View for Effect {
    type V = EffectView;

    open spec fn view(&self) -> EffectView {
        match self {
            Effect::CreateDir { path } => EffectView::CreateDir { path: path@ },
            Effect::WriteFile { path, contents } => EffectView::WriteFile {
                path: path@,
                contents: contents@,
            },
            Effect::Run { program, args } => EffectView::Run {
                program: program@,
                args: args.deep_view(),
            },
        }
    }
}

/// How the host answered an effect.
#[derive(Debug, Clone, PartialEq, Eq)]
pub enum Outcome {
    /// It is done; a process that was run has exited with status zero.
    Done,
    /// The host could not do it: the directory was not created, the file
    /// not written, the process not started. `detail` holds its reason.
    Refused { detail: String },
    /// The process ran and exited with another status than zero.
    Failed,
}

/// How far a registration has come: the step that is due.
#[derive(Debug, Clone, Copy, PartialEq, Eq, Structural)]
pub enum Stage {
    LogDir,
    PlistDir,
    Write,
    Load,
    Finished,
}

/// A registration in progress.
#[derive(Debug, Clone, PartialEq, Eq)]
pub struct Registrar {
    stage: Stage,
    log_dir: String,
    plist_dir: String,
    file: PlistFile,
}

/// A `Registrar` with its strings as sequences of characters.
pub struct RegistrarView {
    pub stage: Stage,
    pub log_dir: Seq<char>,
    pub plist_dir: Seq<char>,
    pub file: PlistFileView,
}

impl View for Registrar {
    type V = RegistrarView;

    closed spec fn view(&self) -> RegistrarView {
        RegistrarView {
            stage: self.stage,
            log_dir: self.log_dir@,
            plist_dir: self.plist_dir@,
            file: self.file@,
        }
    }
}

impl Stage {
    /// The stage that follows when this one went well.
    pub open spec fn next(self) -> Stage {
        match self {
            Stage::LogDir => Stage::PlistDir,
            Stage::PlistDir => Stage::Write,
            Stage::Write => Stage::Load,
            Stage::Load => Stage::Finished,
            Stage::Finished => Stage::Finished,
        }
    }
}

impl RegistrarView {
    /// The effect that is due: the log directory, the descriptor
    /// directory, the descriptor itself, then the service manager's
    /// `load -w` on the descriptor. Nothing is due once all is done or
    /// one step has failed.
    pub open spec fn pending(self) -> Option<EffectView> {
        match self.stage {
            Stage::LogDir => Some(EffectView::CreateDir { path: self.log_dir }),
            Stage::PlistDir => Some(EffectView::CreateDir { path: self.plist_dir }),
            Stage::Write => Some(
                EffectView::WriteFile { path: self.file.filepath, contents: self.file.contents },
            ),
            Stage::Load => Some(
                EffectView::Run {
                    program: SERVICE_MANAGER@,
                    args: seq!["load"@, "-w"@, self.file.filepath],
                },
            ),
            Stage::Finished => None,
        }
    }

    /// What the host refused when it refused the effect that is due: the
    /// directory, the file, or the command.
    pub open spec fn refused_path(self) -> Seq<char> {
        match self.stage {
            Stage::LogDir => self.log_dir,
            Stage::PlistDir => self.plist_dir,
            Stage::Write => self.file.filepath,
            Stage::Load => SERVICE_MANAGER@,
            Stage::Finished => Seq::empty(),
        }
    }

    /// The effects that are still to come if every one of them goes well.
    pub open spec fn remaining(self) -> Seq<EffectView>
        decreases
            (match self.stage {
                Stage::LogDir => 4nat,
                Stage::PlistDir => 3nat,
                Stage::Write => 2nat,
                Stage::Load => 1nat,
                Stage::Finished => 0nat,
            }),
    {
        match self.pending() {
            Some(effect) => seq![effect] + self.at(self.stage.next()).remaining(),
            None => Seq::empty(),
        }
    }

    /// The same registration at another stage.
    pub open spec fn at(self, stage: Stage) -> RegistrarView {
        RegistrarView { stage, ..self }
    }

    /// The error that an answer of the host leads to at this point, if it
    /// leads to one.
    pub open spec fn failure(self, outcome: Outcome) -> Option<RunErrorView> {
        match self.stage {
            Stage::Finished => None,
            _ => match outcome {
                Outcome::Done => None,
                Outcome::Refused { detail } => Some(
                    RunErrorView::IoError { path: self.refused_path(), detail: detail@ },
                ),
                Outcome::Failed => Some(RunErrorView::RegistrationFailed),
            },
        }
    }
}

impl Registrar {
    /// A registration that has yet to begin.
    pub fn new(log_dir: String, plist_dir: String, file: PlistFile) -> (registrar: Registrar)
        ensures
            registrar@ == (RegistrarView {
                stage: Stage::LogDir,
                log_dir: log_dir@,
                plist_dir: plist_dir@,
                file: file@,
            }),
    {
        Registrar { stage: Stage::LogDir, log_dir, plist_dir, file }
    }

    /// The effect that is due, or `None` when the registration is over.
    pub fn pending(&self) -> (effect: Option<Effect>)
        ensures
            match effect {
                Some(e) => self@.pending() == Some(e@),
                None => self@.pending() is None,
            },
    {
        match self.stage {
            Stage::LogDir => Some(Effect::CreateDir { path: self.log_dir.clone() }),
            Stage::PlistDir => Some(Effect::CreateDir { path: self.plist_dir.clone() }),
            Stage::Write => Some(
                Effect::WriteFile {
                    path: self.file.filepath.clone(),
                    contents: self.file.contents.clone(),
                },
            ),
            Stage::Load => {
                let mut args: Vec<String> = Vec::new();
                args.push("load".to_owned());
                args.push("-w".to_owned());
                args.push(self.file.filepath.clone());
                assert(args.deep_view() =~= seq!["load"@, "-w"@, self.file.filepath@]);
                Some(Effect::Run { program: SERVICE_MANAGER.to_owned(), args })
            },
            Stage::Finished => None,
        }
    }

    /// Takes the host's answer to the effect that was due.
    ///
    /// After `Done` the next effect is due. Any other answer ends the
    /// registration with an error, and what was done before stays as it
    /// is. Once the registration is over, answers change nothing.
    pub fn advance(&mut self, outcome: Outcome) -> (result: Result<(), RunError>)
        ensures
            match result {
                Ok(()) => old(self)@.failure(outcome) is None && final(self)@ == old(self)@.at(
                    old(self)@.stage.next(),
                ),
                Err(e) => old(self)@.failure(outcome) == Some(e@) && final(self)@ == old(
                    self,
                )@.at(Stage::Finished),
            },
    {
        let path: String = match self.stage {
            Stage::LogDir => self.log_dir.clone(),
            Stage::PlistDir => self.plist_dir.clone(),
            Stage::Write => self.file.filepath.clone(),
            Stage::Load => SERVICE_MANAGER.to_owned(),
            Stage::Finished => {
                return Ok(());
            },
        };
        match outcome {
            Outcome::Done => {
                self.stage = match self.stage {
                    Stage::LogDir => Stage::PlistDir,
                    Stage::PlistDir => Stage::Write,
                    Stage::Write => Stage::Load,
                    _ => Stage::Finished,
                };
                Ok(())
            },
            Outcome::Refused { detail } => {
                self.stage = Stage::Finished;
                Err(RunError::IoError { path, detail })
            },
            Outcome::Failed => {
                self.stage = Stage::Finished;
                Err(RunError::RegistrationFailed)
            },
        }
    }
}

/// What a run does once the configuration stands.
#[derive(Debug, Clone, PartialEq, Eq)]
pub enum Plan {
    /// Show the descriptor, and do nothing on the host.
    DryRun(PlistFile),
    /// Register the agent.
    Register(Registrar),
}

/// A `Plan` with its strings as sequences of characters.
pub enum PlanView {
    DryRun(PlistFileView),
    Register(RegistrarView),
}

impl View for Plan {
    type V = PlanView;

    open spec fn view(&self) -> PlanView {
        match self {
            Plan::DryRun(file) => PlanView::DryRun(file@),
            Plan::Register(registrar) => PlanView::Register(registrar@),
        }
    }
}

impl PlanView {
    /// Everything that the plan asks to be done on the host, if all of
    /// it goes well.
    pub open spec fn effects(self) -> Seq<EffectView> {
        match self {
            PlanView::DryRun(_) => Seq::empty(),
            PlanView::Register(registrar) => registrar.remaining(),
        }
    }
}

/// The plan for a configuration: its descriptor for a dry run, else a
/// registration that begins with the log directory; or the reason why the
/// descriptor cannot be had.
pub open spec fn plan_of(config: LaunchConfigView, dry_run: bool) -> Result<
    PlanView,
    RunErrorView,
> {
    match plist_file(config) {
        Err(e) => Err(e),
        Ok(file) => if dry_run {
            Ok(PlanView::DryRun(file))
        } else {
            Ok(
                PlanView::Register(
                    RegistrarView {
                        stage: Stage::LogDir,
                        log_dir: config.dirs.log_dir->0,
                        plist_dir: config.dirs.plist_dir->0,
                        file,
                    },
                ),
            )
        },
    }
}

/// A dry run leaves the host alone: its plan asks for no directory, no
/// file and no process.
pub proof fn law_dry_run_has_no_effects(config: LaunchConfigView)
    ensures
        plan_of(config, true) matches Ok(p) ==> p is DryRun && p.effects()
            == Seq::<EffectView>::empty(),
{
}

/// A registration asks for four things, in this order: the log directory,
/// the descriptor directory, the descriptor in its file, and the service
/// manager's `load -w` on that file.
pub proof fn law_registration_order(config: LaunchConfigView)
    ensures
        plan_of(config, false) matches Ok(p) ==> p is Register && p.effects() == seq![
            EffectView::CreateDir { path: config.dirs.log_dir->0 },
            EffectView::CreateDir { path: config.dirs.plist_dir->0 },
            EffectView::WriteFile {
                path: plist_file(config)->Ok_0.filepath,
                contents: plist_file(config)->Ok_0.contents,
            },
            EffectView::Run {
                program: SERVICE_MANAGER@,
                args: seq!["load"@, "-w"@, plist_file(config)->Ok_0.filepath],
            },
        ],
{
    if plan_of(config, false) is Ok {
        let p = plan_of(config, false)->Ok_0;
        let r = p->Register_0;
        reveal_with_fuel(RegistrarView::remaining, 5);
        assert(r.remaining() =~= seq![
            r.pending()->0,
            r.at(Stage::PlistDir).pending()->0,
            r.at(Stage::Write).pending()->0,
            r.at(Stage::Load).pending()->0,
        ]);
    }
}

/// The first failure is the last step: whatever the host answers with
/// but `Done` leaves nothing to be done.
pub proof fn law_failure_ends_registration(registrar: RegistrarView, outcome: Outcome)
    requires
        registrar.failure(outcome) is Some,
    ensures
        registrar.at(Stage::Finished).pending() is None,
        registrar.at(Stage::Finished).remaining() == Seq::<EffectView>::empty(),
{
}

/// Decides what a run does: the descriptor is rendered either way, and a
/// dry run stops there.
pub fn plan(config: &LaunchConfig, dry_run: bool) -> (plan: Result<Plan, RunError>)
    ensures
        match plan {
            Ok(p) => plan_of(config@, dry_run) == Ok::<PlanView, RunErrorView>(p@),
            Err(e) => plan_of(config@, dry_run) == Err::<PlanView, RunErrorView>(e@),
        },
{
    let file = match PlistFile::from(config) {
        Ok(file) => file,
        Err(e) => {
            return Err(e);
        },
    };
    if dry_run {
        return Ok(Plan::DryRun(file));
    }
    match (config.dirs.log_dir.to_text(), config.dirs.plist_dir.to_text()) {
        (Some(log_dir), Some(plist_dir)) => Ok(
            Plan::Register(Registrar::new(log_dir, plist_dir, file)),
        ),
        _ => Err(RunError::InvalidFilepath),
    }
}

} // verus!
