//! The mode orchestrator.
//!
//! A run goes through its stages once: the channel is checked, the run is
//! announced, the source and the sink are opened, the descrambling stage is
//! attached where the mode asks for it, cancellation is armed, the copy runs
//! (or, when only the signal is watched, readings are emitted until an
//! interrupt), and the result is reported. The orchestrator performs none of this itself. It
//! hands its driver one [`Command`] at a time and takes the driver's
//! [`Feedback`]; the spec function [`transition`] fixes what follows what.
//!
//! Failures before the copy are fatal: they are classified, logged and end
//! the run with status 1. Whatever the copy ends with, the run then ends with
//! status 0, since a requested stop is an ordinary way for a recording to
//! end.

use vstd::prelude::*;
use vstd::string::*;

use crate::cancel::plan_for;
use crate::cancel::ArmPlan;
use crate::diagnostics::channel_invalid_text;
use crate::diagnostics::diagnosis;
use crate::diagnostics::Classifier;
use crate::diagnostics::Diagnostic;
use crate::diagnostics::DiagnosticView;
use crate::diagnostics::Failure;
use crate::diagnostics::FailureView;
use crate::diagnostics::RuleView;
use crate::engine::CopyConfig;
use crate::engine::PipelineOutcome;
use crate::engine::TransferError;
use crate::mode::standard_settings;
use crate::mode::DecoderSettings;
use crate::mode::OperatingMode;
use crate::mode::POLL_INTERVAL_SECS;

verus! {

/// Exit status of a run that got as far as the copy or the signal watch.
pub const EXIT_OK: i32 = 0;

/// Exit status of a run that failed during setup.
pub const EXIT_SETUP_FAILED: i32 = 1;

/// How loud a notice is.
#[derive(Clone, Copy, Debug, PartialEq, Eq)]
pub enum Severity {
    Info,
    Error,
}

/// A line for the log.
#[derive(Clone, Debug, PartialEq, Eq)]
pub enum Notice {
    /// Setup failed; the diagnostic says why.
    SetupFailed(Diagnostic),
    /// The source reached its end after `bytes` bytes.
    Completed { bytes: u64 },
    /// The copy was stopped on request after `bytes` bytes.
    Aborted { bytes: u64 },
    /// The copy failed. The driver adds the error's own text.
    TransferFailed(TransferError),
    /// The run is over.
    Finished,
}

pub enum NoticeView {
    SetupFailed(DiagnosticView),
    Completed { bytes: u64 },
    Aborted { bytes: u64 },
    TransferFailed(TransferError),
    Finished,
}

impl View for Notice {
    type V = NoticeView;

    open spec fn view(&self) -> NoticeView {
        match *self {
            Notice::SetupFailed(d) => NoticeView::SetupFailed(d@),
            Notice::Completed { bytes } => NoticeView::Completed { bytes },
            Notice::Aborted { bytes } => NoticeView::Aborted { bytes },
            Notice::TransferFailed(e) => NoticeView::TransferFailed(e),
            Notice::Finished => NoticeView::Finished,
        }
    }
}

/// The severity of a notice: failures are errors, everything else is
/// information.
pub open spec fn severity_of(notice: NoticeView) -> Severity {
    match notice {
        NoticeView::SetupFailed(_) => Severity::Error,
        NoticeView::TransferFailed(_) => Severity::Error,
        _ => Severity::Info,
    }
}

/// The text of a notice.
pub open spec fn headline_of(notice: NoticeView) -> Seq<char> {
    match notice {
        NoticeView::SetupFailed(d) => d.message,
        NoticeView::Completed { .. } => "Stream has gracefully reached its end."@,
        NoticeView::Aborted { .. } => "Stopped on request."@,
        NoticeView::TransferFailed(_) => "The transfer failed."@,
        NoticeView::Finished => "Finished."@,
    }
}

/// The notice that reports how a copy ended.
pub open spec fn notice_of(outcome: PipelineOutcome) -> NoticeView {
    match outcome {
        PipelineOutcome::Completed(bytes) => NoticeView::Completed { bytes },
        PipelineOutcome::Aborted(bytes) => NoticeView::Aborted { bytes },
        PipelineOutcome::Failed(error) => NoticeView::TransferFailed(error),
    }
}

impl Notice {
    /// How loud the notice is.
    pub fn severity(&self) -> (severity: Severity)
        ensures
            severity == severity_of(self@),
    {
        match self {
            Notice::SetupFailed(_) => Severity::Error,
            Notice::TransferFailed(_) => Severity::Error,
            _ => Severity::Info,
        }
    }

    /// The text to log.
    pub fn headline(&self) -> (text: String)
        ensures
            text@ == headline_of(self@),
    {
        match self {
            Notice::SetupFailed(d) => d.message.clone(),
            Notice::Completed { .. } => String::from_str("Stream has gracefully reached its end."),
            Notice::Aborted { .. } => String::from_str("Stopped on request."),
            Notice::TransferFailed(_) => String::from_str("The transfer failed."),
            Notice::Finished => String::from_str("Finished."),
        }
    }

    /// The notice that reports how a copy ended.
    pub fn for_outcome(outcome: PipelineOutcome) -> (notice: Notice)
        ensures
            notice@ == notice_of(outcome),
    {
        match outcome {
            PipelineOutcome::Completed(bytes) => Notice::Completed { bytes },
            PipelineOutcome::Aborted(bytes) => Notice::Aborted { bytes },
            PipelineOutcome::Failed(error) => Notice::TransferFailed(error),
        }
    }
}

/// What the driver must do next.
#[derive(Clone, Debug, PartialEq, Eq)]
pub enum Command {
    /// Write the banner of the mode to the log.
    Announce,
    /// Open the tuner of the mode and tune it to the mode's channel.
    OpenTuner,
    /// Open the source file of the mode.
    OpenFile,
    /// Open the output of the mode.
    OpenSink,
    /// Put the descrambling stage in front of the source.
    AttachDecoder(DecoderSettings),
    /// Start what the plan names.
    Arm(ArmPlan),
    /// Run a copy engine with this buffer to its end.
    RunCopy(CopyConfig),
    /// Sleep for `secs` seconds, then look at the abort flag.
    Sleep { secs: u64 },
    /// Print the tuner's current signal quality.
    EmitSignalQuality,
    /// Write the notice to the log.
    Log(Notice),
    /// End the process with this status.
    Exit { status: i32 },
}

pub enum CommandView {
    Announce,
    OpenTuner,
    OpenFile,
    OpenSink,
    AttachDecoder(DecoderSettings),
    Arm(ArmPlan),
    RunCopy(CopyConfig),
    Sleep { secs: u64 },
    EmitSignalQuality,
    Log(NoticeView),
    Exit { status: i32 },
}

impl View for Command {
    type V = CommandView;

    open spec fn view(&self) -> CommandView {
        match *self {
            Command::Announce => CommandView::Announce,
            Command::OpenTuner => CommandView::OpenTuner,
            Command::OpenFile => CommandView::OpenFile,
            Command::OpenSink => CommandView::OpenSink,
            Command::AttachDecoder(settings) => CommandView::AttachDecoder(settings),
            Command::Arm(plan) => CommandView::Arm(plan),
            Command::RunCopy(config) => CommandView::RunCopy(config),
            Command::Sleep { secs } => CommandView::Sleep { secs },
            Command::EmitSignalQuality => CommandView::EmitSignalQuality,
            Command::Log(notice) => CommandView::Log(notice@),
            Command::Exit { status } => CommandView::Exit { status },
        }
    }
}

/// What came of the last command.
#[derive(Clone, Debug, PartialEq, Eq)]
pub enum Feedback {
    SourceOpened,
    SourceOpenFailed(Failure),
    SinkOpened,
    SinkOpenFailed(Failure),
    DecoderAttached,
    /// The descrambling stage could not be set up.
    DecoderFailed(Failure),
    Armed,
    CopyFinished(PipelineOutcome),
    /// The sleep is over; `abort_requested` is the abort flag after it.
    Woke { abort_requested: bool },
    Emitted,
    Logged,
}

pub enum FeedbackView {
    SourceOpened,
    SourceOpenFailed(FailureView),
    SinkOpened,
    SinkOpenFailed(FailureView),
    DecoderAttached,
    DecoderFailed(FailureView),
    Armed,
    CopyFinished(PipelineOutcome),
    Woke { abort_requested: bool },
    Emitted,
    Logged,
}

impl View for Feedback {
    type V = FeedbackView;

    open spec fn view(&self) -> FeedbackView {
        match *self {
            Feedback::SourceOpened => FeedbackView::SourceOpened,
            Feedback::SourceOpenFailed(f) => FeedbackView::SourceOpenFailed(f@),
            Feedback::SinkOpened => FeedbackView::SinkOpened,
            Feedback::SinkOpenFailed(f) => FeedbackView::SinkOpenFailed(f@),
            Feedback::DecoderAttached => FeedbackView::DecoderAttached,
            Feedback::DecoderFailed(f) => FeedbackView::DecoderFailed(f@),
            Feedback::Armed => FeedbackView::Armed,
            Feedback::CopyFinished(outcome) => FeedbackView::CopyFinished(outcome),
            Feedback::Woke { abort_requested } => FeedbackView::Woke { abort_requested },
            Feedback::Emitted => FeedbackView::Emitted,
            Feedback::Logged => FeedbackView::Logged,
        }
    }
}

/// Where a run stands. Each stage but the last waits for the feedback to one
/// command.
#[derive(Clone, Copy, Debug, PartialEq, Eq)]
pub enum Stage {
    /// The banner is being logged.
    Announcing,
    OpeningSource,
    OpeningSink,
    AttachingDecoder,
    Arming,
    Copying,
    /// Watching the signal: asleep between two readings.
    Sleeping,
    /// Watching the signal: a reading is being printed.
    Emitting,
    /// The outcome of the copy is being logged.
    Reporting,
    /// The last notice is being logged; the run then ends with `status`.
    Closing { status: i32 },
    /// The run has ended.
    Exited { status: i32 },
}

/// The diagnostic for a channel of undefined type.
pub open spec fn invalid_channel_diagnostic() -> DiagnosticView {
    DiagnosticView { message: channel_invalid_text(), actionable: true, fatal: true }
}

/// A setup failure: the diagnostic is logged and the run ends with status 1.
pub open spec fn rejection(diagnostic: DiagnosticView) -> (Stage, CommandView) {
    (
        Stage::Closing { status: EXIT_SETUP_FAILED },
        CommandView::Log(NoticeView::SetupFailed(diagnostic)),
    )
}

/// Arming: the timer only where the mode has a time limit, the interrupt
/// handler always.
pub open spec fn arming(mode: OperatingMode) -> (Stage, CommandView) {
    (Stage::Arming, CommandView::Arm(plan_for(mode.time_limit())))
}

/// How a run begins. A channel of undefined type is rejected before anything
/// else happens; otherwise the run is announced.
pub open spec fn opening(mode: OperatingMode) -> (Stage, CommandView) {
    if mode.channel_rejected() {
        rejection(invalid_channel_diagnostic())
    } else {
        (Stage::Announcing, CommandView::Announce)
    }
}

/// The stage and the command that follow `feedback` in `stage`.
///
/// Feedback that does not answer the command of the stage is a fault of the
/// driver: the run ends with status 1. A run that has ended stays ended.
pub open spec fn transition(
    mode: OperatingMode,
    rules: Seq<RuleView>,
    stage: Stage,
    feedback: FeedbackView,
) -> (Stage, CommandView) {
    match (stage, feedback) {
        (Stage::Exited { status }, _) => (Stage::Exited { status }, CommandView::Exit { status }),
        (Stage::Announcing, FeedbackView::Logged) => if mode.uses_tuner() {
            (Stage::OpeningSource, CommandView::OpenTuner)
        } else {
            (Stage::OpeningSource, CommandView::OpenFile)
        },
        (Stage::OpeningSource, FeedbackView::SourceOpened) => if mode is CheckSignal {
            arming(mode)
        } else {
            (Stage::OpeningSink, CommandView::OpenSink)
        },
        (Stage::OpeningSource, FeedbackView::SourceOpenFailed(failure)) => rejection(
            diagnosis(rules, failure),
        ),
        (Stage::OpeningSink, FeedbackView::SinkOpened) => if mode.decodes() {
            (
                Stage::AttachingDecoder,
                CommandView::AttachDecoder(standard_settings(mode.working_key())),
            )
        } else {
            arming(mode)
        },
        (Stage::OpeningSink, FeedbackView::SinkOpenFailed(failure)) => rejection(
            diagnosis(rules, failure),
        ),
        (Stage::AttachingDecoder, FeedbackView::DecoderAttached) => arming(mode),
        (Stage::AttachingDecoder, FeedbackView::DecoderFailed(failure)) => rejection(
            diagnosis(rules, failure),
        ),
        (Stage::Arming, FeedbackView::Armed) => if mode is CheckSignal {
            (Stage::Sleeping, CommandView::Sleep { secs: POLL_INTERVAL_SECS })
        } else {
            (Stage::Copying, CommandView::RunCopy(CopyConfig::spec_standard()))
        },
        (Stage::Copying, FeedbackView::CopyFinished(outcome)) => (
            Stage::Reporting,
            CommandView::Log(notice_of(outcome)),
        ),
        (Stage::Reporting, FeedbackView::Logged) => (
            Stage::Closing { status: EXIT_OK },
            CommandView::Log(NoticeView::Finished),
        ),
        (Stage::Closing { status }, FeedbackView::Logged) => (
            Stage::Exited { status },
            CommandView::Exit { status },
        ),
        (Stage::Sleeping, FeedbackView::Woke { abort_requested }) => if abort_requested {
            (Stage::Exited { status: EXIT_OK }, CommandView::Exit { status: EXIT_OK })
        } else {
            (Stage::Emitting, CommandView::EmitSignalQuality)
        },
        (Stage::Emitting, FeedbackView::Emitted) => (
            Stage::Sleeping,
            CommandView::Sleep { secs: POLL_INTERVAL_SECS },
        ),
        _ => (
            Stage::Exited { status: EXIT_SETUP_FAILED },
            CommandView::Exit { status: EXIT_SETUP_FAILED },
        ),
    }
}

/// The stage and the last command of a run after the given feedback, taken
/// in order from the start.
pub open spec fn progress(
    mode: OperatingMode,
    rules: Seq<RuleView>,
    feedback: Seq<FeedbackView>,
) -> (Stage, CommandView)
    decreases feedback.len(),
{
    if feedback.len() == 0 {
        opening(mode)
    } else {
        transition(mode, rules, progress(mode, rules, feedback.drop_last()).0, feedback.last())
    }
}

/// The orchestrator of one run.
pub struct Orchestrator {
    mode: OperatingMode,
    classifier: Classifier,
    stage: Stage,
}

impl Orchestrator {
    /// The mode of the run.
    pub closed spec fn spec_mode(self) -> OperatingMode {
        self.mode
    }

    /// The rules that setup failures are classified by.
    pub closed spec fn spec_rules(self) -> Seq<RuleView> {
        self.classifier@
    }

    /// The stage the run is in.
    pub closed spec fn spec_stage(self) -> Stage {
        self.stage
    }

    /// Begins a run and returns the first command.
    pub fn start(mode: OperatingMode, classifier: Classifier) -> (begun: (Orchestrator, Command))
        ensures
            begun.0.spec_mode() == mode,
            begun.0.spec_rules() == classifier@,
            (begun.0.spec_stage(), begun.1@) == opening(mode),
    {
        let rejected = mode.has_rejected_channel();
        if rejected {
            (
                Orchestrator {
                    mode,
                    classifier,
                    stage: Stage::Closing { status: EXIT_SETUP_FAILED },
                },
                Command::Log(Notice::SetupFailed(Diagnostic::invalid_channel())),
            )
        } else {
            (Orchestrator { mode, classifier, stage: Stage::Announcing }, Command::Announce)
        }
    }

    /// The stage the run is in.
    pub fn stage(&self) -> (stage: Stage)
        ensures
            stage == self.spec_stage(),
    {
        self.stage
    }

    /// The mode of the run.
    pub fn mode(&self) -> (mode: &OperatingMode)
        ensures
            *mode == self.spec_mode(),
    {
        &self.mode
    }

    /// The exit status, once the run has ended.
    pub fn exit_status(&self) -> (status: Option<i32>)
        ensures
            status == match self.spec_stage() {
                Stage::Exited { status } => Some(status),
                _ => None,
            },
    {
        match self.stage {
            Stage::Exited { status } => Some(status),
            _ => None,
        }
    }

    fn reject(&mut self, diagnostic: Diagnostic) -> (command: Command)
        ensures
            final(self).spec_mode() == old(self).spec_mode(),
            final(self).spec_rules() == old(self).spec_rules(),
            (final(self).spec_stage(), command@) == rejection(diagnostic@),
    {
        self.stage = Stage::Closing { status: EXIT_SETUP_FAILED };
        Command::Log(Notice::SetupFailed(diagnostic))
    }

    fn arm(&mut self) -> (command: Command)
        ensures
            final(self).spec_mode() == old(self).spec_mode(),
            final(self).spec_rules() == old(self).spec_rules(),
            (final(self).spec_stage(), command@) == arming(old(self).spec_mode()),
    {
        self.stage = Stage::Arming;
        Command::Arm(ArmPlan { timer: self.mode.duration(), interrupt: true })
    }

    fn exit(&mut self, status: i32) -> (command: Command)
        ensures
            final(self).spec_mode() == old(self).spec_mode(),
            final(self).spec_rules() == old(self).spec_rules(),
            final(self).spec_stage() == (Stage::Exited { status }),
            command@ == (CommandView::Exit { status }),
    {
        self.stage = Stage::Exited { status };
        Command::Exit { status }
    }

    /// Takes in the feedback to the last command and returns the next one.
    pub fn advance(&mut self, feedback: Feedback) -> (command: Command)
        ensures
            final(self).spec_mode() == old(self).spec_mode(),
            final(self).spec_rules() == old(self).spec_rules(),
            (final(self).spec_stage(), command@) == transition(
                old(self).spec_mode(),
                old(self).spec_rules(),
                old(self).spec_stage(),
                feedback@,
            ),
    {
        match (self.stage, feedback) {
            (Stage::Exited { status }, _) => Command::Exit { status },
            (Stage::Announcing, Feedback::Logged) => {
                self.stage = Stage::OpeningSource;
                if self.mode.needs_tuner() {
                    Command::OpenTuner
                } else {
                    Command::OpenFile
                }
            },
            (Stage::OpeningSource, Feedback::SourceOpened) => {
                if self.mode.is_check_signal() {
                    self.arm()
                } else {
                    self.stage = Stage::OpeningSink;
                    Command::OpenSink
                }
            },
            (Stage::OpeningSource, Feedback::SourceOpenFailed(failure)) => {
                let diagnostic = self.classifier.classify(&failure);
                self.reject(diagnostic)
            },
            (Stage::OpeningSink, Feedback::SinkOpened) => {
                if self.mode.wants_decoder() {
                    self.stage = Stage::AttachingDecoder;
                    Command::AttachDecoder(DecoderSettings::standard(self.mode.key_pair()))
                } else {
                    self.arm()
                }
            },
            (Stage::OpeningSink, Feedback::SinkOpenFailed(failure)) => {
                let diagnostic = self.classifier.classify(&failure);
                self.reject(diagnostic)
            },
            (Stage::AttachingDecoder, Feedback::DecoderAttached) => self.arm(),
            (Stage::AttachingDecoder, Feedback::DecoderFailed(failure)) => {
                let diagnostic = self.classifier.classify(&failure);
                self.reject(diagnostic)
            },
            (Stage::Arming, Feedback::Armed) => {
                if self.mode.is_check_signal() {
                    self.stage = Stage::Sleeping;
                    Command::Sleep { secs: POLL_INTERVAL_SECS }
                } else {
                    self.stage = Stage::Copying;
                    Command::RunCopy(CopyConfig::standard())
                }
            },
            (Stage::Copying, Feedback::CopyFinished(outcome)) => {
                self.stage = Stage::Reporting;
                Command::Log(Notice::for_outcome(outcome))
            },
            (Stage::Reporting, Feedback::Logged) => {
                self.stage = Stage::Closing { status: EXIT_OK };
                Command::Log(Notice::Finished)
            },
            (Stage::Closing { status }, Feedback::Logged) => self.exit(status),
            (Stage::Sleeping, Feedback::Woke { abort_requested }) => {
                if abort_requested {
                    self.exit(EXIT_OK)
                } else {
                    self.stage = Stage::Emitting;
                    Command::EmitSignalQuality
                }
            },
            (Stage::Emitting, Feedback::Emitted) => {
                self.stage = Stage::Sleeping;
                Command::Sleep { secs: POLL_INTERVAL_SECS }
            },
            _ => self.exit(EXIT_SETUP_FAILED),
        }
    }
}


/// A channel of undefined type never reaches the tuner. Whatever the driver
/// reports, a run whose mode names such a channel issues two kinds of command
/// only: the log line that rejects the channel, and the exit with status 1.
/// Nothing is opened, armed or copied.
pub proof fn undefined_channel_never_reaches_tuner(
    mode: OperatingMode,
    rules: Seq<RuleView>,
    feedback: Seq<FeedbackView>,
)
    requires
        mode.channel_rejected(),
    ensures
        mode is Record || mode is CheckSignal,
        !(progress(mode, rules, feedback).1 is OpenTuner),
        ({
            let (stage, command) = progress(mode, rules, feedback);
            ||| stage == (Stage::Closing { status: EXIT_SETUP_FAILED }) && command
                == CommandView::Log(NoticeView::SetupFailed(invalid_channel_diagnostic()))
            ||| stage == (Stage::Exited { status: EXIT_SETUP_FAILED }) && command == (
            CommandView::Exit { status: EXIT_SETUP_FAILED })
        }),
    decreases feedback.len(),
{
    if feedback.len() > 0 {
        undefined_channel_never_reaches_tuner(mode, rules, feedback.drop_last());
    }
}

/// Which commands a mode can meet. The tuner is opened only right after the
/// banner of a run over a tunable channel; decoding a file never opens it.
/// Watching the signal opens no sink, attaches no decoder and runs no copy;
/// recording and decoding never sleep or emit readings. The decoder is
/// attached only in a mode that decodes, with the mode's working key, and the
/// timer is armed only with the mode's own time limit.
pub proof fn commands_follow_the_mode(
    mode: OperatingMode,
    rules: Seq<RuleView>,
    feedback: Seq<FeedbackView>,
)
    ensures
        ({
            let (stage, command) = progress(mode, rules, feedback);
            &&& command is Announce ==> feedback.len() == 0 && !mode.channel_rejected()
            &&& command is OpenTuner ==> feedback.len() == 1 && mode.uses_tuner()
                && !mode.channel_rejected()
            &&& command is OpenFile ==> feedback.len() == 1 && mode is Decode
            &&& command is OpenSink || command is RunCopy ==> !(mode is CheckSignal)
            &&& command is RunCopy ==> command == CommandView::RunCopy(
                CopyConfig::spec_standard(),
            )
            &&& command is Sleep || command is EmitSignalQuality ==> mode is CheckSignal
            &&& command is AttachDecoder ==> mode.decodes() && command
                == CommandView::AttachDecoder(standard_settings(mode.working_key()))
            &&& command is Arm ==> command == CommandView::Arm(plan_for(mode.time_limit()))
            &&& command is Sleep ==> command == (CommandView::Sleep { secs: POLL_INTERVAL_SECS })
            &&& stage is OpeningSink || stage is AttachingDecoder || stage is Copying || stage
                is Reporting ==> !(mode is CheckSignal)
            &&& stage is Sleeping || stage is Emitting ==> mode is CheckSignal
            &&& stage is AttachingDecoder ==> mode.decodes()
            &&& stage is OpeningSource ==> !mode.channel_rejected() && feedback.len() == 1
            &&& stage is Announcing ==> !mode.channel_rejected() && feedback.len() == 0
        }),
    decreases feedback.len(),
{
    if feedback.len() > 0 {
        commands_follow_the_mode(mode, rules, feedback.drop_last());
    }
}

/// A run ends with status 0 or 1, and an `Exit` command always carries the
/// status of the stage it leaves the run in.
pub proof fn exit_status_is_zero_or_one(
    mode: OperatingMode,
    rules: Seq<RuleView>,
    feedback: Seq<FeedbackView>,
)
    ensures
        ({
            let (stage, command) = progress(mode, rules, feedback);
            &&& stage matches Stage::Exited { status } ==> (status == EXIT_OK || status
                == EXIT_SETUP_FAILED) && command == (CommandView::Exit { status })
            &&& stage matches Stage::Closing { status } ==> status == EXIT_OK || status
                == EXIT_SETUP_FAILED
            &&& command is Exit ==> stage is Exited
        }),
    decreases feedback.len(),
{
    if feedback.len() > 0 {
        exit_status_is_zero_or_one(mode, rules, feedback.drop_last());
    }
}

/// A setup failure is fatal. When the source or the sink cannot be opened, or
/// the descrambling stage cannot be set up, the failure is classified, its
/// diagnostic is logged, and the run ends with status 1 once the line is
/// written. The copy is never started.
pub proof fn setup_failure_is_fatal(
    mode: OperatingMode,
    rules: Seq<RuleView>,
    stage: Stage,
    failure: FailureView,
)
    requires
        stage is OpeningSource || stage is OpeningSink || stage is AttachingDecoder,
    ensures
        ({
            let report = if stage is OpeningSource {
                FeedbackView::SourceOpenFailed(failure)
            } else if stage is OpeningSink {
                FeedbackView::SinkOpenFailed(failure)
            } else {
                FeedbackView::DecoderFailed(failure)
            };
            let (closing, log) = transition(mode, rules, stage, report);
            &&& log == CommandView::Log(NoticeView::SetupFailed(diagnosis(rules, failure)))
            &&& diagnosis(rules, failure).fatal
            &&& transition(mode, rules, closing, FeedbackView::Logged) == (
                Stage::Exited { status: EXIT_SETUP_FAILED },
                CommandView::Exit { status: EXIT_SETUP_FAILED },
            )
        }),
{
}

/// However the copy ends, the run ends with status 0: the outcome is logged,
/// then the closing line, then the exit. A requested stop is no error.
pub proof fn copy_outcome_ends_with_status_zero(
    mode: OperatingMode,
    rules: Seq<RuleView>,
    outcome: PipelineOutcome,
)
    ensures
        ({
            let (reporting, log) = transition(
                mode,
                rules,
                Stage::Copying,
                FeedbackView::CopyFinished(outcome),
            );
            let (closing, last) = transition(mode, rules, reporting, FeedbackView::Logged);
            &&& log == CommandView::Log(notice_of(outcome))
            &&& last == CommandView::Log(NoticeView::Finished)
            &&& transition(mode, rules, closing, FeedbackView::Logged) == (
                Stage::Exited { status: EXIT_OK },
                CommandView::Exit { status: EXIT_OK },
            )
        }),
{
}

/// A run that has ended stays ended: further feedback changes neither the
/// stage nor the status.
pub proof fn exit_is_final(
    mode: OperatingMode,
    rules: Seq<RuleView>,
    status: i32,
    feedback: FeedbackView,
)
    ensures
        transition(mode, rules, Stage::Exited { status }, feedback) == (
            Stage::Exited { status },
            CommandView::Exit { status },
        ),
{
}

} // verus!
