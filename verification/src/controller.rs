//! The operation controller: shared application state (configuration,
//! log buffer, status table) and the orchestration of one named action —
//! status transition, logging, execution, reaction to the outcome.
//!
//! The controller cannot spawn processes itself; a driver starts an
//! action with [`AppState::begin_action`], runs the returned invocation,
//! feeds raw results through [`crate::exec::ExecSession::on_result`]
//! until the session finishes, and hands the finished outcome to
//! [`AppState::finish_action`]. Every returned log entry and status
//! snapshot is meant to be published to the corresponding event channel,
//! fire-and-forget.

use crate::config::AppConfig;
use crate::config::CommandConfig;
use crate::exec::CommandOutcome;
use crate::exec::ExecSession;
use crate::exec::ExecutionError;
use crate::exec::Invocation;
use crate::exec::session_started;
use crate::logbuf::LogBuffer;
use crate::logbuf::LogEntry;
use crate::logbuf::LogLevel;
use crate::logbuf::lemma_ring_push_seq_push;
use crate::logbuf::ring_push;
use crate::logbuf::ring_push_seq;
use crate::status::SoftwareKind;
use crate::status::SoftwarePhase;
use crate::status::SoftwareStatus;
use crate::status::StatusTable;
use crate::status::spec_snapshot;
use crate::status::spec_updated;
use crate::strutil::command_line;
use crate::strutil::i32_to_string;
use crate::strutil::int_rep;
use vstd::prelude::*;

verus! {

/// The named actions a UI can request.
#[derive(Debug, Clone, Copy, PartialEq, Eq, Structural)]
pub enum ActionKind {
    EmulatorStart,
    EmulatorStop,
    MaaStartup,
}

impl ActionKind {
    /// The component this action operates on.
    pub open spec fn spec_target(self) -> SoftwareKind {
        match self {
            ActionKind::EmulatorStart | ActionKind::EmulatorStop => SoftwareKind::Emulator,
            ActionKind::MaaStartup => SoftwareKind::Maa,
        }
    }

    /// The phase entered when the action begins.
    pub open spec fn spec_start_phase(self) -> SoftwarePhase {
        match self {
            ActionKind::EmulatorStart => SoftwarePhase::Starting,
            ActionKind::EmulatorStop => SoftwarePhase::Stopping,
            ActionKind::MaaStartup => SoftwarePhase::Running,
        }
    }

    /// The phase entered when the action succeeds.
    pub open spec fn spec_success_phase(self) -> SoftwarePhase {
        match self {
            ActionKind::EmulatorStart => SoftwarePhase::Running,
            ActionKind::EmulatorStop => SoftwarePhase::Stopped,
            ActionKind::MaaStartup => SoftwarePhase::Idle,
        }
    }

    /// The status message recorded when the action succeeds.
    pub open spec fn spec_success_message(self) -> Seq<char> {
        match self {
            ActionKind::EmulatorStart => "emulator started"@,
            ActionKind::EmulatorStop => "emulator stopped"@,
            ActionKind::MaaStartup => "maa task completed"@,
        }
    }

    /// The component this action operates on.
    pub fn target(&self) -> (k: SoftwareKind)
        ensures
            k == self.spec_target(),
    {
        match self {
            ActionKind::EmulatorStart | ActionKind::EmulatorStop => SoftwareKind::Emulator,
            ActionKind::MaaStartup => SoftwareKind::Maa,
        }
    }

    /// The phase entered when the action begins.
    pub fn start_phase(&self) -> (p: SoftwarePhase)
        ensures
            p == self.spec_start_phase(),
    {
        match self {
            ActionKind::EmulatorStart => SoftwarePhase::Starting,
            ActionKind::EmulatorStop => SoftwarePhase::Stopping,
            ActionKind::MaaStartup => SoftwarePhase::Running,
        }
    }

    /// The phase entered when the action succeeds.
    pub fn success_phase(&self) -> (p: SoftwarePhase)
        ensures
            p == self.spec_success_phase(),
    {
        match self {
            ActionKind::EmulatorStart => SoftwarePhase::Running,
            ActionKind::EmulatorStop => SoftwarePhase::Stopped,
            ActionKind::MaaStartup => SoftwarePhase::Idle,
        }
    }

    fn success_message(&self) -> (r: String)
        ensures
            r@ == self.spec_success_message(),
    {
        match self {
            ActionKind::EmulatorStart => String::from_str("emulator started"),
            ActionKind::EmulatorStop => String::from_str("emulator stopped"),
            ActionKind::MaaStartup => String::from_str("maa task completed"),
        }
    }
}

/// The command specification the configuration holds for an action.
pub open spec fn action_command(config: AppConfig, action: ActionKind) -> CommandConfig {
    match action {
        ActionKind::EmulatorStart => config.emulator_start,
        ActionKind::EmulatorStop => config.emulator_stop,
        ActionKind::MaaStartup => config.maa_startup,
    }
}

/// Status message while an action runs.
pub open spec fn executing_message(label: Seq<char>) -> Seq<char> {
    label + " executing"@
}

/// Log line announcing an action and the command line it runs.
pub open spec fn begin_log_message(label: Seq<char>, command: Seq<char>) -> Seq<char> {
    "executing "@ + label + " => "@ + command
}

/// Log line recorded when an action completes successfully.
pub open spec fn completed_message(label: Seq<char>) -> Seq<char> {
    label + " completed"@
}

/// Status and log message for a command that exited non-zero.
pub open spec fn failure_message(label: Seq<char>, code: int) -> Seq<char> {
    label + " failed, exit "@ + int_rep(code)
}

/// The stdout section of a failure trail: the captured text, or an
/// explicit placeholder when there was none.
pub open spec fn stdout_section(text: Seq<char>) -> Seq<char> {
    "[STDOUT] "@ + (if text.len() > 0 {
        text
    } else {
        "(no output)"@
    })
}

/// The stderr section of a failure trail, placeholder included.
pub open spec fn stderr_section(text: Seq<char>) -> Seq<char> {
    "[STDERR] "@ + (if text.len() > 0 {
        text
    } else {
        "(no output)"@
    })
}

fn executing_message_exec(label: &String) -> (r: String)
    ensures
        r@ == executing_message(label@),
{
    label.clone().concat(" executing")
}

fn begin_log_message_exec(label: &String, command: &String) -> (r: String)
    ensures
        r@ == begin_log_message(label@, command@),
{
    let mut s: String = String::from_str("executing ");
    s.append(label.as_str());
    s.append(" => ");
    s.append(command.as_str());
    s
}

fn completed_message_exec(label: &String) -> (r: String)
    ensures
        r@ == completed_message(label@),
{
    label.clone().concat(" completed")
}

fn failure_message_exec(label: &String, code: i32) -> (r: String)
    ensures
        r@ == failure_message(label@, code as int),
{
    let mut s: String = label.clone();
    s.append(" failed, exit ");
    let num = i32_to_string(code);
    s.append(num.as_str());
    s
}

fn stdout_section_exec(text: &String) -> (r: String)
    ensures
        r@ == stdout_section(text@),
{
    let mut s: String = String::from_str("[STDOUT] ");
    if text.as_str().is_empty() {
        s.append("(no output)");
    } else {
        s.append(text.as_str());
    }
    s
}

fn stderr_section_exec(text: &String) -> (r: String)
    ensures
        r@ == stderr_section(text@),
{
    let mut s: String = String::from_str("[STDERR] ");
    if text.as_str().is_empty() {
        s.append("(no output)");
    } else {
        s.append(text.as_str());
    }
    s
}

/// Everything a driver needs after an action has begun: the status
/// snapshot and log entry to publish, the optional notification to fire,
/// and the execution session with its first invocation.
pub struct ActionStart {
    pub status: SoftwareStatus,
    pub log: LogEntry,
    pub notify: Option<(String, String)>,
    pub session: ExecSession,
    pub invocation: Invocation,
}

/// Everything a driver gets when an action is wound up: the status
/// snapshot and log entries to publish, the optional notification, and
/// the result handed back to the UI.
pub struct ActionFinish {
    pub status: SoftwareStatus,
    pub logs: Vec<LogEntry>,
    pub notify: Option<(String, String)>,
    pub result: Result<CommandOutcome, String>,
}

/// The log trail of a successful outcome: the completion line, then the
/// captured stdout (Info) and stderr (Warn) only when non-empty.
pub open spec fn success_logs(logs: Seq<LogEntry>, o: CommandOutcome) -> bool {
    let a: int = if o.stdout@.len() > 0 {
        1
    } else {
        0
    };
    let b: int = if o.stderr@.len() > 0 {
        1
    } else {
        0
    };
    &&& logs.len() == 1 + a + b
    &&& logs[0].level == LogLevel::Info
    &&& logs[0].message@ == completed_message(o.label@)
    &&& (o.stdout@.len() > 0 ==> logs[1].level == LogLevel::Info && logs[1].message@ == "[STDOUT] "@
        + o.stdout@)
    &&& (o.stderr@.len() > 0 ==> logs[1 + a].level == LogLevel::Warn && logs[1 + a].message@
        == "[STDERR] "@ + o.stderr@)
}

/// The log trail of a failed outcome: the failure line, then the stdout
/// and stderr sections, always present, with explicit placeholders when a
/// stream was empty — the failure is diagnosable from the log alone.
pub open spec fn failure_logs(logs: Seq<LogEntry>, o: CommandOutcome) -> bool {
    &&& logs.len() == 3
    &&& logs[0].level == LogLevel::Error
    &&& logs[0].message@ == failure_message(o.label@, o.exit_code as int)
    &&& logs[1].level == LogLevel::Error
    &&& logs[1].message@ == stdout_section(o.stdout@)
    &&& logs[2].level == LogLevel::Error
    &&& logs[2].message@ == stderr_section(o.stderr@)
}

/// Shared application state: the configuration and the two lock-guarded
/// resources, here owned directly — the caller supplies the mutual
/// exclusion around the whole state.
pub struct AppState {
    pub config: AppConfig,
    pub logs: LogBuffer,
    pub statuses: StatusTable,
}

impl AppState {
    /// Both shared resources are well-formed.
    pub open spec fn wf(&self) -> bool {
        self.logs.wf() && self.statuses.wf()
    }

    /// Fresh state: empty log buffer, initial status table (emulator
    /// stopped, task runner idle).
    pub fn new(config: AppConfig) -> (r: AppState)
        ensures
            r.wf(),
            r.config == config,
            r.logs@ == Seq::<LogEntry>::empty(),
            r.statuses.spec_get(SoftwareKind::Emulator).phase == SoftwarePhase::Stopped,
            r.statuses.spec_get(SoftwareKind::Maa).phase == SoftwarePhase::Idle,
            r.statuses.spec_get(SoftwareKind::Emulator).last_message is None,
            r.statuses.spec_get(SoftwareKind::Maa).last_message is None,
    {
        AppState { config, logs: LogBuffer::new(), statuses: StatusTable::new() }
    }

    /// The runtime configuration.
    pub fn config(&self) -> (r: &AppConfig)
        ensures
            *r == self.config,
    {
        &self.config
    }

    /// Append one log entry (ring discipline) and return the stored entry
    /// for publishing.
    pub fn push_log(&mut self, level: LogLevel, message: String) -> (e: LogEntry)
        requires
            old(self).wf(),
        ensures
            final(self).wf(),
            final(self).config == old(self).config,
            final(self).statuses == old(self).statuses,
            final(self).logs@ == ring_push(old(self).logs@, e),
            e.level == level,
            e.message == message,
    {
        self.logs.push(level, message)
    }

    /// A copy of the log buffer, oldest first; the state is not mutated.
    pub fn logs_snapshot(&self) -> (r: Vec<LogEntry>)
        ensures
            r@ == self.logs@,
    {
        self.logs.snapshot()
    }

    /// Overwrite one component's status and return the post-update
    /// snapshot for publishing.
    pub fn update_status(
        &mut self,
        kind: SoftwareKind,
        phase: SoftwarePhase,
        message: Option<String>,
    ) -> (r: SoftwareStatus)
        requires
            old(self).wf(),
        ensures
            final(self).wf(),
            final(self).config == old(self).config,
            final(self).logs == old(self).logs,
            r == final(self).statuses.spec_get(kind),
            final(self).statuses == spec_updated(
                old(self).statuses,
                kind,
                phase,
                message,
                r.last_updated_ms,
            ),
    {
        self.statuses.update(kind, phase, message)
    }

    /// A copy of every component's status; the state is not mutated.
    pub fn statuses_snapshot(&self) -> (r: Vec<SoftwareStatus>)
        ensures
            r@ == spec_snapshot(self.statuses),
    {
        self.statuses.snapshot_all()
    }

    /// Begin an action: move its component to the start phase with an
    /// "executing" message, log the command line about to run, announce
    /// the task-runner action, and start the execution session.
    pub fn begin_action(&mut self, action: ActionKind, is_root: bool, home: Option<String>) -> (r:
        ActionStart)
        requires
            old(self).wf(),
        ensures
            final(self).wf(),
            final(self).config == old(self).config,
            ({
                let cs = action_command(old(self).config, action);
                let target = action.spec_target();
                &&& r.status == final(self).statuses.spec_get(target)
                &&& final(self).statuses == spec_updated(
                    old(self).statuses,
                    target,
                    action.spec_start_phase(),
                    r.status.last_message,
                    r.status.last_updated_ms,
                )
                &&& r.status.phase == action.spec_start_phase()
                &&& r.status.last_message is Some
                &&& r.status.last_message->Some_0@ == executing_message(cs.label@)
                &&& final(self).logs@ == ring_push(old(self).logs@, r.log)
                &&& r.log.level == LogLevel::Info
                &&& r.log.message@ == begin_log_message(
                    cs.label@,
                    command_line(cs.program@, cs.args.deep_view()),
                )
                &&& session_started(r.session, r.invocation, cs, is_root, home)
                &&& (action == ActionKind::MaaStartup ==> r.notify is Some
                    && r.notify->Some_0.0@ == "archMAA"@ && r.notify->Some_0.1@
                    == "maa task starting"@)
                &&& (action != ActionKind::MaaStartup ==> r.notify is None)
            }),
    {
        let cs: CommandConfig = match action {
            ActionKind::EmulatorStart => self.config.emulator_start.duplicate(),
            ActionKind::EmulatorStop => self.config.emulator_stop.duplicate(),
            ActionKind::MaaStartup => self.config.maa_startup.duplicate(),
        };
        let target = action.target();
        let status = self.update_status(
            target,
            action.start_phase(),
            Some(executing_message_exec(&cs.label)),
        );
        let (session, invocation) = ExecSession::start(cs, is_root, home);
        let log = self.push_log(
            LogLevel::Info,
            begin_log_message_exec(&session.label, &session.command),
        );
        let notify: Option<(String, String)> = match action {
            ActionKind::MaaStartup => Some(
                (String::from_str("archMAA"), String::from_str("maa task starting")),
            ),
            _ => None,
        };
        proof {
            let cs0 = action_command(old(self).config, action);
            assert(session_started(session, invocation, cs0, is_root, home));
        }
        ActionStart { status, log, notify, session, invocation }
    }

    /// Wind an action up from its execution result. A successful outcome
    /// moves the component to the success phase and logs the completion
    /// and any captured output; a failed outcome moves it to Error and
    /// logs the full failure trail; a worker error moves it to Error with
    /// the error text. The action's result for the UI is returned
    /// alongside everything to publish.
    pub fn finish_action(
        &mut self,
        action: ActionKind,
        exec_result: Result<CommandOutcome, ExecutionError>,
    ) -> (r: ActionFinish)
        requires
            old(self).wf(),
        ensures
            final(self).wf(),
            final(self).config == old(self).config,
            final(self).logs@ == ring_push_seq(old(self).logs@, r.logs@),
            r.status == final(self).statuses.spec_get(action.spec_target()),
            ({
                let target = action.spec_target();
                match exec_result {
                    Ok(o) => {
                        if o.success {
                            &&& final(self).statuses == spec_updated(
                                old(self).statuses,
                                target,
                                action.spec_success_phase(),
                                r.status.last_message,
                                r.status.last_updated_ms,
                            )
                            &&& r.status.phase == action.spec_success_phase()
                            &&& r.status.last_message is Some
                            &&& r.status.last_message->Some_0@ == action.spec_success_message()
                            &&& success_logs(r.logs@, o)
                            &&& r.result == Ok::<CommandOutcome, String>(o)
                            &&& (action == ActionKind::MaaStartup ==> r.notify is Some
                                && r.notify->Some_0.0@ == "archMAA"@ && r.notify->Some_0.1@
                                == "maa task finished"@)
                            &&& (action != ActionKind::MaaStartup ==> r.notify is None)
                        } else {
                            &&& final(self).statuses == spec_updated(
                                old(self).statuses,
                                target,
                                SoftwarePhase::Error,
                                r.status.last_message,
                                r.status.last_updated_ms,
                            )
                            &&& r.status.phase == SoftwarePhase::Error
                            &&& r.status.last_message is Some
                            &&& r.status.last_message->Some_0@ == failure_message(
                                o.label@,
                                o.exit_code as int,
                            )
                            &&& failure_logs(r.logs@, o)
                            &&& r.result is Err
                            &&& r.result->Err_0@ == failure_message(o.label@, o.exit_code as int)
                            &&& r.notify is None
                        }
                    },
                    Err(e) => {
                        &&& final(self).statuses == spec_updated(
                            old(self).statuses,
                            target,
                            SoftwarePhase::Error,
                            r.status.last_message,
                            r.status.last_updated_ms,
                        )
                        &&& r.status.phase == SoftwarePhase::Error
                        &&& r.status.last_message == Some(e.message)
                        &&& r.logs@.len() == 1
                        &&& r.logs@[0].level == LogLevel::Error
                        &&& r.logs@[0].message == e.message
                        &&& r.result == Err::<CommandOutcome, String>(e.message)
                        &&& r.notify is None
                    },
                }
            }),
    {
        let target = action.target();
        match exec_result {
            Ok(outcome) => {
                if outcome.success {
                    let status = self.update_status(
                        target,
                        action.success_phase(),
                        Some(action.success_message()),
                    );
                    let ghost base = self.logs@;
                    let ghost mut trail: Seq<LogEntry> = Seq::empty();
                    let mut logs: Vec<LogEntry> = Vec::new();
                    let e0 = self.push_log(
                        LogLevel::Info,
                        completed_message_exec(&outcome.label),
                    );
                    logs.push(e0);
                    proof {
                        lemma_ring_push_seq_push(base, trail, e0);
                        trail = trail.push(e0);
                        assert(logs@ =~= trail);
                    }
                    if !outcome.stdout.as_str().is_empty() {
                        let msg = String::from_str("[STDOUT] ").concat(outcome.stdout.as_str());
                        let e1 = self.push_log(LogLevel::Info, msg);
                        logs.push(e1);
                        proof {
                            lemma_ring_push_seq_push(base, trail, e1);
                            trail = trail.push(e1);
                            assert(logs@ =~= trail);
                        }
                    }
                    if !outcome.stderr.as_str().is_empty() {
                        let msg = String::from_str("[STDERR] ").concat(outcome.stderr.as_str());
                        let e2 = self.push_log(LogLevel::Warn, msg);
                        logs.push(e2);
                        proof {
                            lemma_ring_push_seq_push(base, trail, e2);
                            trail = trail.push(e2);
                            assert(logs@ =~= trail);
                        }
                    }
                    let notify: Option<(String, String)> = match action {
                        ActionKind::MaaStartup => Some(
                            (String::from_str("archMAA"), String::from_str("maa task finished")),
                        ),
                        _ => None,
                    };
                    proof {
                        assert(self.logs@ == ring_push_seq(old(self).logs@, logs@));
                        assert(success_logs(logs@, outcome));
                    }
                    ActionFinish { status, logs, notify, result: Ok(outcome) }
                } else {
                    let message = failure_message_exec(&outcome.label, outcome.exit_code);
                    let status = self.update_status(
                        target,
                        SoftwarePhase::Error,
                        Some(message.clone()),
                    );
                    let ghost base = self.logs@;
                    let ghost mut trail: Seq<LogEntry> = Seq::empty();
                    let mut logs: Vec<LogEntry> = Vec::new();
                    let e0 = self.push_log(LogLevel::Error, message.clone());
                    logs.push(e0);
                    proof {
                        lemma_ring_push_seq_push(base, trail, e0);
                        trail = trail.push(e0);
                        assert(logs@ =~= trail);
                    }
                    let e1 = self.push_log(
                        LogLevel::Error,
                        stdout_section_exec(&outcome.stdout),
                    );
                    logs.push(e1);
                    proof {
                        lemma_ring_push_seq_push(base, trail, e1);
                        trail = trail.push(e1);
                        assert(logs@ =~= trail);
                    }
                    let e2 = self.push_log(
                        LogLevel::Error,
                        stderr_section_exec(&outcome.stderr),
                    );
                    logs.push(e2);
                    proof {
                        lemma_ring_push_seq_push(base, trail, e2);
                        trail = trail.push(e2);
                        assert(logs@ =~= trail);
                        assert(self.logs@ == ring_push_seq(old(self).logs@, logs@));
                        assert(failure_logs(logs@, outcome));
                    }
                    ActionFinish { status, logs, notify: None, result: Err(message) }
                }
            },
            Err(err) => {
                let status = self.update_status(
                    target,
                    SoftwarePhase::Error,
                    Some(err.message.clone()),
                );
                let ghost base = self.logs@;
                let mut logs: Vec<LogEntry> = Vec::new();
                let e0 = self.push_log(LogLevel::Error, err.message.clone());
                logs.push(e0);
                proof {
                    lemma_ring_push_seq_push(base, Seq::<LogEntry>::empty(), e0);
                    assert(logs@ =~= Seq::<LogEntry>::empty().push(e0));
                    assert(self.logs@ == ring_push_seq(old(self).logs@, logs@));
                }
                ActionFinish { status, logs, notify: None, result: Err(err.message) }
            },
        }
    }
}

} // verus!
