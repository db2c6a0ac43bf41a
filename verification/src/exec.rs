//! The privileged-execution protocol: planning the child invocations for a
//! command specification, the two-stage escalation state machine
//! (silent `sudo -n`, then interactive `pkexec` only after a
//! password-prompt failure), and normalization of raw process results.
//!
//! Spawning and waiting on the child processes is a collaborator outside
//! this library: it receives an [`Invocation`], runs it, and feeds the
//! [`RawOutput`] back into [`ExecSession::on_result`] until the session
//! reports a finished [`CommandOutcome`].

use crate::config::CommandConfig;
use crate::strutil::command_line;
use crate::strutil::contains_str;
use crate::strutil::dup_opt_string;
use crate::strutil::dup_pairs;
use crate::strutil::dup_strings;
use crate::strutil::is_substring;
use crate::strutil::render_command_line;
use crate::strutil::trim_str;
use crate::strutil::trimmed;
use vstd::prelude::*;

verus! {

/// Failure of the execution worker itself (the thread or task driving the
/// child process crashed), as opposed to a command that ran and failed.
#[derive(Debug)]
pub struct ExecutionError {
    pub message: String,
}

/// Raw result of one child process, as the process runner reports it:
/// the exit code (`None` when the process was killed by a signal or could
/// not be spawned) and the captured output streams.
#[derive(Debug)]
pub struct RawOutput {
    pub status_code: Option<i32>,
    pub stdout: String,
    pub stderr: String,
}

/// A raw result counts as success exactly when the process exited 0.
pub open spec fn raw_success(r: RawOutput) -> bool {
    r.status_code == Some(0i32)
}

/// The exit code reported onward: the real one, or -1 when there is none.
pub open spec fn raw_exit_code(r: RawOutput) -> int {
    match r.status_code {
        Some(c) => c as int,
        None => -1,
    }
}

/// Normalized outcome of one executed command.
#[derive(Debug)]
pub struct CommandOutcome {
    pub label: String,
    pub command: String,
    pub exit_code: i32,
    pub success: bool,
    pub stdout: String,
    pub stderr: String,
}

/// One concrete child invocation the process runner must perform.
#[derive(Debug)]
pub struct Invocation {
    pub program: String,
    pub args: Vec<String>,
    pub working_dir: Option<String>,
    pub env: Vec<(String, String)>,
}

/// `o` is `raw` normalized under the session's label and display command:
/// exit code -1 when the process reported none, success exactly on exit 0,
/// and both streams stripped of surrounding whitespace.
pub open spec fn normalized_outcome(
    o: CommandOutcome,
    label: String,
    command: String,
    raw: RawOutput,
) -> bool {
    &&& o.label == label
    &&& o.command == command
    &&& o.exit_code as int == raw_exit_code(raw)
    &&& o.success == raw_success(raw)
    &&& o.stdout@ == trimmed(raw.stdout@)
    &&& o.stderr@ == trimmed(raw.stderr@)
}

/// The stderr text of a failed silent sudo that means "a password would
/// have been prompted for".
pub open spec fn password_prompted(stderr: Seq<char>) -> bool {
    is_substring(stderr, "password"@) || is_substring(stderr, "a password is required"@)
}

/// `path` with a leading `~/` replaced by the home directory, when one is
/// known; the path unchanged otherwise.
pub open spec fn spec_expand_path(path: Seq<char>, home: Option<String>) -> Seq<char> {
    if path.len() >= 2 && path[0] == '~' && path[1] == '/' && home is Some {
        home->Some_0@ + seq!['/'] + path.skip(2)
    } else {
        path
    }
}

/// Expand a leading home-relative prefix against the real user's home
/// directory; best effort, the literal path is kept when no home is known.
pub fn expand_path(path: String, home: &Option<String>) -> (r: String)
    ensures
        r@ == spec_expand_path(path@, *home),
{
    let len: usize = path.as_str().unicode_len();
    if len >= 2 && path.as_str().get_char(0) == '~' && path.as_str().get_char(1) == '/' {
        match home {
            Some(h) => {
                proof {
                    reveal_strlit("/");
                }
                let mut out: String = h.clone();
                out.append("/");
                let rest: &str = path.as_str().substring_char(2, len);
                out.append(rest);
                proof {
                    assert(out@ =~= spec_expand_path(path@, *home));
                }
                out
            },
            None => path,
        }
    } else {
        path
    }
}

/// Which stage of the escalation protocol a session is in.
#[derive(Debug, Clone, Copy, PartialEq, Eq, Structural)]
pub enum ExecStage {
    /// No escalation: the command runs as the calling user.
    Direct,
    /// First stage: silent `sudo -n`, which fails rather than prompt.
    Sudo,
    /// Second stage: interactive `pkexec`, reached only after a
    /// password-prompt failure of the first stage.
    Pkexec,
}

/// What the process runner must do next.
#[derive(Debug)]
pub enum ExecStep {
    /// Run this child process and feed the result back.
    Run(Invocation),
    /// The command is done; this is its normalized outcome.
    Finished(CommandOutcome),
}

/// An in-flight execution of one command specification.
#[derive(Debug)]
pub struct ExecSession {
    /// Display label of the command.
    pub label: String,
    /// Display command line (program and arguments, space-separated).
    pub command: String,
    /// The program itself, kept for the pkexec fallback invocation.
    pub program: String,
    /// Its arguments, kept for the pkexec fallback invocation.
    pub args: Vec<String>,
    /// Working directory, already home-expanded.
    pub working_dir: Option<String>,
    /// Environment overrides for the child.
    pub env: Vec<(String, String)>,
    /// Current protocol stage.
    pub stage: ExecStage,
}

/// `inv` runs the session's own program directly.
pub open spec fn direct_invocation(inv: Invocation, s: ExecSession) -> bool {
    &&& inv.program == s.program
    &&& inv.args@ == s.args@
    &&& inv.working_dir == s.working_dir
    &&& inv.env@ == s.env@
}

/// `inv` is the silent first escalation stage: `sudo -n <program> <args>`
/// with the session's working directory and environment.
pub open spec fn sudo_invocation(inv: Invocation, s: ExecSession) -> bool {
    &&& inv.program@ == "sudo"@
    &&& inv.args.deep_view() == seq!["-n"@, s.program@] + s.args.deep_view()
    &&& inv.working_dir == s.working_dir
    &&& inv.env@ == s.env@
}

/// `inv` is the interactive second escalation stage:
/// `pkexec <program> <args>` with the session's working directory and
/// environment.
pub open spec fn pkexec_invocation(inv: Invocation, s: ExecSession) -> bool {
    &&& inv.program@ == "pkexec"@
    &&& inv.args.deep_view() == seq![s.program@] + s.args.deep_view()
    &&& inv.working_dir == s.working_dir
    &&& inv.env@ == s.env@
}

/// The one condition under which the protocol moves to the interactive
/// stage: the silent sudo stage failed and its stderr reports that a
/// password would have been required.
pub open spec fn escalates(stage: ExecStage, raw: RawOutput) -> bool {
    stage == ExecStage::Sudo && !raw_success(raw) && password_prompted(raw.stderr@)
}

/// The stage after feeding one raw result in.
pub open spec fn next_stage(stage: ExecStage, raw: RawOutput) -> ExecStage {
    if escalates(stage, raw) {
        ExecStage::Pkexec
    } else {
        stage
    }
}

/// The session fields that never change while results are fed in.
pub open spec fn session_core_unchanged(post: ExecSession, pre: ExecSession) -> bool {
    &&& post.label == pre.label
    &&& post.command == pre.command
    &&& post.program == pre.program
    &&& post.args@ == pre.args@
    &&& post.working_dir == pre.working_dir
    &&& post.env@ == pre.env@
}

/// `s` and `inv` are a freshly started session for the command `cs`:
/// the session carries the command's own data (with the working directory
/// home-expanded), and the first invocation is the silent sudo stage when
/// the command escalates for a non-privileged caller, the direct stage
/// otherwise.
pub open spec fn session_started(
    s: ExecSession,
    inv: Invocation,
    cs: CommandConfig,
    is_root: bool,
    home: Option<String>,
) -> bool {
    &&& s.label == cs.label
    &&& s.command@ == command_line(cs.program@, cs.args.deep_view())
    &&& s.program == cs.program
    &&& s.args@ == cs.args@
    &&& s.env@ == cs.env@
    &&& (cs.working_dir is Some ==> s.working_dir is Some && s.working_dir->Some_0@
        == spec_expand_path(cs.working_dir->Some_0@, home))
    &&& (cs.working_dir is None ==> s.working_dir is None)
    &&& (cs.requires_sudo && !is_root ==> s.stage == ExecStage::Sudo && sudo_invocation(inv, s))
    &&& (!(cs.requires_sudo && !is_root) ==> s.stage == ExecStage::Direct && direct_invocation(
        inv,
        s,
    ))
}

impl ExecSession {
    /// Begin executing `cs`: pick the direct stage when no escalation is
    /// required or the caller is already privileged, the silent sudo stage
    /// otherwise, and hand back the first invocation to run. The working
    /// directory is home-expanded here, once, for every later stage.
    pub fn start(cs: CommandConfig, is_root: bool, home: Option<String>) -> (r: (
        ExecSession,
        Invocation,
    ))
        ensures
            session_started(r.0, r.1, cs, is_root, home),
    {
        let command = render_command_line(&cs.program, &cs.args);
        let working_dir: Option<String> = match cs.working_dir {
            Some(d) => Some(expand_path(d, &home)),
            None => None,
        };
        if cs.requires_sudo && !is_root {
            let mut sudo_args: Vec<String> = Vec::new();
            sudo_args.push(String::from_str("-n"));
            sudo_args.push(cs.program.clone());
            let mut i: usize = 0;
            while i < cs.args.len()
                invariant
                    0 <= i <= cs.args@.len(),
                    sudo_args.deep_view() =~= seq!["-n"@, cs.program@] + cs.args.deep_view()
                        .take(i as int),
                decreases cs.args@.len() - i,
            {
                let ghost pre = sudo_args.deep_view();
                sudo_args.push(cs.args[i].clone());
                proof {
                    assert forall|k: int| 0 <= k < sudo_args.deep_view().len() implies
                        #[trigger] sudo_args.deep_view()[k] == (seq!["-n"@, cs.program@]
                        + cs.args.deep_view().take(i as int + 1))[k] by {
                        if k < pre.len() {
                            assert(sudo_args.deep_view()[k] == pre[k]);
                        } else {
                            assert(sudo_args.deep_view()[k] == cs.args@[i as int]@);
                        }
                    }
                    assert(pre.len() == 2 + i);
                    assert(sudo_args.deep_view().len() == pre.len() + 1);
                    assert((seq!["-n"@, cs.program@] + cs.args.deep_view().take(
                        i as int + 1,
                    )).len() == 3 + i);
                    assert(sudo_args.deep_view() =~= seq!["-n"@, cs.program@]
                        + cs.args.deep_view().take(i as int + 1));
                }
                i += 1;
            }
            proof {
                assert(cs.args.deep_view().take(cs.args@.len() as int) =~= cs.args
                    .deep_view());
            }
            let session = ExecSession {
                label: cs.label,
                command,
                program: cs.program,
                args: cs.args,
                working_dir,
                env: cs.env,
                stage: ExecStage::Sudo,
            };
            let invocation = Invocation {
                program: String::from_str("sudo"),
                args: sudo_args,
                working_dir: dup_opt_string(&session.working_dir),
                env: dup_pairs(&session.env),
            };
            (session, invocation)
        } else {
            let session = ExecSession {
                label: cs.label,
                command,
                program: cs.program,
                args: cs.args,
                working_dir,
                env: cs.env,
                stage: ExecStage::Direct,
            };
            let invocation = Invocation {
                program: session.program.clone(),
                args: dup_strings(&session.args),
                working_dir: dup_opt_string(&session.working_dir),
                env: dup_pairs(&session.env),
            };
            (session, invocation)
        }
    }

    /// Feed the raw result of the last invocation in. In the silent sudo
    /// stage, a failure whose stderr reports a password prompt moves to
    /// the interactive stage and hands back the pkexec invocation to run;
    /// every other result, in every stage, finishes the session with the
    /// normalized outcome of exactly this result.
    pub fn on_result(&mut self, raw: RawOutput) -> (step: ExecStep)
        ensures
            session_core_unchanged(*final(self), *old(self)),
            final(self).stage == next_stage(old(self).stage, raw),
            escalates(old(self).stage, raw) ==> step is Run && pkexec_invocation(
                step->Run_0,
                *old(self),
            ),
            !escalates(old(self).stage, raw) ==> step is Finished && normalized_outcome(
                step->Finished_0,
                old(self).label,
                old(self).command,
                raw,
            ),
    {
        let failed = match raw.status_code {
            Some(c) => c != 0,
            None => true,
        };
        if self.stage == ExecStage::Sudo && failed && (contains_str(raw.stderr.as_str(), "password")
            || contains_str(raw.stderr.as_str(), "a password is required")) {
            self.stage = ExecStage::Pkexec;
            let mut pk_args: Vec<String> = Vec::new();
            pk_args.push(self.program.clone());
            let mut i: usize = 0;
            while i < self.args.len()
                invariant
                    0 <= i <= self.args@.len(),
                    pk_args.deep_view() =~= seq![self.program@] + self.args.deep_view().take(
                        i as int,
                    ),
                decreases self.args@.len() - i,
            {
                let ghost pre = pk_args.deep_view();
                pk_args.push(self.args[i].clone());
                proof {
                    assert forall|k: int| 0 <= k < pk_args.deep_view().len() implies
                        #[trigger] pk_args.deep_view()[k] == (seq![self.program@]
                        + self.args.deep_view().take(i as int + 1))[k] by {
                        if k < pre.len() {
                            assert(pk_args.deep_view()[k] == pre[k]);
                        } else {
                            assert(pk_args.deep_view()[k] == self.args@[i as int]@);
                        }
                    }
                    assert(pre.len() == 1 + i);
                    assert(pk_args.deep_view().len() == pre.len() + 1);
                    assert((seq![self.program@] + self.args.deep_view().take(i as int + 1)).len()
                        == 2 + i);
                    assert(pk_args.deep_view() =~= seq![self.program@] + self.args.deep_view()
                        .take(i as int + 1));
                }
                i += 1;
            }
            proof {
                assert(self.args.deep_view().take(self.args@.len() as int) =~= self.args
                    .deep_view());
            }
            ExecStep::Run(
                Invocation {
                    program: String::from_str("pkexec"),
                    args: pk_args,
                    working_dir: dup_opt_string(&self.working_dir),
                    env: dup_pairs(&self.env),
                },
            )
        } else {
            let exit_code: i32 = match raw.status_code {
                Some(c) => c,
                None => -1,
            };
            ExecStep::Finished(
                CommandOutcome {
                    label: self.label.clone(),
                    command: self.command.clone(),
                    exit_code,
                    success: !failed,
                    stdout: trim_str(raw.stdout.as_str()),
                    stderr: trim_str(raw.stderr.as_str()),
                },
            )
        }
    }
}

/// The escalation protocol, end to end. From the silent sudo stage:
/// a failed first result whose stderr reports a password prompt moves to
/// the interactive pkexec stage, and from there the very next result
/// always finishes — the GUI fallback runs exactly once. A first result
/// that succeeded, or failed for any other reason, finishes at once — the
/// GUI fallback never runs. The direct stage finishes on its first result.
pub proof fn lemma_escalation_protocol(r1: RawOutput, r2: RawOutput)
    ensures
        escalates(ExecStage::Sudo, r1) <==> !raw_success(r1) && password_prompted(r1.stderr@),
        escalates(ExecStage::Sudo, r1) ==> next_stage(ExecStage::Sudo, r1) == ExecStage::Pkexec
            && !escalates(next_stage(ExecStage::Sudo, r1), r2),
        !escalates(ExecStage::Sudo, r1) ==> next_stage(ExecStage::Sudo, r1) == ExecStage::Sudo,
        !escalates(ExecStage::Direct, r1) && next_stage(ExecStage::Direct, r1)
            == ExecStage::Direct,
        !escalates(ExecStage::Pkexec, r1),
{
}

} // verus!
