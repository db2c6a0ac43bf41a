//! Command specifications for the supervised operations, and the rules
//! that merge a parsed configuration file, environment overrides and
//! built-in defaults into one `AppConfig`.
//!
//! File discovery and TOML parsing are collaborators outside this library:
//! they hand in an already-parsed `AppConfig` (or none) and the raw
//! environment override strings.

use crate::strutil::dup_pairs;
use crate::strutil::dup_strings;
use crate::strutil::is_truthy;
use crate::strutil::spec_truthy;
use vstd::prelude::*;

verus! {

/// Declarative description of one external command.
#[derive(Debug)]
pub struct CommandConfig {
    /// Display label, used by the UI and in log messages.
    pub label: String,
    /// Program name or path.
    pub program: String,
    /// Arguments, in order.
    pub args: Vec<String>,
    /// Whether the command must run with elevated privileges.
    pub requires_sudo: bool,
    /// Working directory; a leading `~/` is expanded against the real
    /// user's home directory at execution time.
    pub working_dir: Option<String>,
    /// Extra environment variables injected into the child process.
    pub env: Vec<(String, String)>,
}

/// The environment override keys carry distinct names.
pub open spec fn env_keys_unique(env: Seq<(String, String)>) -> bool {
    forall|i: int, j: int| 0 <= i < j < env.len() ==> env[i].0@ != env[j].0@
}

/// What `CommandConfig::default()` returns: the `true` program with no
/// arguments, no privileges, no working directory and no environment.
pub open spec fn is_default_command(c: CommandConfig) -> bool {
    &&& c.label@ == "custom"@
    &&& c.program@ == "true"@
    &&& c.args@ == Seq::<String>::empty()
    &&& c.requires_sudo == false
    &&& c.working_dir is None
    &&& c.env@ == Seq::<(String, String)>::empty()
}

impl Default for CommandConfig {
    /// The placeholder command: runs `true` with nothing else set.
    fn default() -> (c: CommandConfig)
        ensures
            is_default_command(c),
            c.wf(),
    {
        CommandConfig {
            label: String::from_str("custom"),
            program: String::from_str("true"),
            args: Vec::new(),
            requires_sudo: false,
            working_dir: None,
            env: Vec::new(),
        }
    }
}

/// `a` and `b` describe the same command: every field agrees (the
/// argument and environment vectors element for element).
pub open spec fn same_command(a: CommandConfig, b: CommandConfig) -> bool {
    &&& a.label == b.label
    &&& a.program == b.program
    &&& a.args@ == b.args@
    &&& a.requires_sudo == b.requires_sudo
    &&& a.working_dir == b.working_dir
    &&& a.env@ == b.env@
}

impl CommandConfig {
    /// Well-formedness of a command specification: its environment
    /// overrides carry distinct keys. Constructors establish it; copies
    /// preserve it.
    pub open spec fn wf(&self) -> bool {
        env_keys_unique(self.env@)
    }

    /// A field-for-field copy of this specification.
    pub fn duplicate(&self) -> (r: CommandConfig)
        ensures
            same_command(r, *self),
            self.wf() ==> r.wf(),
    {
        CommandConfig {
            label: self.label.clone(),
            program: self.program.clone(),
            args: dup_strings(&self.args),
            requires_sudo: self.requires_sudo,
            working_dir: match &self.working_dir {
                Some(d) => Some(d.clone()),
                None => None,
            },
            env: dup_pairs(&self.env),
        }
    }
}

/// The command specifications for every supported action.
#[derive(Debug)]
pub struct AppConfig {
    /// Starts the emulator container.
    pub emulator_start: CommandConfig,
    /// Stops the emulator container.
    pub emulator_stop: CommandConfig,
    /// Runs the automation task.
    pub maa_startup: CommandConfig,
}

/// The raw environment override values, as the process environment
/// supplies them; `None` where a variable is unset.
#[derive(Debug)]
pub struct EnvOverrides {
    /// CONTAINER_NAME: the emulator container's name.
    pub container_name: Option<String>,
    /// EMULATOR_PROGRAM: the container runtime to invoke.
    pub emulator_program: Option<String>,
    /// MAA_PROFILE: the task profile name.
    pub maa_profile: Option<String>,
    /// MAA_BIN: the task runner binary.
    pub maa_bin: Option<String>,
    /// SKIP_SUDO_VALIDATION: when truthy, forces `requires_sudo` off.
    pub skip_sudo_validation: Option<String>,
    /// EMULATOR_NEEDS_SUDO: when truthy, the emulator commands escalate.
    pub emulator_needs_sudo: Option<String>,
}

impl EnvOverrides {
    /// No variable set.
    pub fn none() -> (r: EnvOverrides)
        ensures
            r.container_name is None,
            r.emulator_program is None,
            r.maa_profile is None,
            r.maa_bin is None,
            r.skip_sudo_validation is None,
            r.emulator_needs_sudo is None,
    {
        EnvOverrides {
            container_name: None,
            emulator_program: None,
            maa_profile: None,
            maa_bin: None,
            skip_sudo_validation: None,
            emulator_needs_sudo: None,
        }
    }
}

/// The override value when set, the built-in default otherwise.
pub open spec fn opt_or(v: Option<String>, d: Seq<char>) -> Seq<char> {
    match v {
        Some(s) => s@,
        None => d,
    }
}

/// An optional flag read as a boolean: set and truthy.
pub open spec fn flag_set(v: Option<String>) -> bool {
    v is Some && spec_truthy(v->Some_0@)
}

/// Whether the emulator commands escalate: EMULATOR_NEEDS_SUDO must be
/// truthy, and SKIP_SUDO_VALIDATION overrides it to false.
pub open spec fn spec_sudo_flag(skip: Option<String>, needs: Option<String>) -> bool {
    if flag_set(skip) {
        false
    } else {
        flag_set(needs)
    }
}

/// What the environment-and-defaults configuration looks like, for the
/// given override values.
pub open spec fn is_env_default_config(r: AppConfig, o: EnvOverrides) -> bool {
    &&& r.emulator_start.label@ == "start emulator"@
    &&& r.emulator_start.program@ == opt_or(o.emulator_program, "podman"@)
    &&& r.emulator_start.args.deep_view() == seq![
        "start"@,
        opt_or(o.container_name, "maa-container"@),
    ]
    &&& r.emulator_start.requires_sudo == spec_sudo_flag(
        o.skip_sudo_validation,
        o.emulator_needs_sudo,
    )
    &&& r.emulator_start.working_dir is None
    &&& r.emulator_start.env@ == Seq::<(String, String)>::empty()
    &&& r.emulator_stop.label@ == "stop emulator"@
    &&& r.emulator_stop.program@ == opt_or(o.emulator_program, "podman"@)
    &&& r.emulator_stop.args.deep_view() == seq![
        "stop"@,
        opt_or(o.container_name, "maa-container"@),
    ]
    &&& r.emulator_stop.requires_sudo == spec_sudo_flag(
        o.skip_sudo_validation,
        o.emulator_needs_sudo,
    )
    &&& r.emulator_stop.working_dir is None
    &&& r.emulator_stop.env@ == Seq::<(String, String)>::empty()
    &&& r.maa_startup.label@ == "maa startup"@
    &&& r.maa_startup.program@ == opt_or(o.maa_bin, "maa"@)
    &&& r.maa_startup.args.deep_view() == seq!["startup"@, opt_or(o.maa_profile, "Official"@)]
    &&& r.maa_startup.requires_sudo == false
    &&& r.maa_startup.working_dir is None
    &&& r.maa_startup.env@ == Seq::<(String, String)>::empty()
}

fn opt_or_exec(v: Option<String>, d: &str) -> (r: String)
    ensures
        r@ == opt_or(v, d@),
{
    match v {
        Some(s) => s,
        None => String::from_str(d),
    }
}

fn flag_set_exec(v: &Option<String>) -> (r: bool)
    ensures
        r == flag_set(*v),
{
    match v {
        Some(s) => is_truthy(s.as_str()),
        None => false,
    }
}

impl AppConfig {
    /// Build the configuration from environment overrides and built-in
    /// defaults alone, with no configuration file.
    pub fn from_env(o: EnvOverrides) -> (r: AppConfig)
        ensures
            is_env_default_config(r, o),
            r.emulator_start.wf(),
            r.emulator_stop.wf(),
            r.maa_startup.wf(),
    {
        let skip = flag_set_exec(&o.skip_sudo_validation);
        let needs = flag_set_exec(&o.emulator_needs_sudo);
        let requires_sudo = if skip {
            false
        } else {
            needs
        };
        let container = opt_or_exec(o.container_name, "maa-container");
        let program = opt_or_exec(o.emulator_program, "podman");
        let profile = opt_or_exec(o.maa_profile, "Official");
        let maa_bin = opt_or_exec(o.maa_bin, "maa");

        let mut start_args: Vec<String> = Vec::new();
        start_args.push(String::from_str("start"));
        start_args.push(container.clone());
        let mut stop_args: Vec<String> = Vec::new();
        stop_args.push(String::from_str("stop"));
        stop_args.push(container);
        let mut maa_args: Vec<String> = Vec::new();
        maa_args.push(String::from_str("startup"));
        maa_args.push(profile);
        proof {
            assert(start_args.deep_view() =~= seq![
                "start"@,
                opt_or(o.container_name, "maa-container"@),
            ]);
            assert(stop_args.deep_view() =~= seq![
                "stop"@,
                opt_or(o.container_name, "maa-container"@),
            ]);
            assert(maa_args.deep_view() =~= seq![
                "startup"@,
                opt_or(o.maa_profile, "Official"@),
            ]);
        }

        AppConfig {
            emulator_start: CommandConfig {
                label: String::from_str("start emulator"),
                program: program.clone(),
                args: start_args,
                requires_sudo,
                working_dir: None,
                env: Vec::new(),
            },
            emulator_stop: CommandConfig {
                label: String::from_str("stop emulator"),
                program,
                args: stop_args,
                requires_sudo,
                working_dir: None,
                env: Vec::new(),
            },
            maa_startup: CommandConfig {
                label: String::from_str("maa startup"),
                program: maa_bin,
                args: maa_args,
                requires_sudo: false,
                working_dir: None,
                env: Vec::new(),
            },
        }
    }

    /// Resolve the effective configuration: a successfully parsed
    /// configuration file wins outright; otherwise the environment
    /// overrides and built-in defaults apply.
    pub fn load(file: Option<AppConfig>, env: EnvOverrides) -> (r: AppConfig)
        ensures
            file is Some ==> r == file->Some_0,
            file is None ==> is_env_default_config(r, env),
    {
        match file {
            Some(cfg) => cfg,
            None => AppConfig::from_env(env),
        }
    }
}

/// Where the configuration file is looked for: an explicitly configured
/// path wins; otherwise the fixed location under the home directory;
/// nowhere when neither is known.
pub fn resolve_config_path(custom: Option<String>, home: Option<String>) -> (r: Option<String>)
    ensures
        custom is Some ==> r == custom,
        custom is None && home is Some ==> r is Some && r->Some_0@ == home->Some_0@
            + "/.config/easy_maa/easy_maa.toml"@,
        custom is None && home is None ==> r is None,
{
    match custom {
        Some(p) => Some(p),
        None => match home {
            Some(h) => Some(h.concat("/.config/easy_maa/easy_maa.toml")),
            None => None,
        },
    }
}

} // verus!
