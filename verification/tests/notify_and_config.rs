use easy_maa::config::{AppConfig, CommandConfig, EnvOverrides, resolve_config_path};
use easy_maa::notify::{ServerChanError, build_url, prepare_notification};
use easy_maa::strutil::{contains_str, i32_to_string, trim_str};

#[test]
fn build_url_extracts_the_shard_number() {
    let url = build_url("sctp123tA1B2C3").unwrap();
    assert_eq!(url, "https://123.push.ft07.com/send/sctp123tA1B2C3.send");
}

#[test]
fn build_url_uses_the_leftmost_marker() {
    let url = build_url("sctp7tsctp99t").unwrap();
    assert_eq!(url, "https://7.push.ft07.com/send/sctp7tsctp99t.send");
}

#[test]
fn build_url_rejects_keys_without_marker() {
    let err = build_url("SCT0000X").unwrap_err();
    assert!(matches!(err, ServerChanError::InvalidKey));
    assert_eq!(err.describe(), "send key has no sctp shard marker");
}

#[test]
fn build_url_rejects_marker_without_digits() {
    assert!(build_url("sctpt").is_err());
    assert!(build_url("sctp12").is_err());
}

#[test]
fn build_url_accepts_ascii_digits_only() {
    // A marker whose digit is a non-ASCII decimal digit does not count.
    assert!(build_url("sctp\u{0663}t").is_err());
    // And such a marker is passed over in favour of an ASCII one.
    let url = build_url("sctp\u{0663}tsctp4t").unwrap();
    assert_eq!(url, "https://4.push.ft07.com/send/sctp\u{0663}tsctp4t.send");
}

#[test]
fn prepare_notification_encodes_the_form_body() {
    let req = prepare_notification("sctp5tKEY", "hello world", "all done").unwrap();
    assert_eq!(req.url, "https://5.push.ft07.com/send/sctp5tKEY.send");
    assert_eq!(req.body, "text=hello+world&desp=all+done");
}

#[test]
fn prepare_notification_escapes_special_characters() {
    let req = prepare_notification("sctp5tKEY", "a&b", "c=d").unwrap();
    assert_eq!(req.body, "text=a%26b&desp=c%3Dd");
}

#[test]
fn prepare_notification_rejects_bad_keys() {
    let err = prepare_notification("nokey", "t", "d").unwrap_err();
    assert!(matches!(err, ServerChanError::InvalidKey));
}

#[test]
fn default_command_runs_true() {
    let c = CommandConfig::default();
    assert_eq!(c.label, "custom");
    assert_eq!(c.program, "true");
    assert!(c.args.is_empty());
    assert!(!c.requires_sudo);
    assert!(c.working_dir.is_none());
    assert!(c.env.is_empty());
}

fn overrides(
    container: Option<&str>,
    program: Option<&str>,
    profile: Option<&str>,
    bin: Option<&str>,
    skip: Option<&str>,
    needs: Option<&str>,
) -> EnvOverrides {
    EnvOverrides {
        container_name: container.map(|s| s.to_string()),
        emulator_program: program.map(|s| s.to_string()),
        maa_profile: profile.map(|s| s.to_string()),
        maa_bin: bin.map(|s| s.to_string()),
        skip_sudo_validation: skip.map(|s| s.to_string()),
        emulator_needs_sudo: needs.map(|s| s.to_string()),
    }
}

#[test]
fn env_defaults_fill_every_command() {
    let cfg = AppConfig::from_env(EnvOverrides::none());
    assert_eq!(cfg.emulator_start.program, "podman");
    assert_eq!(cfg.emulator_start.args, vec!["start", "maa-container"]);
    assert!(!cfg.emulator_start.requires_sudo);
    assert_eq!(cfg.emulator_stop.program, "podman");
    assert_eq!(cfg.emulator_stop.args, vec!["stop", "maa-container"]);
    assert_eq!(cfg.maa_startup.program, "maa");
    assert_eq!(cfg.maa_startup.args, vec!["startup", "Official"]);
    assert!(!cfg.maa_startup.requires_sudo);
}

#[test]
fn env_overrides_are_honoured() {
    let cfg = AppConfig::from_env(overrides(
        Some("arknights"),
        Some("docker"),
        Some("Bilibili"),
        Some("/opt/maa/bin"),
        None,
        Some("TRUE"),
    ));
    assert_eq!(cfg.emulator_start.program, "docker");
    assert_eq!(cfg.emulator_start.args, vec!["start", "arknights"]);
    assert!(cfg.emulator_start.requires_sudo);
    assert!(cfg.emulator_stop.requires_sudo);
    assert_eq!(cfg.maa_startup.program, "/opt/maa/bin");
    assert_eq!(cfg.maa_startup.args, vec!["startup", "Bilibili"]);
    assert!(!cfg.maa_startup.requires_sudo);
}

#[test]
fn skip_sudo_validation_forces_sudo_off() {
    let cfg = AppConfig::from_env(overrides(None, None, None, None, Some("1"), Some("1")));
    assert!(!cfg.emulator_start.requires_sudo);
    assert!(!cfg.emulator_stop.requires_sudo);
}

#[test]
fn truthy_flags_accept_one_and_true_only() {
    let truthy = ["1", "true", "TRUE", "True", "tRuE"];
    for v in truthy {
        let cfg = AppConfig::from_env(overrides(None, None, None, None, None, Some(v)));
        assert!(cfg.emulator_start.requires_sudo, "{v} should count as true");
    }
    let falsy = ["0", "yes", "on", "truthy", "", "2"];
    for v in falsy {
        let cfg = AppConfig::from_env(overrides(None, None, None, None, None, Some(v)));
        assert!(!cfg.emulator_start.requires_sudo, "{v} should count as false");
    }
}

#[test]
fn parsed_file_wins_over_environment() {
    let file = AppConfig {
        emulator_start: CommandConfig {
            label: "start emulator".to_string(),
            program: "from-file".to_string(),
            args: vec![],
            requires_sudo: false,
            working_dir: None,
            env: vec![],
        },
        emulator_stop: CommandConfig::default(),
        maa_startup: CommandConfig::default(),
    };
    let env = overrides(None, Some("from-env"), None, None, None, None);
    let cfg = AppConfig::load(Some(file), env);
    assert_eq!(cfg.emulator_start.program, "from-file");
}

#[test]
fn without_file_the_environment_applies() {
    let env = overrides(None, Some("from-env"), None, None, None, None);
    let cfg = AppConfig::load(None, env);
    assert_eq!(cfg.emulator_start.program, "from-env");
}

#[test]
fn config_path_prefers_the_explicit_override() {
    let r = resolve_config_path(Some("/etc/x.toml".to_string()), Some("/home/u".to_string()));
    assert_eq!(r.as_deref(), Some("/etc/x.toml"));
    let r = resolve_config_path(None, Some("/home/u".to_string()));
    assert_eq!(r.as_deref(), Some("/home/u/.config/easy_maa/easy_maa.toml"));
    assert_eq!(resolve_config_path(None, None), None);
}

#[test]
fn substring_search_matches_the_container_listing() {
    let listing = "CONTAINER ID  IMAGE  NAME\nabc123  arch  maa-container\n";
    assert!(contains_str(listing, "maa-container"));
    assert!(!contains_str(listing, "other-box"));
    assert!(contains_str(listing, ""));
    assert!(!contains_str("short", "much longer pattern"));
}

#[test]
fn trimming_strips_surrounding_whitespace_only() {
    assert_eq!(trim_str("  a b \n"), "a b");
    assert_eq!(trim_str("\t\r\n "), "");
    assert_eq!(trim_str("intact"), "intact");
    assert_eq!(trim_str(""), "");
}

#[test]
fn decimal_rendering_covers_signs_and_extremes() {
    assert_eq!(i32_to_string(0), "0");
    assert_eq!(i32_to_string(1), "1");
    assert_eq!(i32_to_string(-1), "-1");
    assert_eq!(i32_to_string(126), "126");
    assert_eq!(i32_to_string(i32::MAX), "2147483647");
    assert_eq!(i32_to_string(i32::MIN), "-2147483648");
}
