use multi_agent_file_processor::config::{
    agent_from_parts, enabled_agents, parse_launcher_config, parse_restart_policy, ConfigError,
    LauncherConfig,
};
use multi_agent_file_processor::supervisor::{AgentConfig, RestartPolicy};

#[test]
fn restart_policy_words() {
    assert_eq!(parse_restart_policy("never"), Some(RestartPolicy::Never));
    assert_eq!(parse_restart_policy("on_failure"), Some(RestartPolicy::OnFailure));
    assert_eq!(parse_restart_policy("always"), Some(RestartPolicy::Always));
    assert_eq!(parse_restart_policy("sometimes"), None);
    assert_eq!(parse_restart_policy(""), None);
    assert_eq!(parse_restart_policy("Always"), None);
}

#[test]
fn agent_from_parts_keeps_fields() {
    let c = agent_from_parts("explorer", "file_explorer", true, "always", 0).unwrap();
    assert_eq!(c.name, "explorer");
    assert_eq!(c.bin, "file_explorer");
    assert!(c.enabled);
    assert_eq!(c.restart, RestartPolicy::Always);
}

#[test]
fn agent_from_parts_rejects_bad_policy() {
    let e = agent_from_parts("explorer", "file_explorer", true, "weekly", 3).unwrap_err();
    match e {
        ConfigError::BadPolicy(idx, word) => {
            assert_eq!(idx, 3);
            assert_eq!(word, "weekly");
        }
        other => panic!("expected BadPolicy, found {other:?}"),
    }
}

#[test]
fn parse_full_launcher_config() {
    let text = r#"
build_profile = "release"

[[agents]]
name = "explorer"
bin = "file_explorer"
enabled = true
restart = "always"

[[agents]]
name = "metadata"
bin = "metadata_extractor"
enabled = false
restart = "on_failure"

[[agents]]
name = "summarizer"
bin = "summarizer"
enabled = true
restart = "never"
"#;
    let cfg = parse_launcher_config(text).unwrap();
    assert_eq!(cfg.build_profile, "release");
    assert_eq!(cfg.agents.len(), 3);
    assert_eq!(cfg.agents[0].name, "explorer");
    assert_eq!(cfg.agents[0].restart, RestartPolicy::Always);
    assert!(cfg.agents[0].enabled);
    assert_eq!(cfg.agents[1].bin, "metadata_extractor");
    assert!(!cfg.agents[1].enabled);
    assert_eq!(cfg.agents[1].restart, RestartPolicy::OnFailure);
    assert_eq!(cfg.agents[2].restart, RestartPolicy::Never);
}

#[test]
fn parse_rejects_syntax_error() {
    let e = parse_launcher_config("build_profile = [unclosed").unwrap_err();
    assert!(matches!(e, ConfigError::Syntax(_)));
}

#[test]
fn parse_rejects_missing_build_profile() {
    let e = parse_launcher_config("[[agents]]\nname = \"a\"\n").unwrap_err();
    assert!(matches!(e, ConfigError::MissingBuildProfile));
}

#[test]
fn parse_rejects_missing_agents() {
    let e = parse_launcher_config("build_profile = \"debug\"\n").unwrap_err();
    assert!(matches!(e, ConfigError::MissingAgents));
}

#[test]
fn parse_rejects_incomplete_agent_entry() {
    let base = "build_profile = \"debug\"\n\n[[agents]]\n";
    let e = parse_launcher_config(&format!("{base}bin = \"x\"\nenabled = true\nrestart = \"never\"\n"))
        .unwrap_err();
    assert!(matches!(e, ConfigError::MissingName(0)));
    let e = parse_launcher_config(&format!("{base}name = \"a\"\nenabled = true\nrestart = \"never\"\n"))
        .unwrap_err();
    assert!(matches!(e, ConfigError::MissingBin(0)));
    let e = parse_launcher_config(&format!("{base}name = \"a\"\nbin = \"x\"\nrestart = \"never\"\n"))
        .unwrap_err();
    assert!(matches!(e, ConfigError::MissingEnabled(0)));
    let e = parse_launcher_config(&format!("{base}name = \"a\"\nbin = \"x\"\nenabled = true\n"))
        .unwrap_err();
    assert!(matches!(e, ConfigError::MissingRestart(0)));
}

#[test]
fn parse_rejects_bad_policy_with_position() {
    let text = "build_profile = \"debug\"\n\n[[agents]]\nname = \"a\"\nbin = \"x\"\nenabled = true\nrestart = \"always\"\n\n[[agents]]\nname = \"b\"\nbin = \"y\"\nenabled = true\nrestart = \"hourly\"\n";
    let e = parse_launcher_config(text).unwrap_err();
    match e {
        ConfigError::BadPolicy(idx, word) => {
            assert_eq!(idx, 1);
            assert_eq!(word, "hourly");
        }
        other => panic!("expected BadPolicy, found {other:?}"),
    }
}

#[test]
fn enabled_agents_keeps_only_enabled_in_order() {
    let mk = |name: &str, enabled: bool| AgentConfig {
        name: name.to_string(),
        bin: name.to_string(),
        enabled,
        restart: RestartPolicy::Never,
    };
    let cfg = LauncherConfig {
        build_profile: "debug".to_string(),
        agents: vec![mk("a", true), mk("b", false), mk("c", true), mk("d", false)],
    };
    let enabled = enabled_agents(&cfg);
    let names: Vec<&str> = enabled.iter().map(|a| a.name.as_str()).collect();
    assert_eq!(names, vec!["a", "c"]);
}
