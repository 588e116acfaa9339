use git_ssh_ids::config::{Config, DirectoryConfig, RunError};
use git_ssh_ids::dispatch::{exit_code, plan_invocation, ssh_command};
use git_ssh_ids::path::starts_with_path;
use git_ssh_ids::resolve::determine_ssh_key;

fn rule(path: &str, key: &str) -> DirectoryConfig {
    DirectoryConfig::new(path.to_string(), key.to_string())
}

fn sample_config() -> Config {
    Config::new(
        "~/.ssh/id_personal".to_string(),
        vec![rule("/work/repo", "~/.ssh/id_work")],
    )
}

#[test]
fn test_determine_ssh_key() {
    let config = Config {
        default: "default_key".to_string(),
        directories: vec![DirectoryConfig {
            path: "test/path".to_string(),
            key: "test_key".to_string(),
        }],
    };

    let key = determine_ssh_key(&config, "test/path");
    assert_eq!(key, "test_key");

    let key = determine_ssh_key(&config, "some/other/path");
    assert_eq!(key, "default_key");
}

#[test]
fn default_key_when_no_rule_matches() {
    let config = Config::new(
        "d".to_string(),
        vec![rule("/a/b", "k1"), rule("/c", "k2")],
    );
    assert_eq!(determine_ssh_key(&config, "/a"), "d");
    assert_eq!(determine_ssh_key(&config, "/a/bc"), "d");
    assert_eq!(determine_ssh_key(&config, "/cd/e"), "d");
}

#[test]
fn default_key_with_no_rules() {
    let config = Config::new("only".to_string(), vec![]);
    assert_eq!(determine_ssh_key(&config, "/anything/at/all"), "only");
}

#[test]
fn matching_rule_key_is_chosen() {
    let config = Config::new(
        "d".to_string(),
        vec![rule("/x", "kx"), rule("/a/b", "kab")],
    );
    assert_eq!(determine_ssh_key(&config, "/a/b"), "kab");
    assert_eq!(determine_ssh_key(&config, "/a/b/c/d"), "kab");
}

#[test]
fn first_matching_rule_wins_over_longer_prefix() {
    let config = Config::new(
        "d".to_string(),
        vec![rule("/work", "short"), rule("/work/repo", "long")],
    );
    assert_eq!(determine_ssh_key(&config, "/work/repo/src"), "short");
    let config = Config::new(
        "d".to_string(),
        vec![rule("/work/repo", "long"), rule("/work", "short")],
    );
    assert_eq!(determine_ssh_key(&config, "/work/repo/src"), "long");
    assert_eq!(determine_ssh_key(&config, "/work/other"), "short");
}

#[test]
fn equal_prefixes_take_the_first_rule() {
    let config = Config::new(
        "d".to_string(),
        vec![rule("/same", "first"), rule("/same", "second")],
    );
    assert_eq!(determine_ssh_key(&config, "/same/x"), "first");
}

#[test]
fn prefix_match_is_by_whole_components() {
    assert!(starts_with_path("/work/repo", "/work"));
    assert!(starts_with_path("/work/repo", "/work/repo"));
    assert!(starts_with_path("/work/repo", "/work/repo/"));
    assert!(starts_with_path("/work//repo/", "/work/./repo"));
    assert!(!starts_with_path("/work/repo", "/wo"));
    assert!(!starts_with_path("/work/repo", "work"));
    assert!(!starts_with_path("work/repo", "/work"));
    assert!(!starts_with_path("/work", "/work/repo"));
    assert!(starts_with_path("/anything", ""));
    assert!(starts_with_path("./a/b", "./a"));
    assert!(!starts_with_path("a/b", "./a"));
    assert!(starts_with_path("a/../b", "a/.."));
}

#[test]
fn prefix_match_agrees_with_std_paths() {
    let samples = [
        "", "/", "//", ".", "./", "..", "a", "a/", "a/b", "./a", "./a/b", "a/./b", "a/../b",
        "/a", "/a/", "/a/b", "/a//b", "/a/./b", "/a/b/.", "/ab", "/a/bc", "a/.", "./.", "/.",
        ".a", "a.", "/work/repo", "/work/repo/subdir", "/wo", "é/ü", "/é",
    ];
    for p in samples.iter() {
        for b in samples.iter() {
            let expected = std::path::Path::new(p).starts_with(b);
            assert_eq!(starts_with_path(p, b), expected, "path {:?} base {:?}", p, b);
        }
    }
}

#[test]
fn work_directory_uses_work_key() {
    let args = vec!["status".to_string()];
    let inv = plan_invocation(Ok(sample_config()), Some("/work/repo/subdir".to_string()), args)
        .unwrap();
    assert_eq!(inv.program, "git");
    assert_eq!(inv.args, vec!["status".to_string()]);
    assert_eq!(inv.env_name, "GIT_SSH_COMMAND");
    assert_eq!(inv.env_value, "ssh -i ~/.ssh/id_work -o IdentitiesOnly=yes");
}

#[test]
fn other_directory_uses_default_key() {
    let args = vec!["pull".to_string()];
    let inv = plan_invocation(Ok(sample_config()), Some("/home/user/other".to_string()), args)
        .unwrap();
    assert_eq!(inv.args, vec!["pull".to_string()]);
    assert_eq!(inv.env_value, "ssh -i ~/.ssh/id_personal -o IdentitiesOnly=yes");
}

#[test]
fn arguments_are_forwarded_unchanged() {
    let args = vec!["commit".to_string(), "-m".to_string(), "a message".to_string()];
    let inv = plan_invocation(Ok(sample_config()), Some("/".to_string()), args.clone()).unwrap();
    assert_eq!(inv.args, args);
}

#[test]
fn tool_exit_code_is_forwarded() {
    assert_eq!(exit_code(Some(1)), 1);
    assert_eq!(exit_code(Some(0)), 0);
    assert_eq!(exit_code(Some(128)), 128);
    assert_eq!(exit_code(None), 0);
}

#[test]
fn ssh_command_names_the_key() {
    assert_eq!(ssh_command("/k"), "ssh -i /k -o IdentitiesOnly=yes");
    assert_eq!(ssh_command(""), "ssh -i  -o IdentitiesOnly=yes");
}

#[test]
fn missing_default_is_a_format_error() {
    let r = Config::from_fields(None, Some(vec![rule("/a", "k")]));
    assert_eq!(r.err(), Some(RunError::ConfigFormatError));
}

#[test]
fn missing_directories_means_no_rules() {
    let c = Config::from_fields(Some("d".to_string()), None).unwrap();
    assert_eq!(c.default, "d");
    assert!(c.directories.is_empty());
}

#[test]
fn fields_are_kept_in_order() {
    let c = Config::from_fields(
        Some("d".to_string()),
        Some(vec![rule("/a", "k1"), rule("/b", "k2")]),
    )
    .unwrap();
    assert_eq!(c.directories.len(), 2);
    assert_eq!(c.directories[0].path, "/a");
    assert_eq!(c.directories[1].key, "k2");
}

#[test]
fn malformed_config_starts_nothing() {
    let loaded = Config::from_fields(None, None);
    let r = plan_invocation(loaded, Some("/work/repo".to_string()), vec!["status".to_string()]);
    assert_eq!(r.err(), Some(RunError::ConfigFormatError));
}

#[test]
fn unreadable_config_starts_nothing() {
    let r = plan_invocation(Err(RunError::ConfigIoError), Some("/".to_string()), vec![]);
    assert_eq!(r.err(), Some(RunError::ConfigIoError));
}

#[test]
fn unknown_working_directory_starts_nothing() {
    let r = plan_invocation(Ok(sample_config()), None, vec!["status".to_string()]);
    assert_eq!(r.err(), Some(RunError::EnvironmentResolutionError));
}
