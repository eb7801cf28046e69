use gitquick::config::{
    apply_setting, parse_flag, parse_key, set_bool, set_vec, Branch, Commit, Config, Setting,
};
use gitquick::error::{ConfigKeyError, Error};

fn owned(items: &[&str]) -> Vec<String> {
    items.iter().map(|s| s.to_string()).collect()
}

fn sample() -> Config {
    Config {
        commit: Commit {
            conventional_commits: false,
            ticket_suffix: true,
            types: owned(&["feat", "fix"]),
        },
        branch: Branch { conventional_branches: false, types: owned(&["feature"]) },
    }
}

#[test]
fn default_commit_settings() {
    let commit = Commit::default();
    assert!(!commit.conventional_commits);
    assert!(!commit.ticket_suffix);
    assert_eq!(
        commit.types,
        owned(&[
            "build", "ci", "docs", "feat", "fix", "perf", "refactor", "style", "test", "revert"
        ])
    );
}

#[test]
fn default_branch_settings() {
    let branch = Branch::default();
    assert!(!branch.conventional_branches);
    assert_eq!(branch.types, owned(&["feature", "bugfix", "hotfix", "release", "chore"]));
}

#[test]
fn default_config_holds_both_default_sections() {
    let config = Config::default();
    assert_eq!(config.commit, Commit::default());
    assert_eq!(config.branch, Branch::default());
}

#[test]
fn parse_flag_reads_the_four_words() {
    assert_eq!(parse_flag("1"), Some(true));
    assert_eq!(parse_flag("true"), Some(true));
    assert_eq!(parse_flag("0"), Some(false));
    assert_eq!(parse_flag("false"), Some(false));
    assert_eq!(parse_flag(""), None);
    assert_eq!(parse_flag("TRUE"), None);
    assert_eq!(parse_flag("yes"), None);
    assert_eq!(parse_flag("true "), None);
    assert_eq!(parse_flag("10"), None);
}

#[test]
fn set_bool_accepts_any_case() {
    for (value, expected) in [
        ("1", true),
        ("true", true),
        ("TRUE", true),
        ("True", true),
        ("tRuE", true),
        ("0", false),
        ("false", false),
        ("FALSE", false),
        ("False", false),
    ] {
        let mut target = !expected;
        assert_eq!(set_bool(&mut target, value), Ok(()), "{:?}", value);
        assert_eq!(target, expected, "{:?}", value);
    }
}

#[test]
fn set_bool_refuses_other_values_and_keeps_the_target() {
    for value in ["", "maybe", "yes", "no", "2", " true", "true ", "tr ue", "ｔｒｕｅ"] {
        let mut on = true;
        assert_eq!(set_bool(&mut on, value), Err("Value must be boolean".to_string()));
        assert!(on);
        let mut off = false;
        assert_eq!(set_bool(&mut off, value), Err("Value must be boolean".to_string()));
        assert!(!off);
    }
}

#[test]
fn set_vec_trims_and_keeps_order() {
    let mut target = owned(&["feat", "fix"]);
    assert_eq!(set_vec(&mut target, "a, b ,c"), Ok(()));
    assert_eq!(target, owned(&["a", "b", "c"]));
}

#[test]
fn set_vec_keeps_empty_and_repeated_items() {
    let mut target = owned(&["feat"]);
    assert_eq!(set_vec(&mut target, "b,a,,a, ,b"), Ok(()));
    assert_eq!(target, owned(&["b", "a", "", "a", "", "b"]));
    assert_eq!(set_vec(&mut target, ""), Ok(()));
    assert_eq!(target, owned(&[""]));
    assert_eq!(set_vec(&mut target, " one item "), Ok(()));
    assert_eq!(target, owned(&["one item"]));
}

#[test]
fn parse_key_finds_each_setting() {
    assert_eq!(parse_key("commit.conventional_commits"), Ok(Setting::ConventionalCommits));
    assert_eq!(parse_key("commit.ticket_suffix"), Ok(Setting::TicketSuffix));
    assert_eq!(parse_key("commit.types"), Ok(Setting::CommitTypes));
    assert_eq!(parse_key("branch.conventional_branches"), Ok(Setting::ConventionalBranches));
    assert_eq!(parse_key("branch.types"), Ok(Setting::BranchTypes));
}

#[test]
fn parse_key_refuses_keys_without_exactly_one_dot() {
    for key in ["", "commit", "commit.types.extra", "..", "commit..types"] {
        assert_eq!(parse_key(key), Err(ConfigKeyError::MalformedKey), "{:?}", key);
    }
}

#[test]
fn parse_key_names_the_unknown_section() {
    assert_eq!(
        parse_key("tag.types"),
        Err(ConfigKeyError::UnknownSection { section: "tag".to_string() })
    );
    assert_eq!(
        parse_key(".types"),
        Err(ConfigKeyError::UnknownSection { section: "".to_string() })
    );
    assert_eq!(
        parse_key("Commit.types"),
        Err(ConfigKeyError::UnknownSection { section: "Commit".to_string() })
    );
}

#[test]
fn parse_key_names_the_unknown_field() {
    assert_eq!(
        parse_key("commit.conventional_branches"),
        Err(ConfigKeyError::UnknownField {
            section: "commit".to_string(),
            field: "conventional_branches".to_string()
        })
    );
    assert_eq!(
        parse_key("branch.ticket_suffix"),
        Err(ConfigKeyError::UnknownField {
            section: "branch".to_string(),
            field: "ticket_suffix".to_string()
        })
    );
    assert_eq!(
        parse_key("branch."),
        Err(ConfigKeyError::UnknownField { section: "branch".to_string(), field: "".to_string() })
    );
}

#[test]
fn config_set_changes_one_field_only() {
    let mut config = sample();
    assert_eq!(config.set(Setting::ConventionalCommits, "1"), Ok(()));
    assert_eq!(config.set(Setting::TicketSuffix, "0"), Ok(()));
    assert_eq!(config.set(Setting::BranchTypes, "x,y"), Ok(()));
    let mut expected = sample();
    expected.commit.conventional_commits = true;
    expected.commit.ticket_suffix = false;
    expected.branch.types = owned(&["x", "y"]);
    assert_eq!(config, expected);
    assert_eq!(config.set(Setting::ConventionalBranches, "on"), Err(ConfigKeyError::InvalidValue));
    assert_eq!(config, expected);
}

#[test]
fn apply_setting_replaces_the_commit_types() {
    let mut config = sample();
    assert_eq!(apply_setting(&mut config, "commit.types", "a, b ,c"), Ok(()));
    let mut expected = sample();
    expected.commit.types = owned(&["a", "b", "c"]);
    assert_eq!(config, expected);
}

#[test]
fn apply_setting_sets_a_flag_written_in_capitals() {
    let mut config = sample();
    assert_eq!(apply_setting(&mut config, "branch.conventional_branches", "TRUE"), Ok(()));
    let mut expected = sample();
    expected.branch.conventional_branches = true;
    assert_eq!(config, expected);
}

#[test]
fn apply_setting_refuses_a_value_that_is_no_flag() {
    let mut config = sample();
    assert_eq!(
        apply_setting(&mut config, "branch.conventional_branches", "maybe"),
        Err(Error::ConfigKey(ConfigKeyError::InvalidValue))
    );
    assert_eq!(config, sample());
}

#[test]
fn apply_setting_refuses_bad_keys_and_keeps_the_config() {
    let mut config = sample();
    assert_eq!(
        apply_setting(&mut config, "types", "a"),
        Err(Error::ConfigKey(ConfigKeyError::MalformedKey))
    );
    assert_eq!(
        apply_setting(&mut config, "tag.types", "a"),
        Err(Error::ConfigKey(ConfigKeyError::UnknownSection { section: "tag".to_string() }))
    );
    assert_eq!(
        apply_setting(&mut config, "commit.scope", "a"),
        Err(Error::ConfigKey(ConfigKeyError::UnknownField {
            section: "commit".to_string(),
            field: "scope".to_string()
        }))
    );
    assert_eq!(config, sample());
}

#[test]
fn apply_setting_reaches_every_field() {
    let mut config = sample();
    assert_eq!(apply_setting(&mut config, "commit.conventional_commits", "true"), Ok(()));
    assert_eq!(apply_setting(&mut config, "commit.ticket_suffix", "False"), Ok(()));
    assert_eq!(apply_setting(&mut config, "commit.types", "feat"), Ok(()));
    assert_eq!(apply_setting(&mut config, "branch.conventional_branches", "1"), Ok(()));
    assert_eq!(apply_setting(&mut config, "branch.types", "hotfix , chore"), Ok(()));
    assert_eq!(
        config,
        Config {
            commit: Commit {
                conventional_commits: true,
                ticket_suffix: false,
                types: owned(&["feat"]),
            },
            branch: Branch { conventional_branches: true, types: owned(&["hotfix", "chore"]) },
        }
    );
}
