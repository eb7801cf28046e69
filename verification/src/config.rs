//! The settings: two sections of flags and lists of type names, and how a
//! `section.field` key and a value given as text change them.

use crate::error::{ConfigKeyError, Error};
use crate::text::{pieces, same_text, split, texts, trim, trimmed};
use vstd::prelude::*;
use vstd::string::*;

verus! {

/// The settings for composing commit messages.
#[derive(Debug, PartialEq, Eq)]
pub struct Commit {
    pub conventional_commits: bool,
    pub ticket_suffix: bool,
    pub types: Vec<String>,
}

/// The settings for naming branches.
#[derive(Debug, PartialEq, Eq)]
pub struct Branch {
    pub conventional_branches: bool,
    pub types: Vec<String>,
}

/// All settings.
#[derive(Debug, PartialEq, Eq)]
pub struct Config {
    pub commit: Commit,
    pub branch: Branch,
}

/// What a `Commit` section holds.
pub struct CommitView {
    pub conventional_commits: bool,
    pub ticket_suffix: bool,
    pub types: Seq<Seq<char>>,
}

/// What a `Branch` section holds.
pub struct BranchView {
    pub conventional_branches: bool,
    pub types: Seq<Seq<char>>,
}

/// What a `Config` holds.
pub struct ConfigView {
    pub commit: CommitView,
    pub branch: BranchView,
}

impl View for Commit {
    type V = CommitView;

    open spec fn view(&self) -> CommitView {
        CommitView {
            conventional_commits: self.conventional_commits,
            ticket_suffix: self.ticket_suffix,
            types: texts(self.types@),
        }
    }
}

impl View for Branch {
    type V = BranchView;

    open spec fn view(&self) -> BranchView {
        BranchView { conventional_branches: self.conventional_branches, types: texts(self.types@) }
    }
}

impl View for Config {
    type V = ConfigView;

    open spec fn view(&self) -> ConfigView {
        ConfigView { commit: self.commit@, branch: self.branch@ }
    }
}

/// The commit types of a fresh configuration.
pub open spec fn default_commit_types() -> Seq<Seq<char>> {
    seq![
        "build"@,
        "ci"@,
        "docs"@,
        "feat"@,
        "fix"@,
        "perf"@,
        "refactor"@,
        "style"@,
        "test"@,
        "revert"@,
    ]
}

/// The branch types of a fresh configuration.
pub open spec fn default_branch_types() -> Seq<Seq<char>> {
    seq!["feature"@, "bugfix"@, "hotfix"@, "release"@, "chore"@]
}

impl Default for Commit {
    /// Both flags off, and the conventional commit types.
    fn default() -> (r: Self)
        ensures
            !r.conventional_commits,
            !r.ticket_suffix,
            texts(r.types@) == default_commit_types(),
    {
        let types = vec![
            String::from_str("build"),
            String::from_str("ci"),
            String::from_str("docs"),
            String::from_str("feat"),
            String::from_str("fix"),
            String::from_str("perf"),
            String::from_str("refactor"),
            String::from_str("style"),
            String::from_str("test"),
            String::from_str("revert"),
        ];
        assert(texts(types@) =~= default_commit_types());
        Commit { conventional_commits: false, ticket_suffix: false, types }
    }
}

impl Default for Branch {
    /// The flag off, and the usual branch types.
    fn default() -> (r: Self)
        ensures
            !r.conventional_branches,
            texts(r.types@) == default_branch_types(),
    {
        let types = vec![
            String::from_str("feature"),
            String::from_str("bugfix"),
            String::from_str("hotfix"),
            String::from_str("release"),
            String::from_str("chore"),
        ];
        assert(texts(types@) =~= default_branch_types());
        Branch { conventional_branches: false, types }
    }
}

impl Default for Config {
    /// Each section as it is by default.
    fn default() -> (r: Self)
        ensures
            !r.commit.conventional_commits,
            !r.commit.ticket_suffix,
            texts(r.commit.types@) == default_commit_types(),
            !r.branch.conventional_branches,
            texts(r.branch.types@) == default_branch_types(),
    {
        Config { commit: Commit::default(), branch: Branch::default() }
    }
}

/// The lowercase form that `str::to_lowercase` gives to a text.
pub uninterp spec fn lowercase_of(s: Seq<char>) -> Seq<char>;

/// `str::to_lowercase` on `s`: the lowercase equivalent of `s` as Unicode
/// defines it. The contract gives that text a name and claims nothing more.
#[verifier::external_body]
fn to_lowercase(s: &str) -> (r: String)
    ensures
        r@ == lowercase_of(s@),
{
    s.to_lowercase()
}

/// The flag that a text in lowercase stands for: `1` and `true` for on, `0`
/// and `false` for off.
pub open spec fn flag_of(lowered: Seq<char>) -> Option<bool> {
    if lowered == "1"@ || lowered == "true"@ {
        Some(true)
    } else if lowered == "0"@ || lowered == "false"@ {
        Some(false)
    } else {
        None
    }
}

/// The list that a text stands for: what lies between its commas, each item
/// without the white space around it, in the order given. Empty items and
/// repeated ones stay.
pub open spec fn list_of(value: Seq<char>) -> Seq<Seq<char>> {
    pieces(value, ',').map_values(|item: Seq<char>| trimmed(item))
}

/// Reads a text in lowercase as a flag.
pub fn parse_flag(lowered: &str) -> (r: Option<bool>)
    ensures
        r == flag_of(lowered@),
{
    if same_text(lowered, "1") || same_text(lowered, "true") {
        Some(true)
    } else if same_text(lowered, "0") || same_text(lowered, "false") {
        Some(false)
    } else {
        None
    }
}

/// Sets `target` to the flag that `value` stands for, whatever the case of
/// its letters, or refuses `value` and leaves `target` as it was.
pub fn set_bool(target: &mut bool, value: &str) -> (r: Result<(), String>)
    ensures
        match flag_of(lowercase_of(value@)) {
            Some(flag) => r is Ok && *final(target) == flag,
            None => r is Err && r->Err_0@ == "Value must be boolean"@ && *final(target) == *old(
                target,
            ),
        },
{
    let lowered = to_lowercase(value);
    match parse_flag(lowered.as_str()) {
        Some(flag) => {
            *target = flag;
            Ok(())
        },
        None => Err(String::from_str("Value must be boolean")),
    }
}

/// Replaces `target` by the list that `value` stands for. This never fails.
pub fn set_vec(target: &mut Vec<String>, value: &str) -> (r: Result<(), String>)
    ensures
        r is Ok,
        texts(final(target)@) == list_of(value@),
{
    let parts = split(value, ',');
    let mut out: Vec<String> = Vec::new();
    let mut i: usize = 0;
    while i < parts.len()
        invariant
            i <= parts.len(),
            texts(parts@) == pieces(value@, ','),
            texts(out@) == list_of(value@).take(i as int),
        decreases parts.len() - i,
    {
        let item = trim(parts[i].as_str());
        proof {
            assert(texts(parts@)[i as int] == parts@[i as int]@);
            assert(texts(out@.push(item)) =~= texts(out@).push(item@));
            assert(list_of(value@).take(i + 1) =~= list_of(value@).take(i as int).push(item@));
        }
        out.push(item);
        i += 1;
    }
    assert(list_of(value@).take(parts.len() as int) =~= list_of(value@));
    *target = out;
    Ok(())
}

/// A field of the configuration that can be set.
#[derive(Debug, Clone, Copy, PartialEq, Eq, Structural)]
pub enum Setting {
    /// `commit.conventional_commits`, a flag.
    ConventionalCommits,
    /// `commit.ticket_suffix`, a flag.
    TicketSuffix,
    /// `commit.types`, a list.
    CommitTypes,
    /// `branch.conventional_branches`, a flag.
    ConventionalBranches,
    /// `branch.types`, a list.
    BranchTypes,
}

/// Tells whether a section has this name.
pub open spec fn is_section(section: Seq<char>) -> bool {
    section == "commit"@ || section == "branch"@
}

/// The field called `field` in the section called `section`.
pub open spec fn setting_named(section: Seq<char>, field: Seq<char>) -> Option<Setting> {
    if section == "commit"@ {
        if field == "conventional_commits"@ {
            Some(Setting::ConventionalCommits)
        } else if field == "ticket_suffix"@ {
            Some(Setting::TicketSuffix)
        } else if field == "types"@ {
            Some(Setting::CommitTypes)
        } else {
            None
        }
    } else if section == "branch"@ {
        if field == "conventional_branches"@ {
            Some(Setting::ConventionalBranches)
        } else if field == "types"@ {
            Some(Setting::BranchTypes)
        } else {
            None
        }
    } else {
        None
    }
}

/// The field that `key` names: `key` is a section, one dot and a field.
pub open spec fn key_setting(key: Seq<char>) -> Option<Setting> {
    let parts = pieces(key, '.');
    if parts.len() == 2 {
        setting_named(parts[0], parts[1])
    } else {
        None
    }
}

/// Tells whether `e` is the refusal owed to a `key` that names no field.
pub open spec fn is_key_fault(key: Seq<char>, e: ConfigKeyError) -> bool {
    let parts = pieces(key, '.');
    match e {
        ConfigKeyError::MalformedKey => parts.len() != 2,
        ConfigKeyError::UnknownSection { section } => {
            &&& parts.len() == 2
            &&& !is_section(parts[0])
            &&& section@ == parts[0]
        },
        ConfigKeyError::UnknownField { section, field } => {
            &&& parts.len() == 2
            &&& is_section(parts[0])
            &&& setting_named(parts[0], parts[1]) is None
            &&& section@ == parts[0]
            &&& field@ == parts[1]
        },
        ConfigKeyError::InvalidValue => false,
    }
}

/// The configuration that results from giving `setting` the value written
/// as `value`; none where `value` does not fit the field.
pub open spec fn applied(config: ConfigView, setting: Setting, value: Seq<char>) -> Option<
    ConfigView,
> {
    match setting {
        Setting::ConventionalCommits => match flag_of(lowercase_of(value)) {
            Some(flag) => Some(
                ConfigView {
                    commit: CommitView { conventional_commits: flag, ..config.commit },
                    ..config
                },
            ),
            None => None,
        },
        Setting::TicketSuffix => match flag_of(lowercase_of(value)) {
            Some(flag) => Some(
                ConfigView { commit: CommitView { ticket_suffix: flag, ..config.commit }, ..config },
            ),
            None => None,
        },
        Setting::CommitTypes => Some(
            ConfigView { commit: CommitView { types: list_of(value), ..config.commit }, ..config },
        ),
        Setting::ConventionalBranches => match flag_of(lowercase_of(value)) {
            Some(flag) => Some(
                ConfigView {
                    branch: BranchView { conventional_branches: flag, ..config.branch },
                    ..config
                },
            ),
            None => None,
        },
        Setting::BranchTypes => Some(
            ConfigView { branch: BranchView { types: list_of(value), ..config.branch }, ..config },
        ),
    }
}

/// Finds the field that `key` names, or says what is wrong with `key`.
pub fn parse_key(key: &str) -> (r: Result<Setting, ConfigKeyError>)
    ensures
        match r {
            Ok(setting) => key_setting(key@) == Some(setting),
            Err(e) => key_setting(key@) is None && is_key_fault(key@, e),
        },
{
    let mut parts = split(key, '.');
    if parts.len() != 2 {
        return Err(ConfigKeyError::MalformedKey);
    }
    assert(texts(parts@)[0] == parts@[0]@);
    assert(texts(parts@)[1] == parts@[1]@);
    let field = parts.pop().unwrap();
    let section = parts.pop().unwrap();
    if same_text(section.as_str(), "commit") {
        if same_text(field.as_str(), "conventional_commits") {
            Ok(Setting::ConventionalCommits)
        } else if same_text(field.as_str(), "ticket_suffix") {
            Ok(Setting::TicketSuffix)
        } else if same_text(field.as_str(), "types") {
            Ok(Setting::CommitTypes)
        } else {
            Err(ConfigKeyError::UnknownField { section, field })
        }
    } else if same_text(section.as_str(), "branch") {
        if same_text(field.as_str(), "conventional_branches") {
            Ok(Setting::ConventionalBranches)
        } else if same_text(field.as_str(), "types") {
            Ok(Setting::BranchTypes)
        } else {
            Err(ConfigKeyError::UnknownField { section, field })
        }
    } else {
        Err(ConfigKeyError::UnknownSection { section })
    }
}

impl Config {
    /// Gives `setting` the value written as `value`, or refuses `value` and
    /// leaves the configuration as it was.
    pub fn set(&mut self, setting: Setting, value: &str) -> (r: Result<(), ConfigKeyError>)
        ensures
            match applied(old(self)@, setting, value@) {
                Some(next) => r is Ok && final(self)@ == next,
                None => r == Err::<(), ConfigKeyError>(ConfigKeyError::InvalidValue) && *final(self)
                    == *old(self),
            },
    {
        let outcome = match setting {
            Setting::ConventionalCommits => set_bool(&mut self.commit.conventional_commits, value),
            Setting::TicketSuffix => set_bool(&mut self.commit.ticket_suffix, value),
            Setting::CommitTypes => set_vec(&mut self.commit.types, value),
            Setting::ConventionalBranches => set_bool(
                &mut self.branch.conventional_branches,
                value,
            ),
            Setting::BranchTypes => set_vec(&mut self.branch.types, value),
        };
        match outcome {
            Ok(()) => Ok(()),
            Err(_) => Err(ConfigKeyError::InvalidValue),
        }
    }
}

/// Sets the field that `key` names to the value written as `value`. Where
/// the key or the value is refused, the configuration stays as it was.
pub fn apply_setting(config: &mut Config, key: &str, value: &str) -> (r: Result<(), Error>)
    ensures
        match key_setting(key@) {
            Some(setting) => match applied(old(config)@, setting, value@) {
                Some(next) => r is Ok && final(config)@ == next,
                None => r == Err::<(), Error>(Error::ConfigKey(ConfigKeyError::InvalidValue))
                    && *final(config) == *old(config),
            },
            None => {
                &&& r matches Err(Error::ConfigKey(e))
                &&& is_key_fault(key@, e)
                &&& *final(config) == *old(config)
            },
        },
{
    match parse_key(key) {
        Ok(setting) => match config.set(setting, value) {
            Ok(()) => Ok(()),
            Err(e) => Err(Error::ConfigKey(e)),
        },
        Err(e) => Err(Error::ConfigKey(e)),
    }
}

} // verus!
