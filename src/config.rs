//! The settings record and the rule by which a new record merges over an
//! existing one.
use vstd::prelude::*;

verus! {

/// The number of settings a record holds.
pub const FIELD_COUNT: usize = 8;

/// The settings of one scope. Every setting may be absent; absence means
/// "not set here" and is never the same as an empty string.
#[derive(Clone, Debug, PartialEq, Eq)]
pub struct Config {
    /// The default identity to connect as.
    pub target_org: Option<String>,
    /// The default identity for the auxiliary (admin) connection.
    pub target_dev_hub: Option<String>,
    pub org_api_version: Option<String>,
    /// `"true"` or `"false"`, kept as a string.
    pub org_metadata_rest_deploy: Option<String>,
    /// `"true"` or `"false"`, kept as a string.
    pub disable_telemetry: Option<String>,
    pub org_instance_url: Option<String>,
    pub org_max_query_limit: Option<String>,
    pub org_custom_metadata_templates: Option<String>,
    /// Whether the record belongs to the global scope rather than the project.
    /// It selects where the record is stored and is never itself stored.
    pub global: bool,
}

/// What a record is: its settings in declaration order, and its scope.
pub ghost struct ConfigView {
    pub values: Seq<Option<Seq<char>>>,
    pub global: bool,
}

pub open spec fn opt_view(o: Option<String>) -> Option<Seq<char>> {
    match o {
        Some(s) => Some(s@),
        None => None,
    }
}

pub open spec fn strings_view(v: Seq<String>) -> Seq<Seq<char>> {
    v.map_values(|s: String| s@)
}

impl View for Config {
    type V = ConfigView;

    open spec fn view(&self) -> ConfigView {
        ConfigView {
            values: seq![
                opt_view(self.target_org),
                opt_view(self.target_dev_hub),
                opt_view(self.org_api_version),
                opt_view(self.org_metadata_rest_deploy),
                opt_view(self.disable_telemetry),
                opt_view(self.org_instance_url),
                opt_view(self.org_max_query_limit),
                opt_view(self.org_custom_metadata_templates),
            ],
            global: self.global,
        }
    }
}

impl ConfigView {
    /// Every record has exactly one slot per setting.
    pub open spec fn wf(self) -> bool {
        self.values.len() == FIELD_COUNT
    }

    /// A record of the given scope with every setting absent.
    pub open spec fn empty(global: bool) -> ConfigView {
        ConfigView { values: Seq::new(FIELD_COUNT as nat, |i: int| None), global }
    }

    /// First-wins merge: each setting of `self` where present, else that of
    /// `other`; the scope is that of `self`.
    pub open spec fn merge(self, other: ConfigView) -> ConfigView {
        ConfigView {
            values: Seq::new(
                FIELD_COUNT as nat,
                |i: int|
                    if self.values[i] is Some {
                        self.values[i]
                    } else {
                        other.values[i]
                    },
            ),
            global: self.global,
        }
    }
}

fn first_present(a: &Option<String>, b: &Option<String>) -> (r: Option<String>)
    ensures
        opt_view(r) == if a is Some { opt_view(*a) } else { opt_view(*b) },
{
    match a {
        Some(s) => Some(s.clone()),
        None => match b {
            Some(s) => Some(s.clone()),
            None => None,
        },
    }
}

impl Config {
    /// A record of the given scope with every setting absent.
    pub fn new(global: bool) -> (r: Config)
        ensures
            r@ == ConfigView::empty(global),
    {
        let r = Config {
            target_org: None,
            target_dev_hub: None,
            org_api_version: None,
            org_metadata_rest_deploy: None,
            disable_telemetry: None,
            org_instance_url: None,
            org_max_query_limit: None,
            org_custom_metadata_templates: None,
            global,
        };
        assert(r@.values =~= ConfigView::empty(global).values);
        r
    }

    /// Merges two records: each setting of `self` where present, else that
    /// of `other`. The scope is that of `self`.
    pub fn merge(&self, other: &Self) -> (r: Self)
        ensures
            r@ == self@.merge(other@),
    {
        let r = Config {
            target_org: first_present(&self.target_org, &other.target_org),
            target_dev_hub: first_present(&self.target_dev_hub, &other.target_dev_hub),
            org_api_version: first_present(&self.org_api_version, &other.org_api_version),
            org_metadata_rest_deploy: first_present(
                &self.org_metadata_rest_deploy,
                &other.org_metadata_rest_deploy,
            ),
            disable_telemetry: first_present(&self.disable_telemetry, &other.disable_telemetry),
            org_instance_url: first_present(&self.org_instance_url, &other.org_instance_url),
            org_max_query_limit: first_present(
                &self.org_max_query_limit,
                &other.org_max_query_limit,
            ),
            org_custom_metadata_templates: first_present(
                &self.org_custom_metadata_templates,
                &other.org_custom_metadata_templates,
            ),
            global: self.global,
        };
        assert(r@.values =~= self@.merge(other@).values);
        r
    }
}

/// Why an operation on a stored record failed.
#[derive(Clone, Copy, Debug, PartialEq, Eq, Structural)]
pub enum ConfigError {
    /// The working directory or the home directory could not be determined.
    Environment,
    /// The file or directory does not exist.
    NotFound,
    /// The stored text is not a JSON object whose settings are strings.
    Parse,
    /// Reading or writing failed for another reason.
    Io,
}

/// The record a `set` stores: the new settings merged over the existing
/// record, where a missing file counts as an empty record and any other
/// failure to load is handed back.
pub open spec fn applied(
    new_values: ConfigView,
    existing: Result<ConfigView, ConfigError>,
) -> Result<ConfigView, ConfigError> {
    match existing {
        Ok(e) => Ok(new_values.merge(e)),
        Err(ConfigError::NotFound) => Ok(new_values.merge(ConfigView::empty(new_values.global))),
        Err(e) => Err(e),
    }
}

pub open spec fn loaded_view(r: Result<Config, ConfigError>) -> Result<ConfigView, ConfigError> {
    match r {
        Ok(c) => Ok(c@),
        Err(e) => Err(e),
    }
}

/// Decides the record to store from the new settings and the result of
/// loading the scope's existing record.
pub fn apply(new_values: &Config, existing: Result<Config, ConfigError>) -> (r: Result<
    Config,
    ConfigError,
>)
    ensures
        loaded_view(r) == applied(new_values@, loaded_view(existing)),
{
    match existing {
        Ok(saved) => Ok(new_values.merge(&saved)),
        Err(ConfigError::NotFound) => {
            let empty = Config::new(new_values.global);
            Ok(new_values.merge(&empty))
        },
        Err(e) => Err(e),
    }
}

/// A `set` on a scope without a stored record succeeds and stores exactly
/// the new settings, as if the existing record were empty.
pub proof fn lemma_apply_without_file(new_values: ConfigView)
    requires
        new_values.wf(),
    ensures
        applied(new_values, Err(ConfigError::NotFound)) == Ok::<ConfigView, ConfigError>(new_values),
{
    assert(new_values.merge(ConfigView::empty(new_values.global)).values =~= new_values.values);
}

/// Two `set`s in a row, the second loading what the first stored: each
/// setting is that of `r2` where present, else that of `r1` where present,
/// else what was stored before them; when nothing was stored before, it is
/// absent.
pub proof fn lemma_apply_twice(
    r1: ConfigView,
    r2: ConfigView,
    prior: Result<ConfigView, ConfigError>,
)
    requires
        r1.wf(),
        r2.wf(),
        prior is Ok ==> prior->Ok_0.wf(),
    ensures
        applied(r1, prior) is Ok ==> ({
            let second = applied(r2, applied(r1, prior));
            &&& second is Ok
            &&& second->Ok_0.wf()
            &&& forall|i: int|
                0 <= i < FIELD_COUNT ==> #[trigger] second->Ok_0.values[i] == if r2.values[i] is Some {
                    r2.values[i]
                } else if r1.values[i] is Some {
                    r1.values[i]
                } else if prior is Ok {
                    prior->Ok_0.values[i]
                } else {
                    None
                }
        }),
        prior == Err::<ConfigView, ConfigError>(ConfigError::NotFound) ==> ({
            let second = applied(r2, applied(r1, prior));
            &&& second is Ok
            &&& forall|i: int|
                0 <= i < FIELD_COUNT ==> #[trigger] second->Ok_0.values[i] == if r2.values[i] is Some {
                    r2.values[i]
                } else {
                    r1.values[i]
                }
        }),
{
}

/// Running the same `set` twice stores the same record both times.
pub proof fn lemma_apply_idempotent(new_values: ConfigView, prior: Result<ConfigView, ConfigError>)
    requires
        new_values.wf(),
        prior is Ok ==> prior->Ok_0.wf(),
    ensures
        applied(new_values, prior) is Ok ==> applied(new_values, applied(new_values, prior))
            == applied(new_values, prior),
{
    if applied(new_values, prior) is Ok {
        let once = applied(new_values, prior)->Ok_0;
        assert(new_values.merge(once).values =~= once.values);
    }
}

/// What the `config` command can do.
#[derive(Clone, Debug)]
pub enum Commands {
    /// Merge the given settings over those stored for their scope.
    SetValues(Config),
}

/// The two places a record can be stored.
#[derive(Clone, Copy, Debug, PartialEq, Eq, Structural)]
pub enum Location {
    Global,
    Project,
}

/// The directory, below the base directory of each scope, that holds its files.
pub const CONFIG_DIR: &'static str = ".sfdx";

/// The name of the file that holds a scope's record.
pub const CONFIG_FILE: &'static str = "sfdx-config.json";

/// A path below the base directory of a scope: the working directory for
/// the project, the home directory for global. Finding the base directory
/// is left to the caller.
#[derive(Clone, Debug, PartialEq, Eq)]
pub struct ScopedPath {
    pub base: Location,
    /// The components below the base directory, outermost first.
    pub relative: Vec<String>,
}

pub open spec fn location_of(global: bool) -> Location {
    if global {
        Location::Global
    } else {
        Location::Project
    }
}

/// The scope a record's `global` flag selects.
pub fn location(global: &bool) -> (r: Location)
    ensures
        r == location_of(*global),
{
    if *global {
        Location::Global
    } else {
        Location::Project
    }
}

/// The directory that holds a scope's files.
pub fn directory(global: &bool) -> (r: ScopedPath)
    ensures
        r.base == location_of(*global),
        strings_view(r.relative@) == seq![CONFIG_DIR@],
{
    let mut relative: Vec<String> = Vec::new();
    relative.push(CONFIG_DIR.to_owned());
    assert(strings_view(relative@) =~= seq![CONFIG_DIR@]);
    ScopedPath { base: location(global), relative }
}

/// The file that holds a scope's record.
pub fn file(global: &bool) -> (r: ScopedPath)
    ensures
        r.base == location_of(*global),
        strings_view(r.relative@) == seq![CONFIG_DIR@, CONFIG_FILE@],
{
    let mut path = directory(global);
    assert(seq![CONFIG_DIR@].len() == 1 && seq![CONFIG_DIR@][0] == CONFIG_DIR@);
    assert(path.relative@.len() == 1);
    assert(path.relative@[0]@ == CONFIG_DIR@);
    path.relative.push(CONFIG_FILE.to_owned());
    assert(strings_view(path.relative@) =~= seq![CONFIG_DIR@, CONFIG_FILE@]);
    path
}

} // verus!
