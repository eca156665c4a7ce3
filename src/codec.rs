//! The stored form of a record: a compact JSON object with one member per
//! present setting, in declaration order, under its kebab-case key, followed
//! by a newline. Reading accepts each setting under its key or under one
//! legacy alias. JSON syntax itself is serde_json's.
use vstd::prelude::*;
use vstd::string::*;

use crate::config::{opt_view, Config, ConfigError, ConfigView, FIELD_COUNT};

verus! {

#[verifier::external_type_specification]
#[verifier::external_body]
pub struct ExJsonError(serde_json::Error);

/// A hexadecimal digit in lower case.
pub open spec fn hex_digit(n: int) -> char {
    if n < 10 {
        (('0' as int) + n) as char
    } else {
        (('a' as int) + n - 10) as char
    }
}

/// How one character stands inside a JSON string literal: `"` and the backslash
/// behind a backslash, the control characters with a short escape as such,
/// the other control characters as `\u00xx`, and all else as itself.
pub open spec fn escaped_char(c: char) -> Seq<char> {
    if c == '"' {
        seq!['\\', '"']
    } else if c == '\\' {
        seq!['\\', '\\']
    } else if c == '\x08' {
        seq!['\\', 'b']
    } else if c == '\t' {
        seq!['\\', 't']
    } else if c == '\n' {
        seq!['\\', 'n']
    } else if c == '\x0c' {
        seq!['\\', 'f']
    } else if c == '\r' {
        seq!['\\', 'r']
    } else if (c as int) < 0x20 {
        seq!['\\', 'u', '0', '0', hex_digit((c as int) / 16), hex_digit((c as int) % 16)]
    } else {
        seq![c]
    }
}

/// The characters of `s`, each as it stands inside a JSON string literal.
pub open spec fn escaped(s: Seq<char>) -> Seq<char>
    decreases s.len(),
{
    if s.len() == 0 {
        Seq::empty()
    } else {
        escaped(s.drop_last()) + escaped_char(s.last())
    }
}

/// The JSON string literal that stands for `s`.
pub open spec fn json_quoted(s: Seq<char>) -> Seq<char> {
    seq!['"'] + escaped(s) + seq!['"']
}

/// The members of the JSON object that `text` holds, each value given as
/// `Some(Some(s))` for a string `s`, `Some(None)` for null and `None` for
/// anything else; `None` where `text` is not a JSON object.
pub uninterp spec fn json_members(text: Seq<char>) -> Option<
    Seq<(Seq<char>, Option<Option<Seq<char>>>)>,
>;

/// Relies on serde_json::to_string on a `str`: the string as a JSON string
/// literal, with quotes and escapes. It writes into a `Vec<u8>`, which never
/// fails, so it always succeeds.
#[verifier::external_body]
fn quote(s: &str) -> (r: Result<String, serde_json::Error>)
    ensures
        r is Ok,
        r->Ok_0@ == json_quoted(s@),
{
    serde_json::to_string(s)
}

pub open spec fn members_view(ms: Seq<(String, Option<Option<String>>)>) -> Seq<
    (Seq<char>, Option<Option<Seq<char>>>),
> {
    Seq::new(
        ms.len(),
        |j: int|
            (
                ms[j].0@,
                match ms[j].1 {
                    Some(v) => Some(opt_view(v)),
                    None => None,
                },
            ),
    )
}

/// Relies on serde_json::from_str into a serde_json::Map: the members of the
/// JSON object in `text`, with each value told apart as a string, null, or
/// another kind of JSON value.
#[verifier::external_body]
fn object_members(text: &str) -> (r: Result<Vec<(String, Option<Option<String>>)>, serde_json::Error>)
    ensures
        r is Ok <==> json_members(text@) is Some,
        r is Ok ==> members_view(r->Ok_0@) == json_members(text@)->Some_0,
{
    serde_json::from_str::<serde_json::Map<String, serde_json::Value>>(text).map(
        |m|
            m.into_iter().map(
                |(k, v)|
                    match v {
                        serde_json::Value::String(t) => (k, Some(Some(t))),
                        serde_json::Value::Null => (k, Some(None)),
                        _ => (k, None),
                    },
            ).collect(),
    )
}

/// The key a setting is stored under.
pub open spec fn key_name(i: int) -> Seq<char> {
    if i == 0 {
        "target-org"@
    } else if i == 1 {
        "target-dev-hub"@
    } else if i == 2 {
        "org-api-version"@
    } else if i == 3 {
        "org-metadata-rest-deploy"@
    } else if i == 4 {
        "disable-telemetry"@
    } else if i == 5 {
        "org-instance-url"@
    } else if i == 6 {
        "org-max-query-limit"@
    } else {
        "org-custom-metadata-templates"@
    }
}

/// The legacy key a setting is also read from.
pub open spec fn alias_name(i: int) -> Seq<char> {
    if i == 0 {
        "defaultusername"@
    } else if i == 1 {
        "defaultdevhubusername"@
    } else if i == 2 {
        "apiVersion"@
    } else if i == 3 {
        "restDeploy"@
    } else if i == 4 {
        "disableTelemetry"@
    } else if i == 5 {
        "instanceUrl"@
    } else if i == 6 {
        "maxQueryLimit"@
    } else {
        "customOrgMetadataTemplates"@
    }
}

fn key_of(i: usize) -> (r: &'static str)
    requires
        i < FIELD_COUNT,
    ensures
        r@ == key_name(i as int),
{
    if i == 0 {
        "target-org"
    } else if i == 1 {
        "target-dev-hub"
    } else if i == 2 {
        "org-api-version"
    } else if i == 3 {
        "org-metadata-rest-deploy"
    } else if i == 4 {
        "disable-telemetry"
    } else if i == 5 {
        "org-instance-url"
    } else if i == 6 {
        "org-max-query-limit"
    } else {
        "org-custom-metadata-templates"
    }
}

fn alias_of(i: usize) -> (r: &'static str)
    requires
        i < FIELD_COUNT,
    ensures
        r@ == alias_name(i as int),
{
    if i == 0 {
        "defaultusername"
    } else if i == 1 {
        "defaultdevhubusername"
    } else if i == 2 {
        "apiVersion"
    } else if i == 3 {
        "restDeploy"
    } else if i == 4 {
        "disableTelemetry"
    } else if i == 5 {
        "instanceUrl"
    } else if i == 6 {
        "maxQueryLimit"
    } else {
        "customOrgMetadataTemplates"
    }
}

pub open spec fn has_key(ms: Seq<(Seq<char>, Option<Option<Seq<char>>>)>, k: Seq<char>) -> bool {
    exists|j: int| 0 <= j < ms.len() && #[trigger] ms[j].0 == k
}

/// The position of the first member with key `k`.
pub open spec fn first_index(ms: Seq<(Seq<char>, Option<Option<Seq<char>>>)>, k: Seq<char>) -> int {
    choose|j: int|
        0 <= j < ms.len() && #[trigger] ms[j].0 == k && forall|l: int|
            0 <= l < j ==> #[trigger] ms[l].0 != k
}

/// What a setting reads from the members: `None` where it appears under
/// both its key and its alias, or with a value that is neither a string nor
/// null; otherwise the string, or absent.
pub open spec fn field_value(ms: Seq<(Seq<char>, Option<Option<Seq<char>>>)>, i: int) -> Option<
    Option<Seq<char>>,
> {
    let by_key = has_key(ms, key_name(i));
    let by_alias = has_key(ms, alias_name(i));
    if by_key && by_alias {
        None
    } else if by_key {
        ms[first_index(ms, key_name(i))].1
    } else if by_alias {
        ms[first_index(ms, alias_name(i))].1
    } else {
        Some(None)
    }
}

/// The record that the members describe, if each setting reads well. The
/// scope is never stored and reads as project.
pub open spec fn decode(ms: Seq<(Seq<char>, Option<Option<Seq<char>>>)>) -> Option<ConfigView> {
    if forall|i: int| 0 <= i < FIELD_COUNT ==> #[trigger] field_value(ms, i) is Some {
        Some(
            ConfigView {
                values: Seq::new(FIELD_COUNT as nat, |i: int| field_value(ms, i)->Some_0),
                global: false,
            },
        )
    } else {
        None
    }
}

/// The record stored as `text`, if any.
pub open spec fn parsed(text: Seq<char>) -> Option<ConfigView> {
    match json_members(text) {
        Some(ms) => decode(ms),
        None => None,
    }
}

fn find_member(ms: &Vec<(String, Option<Option<String>>)>, key: &str) -> (r: Option<usize>)
    ensures
        match r {
            Some(j) => {
                &&& has_key(members_view(ms@), key@)
                &&& j == first_index(members_view(ms@), key@)
                &&& j < ms.len()
            },
            None => !has_key(members_view(ms@), key@),
        },
{
    let k = key.to_owned();
    let ghost mv = members_view(ms@);
    let mut j: usize = 0;
    while j < ms.len()
        invariant
            j <= ms.len(),
            k@ == key@,
            mv == members_view(ms@),
            forall|l: int| 0 <= l < j ==> #[trigger] mv[l].0 != key@,
        decreases ms.len() - j,
    {
        if ms[j].0 == k {
            proof {
                let f = first_index(mv, key@);
                assert(mv[j as int].0 == key@);
                assert(has_key(mv, key@));
                if f < j {
                    assert(mv[f].0 != key@);
                } else if f > j {
                    assert(mv[j as int].0 != key@);
                }
            }
            return Some(j);
        }
        j += 1;
    }
    None
}

fn read_field(ms: &Vec<(String, Option<Option<String>>)>, i: usize) -> (r: Result<
    Option<String>,
    ConfigError,
>)
    requires
        i < FIELD_COUNT,
    ensures
        match field_value(members_view(ms@), i as int) {
            None => r == Err::<Option<String>, ConfigError>(ConfigError::Parse),
            Some(v) => r is Ok && opt_view(r->Ok_0) == v,
        },
{
    let by_key = find_member(ms, key_of(i));
    let by_alias = find_member(ms, alias_of(i));
    let found = match (by_key, by_alias) {
        (Some(_), Some(_)) => {
            return Err(ConfigError::Parse);
        },
        (Some(j), None) => j,
        (None, Some(j)) => j,
        (None, None) => {
            return Ok(None);
        },
    };
    match &ms[found].1 {
        Some(Some(t)) => Ok(Some(t.clone())),
        Some(None) => Ok(None),
        None => Err(ConfigError::Parse),
    }
}

/// Reads a record from its stored text. It fails with `Parse` unless the
/// text is a JSON object in which each setting appears at most once, under
/// its key or its alias, as a string or null. Other members are ignored.
pub fn parse(text: &str) -> (r: Result<Config, ConfigError>)
    ensures
        match parsed(text@) {
            Some(v) => r is Ok && r->Ok_0@ == v,
            None => r == Err::<Config, ConfigError>(ConfigError::Parse),
        },
{
    match object_members(text) {
        Ok(ms) => from_members(&ms),
        Err(_) => Err(ConfigError::Parse),
    }
}

/// Reads a record from the members of a JSON object, each value given as
/// `Some(Some(s))` for a string, `Some(None)` for null and `None` for
/// anything else.
pub fn from_members(ms: &Vec<(String, Option<Option<String>>)>) -> (r: Result<Config, ConfigError>)
    ensures
        match decode(members_view(ms@)) {
            Some(v) => r is Ok && r->Ok_0@ == v,
            None => r == Err::<Config, ConfigError>(ConfigError::Parse),
        },
{
    let ghost mv = members_view(ms@);
    let target_org = match read_field(ms, 0) {
        Ok(v) => v,
        Err(e) => {
            return Err(e);
        },
    };
    let target_dev_hub = match read_field(ms, 1) {
        Ok(v) => v,
        Err(e) => {
            return Err(e);
        },
    };
    let org_api_version = match read_field(ms, 2) {
        Ok(v) => v,
        Err(e) => {
            return Err(e);
        },
    };
    let org_metadata_rest_deploy = match read_field(ms, 3) {
        Ok(v) => v,
        Err(e) => {
            return Err(e);
        },
    };
    let disable_telemetry = match read_field(ms, 4) {
        Ok(v) => v,
        Err(e) => {
            return Err(e);
        },
    };
    let org_instance_url = match read_field(ms, 5) {
        Ok(v) => v,
        Err(e) => {
            return Err(e);
        },
    };
    let org_max_query_limit = match read_field(ms, 6) {
        Ok(v) => v,
        Err(e) => {
            return Err(e);
        },
    };
    let org_custom_metadata_templates = match read_field(ms, 7) {
        Ok(v) => v,
        Err(e) => {
            return Err(e);
        },
    };
    let c = Config {
        target_org,
        target_dev_hub,
        org_api_version,
        org_metadata_rest_deploy,
        disable_telemetry,
        org_instance_url,
        org_max_query_limit,
        org_custom_metadata_templates,
        global: false,
    };
    proof {
        assert forall|i: int| 0 <= i < FIELD_COUNT implies #[trigger] field_value(mv, i) is Some by {
            if i == 0 {
            } else if i == 1 {
            } else if i == 2 {
            } else if i == 3 {
            } else if i == 4 {
            } else if i == 5 {
            } else if i == 6 {
            } else {
            }
        }
        assert(c@.values =~= decode(mv)->Some_0.values);
    }
    Ok(c)
}

/// One member of the stored object: `"key":value`, with the value already
/// written as JSON.
pub open spec fn member_text(i: int, json: Seq<char>) -> Seq<char> {
    "\""@ + key_name(i) + "\":"@ + json
}

/// The members for the first `n` settings, comma-separated, absent ones
/// left out.
pub open spec fn members_text(quoted: Seq<Option<Seq<char>>>, n: nat) -> Seq<char>
    decreases n,
{
    if n == 0 {
        Seq::empty()
    } else {
        let prev = members_text(quoted, (n - 1) as nat);
        match quoted[n - 1] {
            None => prev,
            Some(q) => if prev.len() == 0 {
                member_text(n - 1, q)
            } else {
                prev + ","@ + member_text(n - 1, q)
            },
        }
    }
}

/// The stored text for settings already written as JSON values: a compact
/// JSON object and one newline.
pub open spec fn framed(quoted: Seq<Option<Seq<char>>>) -> Seq<char> {
    "{"@ + members_text(quoted, FIELD_COUNT as nat) + "}\n"@
}

/// Each present setting as a JSON string literal.
pub open spec fn quoted_values(values: Seq<Option<Seq<char>>>) -> Seq<Option<Seq<char>>> {
    values.map_values(
        |o: Option<Seq<char>>|
            match o {
                Some(v) => Some(json_quoted(v)),
                None => None,
            },
    )
}

/// The text a record is stored as.
pub open spec fn encoded(c: ConfigView) -> Seq<char> {
    framed(quoted_values(c.values))
}

pub open spec fn opts_view(v: Seq<Option<String>>) -> Seq<Option<Seq<char>>> {
    v.map_values(|o: Option<String>| opt_view(o))
}

/// Lays out the stored object given each setting's value already written as
/// JSON, or `None` where the setting is absent.
pub fn frame(quoted: &Vec<Option<String>>) -> (r: String)
    requires
        quoted.len() == FIELD_COUNT,
    ensures
        r@ == framed(opts_view(quoted@)),
{
    let ghost qv = opts_view(quoted@);
    let mut body = String::new();
    let mut i: usize = 0;
    proof {
        reveal_strlit("\"");
    }
    while i < FIELD_COUNT
        invariant
            i <= FIELD_COUNT,
            quoted.len() == FIELD_COUNT,
            qv == opts_view(quoted@),
            body@ == members_text(qv, i as nat),
            "\""@.len() == 1,
        decreases FIELD_COUNT - i,
    {
        match &quoted[i] {
            Some(q) => {
                if !body.as_str().is_empty() {
                    body.append(",");
                }
                body.append("\"");
                body.append(key_of(i));
                body.append("\":");
                body.append(q.as_str());
            },
            None => {},
        }
        i += 1;
    }
    let mut out = String::from_str("{");
    out.append(body.as_str());
    out.append("}\n");
    out
}

impl Config {
    fn setting(&self, i: usize) -> (r: &Option<String>)
        requires
            i < FIELD_COUNT,
        ensures
            opt_view(*r) == self@.values[i as int],
    {
        if i == 0 {
            &self.target_org
        } else if i == 1 {
            &self.target_dev_hub
        } else if i == 2 {
            &self.org_api_version
        } else if i == 3 {
            &self.org_metadata_rest_deploy
        } else if i == 4 {
            &self.disable_telemetry
        } else if i == 5 {
            &self.org_instance_url
        } else if i == 6 {
            &self.org_max_query_limit
        } else {
            &self.org_custom_metadata_templates
        }
    }

    /// The text the record is stored as.
    pub fn render(&self) -> (r: String)
        ensures
            r@ == encoded(self@),
    {
        let mut quoted: Vec<Option<String>> = Vec::new();
        let mut i: usize = 0;
        while i < FIELD_COUNT
            invariant
                i <= FIELD_COUNT,
                quoted.len() == i,
                opts_view(quoted@) == quoted_values(self@.values).take(i as int),
            decreases FIELD_COUNT - i,
        {
            let q = match self.setting(i) {
                Some(v) => Some(quote(v.as_str()).unwrap()),
                None => None,
            };
            quoted.push(q);
            assert(opts_view(quoted@) =~= quoted_values(self@.values).take(i + 1));
            i += 1;
        }
        assert(quoted_values(self@.values).take(FIELD_COUNT as int) =~= quoted_values(self@.values));
        frame(&quoted)
    }
}

} // verus!
