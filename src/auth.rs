//! Which identities the global directory holds credential files for. A
//! credential file is named `<identity>.json`, where the identity holds an `@`.
use vstd::prelude::*;

use crate::codec::opts_view;
use crate::config::{opt_view, strings_view};

verus! {

/// Matches the whole name of a credential file; the group `username` is the
/// identity.
pub const USERNAME_PATTERN: &'static str = "^(?P<username>.*@.*)\\.json$";

/// The name of the group of `USERNAME_PATTERN` that holds the identity.
pub const USERNAME_GROUP: &'static str = "username";

/// The text of the group named `group` in the leftmost-first match of the
/// regular expression `pattern` in `hay`, if there is such a match and the
/// group takes part in it.
pub uninterp spec fn regex_group(pattern: Seq<char>, group: Seq<char>, hay: Seq<char>) -> Option<
    Seq<char>,
>;

/// Relies on regex::Regex::new and Regex::captures: the named group of the
/// first match, or nothing where the pattern does not compile or match.
#[verifier::external_body]
fn named_capture(pattern: &str, group: &str, hay: &str) -> (r: Option<String>)
    ensures
        opt_view(r) == regex_group(pattern@, group@, hay@),
{
    let re = regex::Regex::new(pattern).ok()?;
    let caps = re.captures(hay)?;
    caps.name(group).map(|m| m.as_str().to_owned())
}

/// The identity a directory entry names, if it names a credential file.
pub open spec fn username_of(file_name: Seq<char>) -> Option<Seq<char>> {
    regex_group(USERNAME_PATTERN@, USERNAME_GROUP@, file_name)
}

/// The present values, in order.
pub open spec fn somes(found: Seq<Option<Seq<char>>>) -> Seq<Seq<char>>
    decreases found.len(),
{
    if found.len() == 0 {
        Seq::empty()
    } else {
        let rest = somes(found.drop_last());
        match found.last() {
            Some(u) => rest.push(u),
            None => rest,
        }
    }
}

/// The identities that the entries name, in the entries' order; entries
/// that are not credential files are skipped.
pub open spec fn usernames_in(file_names: Seq<Seq<char>>) -> Seq<Seq<char>> {
    somes(matches_of(file_names))
}

/// What each entry's name yields to `USERNAME_PATTERN`.
pub open spec fn matches_of(file_names: Seq<Seq<char>>) -> Seq<Option<Seq<char>>> {
    file_names.map_values(|n: Seq<char>| username_of(n))
}

/// The identities, in order, from what each directory entry's name yielded
/// to `USERNAME_PATTERN`: `None` for an entry that is not a credential file.
pub fn present_usernames(found: &Vec<Option<String>>) -> (r: Vec<String>)
    ensures
        strings_view(r@) == somes(opts_view(found@)),
{
    let ghost fv = opts_view(found@);
    let mut r: Vec<String> = Vec::new();
    let mut i: usize = 0;
    while i < found.len()
        invariant
            i <= found.len(),
            fv == opts_view(found@),
            strings_view(r@) == somes(fv.take(i as int)),
        decreases found.len() - i,
    {
        proof {
            assert(fv.take(i + 1).drop_last() =~= fv.take(i as int));
            assert(fv.take(i + 1).last() == opt_view(found@[i as int]));
        }
        match &found[i] {
            Some(u) => {
                r.push(u.clone());
                assert(strings_view(r@) =~= somes(fv.take(i as int)).push(u@));
            },
            None => {},
        }
        i += 1;
    }
    assert(fv.take(i as int) =~= fv);
    r
}

/// The identities named by the entries of the global directory, given the
/// entries' file names in the order the directory lists them.
pub fn get_usernames(file_names: &Vec<String>) -> (r: Vec<String>)
    ensures
        strings_view(r@) == usernames_in(strings_view(file_names@)),
{
    let ghost names = strings_view(file_names@);
    let mut found: Vec<Option<String>> = Vec::new();
    let mut i: usize = 0;
    while i < file_names.len()
        invariant
            i <= file_names.len(),
            names == strings_view(file_names@),
            found.len() == i,
            opts_view(found@) == matches_of(names).take(i as int),
        decreases file_names.len() - i,
    {
        let m = named_capture(USERNAME_PATTERN, USERNAME_GROUP, file_names[i].as_str());
        assert(names[i as int] == file_names@[i as int]@);
        assert(opt_view(m) == username_of(names[i as int]));
        found.push(m);
        assert(opts_view(found@) =~= matches_of(names).take(i + 1));
        i += 1;
    }
    assert(matches_of(names).take(i as int) =~= matches_of(names));
    present_usernames(&found)
}

} // verus!
