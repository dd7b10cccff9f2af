//! The registry data model: platform versions, resolved component versions
//! with their files, project side flags, and the query fragments the
//! registry lookups are built from.

use vstd::prelude::*;
use vstd::string::StringExecFns;

use crate::manifest::Loader;
use crate::manifest::Side;
use crate::manifest::loader_token;
use crate::mrpack::Requirement;
use crate::mrpack::requirement_needed;
use crate::text::str_eq;

verus! {

/// The kind of a platform version.
#[derive(Clone, Copy, Debug, PartialEq, Eq, Structural)]
pub enum VersionType {
    Release,
    Snapshot,
    Alpha,
    Beta,
}

/// The registry token that names a version kind.
pub open spec fn version_type_token(t: VersionType) -> Seq<char> {
    match t {
        VersionType::Release => "release"@,
        VersionType::Snapshot => "snapshot"@,
        VersionType::Alpha => "alpha"@,
        VersionType::Beta => "beta"@,
    }
}

/// The message rejecting an unrecognized version kind token.
pub open spec fn unknown_version_type_msg(s: Seq<char>) -> Seq<char> {
    "Unknown version type '"@ + s + "'. Supported types are: release, snapshot, alpha, beta"@
}

impl VersionType {
    /// The registry token for this version kind.
    pub fn as_str(&self) -> (r: &'static str)
        ensures
            r@ == version_type_token(*self),
    {
        match self {
            VersionType::Release => "release",
            VersionType::Snapshot => "snapshot",
            VersionType::Alpha => "alpha",
            VersionType::Beta => "beta",
        }
    }

    /// Parses a version kind token; rejects anything outside the closed set.
    pub fn from_str(s: &str) -> (r: Result<VersionType, String>)
        ensures
            s@ == "release"@ ==> r == Ok::<VersionType, String>(VersionType::Release),
            s@ == "snapshot"@ ==> r == Ok::<VersionType, String>(VersionType::Snapshot),
            s@ == "alpha"@ ==> r == Ok::<VersionType, String>(VersionType::Alpha),
            s@ == "beta"@ ==> r == Ok::<VersionType, String>(VersionType::Beta),
            match r {
                Ok(t) => s@ == version_type_token(t),
                Err(m) => s@ != "release"@ && s@ != "snapshot"@ && s@ != "alpha"@
                    && s@ != "beta"@ && m@ == unknown_version_type_msg(s@),
            },
    {
        proof {
            reveal_strlit("release");
            reveal_strlit("snapshot");
            reveal_strlit("alpha");
            reveal_strlit("beta");
            assert("release"@[0] == 'r' && "snapshot"@[0] == 's' && "alpha"@[0] == 'a'
                && "beta"@[0] == 'b');
        }
        if str_eq(s, "release") {
            Ok(VersionType::Release)
        } else if str_eq(s, "snapshot") {
            Ok(VersionType::Snapshot)
        } else if str_eq(s, "alpha") {
            Ok(VersionType::Alpha)
        } else if str_eq(s, "beta") {
            Ok(VersionType::Beta)
        } else {
            let mut m = String::new();
            m.append("Unknown version type '");
            m.append(s);
            m.append("'. Supported types are: release, snapshot, alpha, beta");
            proof {
                assert(m@ =~= unknown_version_type_msg(s@));
            }
            Err(m)
        }
    }
}

/// One platform version the registry offers. The release date is held as
/// a timestamp: seconds since the Unix epoch.
#[derive(Debug, Clone)]
pub struct GameVersion {
    pub version: String,
    pub version_type: VersionType,
    pub date: i64,
    pub major: bool,
}

/// One downloadable file of a resolved component version. Only files the
/// registry marks primary reach the archive index.
#[derive(Debug, Clone)]
pub struct File {
    pub hashes: Vec<(String, String)>,
    pub url: String,
    pub filename: String,
    pub size: u64,
    pub primary: bool,
}

/// One resolved component version: its display number and its files.
#[derive(Debug, Clone)]
pub struct Version {
    pub version_number: String,
    pub files: Vec<File>,
}

/// A project's side flags as the registry reports them.
#[derive(Clone, Copy, Debug, PartialEq, Eq, Structural)]
pub struct Project {
    pub client_side: Requirement,
    pub server_side: Requirement,
}

/// The side a project's two requirement flags stand for: a side is chosen
/// only when exactly one of the two is needed; every other combination
/// means both.
pub open spec fn derived_side(client: Requirement, server: Requirement) -> Side {
    if requirement_needed(client) && !requirement_needed(server) {
        Side::Client
    } else if !requirement_needed(client) && requirement_needed(server) {
        Side::Server
    } else {
        Side::Both
    }
}

impl Project {
    /// Derives the side a component is for when its definition does not
    /// state one explicitly.
    pub fn get_side(&self) -> (r: Side)
        ensures
            r == derived_side(self.client_side, self.server_side),
    {
        if self.client_side.is_needed() && !self.server_side.is_needed() {
            return Side::Client;
        }
        if !self.client_side.is_needed() && self.server_side.is_needed() {
            return Side::Server;
        }
        Side::Both
    }
}

/// Picks the newest release among the offered platform versions: the index
/// of the release with the greatest date, the last such one when dates tie.
/// `None` exactly when no release is offered.
pub fn latest_release(versions: &Vec<GameVersion>) -> (r: Option<usize>)
    ensures
        match r {
            Some(i) => i < versions@.len() && versions@[i as int].version_type
                == VersionType::Release && (forall|j: int|
                0 <= j <= i && (#[trigger] versions@[j]).version_type == VersionType::Release
                    ==> versions@[j].date <= versions@[i as int].date) && (forall|j: int|
                i < j < versions@.len() && (#[trigger] versions@[j]).version_type
                    == VersionType::Release ==> versions@[j].date < versions@[i as int].date),
            None => forall|j: int|
                0 <= j < versions@.len() ==> (#[trigger] versions@[j]).version_type
                    != VersionType::Release,
        },
{
    let mut best: Option<usize> = None;
    let n = versions.len();
    let mut k: usize = 0;
    while k < n
        invariant
            k <= n,
            n == versions@.len(),
            match best {
                Some(i) => i < k && versions@[i as int].version_type == VersionType::Release
                    && (forall|j: int|
                    0 <= j <= i && (#[trigger] versions@[j]).version_type
                        == VersionType::Release ==> versions@[j].date
                        <= versions@[i as int].date) && (forall|j: int|
                    i < j < k && (#[trigger] versions@[j]).version_type == VersionType::Release
                        ==> versions@[j].date < versions@[i as int].date),
                None => forall|j: int|
                    0 <= j < k ==> (#[trigger] versions@[j]).version_type
                        != VersionType::Release,
            },
        decreases n - k,
    {
        let v = &versions[k];
        if matches!(v.version_type, VersionType::Release) {
            best = match best {
                Some(i) => {
                    if versions[i].date <= v.date {
                        Some(k)
                    } else {
                        Some(i)
                    }
                },
                None => Some(k),
            };
        }
        k = k + 1;
    }
    best
}

/// Picks the candidate the resolution keeps: the first entry of the
/// candidate list, `None` when there is none. The list carries no defined
/// ranking; taking the first entry preserves the established behavior.
pub fn first_candidate(versions: &Vec<Version>) -> (r: Option<&Version>)
    ensures
        match r {
            Some(v) => versions@.len() > 0 && *v == versions@[0],
            None => versions@.len() == 0,
        },
{
    if versions.len() > 0 {
        Some(&versions[0])
    } else {
        None
    }
}

/// A loader token wrapped in JSON-style double quotes.
pub open spec fn quoted_loader(l: Loader) -> Seq<char> {
    "\""@ + loader_token(l) + "\""@
}

/// The configured loaders' tokens, quoted and comma-separated.
pub open spec fn loaders_list_spec(loaders: Seq<(Loader, String)>) -> Seq<char>
    decreases loaders.len(),
{
    if loaders.len() == 0 {
        Seq::empty()
    } else if loaders.len() == 1 {
        quoted_loader(loaders[0].0)
    } else {
        loaders_list_spec(loaders.drop_last()) + ","@ + quoted_loader(loaders.last().0)
    }
}

/// The `loaders` query value of a candidate lookup: the game's own token
/// followed by every configured loader, as a JSON-style list.
pub open spec fn loaders_query_spec(loaders: Seq<(Loader, String)>) -> Seq<char> {
    "[\"minecraft\", "@ + loaders_list_spec(loaders) + "]"@
}

/// Builds the `loaders` query value of a candidate lookup.
pub fn loaders_query(loaders: &Vec<(Loader, String)>) -> (r: String)
    ensures
        r@ == loaders_query_spec(loaders@),
{
    let mut out = String::new();
    out.append("[\"minecraft\", ");
    let n = loaders.len();
    let mut k: usize = 0;
    while k < n
        invariant
            k <= n,
            n == loaders@.len(),
            out@ == "[\"minecraft\", "@ + loaders_list_spec(loaders@.take(k as int)),
        decreases n - k,
    {
        if k > 0 {
            out.append(",");
        }
        out.append("\"");
        out.append(loaders[k].0.as_str());
        out.append("\"");
        proof {
            assert(loaders@.take(k + 1).drop_last() =~= loaders@.take(k as int));
            assert(loaders@.take(k + 1).last() == loaders@[k as int]);
            if k == 0 {
                assert(loaders@.take(1).len() == 1);
                assert(out@ =~= "[\"minecraft\", "@ + loaders_list_spec(loaders@.take(k + 1)));
            } else {
                assert(out@ =~= "[\"minecraft\", "@ + loaders_list_spec(loaders@.take(k + 1)));
            }
        }
        k = k + 1;
    }
    out.append("]");
    proof {
        assert(loaders@.take(n as int) =~= loaders@);
        assert(out@ =~= loaders_query_spec(loaders@));
    }
    out
}

/// The `game_versions` query value of a candidate lookup: the platform
/// version as a one-element JSON-style list.
pub open spec fn game_versions_query_spec(minecraft: Seq<char>) -> Seq<char> {
    "[\""@ + minecraft + "\"]"@
}

/// Builds the `game_versions` query value of a candidate lookup.
pub fn game_versions_query(minecraft: &str) -> (r: String)
    ensures
        r@ == game_versions_query_spec(minecraft@),
{
    let mut out = String::new();
    out.append("[\"");
    out.append(minecraft);
    out.append("\"]");
    proof {
        assert(out@ =~= game_versions_query_spec(minecraft@));
    }
    out
}

} // verus!
