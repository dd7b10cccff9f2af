//! The canonical archive index model: per-file environment requirements,
//! resolved file descriptors, and the index metadata itself.

use vstd::prelude::*;
use vstd::string::StringExecFns;

use crate::manifest::Side;
use crate::text::str_eq;

verus! {

/// Whether a side needs a file: required, optional, or unsupported.
#[derive(Clone, Copy, Debug, PartialEq, Eq, Structural)]
pub enum Requirement {
    Required,
    Optional,
    Unsupported,
}

/// The index token that names a requirement.
pub open spec fn requirement_token(r: Requirement) -> Seq<char> {
    match r {
        Requirement::Required => "required"@,
        Requirement::Optional => "optional"@,
        Requirement::Unsupported => "unsupported"@,
    }
}

/// A side needs the file unless the requirement is `Unsupported`.
pub open spec fn requirement_needed(r: Requirement) -> bool {
    match r {
        Requirement::Required => true,
        Requirement::Optional => true,
        Requirement::Unsupported => false,
    }
}

/// The message rejecting an unrecognized requirement token.
pub open spec fn unknown_requirement_msg(s: Seq<char>) -> Seq<char> {
    "Unknown requirement '"@ + s
        + "'. Supported requirements are: required, optional, unsupported"@
}

impl Requirement {
    /// Whether this side needs the file at all.
    pub fn is_needed(&self) -> (b: bool)
        ensures
            b == requirement_needed(*self),
    {
        match self {
            Requirement::Required => true,
            Requirement::Optional => true,
            Requirement::Unsupported => false,
        }
    }

    /// The index token for this requirement.
    pub fn as_str(&self) -> (r: &'static str)
        ensures
            r@ == requirement_token(*self),
    {
        match self {
            Requirement::Required => "required",
            Requirement::Optional => "optional",
            Requirement::Unsupported => "unsupported",
        }
    }

    /// Parses a requirement token; rejects anything outside the closed set.
    pub fn from_str(s: &str) -> (r: Result<Requirement, String>)
        ensures
            s@ == "required"@ ==> r == Ok::<Requirement, String>(Requirement::Required),
            s@ == "optional"@ ==> r == Ok::<Requirement, String>(Requirement::Optional),
            s@ == "unsupported"@ ==> r == Ok::<Requirement, String>(Requirement::Unsupported),
            match r {
                Ok(req) => s@ == requirement_token(req),
                Err(m) => s@ != "required"@ && s@ != "optional"@ && s@ != "unsupported"@
                    && m@ == unknown_requirement_msg(s@),
            },
    {
        proof {
            reveal_strlit("required");
            reveal_strlit("optional");
            reveal_strlit("unsupported");
            assert("required"@[0] == 'r' && "optional"@[0] == 'o' && "unsupported"@[0] == 'u');
        }
        if str_eq(s, "required") {
            Ok(Requirement::Required)
        } else if str_eq(s, "optional") {
            Ok(Requirement::Optional)
        } else if str_eq(s, "unsupported") {
            Ok(Requirement::Unsupported)
        } else {
            let mut m = String::new();
            m.append("Unknown requirement '");
            m.append(s);
            m.append("'. Supported requirements are: required, optional, unsupported");
            proof {
                assert(m@ =~= unknown_requirement_msg(s@));
            }
            Err(m)
        }
    }
}

/// A file's environment requirement pair: what the client side needs and
/// what the server side needs.
#[derive(Clone, Copy, Debug, PartialEq, Eq, Structural)]
pub struct Env {
    pub client: Requirement,
    pub server: Requirement,
}

/// The environment requirement pair that a declared side stands for.
pub open spec fn env_of_side(s: Side) -> Env {
    match s {
        Side::Client => Env { client: Requirement::Required, server: Requirement::Unsupported },
        Side::Server => Env { client: Requirement::Unsupported, server: Requirement::Required },
        Side::Both => Env { client: Requirement::Required, server: Requirement::Required },
    }
}

impl From<Side> for Env {
    fn from(side: Side) -> (r: Env) {
        match side {
            Side::Client => Env {
                client: Requirement::Required,
                server: Requirement::Unsupported,
            },
            Side::Server => Env {
                client: Requirement::Unsupported,
                server: Requirement::Required,
            },
            Side::Both => Env { client: Requirement::Required, server: Requirement::Required },
        }
    }
}

impl vstd::std_specs::convert::FromSpecImpl<Side> for Env {
    open spec fn obeys_from_spec() -> bool {
        true
    }

    open spec fn from_spec(side: Side) -> Env {
        env_of_side(side)
    }
}

/// The game a pack targets; only one is known.
#[derive(Clone, Copy, Debug, PartialEq, Eq, Structural)]
pub enum Game {
    Minecraft,
}

/// The index token that names the game.
pub open spec fn game_token(g: Game) -> Seq<char> {
    match g {
        Game::Minecraft => "minecraft"@,
    }
}

/// The message rejecting an unrecognized game token.
pub open spec fn unknown_game_msg(s: Seq<char>) -> Seq<char> {
    "Unknown game '"@ + s + "'. The only supported game is minecraft"@
}

impl Game {
    /// The index token for this game.
    pub fn as_str(&self) -> (r: &'static str)
        ensures
            r@ == game_token(*self),
    {
        match self {
            Game::Minecraft => "minecraft",
        }
    }

    /// Parses a game token; only one is accepted.
    pub fn from_str(s: &str) -> (r: Result<Game, String>)
        ensures
            s@ == "minecraft"@ ==> r == Ok::<Game, String>(Game::Minecraft),
            match r {
                Ok(g) => s@ == game_token(g),
                Err(m) => s@ != "minecraft"@ && m@ == unknown_game_msg(s@),
            },
    {
        if str_eq(s, "minecraft") {
            Ok(Game::Minecraft)
        } else {
            let mut m = String::new();
            m.append("Unknown game '");
            m.append(s);
            m.append("'. The only supported game is minecraft");
            proof {
                assert(m@ =~= unknown_game_msg(s@));
            }
            Err(m)
        }
    }
}

/// The mathematical value of a resolved file descriptor.
#[verifier::ext_equal]
pub ghost struct FileView {
    pub path: Seq<char>,
    pub hashes: Seq<(Seq<char>, Seq<char>)>,
    pub env: Option<Env>,
    pub downloads: Seq<Seq<char>>,
    pub file_size: u64,
}

/// One file the archive consumer must fetch: its archive-relative path,
/// named hex digests, an optional environment requirement, the download
/// URLs, and its size in bytes.
#[derive(Debug, Clone)]
pub struct File {
    pub path: String,
    pub hashes: Vec<(String, String)>,
    pub env: Option<Env>,
    pub downloads: Vec<String>,
    pub file_size: u64,
}

impl View for File {
    type V = FileView;

    open spec fn view(&self) -> FileView {
        FileView {
            path: self.path@,
            hashes: self.hashes.deep_view(),
            env: self.env,
            downloads: self.downloads.deep_view(),
            file_size: self.file_size,
        }
    }
}

impl DeepView for File {
    type V = FileView;

    open spec fn deep_view(&self) -> FileView {
        self.view()
    }
}

impl File {
    /// Every resolved file offers at least one download URL.
    pub open spec fn wf(&self) -> bool {
        self.downloads@.len() >= 1
    }
}

/// The mathematical value of the canonical index.
#[verifier::ext_equal]
pub ghost struct MetadataView {
    pub format_version: u32,
    pub game: Game,
    pub version_id: Seq<char>,
    pub name: Seq<char>,
    pub summary: Option<Seq<char>>,
    pub files: Seq<FileView>,
    pub dependencies: Seq<(Seq<char>, Seq<char>)>,
}

/// The canonical index: format and game constants, the pack identity, the
/// resolved file list, and the dependency mapping.
#[derive(Debug, Clone)]
pub struct Metadata {
    pub format_version: u32,
    pub game: Game,
    pub version_id: String,
    pub name: String,
    pub summary: Option<String>,
    pub files: Vec<File>,
    pub dependencies: Vec<(String, String)>,
}

impl View for Metadata {
    type V = MetadataView;

    open spec fn view(&self) -> MetadataView {
        MetadataView {
            format_version: self.format_version,
            game: self.game,
            version_id: self.version_id@,
            name: self.name@,
            summary: self.summary.deep_view(),
            files: self.files.deep_view(),
            dependencies: self.dependencies.deep_view(),
        }
    }
}

impl Metadata {
    /// Every listed file is well formed.
    pub open spec fn wf(&self) -> bool {
        forall|i: int| 0 <= i < self.files@.len() ==> (#[trigger] self.files@[i]).wf()
    }
}

} // verus!
