//! The pack manifest model: sides, loaders, override locations, project
//! categories, component definitions, and the manifest itself.

use vstd::prelude::*;
use vstd::string::StrSliceExecFns;
use vstd::string::StringExecFns;

use crate::text::str_eq;

verus! {

/// Which side of the game a declared component is for.
#[derive(Clone, Copy, Debug, PartialEq, Eq, Hash, Structural)]
pub enum Side {
    Client,
    Server,
    Both,
}

/// The manifest token that names a side.
pub open spec fn side_token(s: Side) -> Seq<char> {
    match s {
        Side::Client => "client"@,
        Side::Server => "server"@,
        Side::Both => "both"@,
    }
}

/// The message rejecting an unrecognized side token.
pub open spec fn unknown_side_msg(s: Seq<char>) -> Seq<char> {
    "Unknown side '"@ + s + "'. Supported sides are: client, server, both"@
}

impl Side {
    /// The manifest token for this side.
    pub fn as_str(&self) -> (r: &'static str)
        ensures
            r@ == side_token(*self),
    {
        match self {
            Side::Client => "client",
            Side::Server => "server",
            Side::Both => "both",
        }
    }

    /// Parses a side token; rejects anything outside the closed set.
    pub fn from_str(s: &str) -> (r: Result<Side, String>)
        ensures
            s@ == "client"@ ==> r == Ok::<Side, String>(Side::Client),
            s@ == "server"@ ==> r == Ok::<Side, String>(Side::Server),
            s@ == "both"@ ==> r == Ok::<Side, String>(Side::Both),
            match r {
                Ok(side) => s@ == side_token(side),
                Err(m) => s@ != "client"@ && s@ != "server"@ && s@ != "both"@
                    && m@ == unknown_side_msg(s@),
            },
    {
        proof {
            reveal_strlit("client");
            reveal_strlit("server");
            reveal_strlit("both");
            assert("client"@[0] == 'c' && "server"@[0] == 's' && "both"@[0] == 'b');
        }
        if str_eq(s, "client") {
            Ok(Side::Client)
        } else if str_eq(s, "server") {
            Ok(Side::Server)
        } else if str_eq(s, "both") {
            Ok(Side::Both)
        } else {
            let mut m = String::new();
            m.append("Unknown side '");
            m.append(s);
            m.append("'. Supported sides are: client, server, both");
            proof {
                assert(m@ =~= unknown_side_msg(s@));
            }
            Err(m)
        }
    }
}

/// A mod loader the pack can target; a closed set.
#[derive(Clone, Copy, Debug, PartialEq, Eq, Hash, Structural)]
pub enum Loader {
    Fabric,
    Forge,
    Quilt,
    NeoForge,
}

/// The manifest token that names a loader.
pub open spec fn loader_token(l: Loader) -> Seq<char> {
    match l {
        Loader::Fabric => "fabric"@,
        Loader::Forge => "forge"@,
        Loader::Quilt => "quilt"@,
        Loader::NeoForge => "neoforge"@,
    }
}

/// The registry-facing dependency key for a loader.
pub open spec fn loader_mrpack_token(l: Loader) -> Seq<char> {
    match l {
        Loader::Fabric => "fabric-loader"@,
        Loader::Forge => "forge"@,
        Loader::Quilt => "quilt-loader"@,
        Loader::NeoForge => "neoforge"@,
    }
}

/// The message rejecting an unrecognized loader token.
pub open spec fn unknown_loader_msg(s: Seq<char>) -> Seq<char> {
    "Unknown loader '"@ + s + "'. Supported loaders are: fabric, forge, quilt, neoforge"@
}

impl Loader {
    /// The manifest token for this loader.
    pub fn as_str(&self) -> (r: &'static str)
        ensures
            r@ == loader_token(*self),
    {
        match self {
            Loader::Fabric => "fabric",
            Loader::Forge => "forge",
            Loader::Quilt => "quilt",
            Loader::NeoForge => "neoforge",
        }
    }

    /// The dependency key under which the canonical index lists this loader.
    pub fn as_mrpack(&self) -> (r: &'static str)
        ensures
            r@ == loader_mrpack_token(*self),
    {
        match self {
            Loader::Fabric => "fabric-loader",
            Loader::Forge => "forge",
            Loader::Quilt => "quilt-loader",
            Loader::NeoForge => "neoforge",
        }
    }

    /// Parses a loader token; rejects anything outside the closed set.
    pub fn from_str(s: &str) -> (r: Result<Loader, String>)
        ensures
            s@ == "fabric"@ ==> r == Ok::<Loader, String>(Loader::Fabric),
            s@ == "forge"@ ==> r == Ok::<Loader, String>(Loader::Forge),
            s@ == "quilt"@ ==> r == Ok::<Loader, String>(Loader::Quilt),
            s@ == "neoforge"@ ==> r == Ok::<Loader, String>(Loader::NeoForge),
            match r {
                Ok(l) => s@ == loader_token(l),
                Err(m) => s@ != "fabric"@ && s@ != "forge"@ && s@ != "quilt"@
                    && s@ != "neoforge"@ && m@ == unknown_loader_msg(s@),
            },
    {
        proof {
            reveal_strlit("fabric");
            reveal_strlit("forge");
            reveal_strlit("quilt");
            reveal_strlit("neoforge");
            assert("fabric"@[0] == 'f' && "fabric"@[1] == 'a' && "forge"@[0] == 'f'
                && "forge"@[1] == 'o' && "quilt"@[0] == 'q' && "neoforge"@[0] == 'n');
        }
        if str_eq(s, "fabric") {
            Ok(Loader::Fabric)
        } else if str_eq(s, "forge") {
            Ok(Loader::Forge)
        } else if str_eq(s, "quilt") {
            Ok(Loader::Quilt)
        } else if str_eq(s, "neoforge") {
            Ok(Loader::NeoForge)
        } else {
            let mut m = String::new();
            m.append("Unknown loader '");
            m.append(s);
            m.append("'. Supported loaders are: fabric, forge, quilt, neoforge");
            proof {
                assert(m@ =~= unknown_loader_msg(s@));
            }
            Err(m)
        }
    }
}

/// Where an override rule places its files.
#[derive(Clone, Copy, Debug, PartialEq, Eq, Hash, Structural)]
pub enum FileLocation {
    Client,
    Server,
    Common,
}

/// The manifest token that names an override location.
pub open spec fn location_token(l: FileLocation) -> Seq<char> {
    match l {
        FileLocation::Client => "client"@,
        FileLocation::Server => "server"@,
        FileLocation::Common => "common"@,
    }
}

/// The archive directory under which an override location's files land.
pub open spec fn location_prefix(l: FileLocation) -> Seq<char> {
    match l {
        FileLocation::Client => "client-overrides"@,
        FileLocation::Server => "server-overrides"@,
        FileLocation::Common => "overrides"@,
    }
}

/// The message rejecting an unrecognized override location token.
pub open spec fn unknown_location_msg(s: Seq<char>) -> Seq<char> {
    "Unknown location '"@ + s + "'. Supported sides are: client, server, common"@
}

impl FileLocation {
    /// The manifest token for this location.
    pub fn as_str(&self) -> (r: &'static str)
        ensures
            r@ == location_token(*self),
    {
        match self {
            FileLocation::Client => "client",
            FileLocation::Server => "server",
            FileLocation::Common => "common",
        }
    }

    /// The archive directory prefix for this location's override files.
    pub fn as_ovveride(&self) -> (r: &'static str)
        ensures
            r@ == location_prefix(*self),
    {
        match self {
            FileLocation::Client => "client-overrides",
            FileLocation::Server => "server-overrides",
            FileLocation::Common => "overrides",
        }
    }

    /// Parses an override location token; rejects anything outside the closed set.
    pub fn from_str(s: &str) -> (r: Result<FileLocation, String>)
        ensures
            s@ == "client"@ ==> r == Ok::<FileLocation, String>(FileLocation::Client),
            s@ == "server"@ ==> r == Ok::<FileLocation, String>(FileLocation::Server),
            s@ == "common"@ ==> r == Ok::<FileLocation, String>(FileLocation::Common),
            match r {
                Ok(l) => s@ == location_token(l),
                Err(m) => s@ != "client"@ && s@ != "server"@ && s@ != "common"@
                    && m@ == unknown_location_msg(s@),
            },
    {
        proof {
            reveal_strlit("client");
            reveal_strlit("server");
            reveal_strlit("common");
            assert("client"@[0] == 'c' && "client"@[1] == 'l' && "server"@[0] == 's'
                && "common"@[0] == 'c' && "common"@[1] == 'o');
        }
        if str_eq(s, "client") {
            Ok(FileLocation::Client)
        } else if str_eq(s, "server") {
            Ok(FileLocation::Server)
        } else if str_eq(s, "common") {
            Ok(FileLocation::Common)
        } else {
            let mut m = String::new();
            m.append("Unknown location '");
            m.append(s);
            m.append("'. Supported sides are: client, server, common");
            proof {
                assert(m@ =~= unknown_location_msg(s@));
            }
            Err(m)
        }
    }
}

/// The category a project is added under.
#[derive(Clone, Copy, Debug, PartialEq, Eq, Hash, Structural)]
pub enum ProjectType {
    Mod,
    ResourcePack,
    Shader,
}

/// The manifest table that holds a category's components.
pub open spec fn project_type_table(t: ProjectType) -> Seq<char> {
    match t {
        ProjectType::Mod => "mods"@,
        ProjectType::ResourcePack => "resource-packs"@,
        ProjectType::Shader => "shaders"@,
    }
}

/// The canonical token that names a category.
pub open spec fn project_type_token(t: ProjectType) -> Seq<char> {
    match t {
        ProjectType::Mod => "mod"@,
        ProjectType::ResourcePack => "resource-pack"@,
        ProjectType::Shader => "shader"@,
    }
}

/// Whether a token is an accepted spelling of the category.
pub open spec fn project_type_alias(t: ProjectType, s: Seq<char>) -> bool {
    match t {
        ProjectType::Mod => s == "mod"@ || s == "mods"@,
        ProjectType::ResourcePack => s == "resource-pack"@ || s == "resource-packs"@
            || s == "resource"@ || s == "resources"@,
        ProjectType::Shader => s == "shader"@ || s == "shaders"@,
    }
}

/// The message rejecting an unrecognized category token.
pub open spec fn unknown_project_type_msg(s: Seq<char>) -> Seq<char> {
    "Unknown type '"@ + s + "'. Supported project types are: mod, resource-pack, shader"@
}

impl ProjectType {
    /// The manifest table for this category.
    pub fn as_table(&self) -> (r: &'static str)
        ensures
            r@ == project_type_table(*self),
    {
        match self {
            ProjectType::Mod => "mods",
            ProjectType::ResourcePack => "resource-packs",
            ProjectType::Shader => "shaders",
        }
    }

    /// The canonical token for this category.
    pub fn as_str(&self) -> (r: &'static str)
        ensures
            r@ == project_type_token(*self),
    {
        match self {
            ProjectType::Mod => "mod",
            ProjectType::ResourcePack => "resource-pack",
            ProjectType::Shader => "shader",
        }
    }

    /// Parses a category token, accepting the common alternate spellings;
    /// rejects anything outside the closed set.
    pub fn from_str(s: &str) -> (r: Result<ProjectType, String>)
        ensures
            match r {
                Ok(t) => project_type_alias(t, s@),
                Err(m) => !project_type_alias(ProjectType::Mod, s@)
                    && !project_type_alias(ProjectType::ResourcePack, s@)
                    && !project_type_alias(ProjectType::Shader, s@)
                    && m@ == unknown_project_type_msg(s@),
            },
            project_type_alias(ProjectType::Mod, s@) ==> r == Ok::<ProjectType, String>(
                ProjectType::Mod,
            ),
            project_type_alias(ProjectType::ResourcePack, s@) ==> r == Ok::<ProjectType, String>(
                ProjectType::ResourcePack,
            ),
            project_type_alias(ProjectType::Shader, s@) ==> r == Ok::<ProjectType, String>(
                ProjectType::Shader,
            ),
    {
        proof {
            reveal_strlit("mod");
            reveal_strlit("mods");
            reveal_strlit("resource-pack");
            reveal_strlit("resource-packs");
            reveal_strlit("resource");
            reveal_strlit("resources");
            reveal_strlit("shader");
            reveal_strlit("shaders");
            assert("mod"@.len() == 3 && "mods"@.len() == 4 && "resource-pack"@.len() == 13
                && "resource-packs"@.len() == 14 && "resource"@.len() == 8
                && "resources"@.len() == 9 && "shader"@.len() == 6 && "shaders"@.len() == 7);
            assert("mod"@[0] == 'm' && "mods"@[0] == 'm' && "resource-pack"@[0] == 'r'
                && "resource-packs"@[0] == 'r' && "resource"@[0] == 'r'
                && "resources"@[0] == 'r' && "shader"@[0] == 's' && "shaders"@[0] == 's');
        }
        if str_eq(s, "mod") || str_eq(s, "mods") {
            Ok(ProjectType::Mod)
        } else if str_eq(s, "resource-pack") || str_eq(s, "resource-packs")
            || str_eq(s, "resource") || str_eq(s, "resources") {
            Ok(ProjectType::ResourcePack)
        } else if str_eq(s, "shader") || str_eq(s, "shaders") {
            Ok(ProjectType::Shader)
        } else {
            let mut m = String::new();
            m.append("Unknown type '");
            m.append(s);
            m.append("'. Supported project types are: mod, resource-pack, shader");
            proof {
                assert(m@ =~= unknown_project_type_msg(s@));
            }
            Err(m)
        }
    }
}

/// Pack metadata: the name and version the archive is published under,
/// and an optional human-readable summary.
#[derive(Debug, Clone)]
pub struct Pack {
    pub name: String,
    pub version: String,
    pub description: Option<String>,
}

/// The target environment: a platform version and at most one version per loader.
#[derive(Debug, Clone)]
pub struct Enviroment {
    pub minecraft: String,
    pub loaders: Vec<(Loader, String)>,
}

/// At most one version per loader.
pub open spec fn loaders_unique(loaders: Seq<(Loader, String)>) -> bool {
    forall|i: int, j: int|
        0 <= i < j < loaders.len() ==> (#[trigger] loaders[i]).0 != (#[trigger] loaders[j]).0
}

impl Enviroment {
    /// At most one version per loader.
    pub open spec fn wf(&self) -> bool {
        loaders_unique(self.loaders@)
    }
}

/// A declared component reference: a version identifier the registry
/// resolves, and the side the component is for.
#[derive(Debug, Clone)]
pub struct Definition {
    pub version: String,
    pub side: Side,
}

/// A whole pack manifest: metadata, environment, override rules, and the
/// three component categories.
#[derive(Debug, Clone)]
pub struct Manifest {
    pub pack: Pack,
    pub enviroment: Enviroment,
    pub files: Vec<(FileLocation, Vec<String>)>,
    pub mods: Vec<(String, Definition)>,
    pub resource_packs: Vec<(String, Definition)>,
    pub shaders: Vec<(String, Definition)>,
}

/// Component names are unique within one category.
pub open spec fn names_unique(items: Seq<(String, Definition)>) -> bool {
    forall|i: int, j: int|
        0 <= i < j < items.len() ==> (#[trigger] items[i]).0@ != (#[trigger] items[j]).0@
}

impl Manifest {
    /// The environment is well formed and names are unique in each category.
    pub open spec fn wf(&self) -> bool {
        &&& self.enviroment.wf()
        &&& names_unique(self.mods@)
        &&& names_unique(self.resource_packs@)
        &&& names_unique(self.shaders@)
    }

    /// A fresh manifest for a new pack: no loaders, no override rules and
    /// no components yet.
    pub fn new(name: String, version: String, minecraft: String) -> (r: Manifest)
        ensures
            r.wf(),
            r.pack.name == name,
            r.pack.version == version,
            r.pack.description is None,
            r.enviroment.minecraft == minecraft,
            r.enviroment.loaders@.len() == 0,
            r.files@.len() == 0,
            r.mods@.len() == 0,
            r.resource_packs@.len() == 0,
            r.shaders@.len() == 0,
    {
        Manifest {
            pack: Pack { name, version, description: None },
            enviroment: Enviroment { minecraft, loaders: Vec::new() },
            files: Vec::new(),
            mods: Vec::new(),
            resource_packs: Vec::new(),
            shaders: Vec::new(),
        }
    }
}

/// Whether `s` ends in a path segment that is exactly `.`.
pub open spec fn ends_with_dot_segment(s: Seq<char>) -> bool {
    s.len() > 0 && s.last() == '.' && (s.len() == 1 || s[s.len() - 2] == '/')
}

/// `s` with every trailing `/` separator and trailing `.` segment removed:
/// the normalization `Path::file_name` applies to a path's tail, so that
/// `foo.txt/.` still names `foo.txt`.
pub open spec fn strip_dir_tail(s: Seq<char>) -> Seq<char>
    decreases s.len(),
{
    if s.len() > 0 && s.last() == '/' {
        strip_dir_tail(s.drop_last())
    } else if ends_with_dot_segment(s) {
        strip_dir_tail(s.drop_last())
    } else {
        s
    }
}

/// The characters after the last `/` of `s` (all of `s` if it has none).
pub open spec fn after_last_slash(s: Seq<char>) -> Seq<char>
    decreases s.len(),
{
    if s.len() == 0 {
        s
    } else if s.last() == '/' {
        Seq::empty()
    } else {
        after_last_slash(s.drop_last()).push(s.last())
    }
}

/// The pack name a directory path suggests: its final path segment after
/// trailing separators and `.` segments are ignored, or `pack` when none
/// is left or the last segment is `..`.
pub open spec fn name_from_path_spec(path: Seq<char>) -> Seq<char> {
    let seg = after_last_slash(strip_dir_tail(path));
    if seg.len() == 0 || seg == ".."@ {
        "pack"@
    } else {
        seg
    }
}

/// Derives a default pack name from a directory path: the final path
/// segment, with `pack` as the fallback.
pub fn name_from_path(path: &str) -> (r: String)
    ensures
        r@ == name_from_path_spec(path@),
{
    let len = path.unicode_len();
    let mut end = len;
    proof {
        assert(path@.take(len as int) =~= path@);
    }
    while end > 0 && (path.get_char(end - 1) == '/' || (path.get_char(end - 1) == '.' && (end
        == 1 || path.get_char(end - 2) == '/')))
        invariant
            end <= len,
            len == path@.len(),
            strip_dir_tail(path@) == strip_dir_tail(path@.take(end as int)),
        decreases end,
    {
        proof {
            assert(path@.take(end as int).drop_last() =~= path@.take(end - 1));
        }
        end = end - 1;
    }
    proof {
        assert(strip_dir_tail(path@.take(end as int)) == path@.take(end as int));
    }
    let mut start = end;
    proof {
        assert(after_last_slash(path@.take(end as int)) =~= after_last_slash(
            path@.take(end as int),
        ) + path@.subrange(end as int, end as int));
    }
    while start > 0 && path.get_char(start - 1) != '/'
        invariant
            start <= end,
            end <= len,
            len == path@.len(),
            after_last_slash(path@.take(end as int)) =~= after_last_slash(
                path@.take(start as int),
            ) + path@.subrange(start as int, end as int),
        decreases start,
    {
        proof {
            assert(path@.take(start as int).drop_last() =~= path@.take(start - 1));
            assert(after_last_slash(path@.take(start as int)) =~= after_last_slash(
                path@.take(start - 1),
            ) + path@.subrange(start - 1, start as int));
            assert(after_last_slash(path@.take(start - 1)) + path@.subrange(
                start - 1,
                start as int,
            ) + path@.subrange(start as int, end as int) =~= after_last_slash(
                path@.take(start - 1),
            ) + path@.subrange(start - 1, end as int));
        }
        start = start - 1;
    }
    proof {
        assert(after_last_slash(path@.take(start as int)) =~= Seq::<char>::empty());
        assert(after_last_slash(path@.take(end as int)) =~= path@.subrange(
            start as int,
            end as int,
        ));
    }
    let seg = path.substring_char(start, end);
    if seg.unicode_len() == 0 || str_eq(seg, "..") {
        String::from_str("pack")
    } else {
        String::from_str(seg)
    }
}

} // verus!
