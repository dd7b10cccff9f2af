//! The build pipeline's decision core: converting resolved registry
//! versions into index file entries, the all-or-nothing aggregation of
//! concurrent resolution results, the category-ordered file list, the
//! dependency mapping, override archive paths, and the archive entry plan.

use vstd::prelude::*;
use vstd::string::StringExecFns;
use vstd::utf8::encode_utf8;

use crate::json::metadata_json;
use crate::json::metadata_to_json;
use crate::manifest::Enviroment;
use crate::manifest::FileLocation;
use crate::manifest::Loader;
use crate::manifest::Pack;
use crate::manifest::Side;
use crate::manifest::loader_mrpack_token;
use crate::manifest::loaders_unique;
use crate::manifest::location_prefix;
use crate::modrinth;
use crate::mrpack::Env;
use crate::mrpack::File;
use crate::mrpack::FileView;
use crate::mrpack::Game;
use crate::mrpack::Metadata;
use crate::mrpack::MetadataView;
use crate::mrpack::env_of_side;

verus! {

/// The index entry a primary registry file becomes: the category directory
/// joined with the file name, the file's digests, the declared side's
/// environment pair, its single download URL, and its size.
pub open spec fn resolved_file_spec(f: modrinth::File, dir: Seq<char>, side: Side) -> FileView {
    FileView {
        path: dir + "/"@ + f.filename@,
        hashes: f.hashes.deep_view(),
        env: Some(env_of_side(side)),
        downloads: seq![f.url@],
        file_size: f.size,
    }
}

/// The index entries of a version's files: one per primary file, in list
/// order; non-primary files are discarded.
pub open spec fn resolved_files_spec(files: Seq<modrinth::File>, dir: Seq<char>, side: Side) -> Seq<
    FileView,
>
    decreases files.len(),
{
    if files.len() == 0 {
        Seq::empty()
    } else {
        let rest = resolved_files_spec(files.drop_last(), dir, side);
        if files.last().primary {
            rest + seq![resolved_file_spec(files.last(), dir, side)]
        } else {
            rest
        }
    }
}

/// How many of a version's files the registry marks primary.
pub open spec fn count_primary(files: Seq<modrinth::File>) -> nat
    decreases files.len(),
{
    if files.len() == 0 {
        0
    } else {
        count_primary(files.drop_last()) + if files.last().primary {
            1nat
        } else {
            0nat
        }
    }
}

/// A resolved version yields exactly one index entry per primary file.
pub proof fn lemma_resolved_count(files: Seq<modrinth::File>, dir: Seq<char>, side: Side)
    ensures
        resolved_files_spec(files, dir, side).len() == count_primary(files),
    decreases files.len(),
{
    if files.len() > 0 {
        lemma_resolved_count(files.drop_last(), dir, side);
    }
}

fn clone_pairs(src: &Vec<(String, String)>) -> (r: Vec<(String, String)>)
    ensures
        r@ == src@,
{
    let mut r: Vec<(String, String)> = Vec::new();
    let n = src.len();
    let mut k: usize = 0;
    while k < n
        invariant
            k <= n,
            n == src@.len(),
            r@ =~= src@.take(k as int),
        decreases n - k,
    {
        r.push((src[k].0.clone(), src[k].1.clone()));
        proof {
            assert(r@ =~= src@.take(k + 1));
        }
        k = k + 1;
    }
    proof {
        assert(src@.take(n as int) =~= src@);
    }
    r
}

/// Converts one resolved version into its index file entries: every file
/// the registry marks primary lands under the category directory with the
/// declared side's environment pair; the rest are discarded.
pub fn files_of_version(version: &modrinth::Version, dir: &str, side: Side) -> (r: Vec<File>)
    ensures
        r.deep_view() == resolved_files_spec(version.files@, dir@, side),
        r@.len() == count_primary(version.files@),
        forall|i: int| 0 <= i < r@.len() ==> (#[trigger] r@[i]).wf(),
{
    let mut r: Vec<File> = Vec::new();
    let n = version.files.len();
    proof {
        assert(r.deep_view() =~= resolved_files_spec(version.files@.take(0), dir@, side));
    }
    let mut k: usize = 0;
    while k < n
        invariant
            k <= n,
            n == version.files@.len(),
            r.deep_view() == resolved_files_spec(version.files@.take(k as int), dir@, side),
            forall|i: int| 0 <= i < r@.len() ==> (#[trigger] r@[i]).wf(),
        decreases n - k,
    {
        let f = &version.files[k];
        if f.primary {
            let mut path = String::from_str(dir);
            path.append("/");
            path.append(f.filename.as_str());
            let mut downloads: Vec<String> = Vec::new();
            downloads.push(f.url.clone());
            let entry = File {
                path,
                hashes: clone_pairs(&f.hashes),
                env: Some(Env::from(side)),
                downloads,
                file_size: f.size,
            };
            r.push(entry);
        }
        proof {
            assert(version.files@.take(k + 1).drop_last() =~= version.files@.take(k as int));
            assert(version.files@.take(k + 1).last() == version.files@[k as int]);
            assert(r.deep_view() =~~= resolved_files_spec(
                version.files@.take(k + 1),
                dir@,
                side,
            ));
        }
        k = k + 1;
    }
    proof {
        assert(version.files@.take(n as int) =~= version.files@);
        lemma_resolved_count(version.files@, dir@, side);
    }
    r
}

/// The all-or-nothing merge of the concurrent units' outcomes: the first
/// error in list order, or every unit's entries concatenated in list order.
pub open spec fn collect_spec(results: Seq<Result<Vec<File>, String>>) -> Result<
    Seq<FileView>,
    Seq<char>,
>
    decreases results.len(),
{
    if results.len() == 0 {
        Ok(Seq::empty())
    } else {
        match results[0] {
            Err(m) => Err(m@),
            Ok(v) => match collect_spec(results.drop_first()) {
                Ok(rest) => Ok(v.deep_view() + rest),
                Err(m) => Err(m),
            },
        }
    }
}

/// Prepends already-merged entries to a merge outcome.
pub open spec fn collect_combine(
    acc: Seq<FileView>,
    rest: Result<Seq<FileView>, Seq<char>>,
) -> Result<Seq<FileView>, Seq<char>> {
    match rest {
        Ok(s) => Ok(acc + s),
        Err(m) => Err(m),
    }
}

/// The merge fails exactly when some unit failed: one failing unit among
/// many is never silently dropped.
pub proof fn lemma_collect_err_iff(results: Seq<Result<Vec<File>, String>>)
    ensures
        (collect_spec(results) is Err) <==> exists|i: int|
            0 <= i < results.len() && results[i] is Err,
    decreases results.len(),
{
    if results.len() > 0 {
        lemma_collect_err_iff(results.drop_first());
        if results[0] is Err {
            assert(results[0] is Err);
        } else {
            if collect_spec(results) is Err {
                let i = choose|i: int|
                    0 <= i < results.drop_first().len() && results.drop_first()[i] is Err;
                assert(results[i + 1] is Err);
            }
            if exists|i: int| 0 <= i < results.len() && results[i] is Err {
                let i = choose|i: int| 0 <= i < results.len() && results[i] is Err;
                assert(results.drop_first()[i - 1] is Err);
            }
        }
    }
}

/// How many entries the units of a fully successful merge hold together.
pub open spec fn total_ok_len(results: Seq<Result<Vec<File>, String>>) -> nat
    decreases results.len(),
{
    if results.len() == 0 {
        0
    } else {
        (match results[0] {
            Ok(v) => v@.len(),
            Err(_) => 0,
        }) + total_ok_len(results.drop_first())
    }
}

/// A successful merge holds exactly the units' entries: its length is the
/// sum of the units' entry counts.
pub proof fn lemma_collect_len(results: Seq<Result<Vec<File>, String>>)
    requires
        collect_spec(results) is Ok,
    ensures
        collect_spec(results)->Ok_0.len() == total_ok_len(results),
    decreases results.len(),
{
    if results.len() > 0 {
        lemma_collect_err_iff(results);
        lemma_collect_err_iff(results.drop_first());
        lemma_collect_len(results.drop_first());
    }
}

/// A fully successful build lists exactly one index file entry per entry
/// its units produced: the category-ordered file list's length is the sum
/// of the three categories' unit entry counts. Together with the per-unit
/// count, one entry per primary registry file, the index lists one entry
/// per primary file across all resolved versions.
pub proof fn lemma_output_file_count(
    mods: Seq<Result<Vec<File>, String>>,
    resource_packs: Seq<Result<Vec<File>, String>>,
    shaders: Seq<Result<Vec<File>, String>>,
)
    requires
        collect_spec(mods) is Ok,
        collect_spec(resource_packs) is Ok,
        collect_spec(shaders) is Ok,
    ensures
        (collect_spec(mods)->Ok_0 + collect_spec(resource_packs)->Ok_0 + collect_spec(
            shaders,
        )->Ok_0).len() == total_ok_len(mods) + total_ok_len(resource_packs) + total_ok_len(
            shaders,
        ),
{
    lemma_collect_len(mods);
    lemma_collect_len(resource_packs);
    lemma_collect_len(shaders);
}

/// Merges the concurrent units' outcomes: fails with the first failing
/// unit's error, succeeds only when every unit succeeded, and then holds
/// every unit's entries in list order.
#[verifier::loop_isolation(false)]
pub fn collect_unit_results(results: Vec<Result<Vec<File>, String>>) -> (r: Result<
    Vec<File>,
    String,
>)
    ensures
        match r {
            Ok(files) => collect_spec(results@) == Ok::<Seq<FileView>, Seq<char>>(
                files.deep_view(),
            ),
            Err(m) => collect_spec(results@) == Err::<Seq<FileView>, Seq<char>>(m@),
        },
        (r is Err) <==> exists|i: int| 0 <= i < results@.len() && results@[i] is Err,
{
    let ghost orig = results@;
    proof {
        lemma_collect_err_iff(orig);
    }
    let mut rest = results;
    let mut acc: Vec<File> = Vec::new();
    proof {
        if collect_spec(orig) is Ok {
            assert(acc.deep_view() =~= Seq::<FileView>::empty());
            assert(acc.deep_view() + collect_spec(orig)->Ok_0 =~= collect_spec(orig)->Ok_0);
        }
    }
    while rest.len() > 0
        invariant
            collect_combine(acc.deep_view(), collect_spec(rest@)) == collect_spec(orig),
        decreases rest@.len(),
    {
        let ghost rest_old = rest@;
        let ghost acc_old = acc.deep_view();
        let first = rest.remove(0);
        proof {
            assert(rest@ =~= rest_old.drop_first());
        }
        match first {
            Err(m) => {
                proof {
                    assert(collect_spec(rest_old) == Err::<Seq<FileView>, Seq<char>>(m@));
                }
                return Err(m);
            },
            Ok(mut v) => {
                let ghost v_view = v.deep_view();
                acc.append(&mut v);
                proof {
                    assert(acc.deep_view() =~= acc_old + v_view);
                    match collect_spec(rest@) {
                        Ok(s) => {
                            assert(collect_spec(rest_old) == Ok::<Seq<FileView>, Seq<char>>(
                                v_view + s,
                            ));
                            assert(acc_old + (v_view + s) =~= (acc_old + v_view) + s);
                        },
                        Err(_) => {},
                    }
                }
            },
        }
    }
    proof {
        assert(rest@.len() == 0);
        assert(collect_spec(rest@) == Ok::<Seq<FileView>, Seq<char>>(Seq::empty()));
        assert(acc.deep_view() + Seq::<FileView>::empty() =~= acc.deep_view());
    }
    Ok(acc)
}

/// In the category-ordered concatenation, every mod entry stands before
/// every resource-pack entry, and every resource-pack entry before every
/// shader entry: the entry at position `i` of the first category, `j` of
/// the second and `k` of the third keep their category's offset, whatever
/// order the units finished in.
pub proof fn lemma_category_order(
    mods: Seq<FileView>,
    resource_packs: Seq<FileView>,
    shaders: Seq<FileView>,
    i: int,
    j: int,
    k: int,
)
    requires
        0 <= i < mods.len(),
        0 <= j < resource_packs.len(),
        0 <= k < shaders.len(),
    ensures
        (mods + resource_packs + shaders).len() == mods.len() + resource_packs.len()
            + shaders.len(),
        (mods + resource_packs + shaders)[i] == mods[i],
        (mods + resource_packs + shaders)[mods.len() + j] == resource_packs[j],
        (mods + resource_packs + shaders)[mods.len() + resource_packs.len() + k] == shaders[k],
        i < mods.len() + j < mods.len() + resource_packs.len() + k,
{
}

/// Concatenates the three categories' entries in the fixed category order:
/// every mod entry precedes every resource-pack entry, which precedes every
/// shader entry, whatever order the units finished in.
pub fn concat_categories(mods: Vec<File>, resource_packs: Vec<File>, shaders: Vec<File>) -> (r:
    Vec<File>)
    ensures
        r@ == mods@ + resource_packs@ + shaders@,
        r.deep_view() == mods.deep_view() + resource_packs.deep_view() + shaders.deep_view(),
{
    let mut r = mods;
    let mut rp = resource_packs;
    let mut sh = shaders;
    r.append(&mut rp);
    r.append(&mut sh);
    proof {
        assert(r.deep_view() =~= mods.deep_view() + resource_packs.deep_view()
            + shaders.deep_view());
    }
    r
}

/// The dependency mapping of the canonical index: one entry per configured
/// loader under its registry-facing key, then the platform version under
/// the game's own key.
/// The loaders' dependency entries, in configuration order.
pub open spec fn loader_deps_spec(loaders: Seq<(Loader, String)>) -> Seq<(Seq<char>, Seq<char>)>
    decreases loaders.len(),
{
    if loaders.len() == 0 {
        Seq::empty()
    } else {
        loader_deps_spec(loaders.drop_last()) + seq![
            (loader_mrpack_token(loaders.last().0), loaders.last().1@),
        ]
    }
}

pub open spec fn deps_spec(loaders: Seq<(Loader, String)>, minecraft: Seq<char>) -> Seq<
    (Seq<char>, Seq<char>),
> {
    loader_deps_spec(loaders) + seq![("minecraft"@, minecraft)]
}

/// Each configured loader stands at its own position in the loaders'
/// dependency entries.
proof fn lemma_loader_deps_index(loaders: Seq<(Loader, String)>)
    ensures
        loader_deps_spec(loaders).len() == loaders.len(),
        forall|i: int|
            0 <= i < loaders.len() ==> #[trigger] loader_deps_spec(loaders)[i] == (
            loader_mrpack_token(loaders[i].0),
            loaders[i].1@,
            ),
    decreases loaders.len(),
{
    if loaders.len() > 0 {
        lemma_loader_deps_index(loaders.drop_last());
    }
}

/// Two distinct loaders carry distinct registry-facing dependency keys,
/// and neither carries the game's own key.
proof fn lemma_loader_keys_distinct(a: Loader, b: Loader)
    ensures
        a != b ==> loader_mrpack_token(a) != loader_mrpack_token(b),
        loader_mrpack_token(a) != "minecraft"@,
{
    reveal_strlit("fabric-loader");
    reveal_strlit("forge");
    reveal_strlit("quilt-loader");
    reveal_strlit("neoforge");
    reveal_strlit("minecraft");
    assert("fabric-loader"@.len() == 13 && "forge"@.len() == 5 && "quilt-loader"@.len() == 12
        && "neoforge"@.len() == 8 && "minecraft"@.len() == 9);
}

/// With at most one version per loader, the canonical index's dependency
/// keys are pairwise distinct: each loader's key differs from every other
/// loader's and from the game's own key.
pub proof fn lemma_deps_keys_unique(loaders: Seq<(Loader, String)>, minecraft: Seq<char>)
    requires
        loaders_unique(loaders),
    ensures
        forall|i: int, j: int|
            0 <= i < j < deps_spec(loaders, minecraft).len() ==> (#[trigger] deps_spec(
                loaders,
                minecraft,
            )[i]).0 != (#[trigger] deps_spec(loaders, minecraft)[j]).0,
{
    lemma_loader_deps_index(loaders);
    assert forall|i: int, j: int|
        0 <= i < j < deps_spec(loaders, minecraft).len() implies (#[trigger] deps_spec(
        loaders,
        minecraft,
    )[i]).0 != (#[trigger] deps_spec(loaders, minecraft)[j]).0 by {
        if j < loaders.len() {
            lemma_loader_keys_distinct(loaders[i].0, loaders[j].0);
        } else {
            lemma_loader_keys_distinct(loaders[i].0, loaders[i].0);
        }
    }
}

/// Builds the dependency mapping of the canonical index.
pub fn dependencies_of(minecraft: &String, loaders: &Vec<(Loader, String)>) -> (r: Vec<
    (String, String),
>)
    requires
        loaders_unique(loaders@),
    ensures
        r.deep_view() == deps_spec(loaders@, minecraft@),
{
    let mut r: Vec<(String, String)> = Vec::new();
    let n = loaders.len();
    proof {
        assert(r.deep_view() =~= loader_deps_spec(loaders@.take(0)));
    }
    let mut k: usize = 0;
    while k < n
        invariant
            k <= n,
            n == loaders@.len(),
            r.deep_view() == loader_deps_spec(loaders@.take(k as int)),
        decreases n - k,
    {
        r.push((String::from_str(loaders[k].0.as_mrpack()), loaders[k].1.clone()));
        proof {
            assert(loaders@.take(k + 1).drop_last() =~= loaders@.take(k as int));
            assert(loaders@.take(k + 1).last() == loaders@[k as int]);
            assert(r.deep_view() =~= loader_deps_spec(loaders@.take(k + 1)));
        }
        k = k + 1;
    }
    r.push((String::from_str("minecraft"), minecraft.clone()));
    proof {
        assert(loaders@.take(n as int) =~= loaders@);
        assert(r.deep_view() =~= deps_spec(loaders@, minecraft@));
    }
    r
}

/// The canonical index a build yields: the fixed format and game, the
/// pack's identity and summary, the given file list, and the dependency
/// mapping of the given environment.
pub open spec fn index_view(pack: Pack, enviroment: Enviroment, files: Seq<FileView>) -> MetadataView {
    MetadataView {
        format_version: 1,
        game: Game::Minecraft,
        version_id: pack.version@,
        name: pack.name@,
        summary: pack.description.deep_view(),
        files: files,
        dependencies: deps_spec(enviroment.loaders@, enviroment.minecraft@),
    }
}

/// Builds the canonical index from the pack metadata, the environment, and
/// the category-ordered file list.
pub fn build_metadata(pack: Pack, enviroment: Enviroment, files: Vec<File>) -> (r: Metadata)
    requires
        enviroment.wf(),
    ensures
        r@ == index_view(pack, enviroment, files.deep_view()),
        r.wf() <==> (forall|i: int| 0 <= i < files@.len() ==> (#[trigger] files@[i]).wf()),
{
    let dependencies = dependencies_of(&enviroment.minecraft, &enviroment.loaders);
    let r = Metadata {
        format_version: 1,
        game: Game::Minecraft,
        version_id: pack.version,
        name: pack.name,
        summary: pack.description,
        files,
        dependencies,
    };
    proof {
        assert(r@ =~= index_view(pack, enviroment, r.files.deep_view()));
    }
    r
}

/// The archive path an override file lands at: the location's directory
/// prefix joined with the matched path, which stays as it was matched.
pub open spec fn override_path_spec(location: FileLocation, matched: Seq<char>) -> Seq<char> {
    location_prefix(location) + "/"@ + matched
}

/// Computes the archive path of one override file.
pub fn override_entry_path(location: FileLocation, matched: &str) -> (r: String)
    ensures
        r@ == override_path_spec(location, matched@),
{
    let mut out = String::from_str(location.as_ovveride());
    out.append("/");
    out.append(matched);
    proof {
        assert(out@ =~= override_path_spec(location, matched@));
    }
    out
}

/// The archive entries the override files become: one per matched file, in
/// match order, each at its computed archive path with the file's bytes.
pub open spec fn override_entries_spec(overrides: Seq<(FileLocation, String, Vec<u8>)>) -> Seq<
    (Seq<char>, Seq<u8>),
>
    decreases overrides.len(),
{
    if overrides.len() == 0 {
        Seq::empty()
    } else {
        override_entries_spec(overrides.drop_last()) + seq![
            (override_path_spec(overrides.last().0, overrides.last().1@), overrides.last().2@),
        ]
    }
}

/// Turns the matched override files into archive entries. A location whose
/// patterns matched nothing simply contributes no entries; that is not an
/// error.
pub fn override_data_entries(overrides: Vec<(FileLocation, String, Vec<u8>)>) -> (r: Vec<
    (String, Vec<u8>),
>)
    ensures
        r.deep_view() == override_entries_spec(overrides@),
        r@.len() == overrides@.len(),
{
    let ghost orig = overrides@;
    let mut rest = overrides;
    let mut entries: Vec<(String, Vec<u8>)> = Vec::new();
    proof {
        assert(rest@ =~= orig.skip(0));
        assert(entries.deep_view() =~= override_entries_spec(orig.take(0)));
    }
    while rest.len() > 0
        invariant
            entries@.len() + rest@.len() == orig.len(),
            rest@ =~= orig.skip(entries@.len() as int),
            entries.deep_view() == override_entries_spec(orig.take(entries@.len() as int)),
        decreases rest@.len(),
    {
        let ghost k = entries@.len() as int;
        let ghost rest_old = rest@;
        let item = rest.remove(0);
        proof {
            assert(rest_old[0] == orig[k]);
            assert(rest@ =~= rest_old.drop_first());
            assert(rest@ =~= orig.skip(k + 1));
        }
        let path = override_entry_path(item.0, item.1.as_str());
        entries.push((path, item.2));
        proof {
            assert(orig.take(k + 1).drop_last() =~= orig.take(k));
            assert(orig.take(k + 1).last() == orig[k]);
            assert(entries.deep_view() =~~= override_entries_spec(orig.take(k + 1)));
        }
    }
    proof {
        assert(orig.take(orig.len() as int) =~= orig);
    }
    entries
}

/// The name of the archive's first entry, the canonical index.
pub fn index_entry_name() -> (r: &'static str)
    ensures
        r@ == "modrinth.index.json"@,
{
    "modrinth.index.json"
}

/// The archive entry plan: the canonical index document first, under its
/// fixed name, then the override entries in order.
pub open spec fn archive_plan_spec(
    index_json: Seq<char>,
    overrides: Seq<(Seq<char>, Seq<u8>)>,
) -> Seq<(Seq<char>, Seq<u8>)> {
    seq![("modrinth.index.json"@, encode_utf8(index_json))] + overrides
}

/// Lays out the archive: the index document becomes the first entry, the
/// override entries follow in order.
pub fn plan_archive(index_json: String, overrides: Vec<(String, Vec<u8>)>) -> (r: Vec<
    (String, Vec<u8>),
>)
    ensures
        r.deep_view() == archive_plan_spec(index_json@, overrides.deep_view()),
        r@.len() == 1 + overrides@.len(),
{
    let mut r: Vec<(String, Vec<u8>)> = Vec::new();
    let data = index_json.as_str().as_bytes_vec();
    r.push((String::from_str("modrinth.index.json"), data));
    let mut rest = overrides;
    r.append(&mut rest);
    proof {
        assert(r.deep_view() =~~= archive_plan_spec(index_json@, overrides.deep_view()));
    }
    r
}

/// What a whole build yields from the units' outcomes and the override
/// files: the first failing unit's error, in category order; otherwise the
/// archive plan around the canonical index of the category-ordered file
/// list.
pub open spec fn assemble_spec(
    pack: Pack,
    enviroment: Enviroment,
    mods: Seq<Result<Vec<File>, String>>,
    resource_packs: Seq<Result<Vec<File>, String>>,
    shaders: Seq<Result<Vec<File>, String>>,
    overrides: Seq<(FileLocation, String, Vec<u8>)>,
) -> Result<Seq<(Seq<char>, Seq<u8>)>, Seq<char>> {
    match (collect_spec(mods), collect_spec(resource_packs), collect_spec(shaders)) {
        (Ok(ms), Ok(rs), Ok(ss)) => Ok(
            archive_plan_spec(
                metadata_json(index_view(pack, enviroment, ms + rs + ss)),
                override_entries_spec(overrides),
            ),
        ),
        (Err(m), _, _) => Err(m),
        (Ok(_), Err(m), _) => Err(m),
        (Ok(_), Ok(_), Err(m)) => Err(m),
    }
}

/// One archive entry per matched override file.
pub proof fn lemma_override_entries_len(overrides: Seq<(FileLocation, String, Vec<u8>)>)
    ensures
        override_entries_spec(overrides).len() == overrides.len(),
    decreases overrides.len(),
{
    if overrides.len() > 0 {
        lemma_override_entries_len(overrides.drop_last());
    }
}

/// The override entries of a successful build do not depend on the
/// resolution units: whatever the units were, the entries after the index
/// are exactly the override files' entries, in match order.
pub proof fn lemma_overrides_independent(
    pack: Pack,
    enviroment: Enviroment,
    mods: Seq<Result<Vec<File>, String>>,
    resource_packs: Seq<Result<Vec<File>, String>>,
    shaders: Seq<Result<Vec<File>, String>>,
    overrides: Seq<(FileLocation, String, Vec<u8>)>,
)
    requires
        assemble_spec(pack, enviroment, mods, resource_packs, shaders, overrides) is Ok,
    ensures
        assemble_spec(pack, enviroment, mods, resource_packs, shaders, overrides)->Ok_0.skip(1)
            =~= override_entries_spec(overrides),
        assemble_spec(pack, enviroment, mods, resource_packs, shaders, overrides)->Ok_0.len()
            == 1 + overrides.len(),
{
    lemma_override_entries_len(overrides);
}

/// Assembles the archive from the concurrent units' outcomes and the
/// override files: all-or-nothing over the units, the canonical index
/// first, then the override entries.
pub fn assemble(
    pack: Pack,
    enviroment: Enviroment,
    mods: Vec<Result<Vec<File>, String>>,
    resource_packs: Vec<Result<Vec<File>, String>>,
    shaders: Vec<Result<Vec<File>, String>>,
    overrides: Vec<(FileLocation, String, Vec<u8>)>,
) -> (r: Result<Vec<(String, Vec<u8>)>, String>)
    requires
        enviroment.wf(),
    ensures
        match r {
            Ok(entries) => assemble_spec(
                pack,
                enviroment,
                mods@,
                resource_packs@,
                shaders@,
                overrides@,
            ) == Ok::<Seq<(Seq<char>, Seq<u8>)>, Seq<char>>(entries.deep_view())
                && entries@.len() == 1 + overrides@.len(),
            Err(m) => assemble_spec(
                pack,
                enviroment,
                mods@,
                resource_packs@,
                shaders@,
                overrides@,
            ) == Err::<Seq<(Seq<char>, Seq<u8>)>, Seq<char>>(m@),
        },
        (r is Err) <==> ((exists|i: int| 0 <= i < mods@.len() && mods@[i] is Err) || (
        exists|i: int| 0 <= i < resource_packs@.len() && resource_packs@[i] is Err) || (
        exists|i: int| 0 <= i < shaders@.len() && shaders@[i] is Err)),
{
    proof {
        lemma_collect_err_iff(mods@);
        lemma_collect_err_iff(resource_packs@);
        lemma_collect_err_iff(shaders@);
    }
    let ms = match collect_unit_results(mods) {
        Ok(v) => v,
        Err(m) => {
            return Err(m);
        },
    };
    let rs = match collect_unit_results(resource_packs) {
        Ok(v) => v,
        Err(m) => {
            return Err(m);
        },
    };
    let ss = match collect_unit_results(shaders) {
        Ok(v) => v,
        Err(m) => {
            return Err(m);
        },
    };
    let ghost ms_view = ms.deep_view();
    let ghost rs_view = rs.deep_view();
    let ghost ss_view = ss.deep_view();
    let files = concat_categories(ms, rs, ss);
    let metadata = build_metadata(pack, enviroment, files);
    proof {
        assert(metadata@ =~= index_view(pack, enviroment, ms_view + rs_view + ss_view));
    }
    let index_json = metadata_to_json(&metadata);
    let over_entries = override_data_entries(overrides);
    let entries = plan_archive(index_json, over_entries);
    Ok(entries)
}

/// The progress a build reports: how many resolution units were scheduled
/// and how many have finished. Purely observational; it has no bearing on
/// the outcome.
#[derive(Clone, Copy, Debug, PartialEq, Eq, Structural)]
pub struct Progress {
    pub total: u64,
    pub done: u64,
}

impl Progress {
    /// Never more units done than scheduled.
    pub open spec fn wf(&self) -> bool {
        self.done <= self.total
    }

    /// Fresh progress over a known number of units.
    pub fn new(total: u64) -> (r: Progress)
        ensures
            r.wf(),
            r.total == total,
            r.done == 0,
    {
        Progress { total, done: 0 }
    }

    /// Records one finished unit; full progress stays full.
    pub fn inc(&mut self)
        requires
            old(self).wf(),
        ensures
            final(self).wf(),
            final(self).total == old(self).total,
            final(self).done == if old(self).done < old(self).total {
                old(self).done + 1
            } else {
                old(self).done as int
            },
    {
        if self.done < self.total {
            self.done = self.done + 1;
        }
    }

    /// Whether every scheduled unit has finished.
    pub fn is_finished(&self) -> (b: bool)
        ensures
            b == (self.done == self.total),
    {
        self.done == self.total
    }
}

} // verus!
