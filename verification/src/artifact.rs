//! Build artifacts (`.deb` files): what their names say, and how they are
//! grouped and organized by package.
use vstd::prelude::*;
use crate::build_error::BuildError;
use crate::paths::{extension_of, file_name_of, join_path, path_extension, path_file_name, path_join};
use crate::text::{
    chars_of, contains_str, contains_sub, ends_with, is_suffix, owned, slice, split, split_str,
    string_of, char_views, views,
};

verus! {

/// A built package file.
#[derive(Debug, Clone, PartialEq, Eq)]
pub struct BuildArtifact {
    /// Package name
    pub package_name: String,
    /// Artifact file path, as text
    pub path: String,
    /// File size in bytes
    pub size: u64,
    /// Artifact type ("deb" or "dbgsym")
    pub artifact_type: String,
    /// Architecture
    pub architecture: String,
    /// Version
    pub version: String,
}

/// `s` with every trailing repetition of `suf` removed (`trim_end_matches`).
pub open spec fn strip_suffixes(s: Seq<char>, suf: Seq<char>) -> Seq<char>
    decreases s.len(),
{
    if suf.len() > 0 && is_suffix(suf, s) {
        strip_suffixes(s.subrange(0, s.len() - suf.len()), suf)
    } else {
        s
    }
}

/// What a package file name `package_version_arch[...].deb` says: package,
/// version, architecture, and type (`dbgsym` for debug symbols, else `deb`).
pub open spec fn artifact_fields(f: Seq<char>) -> Option<(Seq<char>, Seq<char>, Seq<char>, Seq<char>)> {
    if is_suffix(".deb"@, f) {
        let parts = split(strip_suffixes(f, ".deb"@), "_"@);
        if parts.len() >= 3 {
            Some((parts[0], parts[1], parts[2], if contains_sub(f, "-dbgsym"@) { "dbgsym"@ } else { "deb"@ }))
        } else {
            None
        }
    } else {
        None
    }
}

/// The artifact at `path` of size `size`, when its file name is a package
/// file name and its size is known.
pub open spec fn artifact_of(path: Seq<char>, size: Option<u64>, a: BuildArtifact) -> bool {
    &&& path_file_name(path) matches Some(f) && artifact_fields(f) matches Some((p, v, arch, t))
        && a.package_name@ == p && a.version@ == v && a.architecture@ == arch && a.artifact_type@ == t
    &&& a.path@ == path
    &&& size == Some(a.size)
}

/// Whether `path` names a package file with a known size.
pub open spec fn is_artifact(path: Seq<char>, size: Option<u64>) -> bool {
    &&& path_file_name(path) matches Some(f) && artifact_fields(f) is Some
    &&& size is Some
}

/// `s` without its trailing repetitions of `suf`.
fn strip_suffixes_exec(s: &Vec<char>, suf: &Vec<char>) -> (r: Vec<char>)
    ensures
        r@ == strip_suffixes(s@, suf@),
{
    let mut cur = slice(s, 0, s.len());
    assert(cur@ =~= s@);
    while suf.len() > 0 && ends_with(&cur, suf)
        invariant
            strip_suffixes(cur@, suf@) == strip_suffixes(s@, suf@),
        decreases cur.len(),
    {
        cur = slice(&cur, 0, cur.len() - suf.len());
    }
    cur
}

impl BuildArtifact {
    /// The artifact at `path`, read from its file name
    /// (`package_version_arch.deb`); `size` is the file's size, when its
    /// metadata could be read.
    pub fn from_path(path: &str, size: Option<u64>) -> (r: Option<Self>)
        ensures
            match r {
                Some(a) => artifact_of(path@, size, a),
                None => !is_artifact(path@, size),
            },
    {
        let filename = match file_name_of(path) {
            Some(f) => f,
            None => return None,
        };
        let f = chars_of(filename.as_str());
        let deb = chars_of(".deb");
        if !ends_with(&f, &deb) {
            return None;
        }
        let stem = strip_suffixes_exec(&f, &deb);
        proof {
            reveal_strlit("_");
        }
        let parts = split_str(&stem, "_");
        if parts.len() < 3 {
            return None;
        }
        let artifact_type = if contains_str(&f, "-dbgsym") { owned("dbgsym") } else { owned("deb") };
        let n = match size {
            Some(n) => n,
            None => return None,
        };
        assert(char_views(parts@)[0] == parts@[0]@);
        assert(char_views(parts@)[1] == parts@[1]@);
        assert(char_views(parts@)[2] == parts@[2]@);
        Some(
            BuildArtifact {
                package_name: string_of(&parts[0]),
                path: owned(path),
                size: n,
                artifact_type,
                architecture: string_of(&parts[2]),
                version: string_of(&parts[1]),
            },
        )
    }

    /// The artifact's file name.
    pub fn filename(&self) -> (r: Option<String>)
        ensures
            match r {
                Some(f) => path_file_name(self.path@) == Some(f@),
                None => path_file_name(self.path@) is None,
            },
    {
        file_name_of(self.path.as_str())
    }
}

/// Whether `path` names a `.deb` file (its extension is `deb`).
pub fn is_deb_path(path: &str) -> (r: bool)
    ensures
        r == (path_extension(path@) == Some("deb"@)),
{
    match extension_of(path) {
        Some(e) => crate::text::str_eq(e.as_str(), "deb"),
        None => false,
    }
}

/// A directory entry found while walking: its path, whether it is a file,
/// and its size when its metadata could be read.
#[derive(Debug, Clone, PartialEq, Eq)]
pub struct FoundFile {
    /// Path of the entry, as text
    pub path: String,
    /// Whether it is a regular file
    pub is_file: bool,
    /// Size in bytes, when known
    pub size: Option<u64>,
}

/// The artifacts among walked entries, in order: files with the `deb`
/// extension whose name reads as a package file and whose size is known.
pub open spec fn artifacts_among(entries: Seq<FoundFile>) -> Seq<FoundFile>
    decreases entries.len(),
{
    if entries.len() == 0 {
        Seq::empty()
    } else {
        let e = entries.last();
        let rest = artifacts_among(entries.drop_last());
        if e.is_file && path_extension(e.path@) == Some("deb"@) && is_artifact(e.path@, e.size) {
            rest.push(e)
        } else {
            rest
        }
    }
}

/// The entries of a walk, errors read as default entries (used only where
/// every entry is known to be readable).
pub open spec fn found_files(entries: Seq<Result<FoundFile, String>>) -> Seq<FoundFile> {
    entries.map_values(|e: Result<FoundFile, String>| e->Ok_0)
}

/// Collector of the build's artifacts into the output directory.
#[derive(Debug, Clone, PartialEq, Eq)]
pub struct ArtifactCollector {
    output_dir: String,
}

/// Where artifacts of the same package are grouped, and their moves into it.
#[derive(Debug, Clone, PartialEq, Eq)]
pub struct PackageMoves {
    /// The package directory to create
    pub dir: String,
    /// (from, to) paths of the files to move
    pub moves: Vec<(String, String)>,
}

/// Groups of equal names: each distinct name, in order of first
/// appearance, with the indices where it appears, in order.
pub open spec fn groups_of(names: Seq<Seq<char>>) -> Seq<(Seq<char>, Seq<int>)>
    decreases names.len(),
{
    if names.len() == 0 {
        Seq::empty()
    } else {
        let gs = groups_of(names.drop_last());
        let n = names.last();
        let k = names.len() - 1;
        match find_group(gs, n) {
            Some(g) => gs.update(g, (n, gs[g].1.push(k))),
            None => gs.push((n, seq![k])),
        }
    }
}

/// The index of the group named `n`, if any.
pub open spec fn find_group(gs: Seq<(Seq<char>, Seq<int>)>, n: Seq<char>) -> Option<int> {
    if exists|g: int| 0 <= g < gs.len() && gs[g].0 == n {
        Some(choose|g: int| 0 <= g < gs.len() && gs[g].0 == n)
    } else {
        None
    }
}

/// The package names of some artifacts.
pub open spec fn package_names(v: Seq<BuildArtifact>) -> Seq<Seq<char>> {
    v.map_values(|a: BuildArtifact| a.package_name@)
}

/// The model of a list of groups.
pub open spec fn group_views(v: Seq<(String, Vec<usize>)>) -> Seq<(Seq<char>, Seq<int>)> {
    v.map_values(|g: (String, Vec<usize>)| (g.0@, g.1@.map_values(|i: usize| i as int)))
}

/// Names of groups are distinct.
pub open spec fn distinct_groups(gs: Seq<(Seq<char>, Seq<int>)>) -> bool {
    forall|a: int, b: int| 0 <= a < b < gs.len() ==> gs[a].0 != gs[b].0
}

/// The index of the group named `name`.
fn find_group_index(groups: &Vec<(String, Vec<usize>)>, name: &String) -> (r: Option<usize>)
    ensures
        match r {
            Some(g) => g < groups@.len() && group_views(groups@)[g as int].0 == name@,
            None => forall|h: int| 0 <= h < groups@.len() ==> group_views(groups@)[h].0 != name@,
        },
{
    let mut g: usize = 0;
    while g < groups.len()
        invariant
            g <= groups.len(),
            forall|h: int| 0 <= h < g ==> group_views(groups@)[h].0 != name@,
        decreases groups.len() - g,
    {
        if groups[g].0 == *name {
            return Some(g);
        }
        g += 1;
    }
    None
}

/// The artifacts grouped by package, packages in order of first appearance.
pub fn group_by_package(artifacts: &Vec<BuildArtifact>) -> (r: Vec<(String, Vec<usize>)>)
    ensures
        group_views(r@) == groups_of(package_names(artifacts@)),
{
    let ghost names = package_names(artifacts@);
    let mut groups: Vec<(String, Vec<usize>)> = Vec::new();
    let mut k: usize = 0;
    while k < artifacts.len()
        invariant
            k <= artifacts.len(),
            names == package_names(artifacts@),
            group_views(groups@) == groups_of(names.subrange(0, k as int)),
            distinct_groups(group_views(groups@)),
        decreases artifacts.len() - k,
    {
        let ghost gv = group_views(groups@);
        let ghost prefix = names.subrange(0, k as int);
        let ghost next = names.subrange(0, k + 1);
        assert(next.drop_last() =~= prefix);
        assert(next.last() == artifacts@[k as int].package_name@);
        let name = &artifacts[k].package_name;
        let pos = find_group_index(&groups, name);
        let found = pos.is_some();
        let g: usize = match pos {
            Some(i) => i,
            None => 0,
        };
        if found {
            proof {
                assert(gv[g as int].0 == name@);
                assert(find_group(gv, name@) == Some(g as int)) by {
                    let c = choose|h: int| 0 <= h < gv.len() && gv[h].0 == name@;
                    assert(distinct_groups(gv));
                }
            }
            let mut entry = groups.remove(g);
            let ghost before_idx = entry.1@;
            entry.1.push(k);
            assert(entry.1@.map_values(|i: usize| i as int) =~= before_idx.map_values(|i: usize| i as int).push(k as int));
            groups.insert(g, entry);
            proof {
                assert(group_views(groups@) =~= gv.update(g as int, (name@, gv[g as int].1.push(k as int))));
            }
        } else {
            proof {
                assert(!(exists|h: int| 0 <= h < gv.len() && gv[h].0 == name@));
                assert(find_group(gv, name@) is None);
            }
            let mut idx: Vec<usize> = Vec::new();
            idx.push(k);
            assert(idx@.map_values(|i: usize| i as int) =~= seq![k as int]);
            groups.push((name.clone(), idx));
            proof {
                assert(group_views(groups@) =~= gv.push((name@, seq![k as int])));
            }
        }
        k += 1;
    }
    assert(names.subrange(0, artifacts.len() as int) =~= names);
    groups
}

impl ArtifactCollector {
    /// A collector into `output_dir`.
    pub fn new(output_dir: &str) -> (r: Self)
        ensures
            r.output_dir_of() == output_dir@,
    {
        ArtifactCollector { output_dir: owned(output_dir) }
    }

    /// The output directory.
    pub closed spec fn output_dir_of(&self) -> Seq<char> {
        self.output_dir@
    }

    /// Where an artifact file named `filename` is copied.
    pub fn destination(&self, filename: &str) -> (r: String)
        ensures
            r@ == path_join(self.output_dir_of(), filename@),
    {
        join_path(self.output_dir.as_str(), filename)
    }

    /// The artifacts among the entries of a walk of a directory; the first
    /// entry that could not be read ends the walk with an error.
    pub fn collect_from_directory(&self, entries: &Vec<Result<FoundFile, String>>) -> (r: Result<
        Vec<BuildArtifact>,
        BuildError,
    >)
        ensures
            match r {
                Ok(v) => (forall|i: int| 0 <= i < entries@.len() ==> entries@[i] is Ok) && v@.len()
                    == artifacts_among(found_files(entries@)).len() && forall|i: int|
                    0 <= i < v@.len() ==> artifact_of(
                        artifacts_among(found_files(entries@))[i].path@,
                        artifacts_among(found_files(entries@))[i].size,
                        #[trigger] v@[i],
                    ),
                Err(e) => e matches BuildError::ArtifactCollection { reason } && exists|i: int|
                    0 <= i < entries@.len() && (forall|j: int| 0 <= j < i ==> entries@[j] is Ok)
                        && ((#[trigger] entries@[i]) matches Err(m) && reason@ == "Failed to walk directory: "@ + m@),
            },
    {
        let ghost found = found_files(entries@);
        let mut out: Vec<BuildArtifact> = Vec::new();
        let mut k: usize = 0;
        while k < entries.len()
            invariant
                k <= entries.len(),
                found == found_files(entries@),
                forall|j: int| 0 <= j < k ==> entries@[j] is Ok,
                out@.len() == artifacts_among(found.subrange(0, k as int)).len(),
                forall|i: int|
                    0 <= i < out@.len() ==> artifact_of(
                        artifacts_among(found.subrange(0, k as int))[i].path@,
                        artifacts_among(found.subrange(0, k as int))[i].size,
                        #[trigger] out@[i],
                    ),
            decreases entries.len() - k,
        {
            let ghost prefix = found.subrange(0, k as int);
            let ghost next = found.subrange(0, k + 1);
            assert(next.drop_last() =~= prefix);
            match &entries[k] {
                Err(m) => {
                    let mut reason = owned("Failed to walk directory: ");
                    reason.append(m.as_str());
                    return Err(BuildError::ArtifactCollection { reason });
                },
                Ok(entry) => {
                    assert(next.last() == *entry);
                    if entry.is_file && is_deb_path(entry.path.as_str()) {
                        match BuildArtifact::from_path(entry.path.as_str(), entry.size) {
                            Some(a) => {
                                out.push(a);
                            },
                            None => {},
                        }
                    }
                },
            }
            k += 1;
        }
        assert(found.subrange(0, entries.len() as int) =~= found);
        Ok(out)
    }

    /// How to organize artifacts: for each package with more than one
    /// artifact (in order of first appearance), its directory under the
    /// output directory and the moves of its artifacts into it (a file
    /// already there stays). An artifact without a file name is an error.
    pub fn organize_artifacts(&self, artifacts: &Vec<BuildArtifact>) -> (r: Result<Vec<PackageMoves>, BuildError>)
        ensures
            match moves_plan(self.output_dir_of(), artifacts@, groups_of(package_names(artifacts@))) {
                Some(p) => r matches Ok(plan) && plan_views(plan@) == p,
                None => r matches Err(BuildError::ArtifactCollection { reason }) && reason@
                    == "Invalid artifact filename"@,
            },
    {
        let groups = group_by_package(artifacts);
        let ghost arts = artifacts@;
        let ghost gs = groups_of(package_names(arts));
        proof {
            lemma_groups_in_range(package_names(arts));
            assert(gs.take(0) =~= Seq::<(Seq<char>, Seq<int>)>::empty());
            assert(plan_views(Seq::<PackageMoves>::empty()) =~= Seq::<(Seq<char>, Seq<(Seq<char>, Seq<char>)>)>::empty());
        }
        let mut plan: Vec<PackageMoves> = Vec::new();
        let mut g: usize = 0;
        while g < groups.len()
            invariant
                g <= groups.len(),
                arts == artifacts@,
                group_views(groups@) == gs,
                gs == groups_of(package_names(arts)),
                forall|a: int, k: int| 0 <= a < gs.len() && 0 <= k < gs[a].1.len() ==> 0 <= #[trigger] gs[a].1[k] < arts.len(),
                moves_plan(self.output_dir_of(), arts, gs.take(g as int)) == Some(plan_views(plan@)),
            decreases groups.len() - g,
        {
            assert(gs.take(g + 1).drop_last() =~= gs.take(g as int));
            assert(gs[g as int].0 == groups@[g as int].0@);
            let members = &groups[g].1;
            let ghost gi = gs[g as int].1;
            assert(gi == members@.map_values(|i: usize| i as int));
            if members.len() > 1 {
                let dir = join_path(self.output_dir.as_str(), groups[g].0.as_str());
                let mut moves: Vec<(String, String)> = Vec::new();
                let mut j: usize = 0;
                assert(gi.take(0) =~= Seq::<int>::empty());
                assert(pair_views(moves@) =~= Seq::<(Seq<char>, Seq<char>)>::empty());
                while j < members.len()
                    invariant
                        j <= members.len(),
                        arts == artifacts@,
                        gi == members@.map_values(|i: usize| i as int),
                        forall|k: int| 0 <= k < gi.len() ==> 0 <= #[trigger] gi[k] < arts.len(),
                        group_moves(dir@, arts, gi.take(j as int)) == Some(pair_views(moves@)),
                        g < groups.len(),
                        group_views(groups@) == gs,
                        gs == groups_of(package_names(arts)),
                        gi == gs[g as int].1,
                        gi.len() > 1,
                        dir@ == path_join(self.output_dir_of(), gs[g as int].0),
                        moves_plan(self.output_dir_of(), arts, gs.take(g as int)) == Some(plan_views(plan@)),
                        gs.take(g + 1).drop_last() == gs.take(g as int),
                    decreases members.len() - j,
                {
                    assert(gi.take(j + 1).drop_last() =~= gi.take(j as int));
                    let i = members[j];
                    assert(gi[j as int] == i as int);
                    let a = &artifacts[i];
                    let name = match a.filename() {
                        Some(f) => f,
                        None => {
                            proof {
                                assert(gi.take(j + 1).last() == i as int);
                                assert(group_moves(dir@, arts, gi.take(j + 1)) is None);
                                lemma_group_moves_stop(dir@, arts, gi, j as int + 1);
                                assert(gs.take(g + 1).last() == gs[g as int]);
                                assert(moves_plan(self.output_dir_of(), arts, gs.take(g + 1)) is None);
                                lemma_plan_stops(self.output_dir_of(), arts, gs, g as int + 1);
                                assert(moves_plan(self.output_dir_of(), artifacts@, groups_of(package_names(artifacts@))) is None);
                            }
                            return Err(BuildError::ArtifactCollection {
                                reason: owned("Invalid artifact filename"),
                            });
                        },
                    };
                    let new_path = join_path(dir.as_str(), name.as_str());
                    if !crate::text::str_eq(a.path.as_str(), new_path.as_str()) {
                        let from = a.path.clone();
                        let ghost prev = pair_views(moves@);
                        moves.push((from, new_path));
                        assert(pair_views(moves@) =~= prev.push((arts[i as int].path@, path_join(dir@, name@))));
                    }
                    j += 1;
                }
                assert(gi.take(members.len() as int) =~= gi);
                let pm = PackageMoves { dir, moves };
                let ghost prevp = plan_views(plan@);
                plan.push(pm);
                assert(plan_views(plan@) =~= prevp.push((plan@.last().dir@, pair_views(plan@.last().moves@))));
            }
            g += 1;
        }
        assert(gs.take(groups.len() as int) =~= gs);
        Ok(plan)
    }
}

/// The (from, to) texts of some moves.
pub open spec fn pair_views(v: Seq<(String, String)>) -> Seq<(Seq<char>, Seq<char>)> {
    v.map_values(|m: (String, String)| (m.0@, m.1@))
}

/// The texts of a plan: each package directory with its moves.
pub open spec fn plan_views(v: Seq<PackageMoves>) -> Seq<(Seq<char>, Seq<(Seq<char>, Seq<char>)>)> {
    v.map_values(|p: PackageMoves| (p.dir@, pair_views(p.moves@)))
}

/// The moves of the artifacts at `idxs` into `dir`, each file keeping its
/// name (files already there stay); `None` when an artifact has no file name.
pub open spec fn group_moves(dir: Seq<char>, arts: Seq<BuildArtifact>, idxs: Seq<int>) -> Option<Seq<(Seq<char>, Seq<char>)>>
    decreases idxs.len(),
{
    if idxs.len() == 0 {
        Some(Seq::empty())
    } else {
        match group_moves(dir, arts, idxs.drop_last()) {
            None => None,
            Some(prev) => {
                let from = arts[idxs.last()].path@;
                match path_file_name(from) {
                    None => None,
                    Some(f) => if from != path_join(dir, f) {
                        Some(prev.push((from, path_join(dir, f))))
                    } else {
                        Some(prev)
                    },
                }
            },
        }
    }
}

/// The plan for the groups `gs`: a package with more than one artifact gets
/// a directory `out/<package>` and its artifacts are moved there.
pub open spec fn moves_plan(out: Seq<char>, arts: Seq<BuildArtifact>, gs: Seq<(Seq<char>, Seq<int>)>) -> Option<
    Seq<(Seq<char>, Seq<(Seq<char>, Seq<char>)>)>,
>
    decreases gs.len(),
{
    if gs.len() == 0 {
        Some(Seq::empty())
    } else {
        match moves_plan(out, arts, gs.drop_last()) {
            None => None,
            Some(prev) => if gs.last().1.len() > 1 {
                let dir = path_join(out, gs.last().0);
                match group_moves(dir, arts, gs.last().1) {
                    None => None,
                    Some(ms) => Some(prev.push((dir, ms))),
                }
            } else {
                Some(prev)
            },
        }
    }
}

proof fn lemma_group_moves_stop(dir: Seq<char>, arts: Seq<BuildArtifact>, idxs: Seq<int>, k: int)
    requires
        0 <= k <= idxs.len(),
        group_moves(dir, arts, idxs.take(k)) is None,
    ensures
        group_moves(dir, arts, idxs) is None,
    decreases idxs.len() - k,
{
    if k < idxs.len() {
        assert(idxs.take(k + 1).drop_last() =~= idxs.take(k));
        lemma_group_moves_stop(dir, arts, idxs, k + 1);
    } else {
        assert(idxs.take(k) =~= idxs);
    }
}

proof fn lemma_plan_stops(out: Seq<char>, arts: Seq<BuildArtifact>, gs: Seq<(Seq<char>, Seq<int>)>, k: int)
    requires
        0 <= k <= gs.len(),
        moves_plan(out, arts, gs.take(k)) is None,
    ensures
        moves_plan(out, arts, gs) is None,
    decreases gs.len() - k,
{
    if k < gs.len() {
        assert(gs.take(k + 1).drop_last() =~= gs.take(k));
        lemma_plan_stops(out, arts, gs, k + 1);
    } else {
        assert(gs.take(k) =~= gs);
    }
}

/// Every index in a group is an index of the names.
pub proof fn lemma_groups_in_range(names: Seq<Seq<char>>)
    ensures
        forall|a: int, k: int| 0 <= a < groups_of(names).len() && 0 <= k < groups_of(names)[a].1.len()
            ==> 0 <= #[trigger] groups_of(names)[a].1[k] < names.len(),
    decreases names.len(),
{
    if names.len() > 0 {
        let prev = names.drop_last();
        lemma_groups_in_range(prev);
        let gs = groups_of(prev);
        let n = names.last();
        let last = names.len() - 1;
        match find_group(gs, n) {
            Some(g) => {
                let ng = gs.update(g, (n, gs[g].1.push(last)));
                assert(groups_of(names) == ng);
                assert forall|a: int, k: int| 0 <= a < ng.len() && 0 <= k < ng[a].1.len()
                    implies 0 <= #[trigger] ng[a].1[k] < names.len() by {
                    if a == g {
                        if k < gs[g].1.len() {
                            assert(ng[a].1[k] == gs[g].1[k]);
                        }
                    } else {
                        assert(ng[a] == gs[a]);
                    }
                }
            },
            None => {
                let ng = gs.push((n, seq![last]));
                assert(groups_of(names) == ng);
                assert forall|a: int, k: int| 0 <= a < ng.len() && 0 <= k < ng[a].1.len()
                    implies 0 <= #[trigger] ng[a].1[k] < names.len() by {
                    if a < gs.len() {
                        assert(ng[a] == gs[a]);
                    }
                }
            },
        }
    }
}

/// The total size of some artifacts, in bytes.
pub open spec fn total_size_of(v: Seq<BuildArtifact>) -> nat
    decreases v.len(),
{
    if v.len() == 0 {
        0
    } else {
        total_size_of(v.drop_last()) + v.last().size as nat
    }
}

/// The total size of `artifacts`, in bytes.
pub fn total_size(artifacts: &Vec<BuildArtifact>) -> (r: u128)
    requires
        artifacts@.len() < 0x1_0000_0000_0000_0000,
    ensures
        r == total_size_of(artifacts@),
{
    let mut t: u128 = 0;
    let mut k: usize = 0;
    while k < artifacts.len()
        invariant
            k <= artifacts.len(),
            artifacts@.len() < 0x1_0000_0000_0000_0000,
            t == total_size_of(artifacts@.subrange(0, k as int)),
            t <= k * 0xFFFF_FFFF_FFFF_FFFF,
        decreases artifacts.len() - k,
    {
        assert(artifacts@.subrange(0, k + 1).drop_last() =~= artifacts@.subrange(0, k as int));
        proof {
            assert(t + artifacts@[k as int].size <= (k + 1) * 0xFFFF_FFFF_FFFF_FFFF) by (nonlinear_arith)
                requires
                    t <= k * 0xFFFF_FFFF_FFFF_FFFF,
                    artifacts@[k as int].size <= 0xFFFF_FFFF_FFFF_FFFF,
            ;
            assert((k + 1) * 0xFFFF_FFFF_FFFF_FFFF < 0x1_0000_0000_0000_0000 * 0x1_0000_0000_0000_0000) by (nonlinear_arith)
                requires
                    k + 1 <= 0x1_0000_0000_0000_0000,
            ;
        }
        t = t + artifacts[k].size as u128;
        k += 1;
    }
    assert(artifacts@.subrange(0, artifacts.len() as int) =~= artifacts@);
    t
}

} // verus!
