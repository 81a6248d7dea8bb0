//! ROS package representation.
use vstd::prelude::*;
use crate::order::{lemma_insert_keeps_sorted, lex_less, lex_lt, sorted, sorted_unique_strings, strictly_sorted};
use crate::text::{chars_eq_str, chars_of_string, lowercase, to_lowercase, views};

verus! {

/// A ROS package.
#[derive(Debug, Clone, PartialEq, Eq)]
pub struct Package {
    /// Package name
    pub name: String,
    /// Package version
    pub version: String,
    /// Package description
    pub description: String,
    /// Path of the package directory, as text
    pub path: String,
    /// Package maintainers
    pub maintainers: Vec<Maintainer>,
    /// Package license
    pub license: String,
    /// Build type (ament_cmake, ament_python, cmake, ...)
    pub build_type: BuildType,
    /// Package dependencies
    pub dependencies: Dependencies,
}

/// Package maintainer information.
#[derive(Debug, Clone, PartialEq, Eq)]
pub struct Maintainer {
    /// Maintainer name
    pub name: String,
    /// Maintainer email
    pub email: String,
}

/// Build system type.
#[derive(Debug, Clone, Copy, PartialEq, Eq, Structural)]
pub enum BuildType {
    /// Ament CMake build system (ROS 2)
    AmentCmake,
    /// Ament Python build system (ROS 2)
    AmentPython,
    /// Plain CMake
    Cmake,
    /// Unknown build system
    Unknown,
}

/// The build type a lowercase build-type name stands for.
pub open spec fn build_type_of_lower(s: Seq<char>) -> BuildType {
    if s == "ament_cmake"@ {
        BuildType::AmentCmake
    } else if s == "ament_python"@ {
        BuildType::AmentPython
    } else if s == "cmake"@ {
        BuildType::Cmake
    } else {
        BuildType::Unknown
    }
}

/// The build type named by `s`, compared without regard to case.
pub open spec fn build_type_of(s: Seq<char>) -> BuildType {
    build_type_of_lower(lowercase(s))
}

impl BuildType {
    /// Reads a build type name; any unknown name gives `Unknown`.
    pub fn from_name(s: &str) -> (r: BuildType)
        ensures
            r == build_type_of(s@),
    {
        let low = to_lowercase(s);
        let l = chars_of_string(&low);
        if chars_eq_str(&l, "ament_cmake") {
            BuildType::AmentCmake
        } else if chars_eq_str(&l, "ament_python") {
            BuildType::AmentPython
        } else if chars_eq_str(&l, "cmake") {
            BuildType::Cmake
        } else {
            BuildType::Unknown
        }
    }
}

impl std::str::FromStr for BuildType {
    type Err = std::convert::Infallible;

    fn from_str(s: &str) -> (r: Result<Self, Self::Err>)
        ensures
            r == Ok::<BuildType, std::convert::Infallible>(build_type_of(s@)),
    {
        Ok(BuildType::from_name(s))
    }
}

/// Package dependencies, by kind.
#[derive(Debug, Clone, Default, PartialEq, Eq)]
pub struct Dependencies {
    /// Build dependencies
    pub build: Vec<String>,
    /// Build export dependencies
    pub build_export: Vec<String>,
    /// Execution dependencies
    pub execution: Vec<String>,
    /// Test dependencies
    pub test: Vec<String>,
    /// Build tool dependencies
    pub build_tool: Vec<String>,
    /// Documentation dependencies
    pub doc: Vec<String>,
}

/// Appends clones of `src` to `dst`.
pub fn extend_strings(dst: &mut Vec<String>, src: &Vec<String>)
    ensures
        views(final(dst)@) == views(old(dst)@) + views(src@),
{
    let mut k: usize = 0;
    while k < src.len()
        invariant
            k <= src.len(),
            views(dst@) =~= views(old(dst)@) + views(src@).subrange(0, k as int),
        decreases src.len() - k,
    {
        let c = src[k].clone();
        let ghost prev = views(dst@);
        dst.push(c);
        assert(views(dst@) =~= prev.push(c@));
        assert(views(src@).subrange(0, k + 1) =~= views(src@).subrange(0, k as int).push(src@[k as int]@));
        k += 1;
    }
    assert(views(src@).subrange(0, src.len() as int) =~= views(src@));
}

impl Dependencies {
    /// Every dependency name, kind by kind, in field order.
    pub open spec fn all_names(&self) -> Seq<Seq<char>> {
        views(self.build@) + views(self.build_export@) + views(self.execution@) + views(self.test@)
            + views(self.build_tool@) + views(self.doc@)
    }

    /// Names needed at run time: exec, then build export.
    pub open spec fn runtime_names(&self) -> Seq<Seq<char>> {
        views(self.execution@) + views(self.build_export@)
    }

    /// All distinct dependencies across all kinds, sorted.
    pub fn all_unique(&self) -> (r: Vec<String>)
        ensures
            strictly_sorted(views(r@)),
            views(r@).to_set() == self.all_names().to_set(),
    {
        let mut deps: Vec<String> = Vec::new();
        extend_strings(&mut deps, &self.build);
        extend_strings(&mut deps, &self.build_export);
        extend_strings(&mut deps, &self.execution);
        extend_strings(&mut deps, &self.test);
        extend_strings(&mut deps, &self.build_tool);
        extend_strings(&mut deps, &self.doc);
        assert(views(deps@) =~= self.all_names());
        sorted_unique_strings(&deps)
    }

    /// Distinct run-time dependencies (exec and build export), sorted.
    pub fn runtime(&self) -> (r: Vec<String>)
        ensures
            strictly_sorted(views(r@)),
            views(r@).to_set() == self.runtime_names().to_set(),
    {
        let mut deps: Vec<String> = Vec::new();
        extend_strings(&mut deps, &self.execution);
        extend_strings(&mut deps, &self.build_export);
        assert(views(deps@) =~= self.runtime_names());
        sorted_unique_strings(&deps)
    }
}


/// The run-time dependencies are among all dependencies.
pub proof fn law_runtime_within_all(d: Dependencies)
    ensures
        d.runtime_names().to_set().subset_of(d.all_names().to_set()),
{
    let rt = d.runtime_names();
    let all = d.all_names();
    let b = views(d.build@);
    let e = views(d.execution@);
    let x = views(d.build_export@);
    assert forall|n: Seq<char>| rt.to_set().contains(n) implies all.to_set().contains(n) by {
        assert(rt.contains(n));
        let i = choose|i: int| 0 <= i < rt.len() && rt[i] == n;
        if i < e.len() {
            assert(rt[i] == e[i]);
            assert(all[b.len() + x.len() + i] == e[i]);
        } else {
            assert(rt[i] == x[i - e.len()]);
            assert(all[b.len() + i - e.len()] == x[i - e.len()]);
        }
    }
}

/// The names of a list of packages.
pub open spec fn names_of(s: Seq<Package>) -> Seq<Seq<char>> {
    s.map_values(|p: Package| p.name@)
}

/// The packages ordered by name, none added or lost.
pub fn sort_by_name(packages: Vec<Package>) -> (r: Vec<Package>)
    ensures
        sorted(names_of(r@)),
        r@.to_multiset() == packages@.to_multiset(),
{
    broadcast use vstd::seq_lib::group_to_multiset_ensures;

    let ghost orig = packages@;
    let mut rest = packages;
    let mut r: Vec<Package> = Vec::new();
    while rest.len() > 0
        invariant
            sorted(names_of(r@)),
            r@.to_multiset().add(rest@.to_multiset()) == orig.to_multiset(),
        decreases rest.len(),
    {
        let ghost rest_before = rest@;
        let x = rest.remove(0);
        proof {
            assert(rest_before =~= rest@.insert(0, x));
            vstd::seq_lib::to_multiset_insert(rest@, 0, x);
        }
        let xc = chars_of_string(&x.name);
        let mut p: usize = 0;
        while p < r.len() && !lex_less(&xc, &chars_of_string(&r[p].name))
            invariant
                p <= r.len(),
                forall|i: int| 0 <= i < p ==> !lex_lt(xc@, #[trigger] names_of(r@)[i]),
            decreases r.len() - p,
        {
            p += 1;
        }
        let ghost before = r@;
        proof {
            if p < r.len() {
                assert(lex_lt(xc@, names_of(before)[p as int]));
            }
            lemma_insert_keeps_sorted(names_of(before), p as int, xc@);
            vstd::seq_lib::to_multiset_insert(before, p as int, x);
        }
        r.insert(p, x);
        assert(names_of(r@) =~= names_of(before).insert(p as int, xc@));
    }
    assert(rest@.to_multiset() =~= vstd::multiset::Multiset::empty());
    r
}

} // verus!
