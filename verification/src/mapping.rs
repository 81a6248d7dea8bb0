//! Mapping ROS dependency names to Debian package names.
use vstd::prelude::*;
use vstd::hash_map::StringHashMap;
use crate::debian_error::DebianError;
use crate::text::{
    chars_of, chars_of_string, is_ascii_lower, is_digit, join, owned, replace_char,
    replace_char_exec, string_of, views,
};

verus! {

/// A ROS distribution.
#[derive(Debug, Clone)]
pub struct RosDistro {
    /// Distribution name (loong, iron, ...)
    pub name: String,
    /// Ubuntu codename
    pub ubuntu_codename: String,
    /// ROS version (2 for ROS 2)
    pub ros_version: u32,
}

impl RosDistro {
    /// ROS loong (Ubuntu jammy).
    pub fn loong() -> (r: Self)
        ensures
            r.name@ == "loong"@,
            r.ubuntu_codename@ == "jammy"@,
            r.ros_version == 2,
    {
        RosDistro { name: owned("loong"), ubuntu_codename: owned("jammy"), ros_version: 2 }
    }

    /// ROS iron (Ubuntu jammy).
    pub fn iron() -> (r: Self)
        ensures
            r.name@ == "iron"@,
            r.ubuntu_codename@ == "jammy"@,
            r.ros_version == 2,
    {
        RosDistro { name: owned("iron"), ubuntu_codename: owned("jammy"), ros_version: 2 }
    }

    /// ROS pixiu (Ubuntu noble).
    pub fn pixiu() -> (r: Self)
        ensures
            r.name@ == "pixiu"@,
            r.ubuntu_codename@ == "noble"@,
            r.ros_version == 2,
    {
        RosDistro { name: owned("pixiu"), ubuntu_codename: owned("noble"), ros_version: 2 }
    }
}

/// The system packages that map to themselves by default (agirosdep keys).
pub open spec fn default_system_names() -> Set<Seq<char>> {
    set![
        "cmake"@, "pkg-config"@, "python3"@, "python3-dev"@, "python3-numpy"@,
        "python3-setuptools"@, "python3-pip"@, "build-essential"@, "gcc"@, "g++"@,
        "libeigen3-dev"@, "libboost-all-dev"@, "libopencv-dev"@, "libpcl-dev"@, "git"@,
    ]
}

/// A valid ROS package name: non-empty, only `a`-`z`, digits and `_`,
/// not starting with a digit.
pub open spec fn valid_ros_name(s: Seq<char>) -> bool {
    &&& s.len() > 0
    &&& forall|k: int| 0 <= k < s.len() ==> is_ascii_lower(#[trigger] s[k]) || is_digit(s[k]) || s[k] == '_'
    &&& !is_digit(s[0])
}

/// The Debian name of a ROS package: `agiros-<distro>-<name with _ as ->`.
pub open spec fn ros_debian_name(distro: Seq<char>, name: Seq<char>) -> Seq<char> {
    "agiros-"@ + distro + "-"@ + replace_char(name, '_', '-')
}

/// What `name` maps to: a custom mapping first, then a default system
/// package, then the ROS naming rule for a valid ROS name; `None` otherwise.
pub open spec fn map_name(custom: Map<Seq<char>, Seq<char>>, distro: Seq<char>, name: Seq<char>) -> Option<Seq<char>> {
    if custom.contains_key(name) {
        Some(custom[name])
    } else if default_system_names().contains(name) {
        Some(name)
    } else if valid_ros_name(name) {
        Some(ros_debian_name(distro, name))
    } else {
        None
    }
}

/// `e` is the error reported for the unmappable dependency `name`.
pub open spec fn is_mapping_error(e: DebianError, name: Seq<char>) -> bool {
    e matches DebianError::DependencyMappingFailed { dependency: d, reason: m } && d@ == name
        && m@ == "Invalid ROS package name"@
}

/// Maps ROS dependency names to Debian package names.
pub struct DependencyMapper {
    ros_distro: RosDistro,
    system_mappings: StringHashMap<String>,
    custom_mappings: StringHashMap<String>,
}

/// The default system mappings: each default system package maps to itself.
pub open spec fn is_default_system_map(m: Map<Seq<char>, String>) -> bool {
    &&& m.dom() == default_system_names()
    &&& forall|k: Seq<char>| #[trigger] m.contains_key(k) ==> m[k]@ == k
}

impl DependencyMapper {
    #[verifier::type_invariant]
    spec fn system_map_is_default(&self) -> bool {
        is_default_system_map(self.system_mappings@)
    }

    /// The custom mappings, by name.
    pub closed spec fn custom_map(&self) -> Map<Seq<char>, Seq<char>> {
        self.custom_mappings@.map_values(|v: String| v@)
    }

    /// The ROS distribution the mapper names packages for.
    pub closed spec fn distro(&self) -> RosDistro {
        self.ros_distro
    }

    /// The default system mappings (similar to agirosdep).
    fn default_system_mappings() -> (m: StringHashMap<String>)
        ensures
            is_default_system_map(m@),
    {
        let mut m: StringHashMap<String> = StringHashMap::new();
        m.insert(owned("cmake"), owned("cmake"));
        m.insert(owned("pkg-config"), owned("pkg-config"));
        m.insert(owned("python3"), owned("python3"));
        m.insert(owned("python3-dev"), owned("python3-dev"));
        m.insert(owned("python3-numpy"), owned("python3-numpy"));
        m.insert(owned("python3-setuptools"), owned("python3-setuptools"));
        m.insert(owned("python3-pip"), owned("python3-pip"));
        m.insert(owned("build-essential"), owned("build-essential"));
        m.insert(owned("gcc"), owned("gcc"));
        m.insert(owned("g++"), owned("g++"));
        m.insert(owned("libeigen3-dev"), owned("libeigen3-dev"));
        m.insert(owned("libboost-all-dev"), owned("libboost-all-dev"));
        m.insert(owned("libopencv-dev"), owned("libopencv-dev"));
        m.insert(owned("libpcl-dev"), owned("libpcl-dev"));
        m.insert(owned("git"), owned("git"));
        assert(m@.dom() =~= default_system_names());
        m
    }

    /// A mapper for `ros_distro` with the default system mappings and no custom ones.
    pub fn new(ros_distro: RosDistro) -> (r: Self)
        ensures
            r.distro() == ros_distro,
            r.custom_map() == Map::<Seq<char>, Seq<char>>::empty(),
    {
        let r = DependencyMapper {
            ros_distro,
            system_mappings: Self::default_system_mappings(),
            custom_mappings: StringHashMap::new(),
        };
        assert(r.custom_map() =~= Map::<Seq<char>, Seq<char>>::empty());
        r
    }

    /// A mapper for ROS loong.
    pub fn for_loong() -> (r: Self)
        ensures
            r.distro().name@ == "loong"@,
            r.custom_map() == Map::<Seq<char>, Seq<char>>::empty(),
    {
        Self::new(RosDistro::loong())
    }

    /// A mapper for ROS iron.
    pub fn for_iron() -> (r: Self)
        ensures
            r.distro().name@ == "iron"@,
            r.custom_map() == Map::<Seq<char>, Seq<char>>::empty(),
    {
        Self::new(RosDistro::iron())
    }

    /// A mapper for ROS pixiu.
    pub fn for_pixiu() -> (r: Self)
        ensures
            r.distro().name@ == "pixiu"@,
            r.custom_map() == Map::<Seq<char>, Seq<char>>::empty(),
    {
        Self::new(RosDistro::pixiu())
    }

    /// Maps `ros_name` to `debian_name`, ahead of every other rule.
    pub fn add_custom_mapping(&mut self, ros_name: String, debian_name: String)
        ensures
            final(self).custom_map() == old(self).custom_map().insert(ros_name@, debian_name@),
            final(self).distro() == old(self).distro(),
    {
        proof {
            use_type_invariant(&*self);
        }
        let ghost k = ros_name@;
        let ghost v = debian_name@;
        let mut m: StringHashMap<String> = StringHashMap::new();
        std::mem::swap(&mut m, &mut self.custom_mappings);
        m.insert(ros_name, debian_name);
        self.custom_mappings = m;
        assert(self.custom_map() =~= old(self).custom_map().insert(k, v));
    }

    /// Maps a ROS package name to its Debian package name.
    pub fn map_package(&self, ros_package: &str) -> (r: Result<String, DebianError>)
        ensures
            match r {
                Ok(s) => map_name(self.custom_map(), self.distro().name@, ros_package@) == Some(s@),
                Err(e) => map_name(self.custom_map(), self.distro().name@, ros_package@) is None
                    && is_mapping_error(e, ros_package@),
            },
    {
        proof {
            use_type_invariant(self);
        }
        match self.custom_mappings.get(ros_package) {
            Some(d) => {
                return Ok(d.clone());
            },
            None => {},
        }
        match self.system_mappings.get(ros_package) {
            Some(d) => {
                return Ok(d.clone());
            },
            None => {},
        }
        self.map_ros_package(ros_package)
    }

    /// Maps a ROS package to `agiros-<distro>-<package>`.
    fn map_ros_package(&self, ros_package: &str) -> (r: Result<String, DebianError>)
        ensures
            match r {
                Ok(s) => valid_ros_name(ros_package@) && s@ == ros_debian_name(
                    self.distro().name@,
                    ros_package@,
                ),
                Err(e) => !valid_ros_name(ros_package@) && is_mapping_error(e, ros_package@),
            },
    {
        if !Self::is_valid_ros_package_name(ros_package) {
            return Err(DebianError::dependency_mapping_failed(ros_package, "Invalid ROS package name"));
        }
        Ok(self.ros_package_to_debian(ros_package))
    }

    /// `agiros-<distro>-<package with _ as ->`.
    fn ros_package_to_debian(&self, ros_package: &str) -> (r: String)
        ensures
            r@ == ros_debian_name(self.distro().name@, ros_package@),
    {
        let dashed = string_of(&replace_char_exec(&chars_of(ros_package), '_', '-'));
        owned("agiros-").concat(self.ros_distro.name.as_str()).concat("-").concat(dashed.as_str())
    }

    /// Whether `name` is a valid ROS package name.
    fn is_valid_ros_package_name(name: &str) -> (r: bool)
        ensures
            r == valid_ros_name(name@),
    {
        let c = chars_of(name);
        if c.len() == 0 {
            return false;
        }
        let mut k: usize = 0;
        while k < c.len()
            invariant
                k <= c.len(),
                c@ == name@,
                forall|j: int| 0 <= j < k ==> is_ascii_lower(#[trigger] c@[j]) || is_digit(c@[j]) || c@[j] == '_',
            decreases c.len() - k,
        {
            let ch = c[k];
            if !(('a' <= ch && ch <= 'z') || ('0' <= ch && ch <= '9') || ch == '_') {
                return false;
            }
            k += 1;
        }
        let first = c[0];
        !('0' <= first && first <= '9')
    }

    /// Maps every name in `dependencies`, in order; fails with the error of
    /// the first name that cannot be mapped.
    pub fn map_system_dependencies(&self, dependencies: &[String]) -> (r: Result<Vec<String>, DebianError>)
        ensures
            match r {
                Ok(v) => v@.len() == dependencies@.len() && forall|i: int| 0 <= i < v@.len() ==>
                    map_name(self.custom_map(), self.distro().name@, #[trigger] dependencies@[i]@)
                        == Some(v@[i]@),
                Err(e) => exists|i: int| 0 <= i < dependencies@.len()
                    && map_name(self.custom_map(), self.distro().name@, #[trigger] dependencies@[i]@) is None
                    && is_mapping_error(e, dependencies@[i]@)
                    && forall|j: int| 0 <= j < i ==> map_name(self.custom_map(), self.distro().name@, #[trigger] dependencies@[j]@) is Some,
            },
    {
        let mut out: Vec<String> = Vec::new();
        let mut k: usize = 0;
        while k < dependencies.len()
            invariant
                k <= dependencies@.len(),
                out@.len() == k,
                forall|i: int| 0 <= i < k ==> map_name(self.custom_map(), self.distro().name@, #[trigger] dependencies@[i]@) == Some(out@[i]@),
            decreases dependencies@.len() - k,
        {
            match self.map_package(dependencies[k].as_str()) {
                Ok(s) => {
                    out.push(s);
                },
                Err(e) => {
                    assert(forall|j: int| 0 <= j < k ==> map_name(self.custom_map(), self.distro().name@, #[trigger] dependencies@[j]@) is Some);
                    return Err(e);
                },
            }
            k += 1;
        }
        Ok(out)
    }

    /// The ROS distribution name.
    pub fn ros_distro_name(&self) -> (r: &str)
        ensures
            r@ == self.distro().name@,
    {
        self.ros_distro.name.as_str()
    }

    /// Build-Depends and Depends for debian/control from ROS build and exec
    /// dependencies; fails with the error of the first name that cannot be
    /// mapped, build dependencies before exec dependencies.
    pub fn generate_control_dependencies(&self, build_deps: &[String], exec_deps: &[String]) -> (r: Result<ControlDependencies, DebianError>)
        ensures
            match r {
                Ok(c) => c.build_depends_indep@.len() == 0 && c.depends_indep@.len() == 0
                    && c.build_depends@.len() == build_deps@.len()
                    && (forall|i: int| 0 <= i < build_deps@.len() ==> map_name(self.custom_map(), self.distro().name@, #[trigger] build_deps@[i]@) == Some(c.build_depends@[i]@))
                    && c.depends@.len() == exec_deps@.len()
                    && (forall|i: int| 0 <= i < exec_deps@.len() ==> map_name(self.custom_map(), self.distro().name@, #[trigger] exec_deps@[i]@) == Some(c.depends@[i]@)),
                Err(e) => (exists|i: int| 0 <= i < build_deps@.len() && map_name(self.custom_map(), self.distro().name@, #[trigger] build_deps@[i]@) is None && is_mapping_error(e, build_deps@[i]@)
                        && forall|j: int| 0 <= j < i ==> map_name(self.custom_map(), self.distro().name@, #[trigger] build_deps@[j]@) is Some)
                    || ((forall|i: int| 0 <= i < build_deps@.len() ==> map_name(self.custom_map(), self.distro().name@, #[trigger] build_deps@[i]@) is Some)
                        && exists|i: int| 0 <= i < exec_deps@.len() && map_name(self.custom_map(), self.distro().name@, #[trigger] exec_deps@[i]@) is None && is_mapping_error(e, exec_deps@[i]@)
                        && forall|j: int| 0 <= j < i ==> map_name(self.custom_map(), self.distro().name@, #[trigger] exec_deps@[j]@) is Some),
            },
    {
        let build_depends = match self.map_system_dependencies(build_deps) {
            Ok(v) => v,
            Err(e) => {
                return Err(e);
            },
        };
        let depends = match self.map_system_dependencies(exec_deps) {
            Ok(v) => v,
            Err(e) => {
                return Err(e);
            },
        };
        Ok(ControlDependencies {
            build_depends,
            depends,
            build_depends_indep: Vec::new(),
            depends_indep: Vec::new(),
        })
    }
}

/// Dependencies for a debian/control file.
#[derive(Debug, Clone)]
pub struct ControlDependencies {
    /// Build dependencies (Build-Depends)
    pub build_depends: Vec<String>,
    /// Runtime dependencies (Depends)
    pub depends: Vec<String>,
    /// Architecture-independent build dependencies (Build-Depends-Indep)
    pub build_depends_indep: Vec<String>,
    /// Architecture-independent runtime dependencies
    pub depends_indep: Vec<String>,
}

/// `list` with `item` appended unless already present.
pub open spec fn add_unique(list: Seq<Seq<char>>, item: Seq<char>) -> Seq<Seq<char>> {
    if list.contains(item) {
        list
    } else {
        list.push(item)
    }
}

/// The debian/control lines for the given dependency lists, joined by newlines;
/// an empty list gives no line.
pub open spec fn control_text(c: ControlDependencies) -> Seq<char> {
    join(control_lines(c), "\n"@)
}

/// The debian/control lines: Build-Depends, Build-Depends-Indep, Depends, Depends (indep).
pub open spec fn control_lines(c: ControlDependencies) -> Seq<Seq<char>> {
    let l1 = if c.build_depends@.len() > 0 { seq!["Build-Depends: "@ + join(views(c.build_depends@), ", "@)] } else { Seq::empty() };
    let l2 = if c.build_depends_indep@.len() > 0 { seq!["Build-Depends-Indep: "@ + join(views(c.build_depends_indep@), ", "@)] } else { Seq::empty() };
    let l3 = if c.depends@.len() > 0 { seq!["Depends: "@ + join(views(c.depends@), ", "@)] } else { Seq::empty() };
    let l4 = if c.depends_indep@.len() > 0 { seq!["Depends: "@ + join(views(c.depends_indep@), ", "@)] } else { Seq::empty() };
    l1 + l2 + l3 + l4
}

/// Whether `list` holds a string equal to `item`.
pub fn contains_string(list: &Vec<String>, item: &String) -> (r: bool)
    ensures
        r == views(list@).contains(item@),
{
    let mut k: usize = 0;
    while k < list.len()
        invariant
            k <= list.len(),
            forall|j: int| 0 <= j < k ==> list@[j]@ != item@,
        decreases list.len() - k,
    {
        if list[k] == *item {
            assert(views(list@)[k as int] == item@);
            return true;
        }
        k += 1;
    }
    assert(!views(list@).contains(item@)) by {
        if views(list@).contains(item@) {
            let j = choose|j: int| 0 <= j < views(list@).len() && views(list@)[j] == item@;
            assert(list@[j]@ == item@);
        }
    }
    false
}

/// Pushes `item` onto `list` unless an equal string is already there.
pub fn push_unique(list: &mut Vec<String>, item: String)
    ensures
        views(final(list)@) == add_unique(views(old(list)@), item@),
{
    if !contains_string(list, &item) {
        let ghost prev = views(list@);
        let ghost it = item@;
        list.push(item);
        assert(views(list@) =~= prev.push(it));
    }
}

impl ControlDependencies {
    /// Empty dependency lists.
    pub fn new() -> (r: Self)
        ensures
            r.build_depends@.len() == 0,
            r.depends@.len() == 0,
            r.build_depends_indep@.len() == 0,
            r.depends_indep@.len() == 0,
    {
        ControlDependencies {
            build_depends: Vec::new(),
            depends: Vec::new(),
            build_depends_indep: Vec::new(),
            depends_indep: Vec::new(),
        }
    }

    /// Adds a build dependency unless already listed.
    pub fn add_build_depend(&mut self, package: String)
        ensures
            views(final(self).build_depends@) == add_unique(views(old(self).build_depends@), package@),
            final(self).depends == old(self).depends,
            final(self).build_depends_indep == old(self).build_depends_indep,
            final(self).depends_indep == old(self).depends_indep,
    {
        push_unique(&mut self.build_depends, package);
    }

    /// Adds a runtime dependency unless already listed.
    pub fn add_depend(&mut self, package: String)
        ensures
            views(final(self).depends@) == add_unique(views(old(self).depends@), package@),
            final(self).build_depends == old(self).build_depends,
            final(self).build_depends_indep == old(self).build_depends_indep,
            final(self).depends_indep == old(self).depends_indep,
    {
        push_unique(&mut self.depends, package);
    }

    /// The dependency lines of debian/control.
    pub fn format_for_control(&self) -> (r: String)
        ensures
            r@ == control_text(*self),
    {
        let mut lines: Vec<String> = Vec::new();
        if self.build_depends.len() > 0 {
            lines.push(owned("Build-Depends: ").concat(crate::text::join_strings(&self.build_depends, ", ").as_str()));
        }
        if self.build_depends_indep.len() > 0 {
            lines.push(owned("Build-Depends-Indep: ").concat(crate::text::join_strings(&self.build_depends_indep, ", ").as_str()));
        }
        if self.depends.len() > 0 {
            lines.push(owned("Depends: ").concat(crate::text::join_strings(&self.depends, ", ").as_str()));
        }
        if self.depends_indep.len() > 0 {
            lines.push(owned("Depends: ").concat(crate::text::join_strings(&self.depends_indep, ", ").as_str()));
        }
        assert(views(lines@) =~= control_lines(*self));
        crate::text::join_strings(&lines, "\n")
    }
}

impl Default for ControlDependencies {
    fn default() -> (r: Self)
        ensures
            r.build_depends@.len() == 0,
            r.depends@.len() == 0,
            r.build_depends_indep@.len() == 0,
            r.depends_indep@.len() == 0,
    {
        Self::new()
    }
}


/// A custom mapping decides its own name, whatever else applies to it.
pub proof fn law_custom_mapping_wins(custom: Map<Seq<char>, Seq<char>>, distro: Seq<char>, ros_name: Seq<char>, debian_name: Seq<char>)
    ensures
        map_name(custom.insert(ros_name, debian_name), distro, ros_name) == Some(debian_name),
{
}

/// A custom mapping changes no other name's mapping.
pub proof fn law_custom_mapping_leaves_others(custom: Map<Seq<char>, Seq<char>>, distro: Seq<char>, ros_name: Seq<char>, debian_name: Seq<char>, other: Seq<char>)
    requires
        other != ros_name,
    ensures
        map_name(custom.insert(ros_name, debian_name), distro, other) == map_name(custom, distro, other),
{
}

/// Adding a name that is already listed changes nothing.
pub proof fn law_add_unique_idempotent(list: Seq<Seq<char>>, item: Seq<char>)
    ensures
        add_unique(add_unique(list, item), item) == add_unique(list, item),
{
    if !list.contains(item) {
        assert(list.push(item)[list.len() as int] == item);
    }
}

/// A list without repeated names keeps that property when a name is added.
pub proof fn law_add_unique_keeps_distinct(list: Seq<Seq<char>>, item: Seq<char>)
    requires
        list.no_duplicates(),
    ensures
        add_unique(list, item).no_duplicates(),
        add_unique(list, item).contains(item),
{
    if !list.contains(item) {
        let l = list.push(item);
        assert(l[list.len() as int] == item);
        assert forall|i: int, j: int| 0 <= i < l.len() && 0 <= j < l.len() && i != j implies l[i] != l[j] by {
            if i < list.len() && j < list.len() {
                assert(l[i] == list[i] && l[j] == list[j]);
            } else if i < list.len() {
                assert(l[i] == list[i]);
            } else {
                assert(l[j] == list[j]);
            }
        }
    }
}

/// With no custom mappings, each agirosdep default system package maps to
/// itself, for every distribution: cmake, pkg-config, python3, python3-dev,
/// python3-numpy, python3-setuptools, python3-pip, build-essential, gcc,
/// g++, libeigen3-dev, libboost-all-dev, libopencv-dev, libpcl-dev, git.
pub proof fn law_default_system_packages_map_to_themselves(distro: Seq<char>)
    ensures
        map_name(Map::empty(), distro, "cmake"@) == Some("cmake"@),
        map_name(Map::empty(), distro, "pkg-config"@) == Some("pkg-config"@),
        map_name(Map::empty(), distro, "python3"@) == Some("python3"@),
        map_name(Map::empty(), distro, "python3-dev"@) == Some("python3-dev"@),
        map_name(Map::empty(), distro, "python3-numpy"@) == Some("python3-numpy"@),
        map_name(Map::empty(), distro, "python3-setuptools"@) == Some("python3-setuptools"@),
        map_name(Map::empty(), distro, "python3-pip"@) == Some("python3-pip"@),
        map_name(Map::empty(), distro, "build-essential"@) == Some("build-essential"@),
        map_name(Map::empty(), distro, "gcc"@) == Some("gcc"@),
        map_name(Map::empty(), distro, "g++"@) == Some("g++"@),
        map_name(Map::empty(), distro, "libeigen3-dev"@) == Some("libeigen3-dev"@),
        map_name(Map::empty(), distro, "libboost-all-dev"@) == Some("libboost-all-dev"@),
        map_name(Map::empty(), distro, "libopencv-dev"@) == Some("libopencv-dev"@),
        map_name(Map::empty(), distro, "libpcl-dev"@) == Some("libpcl-dev"@),
        map_name(Map::empty(), distro, "git"@) == Some("git"@),
{
}
} // verus!
