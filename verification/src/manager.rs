//! Debian packaging decisions for a set of ROS packages: where custom
//! debian directories live, which of them are valid, how bloom-generate is
//! invoked and how its control file is renamed.
use vstd::prelude::*;
use crate::debian_error::{DebianError, DebianErrorView};
use crate::mapping::{map_name, is_mapping_error, DependencyMapper, RosDistro};
use crate::order::{sort_strings, sorted};
use crate::package::Package;
use crate::paths::{file_name_of, join_path, parent_of, path_file_name, path_join, path_parent};
use crate::repository::RepositoryGenerator;
use crate::text::{owned, str_eq, views};
use crate::validation::{
    validation_outcome, validation_view, DebianDirectory, DebianValidator, ValidationModel,
    ValidationResult,
};
use crate::version::{replace_all, replace_all_exec, ros_to_debian_spec, text_result, VersionHandler};

verus! {

broadcast use vstd::string::group_string_axioms;

/// Manages Debian directories and packaging operations
pub struct DebianManager {
    /// Directory containing custom debian directories
    debian_dirs: String,
    /// Version handler for ROS to Debian conversion
    version_handler: VersionHandler,
    /// Dependency mapper
    dependency_mapper: DependencyMapper,
    /// Debian directory validator
    validator: DebianValidator,
    /// Whether to use strict validation
    strict_validation: bool,
}

/// Where a package's debian directory comes from.
#[derive(Debug, Clone, Copy, PartialEq, Eq, Structural)]
pub enum PreparationSource {
    /// The custom directory of the package is copied.
    Custom,
    /// bloom-generate writes one.
    Bloom,
}

/// Result of debian directory preparation
pub struct DebianPreparationResult {
    /// Package name
    pub package_name: String,
    /// Whether custom debian directory was used
    pub used_custom: bool,
    /// Whether bloom-generate was used
    pub used_bloom: bool,
    /// Path to prepared debian directory
    pub debian_path: String,
    /// Validation result
    pub validation_result: Option<ValidationResult>,
}

/// Summary of custom packages
pub struct PackageSummary {
    /// Total number of packages
    pub total_packages: usize,
    /// Valid packages
    pub valid_packages: Vec<String>,
    /// Invalid packages
    pub invalid_packages: Vec<String>,
    /// Total number of warnings
    pub total_warnings: usize,
}

/// The names and debian directories of the packages, as plain values.
pub open spec fn entry_views(v: Seq<(String, DebianDirectory)>) -> Seq<(Seq<char>, DebianDirectory)> {
    v.map_values(|e: (String, DebianDirectory)| (e.0@, e.1))
}

/// The validation of one listed package (kept folded in the list specs).
#[verifier::opaque]
pub open spec fn entry_outcome(strict: bool, name: Seq<char>, d: DebianDirectory) -> Result<ValidationModel, DebianErrorView> {
    validation_outcome(strict, d, name)
}

/// The valid packages, the invalid ones (those that failed to validate
/// among them) and the warnings of the validated ones, in order.
pub open spec fn summary_of(strict: bool, entries: Seq<(Seq<char>, DebianDirectory)>) -> (
    Seq<Seq<char>>,
    Seq<Seq<char>>,
    nat,
)
    decreases entries.len(),
{
    if entries.len() == 0 {
        (Seq::empty(), Seq::empty(), 0)
    } else {
        let prev = summary_of(strict, entries.drop_last());
        let name = entries.last().0;
        match entry_outcome(strict, name, entries.last().1) {
            Ok(v) => if v.is_valid {
                (prev.0.push(name), prev.1, prev.2 + v.warnings.len())
            } else {
                (prev.0, prev.1.push(name), prev.2 + v.warnings.len())
            },
            Err(_) => (prev.0, prev.1.push(name), prev.2),
        }
    }
}

/// The validations of all packages in order: in strict mode the first
/// failure is the result; otherwise failed packages are left out.
pub open spec fn all_validations(strict: bool, entries: Seq<(Seq<char>, DebianDirectory)>) -> Result<
    Seq<(Seq<char>, ValidationModel)>,
    DebianErrorView,
>
    decreases entries.len(),
{
    if entries.len() == 0 {
        Ok(Seq::empty())
    } else {
        match all_validations(strict, entries.drop_last()) {
            Err(e) => Err(e),
            Ok(prev) => {
                let name = entries.last().0;
                match entry_outcome(strict, name, entries.last().1) {
                    Ok(v) => Ok(prev.push((name, v))),
                    Err(e) => if strict {
                        Err(e)
                    } else {
                        Ok(prev)
                    },
                }
            },
        }
    }
}

/// The validation results as plain values.
pub open spec fn result_views(v: Seq<(String, ValidationResult)>) -> Seq<(Seq<char>, ValidationModel)> {
    v.map_values(|e: (String, ValidationResult)| (e.0@, e.1@))
}

/// The arguments of bloom-generate for `package`, whose Debian version is
/// `version`, for the distribution `distro`, writing into `target`.
pub open spec fn bloom_args(package: Package, version: Seq<char>, distro: Seq<char>, target: Seq<char>) -> Seq<Seq<char>> {
    let base = seq![
        "debian"@,
        "--package-name"@,
        package.name@,
        "--package-version"@,
        version,
        "--ros-distro"@,
        distro,
        "--output-dir"@,
        target,
    ];
    if package.maintainers@.len() > 0 {
        let m = package.maintainers@[0];
        base + seq!["--maintainer"@, m.name@ + " <"@ + m.email@ + ">"@]
    } else {
        base
    }
}

/// `debian/control` with the `ros-<distro>-` prefix of its Package and
/// Source names replaced by `agiros-<distro>-`.
pub open spec fn agiros_control(content: Seq<char>, distro: Seq<char>) -> Seq<char> {
    let once = replace_all(
        content,
        "Package: "@ + "ros-"@ + distro + "-"@,
        "Package: "@ + "agiros-"@ + distro + "-"@,
    );
    replace_all(once, "Source: "@ + "ros-"@ + distro + "-"@, "Source: "@ + "agiros-"@ + distro + "-"@)
}

/// Whether a walked entry `path` is a directory named `debian` whose parent
/// has a name; that name is the package's.
pub open spec fn custom_package_of(path: Seq<char>, is_dir: bool) -> Option<Seq<char>> {
    if is_dir && path_file_name(path) == Some("debian"@) {
        match path_parent(path) {
            Some(parent) => path_file_name(parent),
            None => None,
        }
    } else {
        None
    }
}

/// The package names of the walked entries, in walk order.
pub open spec fn custom_packages_spec(entries: Seq<(String, bool)>) -> Seq<Seq<char>>
    decreases entries.len(),
{
    if entries.len() == 0 {
        Seq::empty()
    } else {
        let prev = custom_packages_spec(entries.drop_last());
        match custom_package_of(entries.last().0@, entries.last().1) {
            Some(n) => prev.push(n),
            None => prev,
        }
    }
}

/// The package name a walked entry stands for, if any.
fn custom_package_name(path: &str, is_dir: bool) -> (r: Option<String>)
    ensures
        match r {
            Some(n) => custom_package_of(path@, is_dir) == Some(n@),
            None => custom_package_of(path@, is_dir) is None,
        },
{
    if !is_dir {
        return None;
    }
    match file_name_of(path) {
        Some(name) => {
            if !str_eq(name.as_str(), "debian") {
                return None;
            }
        },
        None => {
            return None;
        },
    }
    match parent_of(path) {
        Some(parent) => file_name_of(parent.as_str()),
        None => None,
    }
}

/// The packages that have a custom debian directory, sorted, from the
/// entries (path, is a directory) that a walk of depth one and two under
/// the custom directory root found.
pub fn list_custom_packages_from(entries: &Vec<(String, bool)>) -> (r: Vec<String>)
    ensures
        sorted(views(r@)),
        views(r@).to_multiset() == custom_packages_spec(entries@).to_multiset(),
{
    let mut found: Vec<String> = Vec::new();
    let mut k: usize = 0;
    while k < entries.len()
        invariant
            k <= entries.len(),
            views(found@) == custom_packages_spec(entries@.take(k as int)),
        decreases entries.len() - k,
    {
        let ghost pre = entries@.take(k as int);
        assert(entries@.take(k + 1).drop_last() =~= pre);
        let ghost prev = views(found@);
        match custom_package_name(entries[k].0.as_str(), entries[k].1) {
            Some(n) => {
                found.push(n);
                assert(views(found@) =~= prev.push(found@.last()@));
            },
            None => {},
        }
        k += 1;
    }
    assert(entries@.take(entries.len() as int) =~= entries@);
    sort_strings(&found)
}

impl DebianManager {
    #[verifier::type_invariant]
    spec fn validator_matches(&self) -> bool {
        self.validator.is_strict() == self.strict_validation
    }

    /// The directory holding the custom debian directories.
    pub closed spec fn dirs(&self) -> Seq<char> {
        self.debian_dirs@
    }

    /// Whether validation is strict.
    pub closed spec fn strict(&self) -> bool {
        self.strict_validation
    }

    /// The dependency mapper.
    pub closed spec fn mapper(&self) -> DependencyMapper {
        self.dependency_mapper
    }

    /// Create a new Debian manager: ROS loong, lenient validation.
    pub fn new(debian_dirs: String) -> (r: Self)
        ensures
            r.dirs() == debian_dirs@,
            !r.strict(),
            r.mapper().distro().name@ == "loong"@,
            r.mapper().custom_map() == Map::<Seq<char>, Seq<char>>::empty(),
    {
        DebianManager {
            debian_dirs,
            version_handler: VersionHandler::new(),
            dependency_mapper: DependencyMapper::for_loong(),
            validator: DebianValidator::new(false),
            strict_validation: false,
        }
    }

    /// Create a new Debian manager with ROS distribution
    pub fn with_ros_distro(debian_dirs: String, ros_distro: RosDistro) -> (r: Self)
        ensures
            r.dirs() == debian_dirs@,
            !r.strict(),
            r.mapper().distro() == ros_distro,
            r.mapper().custom_map() == Map::<Seq<char>, Seq<char>>::empty(),
    {
        DebianManager {
            debian_dirs,
            version_handler: VersionHandler::new(),
            dependency_mapper: DependencyMapper::new(ros_distro),
            validator: DebianValidator::new(false),
            strict_validation: false,
        }
    }

    /// Set strict validation mode
    pub fn with_strict_validation(self, strict: bool) -> (r: Self)
        ensures
            r.dirs() == self.dirs(),
            r.strict() == strict,
            r.mapper() == self.mapper(),
    {
        DebianManager {
            debian_dirs: self.debian_dirs,
            version_handler: self.version_handler,
            dependency_mapper: self.dependency_mapper,
            validator: DebianValidator::new(strict),
            strict_validation: strict,
        }
    }

    /// Get path to custom debian directory for a package:
    /// `<debian_dirs>/<package_name>/debian`.
    pub fn get_custom_debian_path(&self, package_name: &str) -> (r: String)
        ensures
            r@ == path_join(path_join(self.dirs(), package_name@), "debian"@),
    {
        let p = join_path(self.debian_dirs.as_str(), package_name);
        join_path(p.as_str(), "debian")
    }

    /// Validate the debian directory of a package, read into `debian_dir`.
    pub fn validate_debian_directory(&self, package_name: &str, debian_dir: &DebianDirectory) -> (r: Result<ValidationResult, DebianError>)
        ensures
            validation_view(r) == validation_outcome(self.strict(), *debian_dir, package_name@),
    {
        proof {
            use_type_invariant(self);
        }
        self.validator.validate_debian_directory(debian_dir, package_name)
    }

    /// `validate_debian_directory`, stated over `entry_outcome`.
    fn validate_entry(&self, package_name: &str, debian_dir: &DebianDirectory) -> (r: Result<ValidationResult, DebianError>)
        ensures
            validation_view(r) == entry_outcome(self.strict(), package_name@, *debian_dir),
    {
        let r = self.validate_debian_directory(package_name, debian_dir);
        proof {
            reveal(entry_outcome);
        }
        r
    }

    /// Validate all custom debian directories, given in listing order: a
    /// package that fails is skipped, unless validation is strict, where
    /// its error is the result.
    pub fn validate_all_debian_directories(&self, entries: &Vec<(String, DebianDirectory)>) -> (r: Result<Vec<(String, ValidationResult)>, DebianError>)
        ensures
            match r {
                Ok(v) => all_validations(self.strict(), entry_views(entries@)) == Ok::<_, DebianErrorView>(result_views(v@)),
                Err(e) => all_validations(self.strict(), entry_views(entries@)) == Err::<Seq<(Seq<char>, ValidationModel)>, _>(e@),
            },
    {
        let mut results: Vec<(String, ValidationResult)> = Vec::new();
        let mut k: usize = 0;
        assert(entry_views(entries@).take(0) =~= Seq::<(Seq<char>, DebianDirectory)>::empty());
        assert(result_views(results@) =~= Seq::<(Seq<char>, ValidationModel)>::empty());
        while k < entries.len()
            invariant
                k <= entries.len(),
                all_validations(self.strict(), entry_views(entries@).take(k as int)) == Ok::<_, DebianErrorView>(result_views(results@)),
            decreases entries.len() - k,
        {
            let ghost pre = entry_views(entries@).take(k as int);
            let ghost cur = entry_views(entries@).take(k + 1);
            assert(cur.drop_last() =~= pre);
            assert(cur.last() == (entries@[k as int].0@, entries@[k as int].1));
            let ghost prev = result_views(results@);
            let outcome = self.validate_entry(entries[k].0.as_str(), &entries[k].1);
            let ghost spec_outcome = entry_outcome(self.strict(), entries@[k as int].0@, entries@[k as int].1);
            match outcome {
                Ok(v) => {
                    assert(spec_outcome == Ok::<_, DebianErrorView>(v@));
                    let name = entries[k].0.clone();
                    results.push((name, v));
                    assert(result_views(results@) =~= prev.push((entries@[k as int].0@, results@.last().1@)));
                },
                Err(e) => {
                    assert(spec_outcome == Err::<ValidationModel, _>(e@));
                    if self.strict_validation {
                        proof {
                            lemma_all_validations_stop(self.strict(), entry_views(entries@), k + 1);
                        }
                        return Err(e);
                    }
                },
            }
            k += 1;
        }
        assert(entry_views(entries@).take(entries.len() as int) =~= entry_views(entries@));
        Ok(results)
    }

    /// Summary of the custom packages, given in listing order with their
    /// debian directories: valid ones, invalid ones (failed validations
    /// among them) and the number of warnings.
    pub fn get_package_summary(&self, entries: &Vec<(String, DebianDirectory)>) -> (r: PackageSummary)
        requires
            summary_of(self.strict(), entry_views(entries@)).2 <= usize::MAX,
        ensures
            views(r.valid_packages@) == summary_of(self.strict(), entry_views(entries@)).0,
            views(r.invalid_packages@) == summary_of(self.strict(), entry_views(entries@)).1,
            r.total_warnings == summary_of(self.strict(), entry_views(entries@)).2,
            r.total_packages == r.valid_packages@.len() + r.invalid_packages@.len(),
    {
        let mut valid_packages: Vec<String> = Vec::new();
        let mut invalid_packages: Vec<String> = Vec::new();
        let mut total_warnings: usize = 0;
        let mut k: usize = 0;
        while k < entries.len()
            invariant
                k <= entries.len(),
                summary_of(self.strict(), entry_views(entries@)).2 <= usize::MAX,
                views(valid_packages@) == summary_of(self.strict(), entry_views(entries@).take(k as int)).0,
                views(invalid_packages@) == summary_of(self.strict(), entry_views(entries@).take(k as int)).1,
                total_warnings == summary_of(self.strict(), entry_views(entries@).take(k as int)).2,
                valid_packages@.len() + invalid_packages@.len() == k,
            decreases entries.len() - k,
        {
            let ghost pre = entry_views(entries@).take(k as int);
            assert(entry_views(entries@).take(k + 1).drop_last() =~= pre);
            proof {
                lemma_summary_warnings_grow(self.strict(), entry_views(entries@), k + 1);
            }
            let ghost pv = views(valid_packages@);
            let ghost pi = views(invalid_packages@);
            let name = entries[k].0.clone();
            match self.validate_entry(entries[k].0.as_str(), &entries[k].1) {
                Ok(validation) => {
                    total_warnings = total_warnings + validation.warnings.len();
                    if validation.is_valid {
                        valid_packages.push(name);
                        assert(views(valid_packages@) =~= pv.push(entries@[k as int].0@));
                    } else {
                        invalid_packages.push(name);
                        assert(views(invalid_packages@) =~= pi.push(entries@[k as int].0@));
                    }
                },
                Err(_) => {
                    invalid_packages.push(name);
                    assert(views(invalid_packages@) =~= pi.push(entries@[k as int].0@));
                },
            }
            k += 1;
        }
        assert(entry_views(entries@).take(entries.len() as int) =~= entry_views(entries@));
        PackageSummary {
            total_packages: valid_packages.len() + invalid_packages.len(),
            valid_packages,
            invalid_packages,
            total_warnings,
        }
    }

    /// Convert ROS version to Debian version
    pub fn convert_version(&self, ros_version: &str, debian_revision: u32) -> (r: Result<String, DebianError>)
        ensures
            text_result(r) == ros_to_debian_spec(ros_version@, debian_revision),
    {
        self.version_handler.ros_to_debian(ros_version, debian_revision)
    }

    /// Map ROS dependencies to Debian package names
    pub fn map_dependencies(&self, ros_dependencies: &[String]) -> (r: Result<Vec<String>, DebianError>)
        ensures
            match r {
                Ok(v) => v@.len() == ros_dependencies@.len() && forall|i: int| 0 <= i < v@.len() ==>
                    map_name(self.mapper().custom_map(), self.mapper().distro().name@, #[trigger] ros_dependencies@[i]@)
                        == Some(v@[i]@),
                Err(e) => exists|i: int| 0 <= i < ros_dependencies@.len()
                    && map_name(self.mapper().custom_map(), self.mapper().distro().name@, #[trigger] ros_dependencies@[i]@) is None
                    && is_mapping_error(e, ros_dependencies@[i]@)
                    && forall|j: int| 0 <= j < i ==> map_name(self.mapper().custom_map(), self.mapper().distro().name@, #[trigger] ros_dependencies@[j]@) is Some,
            },
    {
        self.dependency_mapper.map_system_dependencies(ros_dependencies)
    }

    /// How a package's debian directory is prepared: its custom directory
    /// when it has one, else bloom-generate when allowed, else an error.
    pub fn preparation_source(&self, package_name: &str, custom_exists: bool, use_bloom: bool) -> (r: Result<PreparationSource, DebianError>)
        ensures
            custom_exists ==> r == Ok::<_, DebianError>(PreparationSource::Custom),
            !custom_exists && use_bloom ==> r == Ok::<_, DebianError>(PreparationSource::Bloom),
            !custom_exists && !use_bloom ==> (r matches Err(DebianError::MissingRequiredFile { package, file })
                && package@ == package_name@
                && file@ == "debian directory (no custom directory and bloom disabled)"@),
    {
        if custom_exists {
            Ok(PreparationSource::Custom)
        } else if use_bloom {
            Ok(PreparationSource::Bloom)
        } else {
            Err(DebianError::missing_required_file(
                package_name,
                "debian directory (no custom directory and bloom disabled)",
            ))
        }
    }

    /// The record of a prepared debian directory under `target_dir`.
    pub fn preparation_result(&self, package_name: &str, target_dir: &str, source: PreparationSource, validation: ValidationResult) -> (r: DebianPreparationResult)
        ensures
            r.package_name@ == package_name@,
            r.used_custom == (source == PreparationSource::Custom),
            r.used_bloom == (source == PreparationSource::Bloom),
            r.debian_path@ == path_join(target_dir@, "debian"@),
            r.validation_result == Some(validation),
    {
        DebianPreparationResult {
            package_name: owned(package_name),
            used_custom: matches!(source, PreparationSource::Custom),
            used_bloom: matches!(source, PreparationSource::Bloom),
            debian_path: join_path(target_dir, "debian"),
            validation_result: Some(validation),
        }
    }

    /// The arguments of bloom-generate for `package`, writing into
    /// `target_dir`; the package version is converted at revision 1, and
    /// its failure is the error.
    pub fn bloom_arguments(&self, package: &Package, target_dir: &str) -> (r: Result<Vec<String>, DebianError>)
        ensures
            match ros_to_debian_spec(package.version@, 1) {
                Ok(v) => r matches Ok(args) && views(args@) == bloom_args(*package, v, self.mapper().distro().name@, target_dir@),
                Err(e) => r matches Err(err) && err@ == e,
            },
    {
        let version = match self.convert_version(package.version.as_str(), 1) {
            Ok(v) => v,
            Err(e) => {
                return Err(e);
            },
        };
        let mut args: Vec<String> = Vec::new();
        args.push(owned("debian"));
        args.push(owned("--package-name"));
        args.push(package.name.clone());
        args.push(owned("--package-version"));
        args.push(version);
        args.push(owned("--ros-distro"));
        args.push(owned(self.dependency_mapper.ros_distro_name()));
        args.push(owned("--output-dir"));
        args.push(owned(target_dir));
        if package.maintainers.len() > 0 {
            let m = &package.maintainers[0];
            let mut who = m.name.clone();
            who.append(" <");
            who.append(m.email.as_str());
            who.append(">");
            args.push(owned("--maintainer"));
            args.push(who);
        }
        let ghost target = bloom_args(*package, text_result(Ok(args@[4]))->Ok_0, self.mapper().distro().name@, target_dir@);
        assert(views(args@) =~= target);
        Ok(args)
    }

    /// `debian/control` after bloom-generate, renamed to the agiros prefix
    /// for this manager's distribution.
    pub fn post_process_control(&self, content: &String) -> (r: String)
        ensures
            r@ == agiros_control(content@, self.mapper().distro().name@),
    {
        let distro = self.dependency_mapper.ros_distro_name();
        proof {
            reveal_strlit("Package: ");
            reveal_strlit("Source: ");
        }
        let mut from = owned("Package: ");
        from.append("ros-");
        from.append(distro);
        from.append("-");
        let mut to = owned("Package: ");
        to.append("agiros-");
        to.append(distro);
        to.append("-");
        let once = replace_all_exec(content, from.as_str(), to.as_str());
        let mut from2 = owned("Source: ");
        from2.append("ros-");
        from2.append(distro);
        from2.append("-");
        let mut to2 = owned("Source: ");
        to2.append("agiros-");
        to2.append(distro);
        to2.append("-");
        replace_all_exec(&once, from2.as_str(), to2.as_str())
    }

    /// The repository generator for this manager's distribution.
    pub fn repository_generator(&self, repository_root: String, architecture: &str) -> (r: RepositoryGenerator)
        ensures
            r.root() == repository_root@,
            r.dist() == self.mapper().distro().name@,
            r.comp() == "main"@,
            r.arch() == architecture@,
    {
        RepositoryGenerator::for_ros(repository_root, self.dependency_mapper.ros_distro_name(), owned(architecture))
    }

    /// Add custom dependency mapping
    pub fn add_dependency_mapping(&mut self, ros_name: String, debian_name: String)
        ensures
            final(self).mapper().custom_map() == old(self).mapper().custom_map().insert(ros_name@, debian_name@),
            final(self).mapper().distro() == old(self).mapper().distro(),
            final(self).dirs() == old(self).dirs(),
            final(self).strict() == old(self).strict(),
    {
        proof {
            use_type_invariant(&*self);
        }
        let mut mapper = DependencyMapper::for_loong();
        std::mem::swap(&mut mapper, &mut self.dependency_mapper);
        mapper.add_custom_mapping(ros_name, debian_name);
        self.dependency_mapper = mapper;
    }

    /// Get ROS distribution name
    pub fn ros_distro_name(&self) -> (r: &str)
        ensures
            r@ == self.mapper().distro().name@,
    {
        self.dependency_mapper.ros_distro_name()
    }
}

/// Once a prefix fails, so does the whole list, with the same error.
proof fn lemma_all_validations_stop(strict: bool, entries: Seq<(Seq<char>, DebianDirectory)>, k: int)
    requires
        0 <= k <= entries.len(),
        all_validations(strict, entries.take(k)) is Err,
    ensures
        all_validations(strict, entries) == all_validations(strict, entries.take(k)),
    decreases entries.len() - k,
{
    if k < entries.len() {
        assert(entries.take(k + 1).drop_last() =~= entries.take(k));
        lemma_all_validations_stop(strict, entries, k + 1);
    } else {
        assert(entries.take(k) =~= entries);
    }
}

/// The warnings of a prefix are no more than those of the whole list.
proof fn lemma_summary_warnings_grow(strict: bool, entries: Seq<(Seq<char>, DebianDirectory)>, k: int)
    requires
        0 <= k <= entries.len(),
    ensures
        summary_of(strict, entries.take(k)).2 <= summary_of(strict, entries).2,
    decreases entries.len() - k,
{
    if k < entries.len() {
        lemma_summary_warnings_grow(strict, entries, k + 1);
        assert(entries.take(k + 1).drop_last() =~= entries.take(k));
    } else {
        assert(entries.take(k) =~= entries);
    }
}


/// Lenient validation of all packages never fails: packages that fail to
/// validate are left out.
pub proof fn law_lenient_validation_never_fails(entries: Seq<(Seq<char>, DebianDirectory)>)
    ensures
        all_validations(false, entries) is Ok,
    decreases entries.len(),
{
    if entries.len() > 0 {
        law_lenient_validation_never_fails(entries.drop_last());
    }
}

/// In the summary every package is either valid or invalid.
pub proof fn law_summary_counts_every_package(strict: bool, entries: Seq<(Seq<char>, DebianDirectory)>)
    ensures
        summary_of(strict, entries).0.len() + summary_of(strict, entries).1.len() == entries.len(),
    decreases entries.len(),
{
    if entries.len() > 0 {
        law_summary_counts_every_package(strict, entries.drop_last());
    }
}
} // verus!
