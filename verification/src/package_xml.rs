//! Types of a ROS `package.xml` manifest and their mathematical models.
use vstd::prelude::*;
use crate::order::{sorted_unique_strings, strictly_sorted};
use crate::text::views;

verus! {

/// A ROS package manifest read from package.xml.
#[derive(Debug, Clone, PartialEq)]
pub struct PackageManifest {
    /// Package name
    pub name: String,
    /// Package version
    pub version: String,
    /// Package description
    pub description: String,
    /// Package maintainers
    pub maintainers: Vec<Person>,
    /// Package authors
    pub authors: Vec<Person>,
    /// Package license(s)
    pub licenses: Vec<String>,
    /// Package URL(s)
    pub urls: Vec<Url>,
    /// Build type (ament_cmake, ament_python, ...)
    pub build_type: Option<String>,
    /// Package dependencies
    pub dependencies: PackageDependencies,
}

/// A maintainer or author.
#[derive(Debug, Clone, PartialEq)]
pub struct Person {
    /// Person's name
    pub name: String,
    /// Person's email (optional)
    pub email: Option<String>,
}

/// A URL with its type.
#[derive(Debug, Clone, PartialEq)]
pub struct Url {
    /// URL type (website, repository, bugtracker, ...)
    pub url_type: Option<String>,
    /// The URL itself
    pub url: String,
}

/// All dependency kinds of package.xml.
#[derive(Debug, Clone, Default, PartialEq)]
pub struct PackageDependencies {
    /// Build dependencies
    pub build_depend: Vec<DependencySpec>,
    /// Build export dependencies
    pub build_export_depend: Vec<DependencySpec>,
    /// Build tool dependencies
    pub buildtool_depend: Vec<DependencySpec>,
    /// Build tool export dependencies
    pub buildtool_export_depend: Vec<DependencySpec>,
    /// Execution dependencies
    pub exec_depend: Vec<DependencySpec>,
    /// Test dependencies
    pub test_depend: Vec<DependencySpec>,
    /// Documentation dependencies
    pub doc_depend: Vec<DependencySpec>,
    /// Generic dependencies (stand for build, build_export and exec)
    pub depend: Vec<DependencySpec>,
}

/// A dependency with its optional version bounds and condition.
#[derive(Debug, Clone, PartialEq)]
pub struct DependencySpec {
    /// Package name
    pub name: String,
    /// `version_eq` attribute
    pub version_eq: Option<String>,
    /// `version_gte` attribute
    pub version_gte: Option<String>,
    /// `version_lte` attribute
    pub version_lte: Option<String>,
    /// `version_gt` attribute
    pub version_gt: Option<String>,
    /// `version_lt` attribute
    pub version_lt: Option<String>,
    /// `condition` attribute
    pub condition: Option<String>,
}

/// The text of an optional string.
pub open spec fn opt_view(o: Option<String>) -> Option<Seq<char>> {
    match o {
        Some(s) => Some(s@),
        None => None,
    }
}

/// Model of a dependency.
#[verifier::ext_equal]
pub struct DepModel {
    pub name: Seq<char>,
    pub version_eq: Option<Seq<char>>,
    pub version_gte: Option<Seq<char>>,
    pub version_lte: Option<Seq<char>>,
    pub version_gt: Option<Seq<char>>,
    pub version_lt: Option<Seq<char>>,
    pub condition: Option<Seq<char>>,
}

/// Model of a person.
#[verifier::ext_equal]
pub struct PersonModel {
    pub name: Seq<char>,
    pub email: Option<Seq<char>>,
}

/// Model of a URL.
#[verifier::ext_equal]
pub struct UrlModel {
    pub url_type: Option<Seq<char>>,
    pub url: Seq<char>,
}

/// Model of the dependency lists.
#[verifier::ext_equal]
pub struct DepsModel {
    pub build_depend: Seq<DepModel>,
    pub build_export_depend: Seq<DepModel>,
    pub buildtool_depend: Seq<DepModel>,
    pub buildtool_export_depend: Seq<DepModel>,
    pub exec_depend: Seq<DepModel>,
    pub test_depend: Seq<DepModel>,
    pub doc_depend: Seq<DepModel>,
    pub depend: Seq<DepModel>,
}

/// Model of a manifest.
#[verifier::ext_equal]
pub struct ManifestModel {
    pub name: Seq<char>,
    pub version: Seq<char>,
    pub description: Seq<char>,
    pub maintainers: Seq<PersonModel>,
    pub authors: Seq<PersonModel>,
    pub licenses: Seq<Seq<char>>,
    pub urls: Seq<UrlModel>,
    pub build_type: Option<Seq<char>>,
    pub deps: DepsModel,
}

impl View for DependencySpec {
    type V = DepModel;

    open spec fn view(&self) -> DepModel {
        DepModel {
            name: self.name@,
            version_eq: opt_view(self.version_eq),
            version_gte: opt_view(self.version_gte),
            version_lte: opt_view(self.version_lte),
            version_gt: opt_view(self.version_gt),
            version_lt: opt_view(self.version_lt),
            condition: opt_view(self.condition),
        }
    }
}

impl View for Person {
    type V = PersonModel;

    open spec fn view(&self) -> PersonModel {
        PersonModel { name: self.name@, email: opt_view(self.email) }
    }
}

impl View for Url {
    type V = UrlModel;

    open spec fn view(&self) -> UrlModel {
        UrlModel { url_type: opt_view(self.url_type), url: self.url@ }
    }
}

/// Models of a list of dependencies.
pub open spec fn dep_models(v: Seq<DependencySpec>) -> Seq<DepModel> {
    v.map_values(|d: DependencySpec| d@)
}

/// Models of a list of persons.
pub open spec fn person_models(v: Seq<Person>) -> Seq<PersonModel> {
    v.map_values(|p: Person| p@)
}

/// Models of a list of URLs.
pub open spec fn url_models(v: Seq<Url>) -> Seq<UrlModel> {
    v.map_values(|u: Url| u@)
}

impl View for PackageDependencies {
    type V = DepsModel;

    open spec fn view(&self) -> DepsModel {
        DepsModel {
            build_depend: dep_models(self.build_depend@),
            build_export_depend: dep_models(self.build_export_depend@),
            buildtool_depend: dep_models(self.buildtool_depend@),
            buildtool_export_depend: dep_models(self.buildtool_export_depend@),
            exec_depend: dep_models(self.exec_depend@),
            test_depend: dep_models(self.test_depend@),
            doc_depend: dep_models(self.doc_depend@),
            depend: dep_models(self.depend@),
        }
    }
}

impl View for PackageManifest {
    type V = ManifestModel;

    open spec fn view(&self) -> ManifestModel {
        ManifestModel {
            name: self.name@,
            version: self.version@,
            description: self.description@,
            maintainers: person_models(self.maintainers@),
            authors: person_models(self.authors@),
            licenses: views(self.licenses@),
            urls: url_models(self.urls@),
            build_type: opt_view(self.build_type),
            deps: self.dependencies@,
        }
    }
}

/// Pushing a dependency pushes its model.
pub proof fn lemma_dep_models_push(v: Seq<DependencySpec>, d: DependencySpec)
    ensures
        dep_models(v.push(d)) == dep_models(v).push(d@),
{
    assert(dep_models(v.push(d)) =~= dep_models(v).push(d@));
}

/// Pushing a person pushes its model.
pub proof fn lemma_person_models_push(v: Seq<Person>, p: Person)
    ensures
        person_models(v.push(p)) == person_models(v).push(p@),
{
    assert(person_models(v.push(p)) =~= person_models(v).push(p@));
}

/// Pushing a URL pushes its model.
pub proof fn lemma_url_models_push(v: Seq<Url>, u: Url)
    ensures
        url_models(v.push(u)) == url_models(v).push(u@),
{
    assert(url_models(v.push(u)) =~= url_models(v).push(u@));
}

/// Names of a list of dependencies.
pub open spec fn dep_names(v: Seq<DepModel>) -> Seq<Seq<char>> {
    v.map_values(|d: DepModel| d.name)
}

/// Every dependency name of every kind, kind by kind.
pub open spec fn all_dep_names(d: DepsModel) -> Seq<Seq<char>> {
    dep_names(d.build_depend) + dep_names(d.build_export_depend) + dep_names(d.buildtool_depend)
        + dep_names(d.buildtool_export_depend) + dep_names(d.exec_depend) + dep_names(d.test_depend)
        + dep_names(d.doc_depend) + dep_names(d.depend)
}

/// Generic `depend` entries expanded into build, build export and exec dependencies.
pub open spec fn expand_generic(d: DepsModel) -> DepsModel {
    DepsModel {
        build_depend: d.build_depend + d.depend,
        build_export_depend: d.build_export_depend + d.depend,
        exec_depend: d.exec_depend + d.depend,
        ..d
    }
}

/// Appends clones of the names of `src` to `dst`.
pub fn extend_names(dst: &mut Vec<String>, src: &Vec<DependencySpec>)
    ensures
        views(final(dst)@) == views(old(dst)@) + dep_names(dep_models(src@)),
{
    let mut k: usize = 0;
    while k < src.len()
        invariant
            k <= src.len(),
            views(dst@) =~= views(old(dst)@) + dep_names(dep_models(src@)).subrange(0, k as int),
        decreases src.len() - k,
    {
        let c = src[k].name.clone();
        let ghost prev = views(dst@);
        dst.push(c);
        assert(views(dst@) =~= prev.push(c@));
        assert(dep_names(dep_models(src@)).subrange(0, k + 1) =~= dep_names(dep_models(src@)).subrange(0, k as int).push(src@[k as int].name@));
        k += 1;
    }
    assert(dep_names(dep_models(src@)).subrange(0, src.len() as int) =~= dep_names(dep_models(src@)));
}

/// Appends clones of `src` to `dst`.
fn extend_specs(dst: &mut Vec<DependencySpec>, src: &Vec<DependencySpec>)
    ensures
        dep_models(final(dst)@) == dep_models(old(dst)@) + dep_models(src@),
{
    let mut k: usize = 0;
    while k < src.len()
        invariant
            k <= src.len(),
            dep_models(dst@) =~= dep_models(old(dst)@) + dep_models(src@).subrange(0, k as int),
        decreases src.len() - k,
    {
        let d = src[k].clone_spec();
        let ghost prev = dep_models(dst@);
        dst.push(d);
        assert(dep_models(dst@) =~= prev.push(d@));
        assert(dep_models(src@).subrange(0, k + 1) =~= dep_models(src@).subrange(0, k as int).push(src@[k as int]@));
        k += 1;
    }
    assert(dep_models(src@).subrange(0, src.len() as int) =~= dep_models(src@));
}

/// A copy of an optional string.
pub fn clone_opt(o: &Option<String>) -> (r: Option<String>)
    ensures
        opt_view(r) == opt_view(*o),
{
    match o {
        Some(s) => Some(s.clone()),
        None => None,
    }
}

impl DependencySpec {
    /// A copy with the same model.
    pub fn clone_spec(&self) -> (r: DependencySpec)
        ensures
            r@ == self@,
    {
        DependencySpec {
            name: self.name.clone(),
            version_eq: clone_opt(&self.version_eq),
            version_gte: clone_opt(&self.version_gte),
            version_lte: clone_opt(&self.version_lte),
            version_gt: clone_opt(&self.version_gt),
            version_lt: clone_opt(&self.version_lt),
            condition: clone_opt(&self.condition),
        }
    }
}

impl PackageDependencies {
    /// All distinct dependency names of every kind, sorted.
    pub fn all_unique_names(&self) -> (r: Vec<String>)
        ensures
            strictly_sorted(views(r@)),
            views(r@).to_set() == all_dep_names(self@).to_set(),
    {
        let mut names: Vec<String> = Vec::new();
        extend_names(&mut names, &self.build_depend);
        extend_names(&mut names, &self.build_export_depend);
        extend_names(&mut names, &self.buildtool_depend);
        extend_names(&mut names, &self.buildtool_export_depend);
        extend_names(&mut names, &self.exec_depend);
        extend_names(&mut names, &self.test_depend);
        extend_names(&mut names, &self.doc_depend);
        extend_names(&mut names, &self.depend);
        assert(views(names@) =~= all_dep_names(self@));
        sorted_unique_strings(&names)
    }

    /// Expands generic `depend` entries into build, build export and exec dependencies.
    pub fn expand_generic_depends(&mut self)
        ensures
            final(self)@ == expand_generic(old(self)@),
    {
        let generic = &self.depend;
        let mut b = Vec::new();
        let mut be = Vec::new();
        let mut ex = Vec::new();
        extend_specs(&mut b, generic);
        extend_specs(&mut be, generic);
        extend_specs(&mut ex, generic);
        extend_specs(&mut self.build_depend, &b);
        extend_specs(&mut self.build_export_depend, &be);
        extend_specs(&mut self.exec_depend, &ex);
        assert(dep_models(Seq::<DependencySpec>::empty()) =~= Seq::<DepModel>::empty());
        assert(self@ =~= expand_generic(old(self)@));
    }
}


/// After expansion, every generic dependency is a build, build export and
/// exec dependency, and nothing listed before is lost.
pub proof fn law_generic_depends_everywhere(d: DepsModel)
    ensures
        forall|i: int| 0 <= i < d.depend.len() ==> expand_generic(d).build_depend.contains(#[trigger] d.depend[i])
            && expand_generic(d).build_export_depend.contains(d.depend[i])
            && expand_generic(d).exec_depend.contains(d.depend[i]),
        expand_generic(d).build_depend.subrange(0, d.build_depend.len() as int) == d.build_depend,
        expand_generic(d).build_export_depend.subrange(0, d.build_export_depend.len() as int) == d.build_export_depend,
        expand_generic(d).exec_depend.subrange(0, d.exec_depend.len() as int) == d.exec_depend,
{
    let e = expand_generic(d);
    assert forall|i: int| 0 <= i < d.depend.len() implies e.build_depend.contains(#[trigger] d.depend[i])
        && e.build_export_depend.contains(d.depend[i]) && e.exec_depend.contains(d.depend[i]) by {
        assert(e.build_depend[d.build_depend.len() + i] == d.depend[i]);
        assert(e.build_export_depend[d.build_export_depend.len() + i] == d.depend[i]);
        assert(e.exec_depend[d.exec_depend.len() + i] == d.depend[i]);
    }
    assert(e.build_depend.subrange(0, d.build_depend.len() as int) =~= d.build_depend);
    assert(e.build_export_depend.subrange(0, d.build_export_depend.len() as int) =~= d.build_export_depend);
    assert(e.exec_depend.subrange(0, d.exec_depend.len() as int) =~= d.exec_depend);
}
} // verus!
