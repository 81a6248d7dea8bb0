//! Reading a ROS `package.xml` into a manifest, and a manifest into a package.
//!
//! The manifest reader is a state machine over the XML events of the
//! document: `run` is its meaning, event by event, and `manifest_from_events`
//! computes it.
use vstd::prelude::*;
use crate::error::Error;
use crate::package::{build_type_of, BuildType, Dependencies, Maintainer, Package};
use crate::paths::{parent_of, path_parent};
use crate::package_xml::{
    dep_models, dep_names, expand_generic, extend_names, opt_view, person_models, url_models, DepModel, DependencySpec,
    DepsModel, ManifestModel, PackageDependencies, PackageManifest, Person, PersonModel, Url,
    UrlModel,
};
use crate::text::{join, join_strings, owned, str_eq, trim, trim_string, views};
use crate::xml::{
    name_leads, pair_views, read_events, token_views, xml_attributes, xml_events, xml_tag_attributes,
    XmlToken, XmlTokenView,
};

verus! {

/// Why a manifest could not be read.
#[derive(Debug, Clone, PartialEq, Eq)]
pub enum ParseError {
    /// The XML is malformed or holds a bad escape
    XmlError(String),
    /// The XML is not valid UTF-8
    Utf8Error(String),
    /// A required element is missing or empty
    MissingField(String),
    /// The package is malformed
    InvalidFormat(String),
    /// The file could not be read
    IoError(String),
    /// A tag holds a malformed attribute
    AttrError(String),
}

/// Model of a `ParseError`.
#[verifier::ext_equal]
pub enum ParseErrorView {
    XmlError(Seq<char>),
    Utf8Error(Seq<char>),
    MissingField(Seq<char>),
    InvalidFormat(Seq<char>),
    IoError(Seq<char>),
    AttrError(Seq<char>),
}

impl View for ParseError {
    type V = ParseErrorView;

    open spec fn view(&self) -> ParseErrorView {
        match self {
            ParseError::XmlError(m) => ParseErrorView::XmlError(m@),
            ParseError::Utf8Error(m) => ParseErrorView::Utf8Error(m@),
            ParseError::MissingField(m) => ParseErrorView::MissingField(m@),
            ParseError::InvalidFormat(m) => ParseErrorView::InvalidFormat(m@),
            ParseError::IoError(m) => ParseErrorView::IoError(m@),
            ParseError::AttrError(m) => ParseErrorView::AttrError(m@),
        }
    }
}

/// How a parse error reads.
pub open spec fn parse_error_text(e: ParseErrorView) -> Seq<char> {
    match e {
        ParseErrorView::XmlError(m) => "XML parsing error: "@ + m,
        ParseErrorView::Utf8Error(m) => "Invalid UTF-8 in XML: "@ + m,
        ParseErrorView::MissingField(m) => "Missing required field: "@ + m,
        ParseErrorView::InvalidFormat(m) => "Invalid package format: "@ + m,
        ParseErrorView::IoError(m) => "IO error: "@ + m,
        ParseErrorView::AttrError(m) => "XML attribute error: "@ + m,
    }
}

impl ParseError {
    /// The message of the error.
    pub fn to_text(&self) -> (r: String)
        ensures
            r@ == parse_error_text(self@),
    {
        let (prefix, m): (&str, &String) = match self {
            ParseError::XmlError(m) => ("XML parsing error: ", m),
            ParseError::Utf8Error(m) => ("Invalid UTF-8 in XML: ", m),
            ParseError::MissingField(m) => ("Missing required field: ", m),
            ParseError::InvalidFormat(m) => ("Invalid package format: ", m),
            ParseError::IoError(m) => ("IO error: ", m),
            ParseError::AttrError(m) => ("XML attribute error: ", m),
        };
        let mut r = owned(prefix);
        r.append(m.as_str());
        r
    }
}

/// What the reader is collecting the text of.
#[verifier::ext_equal]
pub enum ScanModel {
    /// Nothing: events are read at the top level
    Main,
    /// A dependency of the given kind
    Dep { kind: Seq<char>, dep: DepModel },
    /// A maintainer or an author
    Person { kind: Seq<char>, person: PersonModel },
    /// A URL
    Link { url: UrlModel },
}

/// State of the manifest reader.
#[verifier::ext_equal]
pub struct ParseModel {
    /// The manifest read so far
    pub manifest: ManifestModel,
    /// Name of the last opened tag
    pub current: Seq<char>,
    /// Whether the reader is inside `<export>`
    pub in_export: bool,
    /// What the reader is collecting
    pub scan: ScanModel,
}

/// Outcome of one event.
#[verifier::ext_equal]
pub enum Step {
    /// Go on, in this state
    Next(ParseModel),
    /// Stop, with this outcome
    Stop(Result<ManifestModel, ParseErrorView>),
}

/// A manifest with nothing in it.
pub open spec fn empty_manifest() -> ManifestModel {
    ManifestModel {
        name: Seq::empty(),
        version: Seq::empty(),
        description: Seq::empty(),
        maintainers: Seq::empty(),
        authors: Seq::empty(),
        licenses: Seq::empty(),
        urls: Seq::empty(),
        build_type: None,
        deps: DepsModel {
            build_depend: Seq::empty(),
            build_export_depend: Seq::empty(),
            buildtool_depend: Seq::empty(),
            buildtool_export_depend: Seq::empty(),
            exec_depend: Seq::empty(),
            test_depend: Seq::empty(),
            doc_depend: Seq::empty(),
            depend: Seq::empty(),
        },
    }
}

/// The state before the first event.
pub open spec fn initial_state() -> ParseModel {
    ParseModel {
        manifest: empty_manifest(),
        current: Seq::empty(),
        in_export: false,
        scan: ScanModel::Main,
    }
}

/// Whether a tag names a kind of dependency.
pub open spec fn is_dep_tag(n: Seq<char>) -> bool {
    ||| n == "build_depend"@
    ||| n == "build_export_depend"@
    ||| n == "buildtool_depend"@
    ||| n == "buildtool_export_depend"@
    ||| n == "exec_depend"@
    ||| n == "test_depend"@
    ||| n == "doc_depend"@
    ||| n == "depend"@
}

/// `d` with `dep` added to the list of the kind `kind` (unchanged for any
/// other name).
pub open spec fn add_dep(d: DepsModel, kind: Seq<char>, dep: DepModel) -> DepsModel {
    if kind == "build_depend"@ {
        DepsModel { build_depend: d.build_depend.push(dep), ..d }
    } else if kind == "build_export_depend"@ {
        DepsModel { build_export_depend: d.build_export_depend.push(dep), ..d }
    } else if kind == "buildtool_depend"@ {
        DepsModel { buildtool_depend: d.buildtool_depend.push(dep), ..d }
    } else if kind == "buildtool_export_depend"@ {
        DepsModel { buildtool_export_depend: d.buildtool_export_depend.push(dep), ..d }
    } else if kind == "exec_depend"@ {
        DepsModel { exec_depend: d.exec_depend.push(dep), ..d }
    } else if kind == "test_depend"@ {
        DepsModel { test_depend: d.test_depend.push(dep), ..d }
    } else if kind == "doc_depend"@ {
        DepsModel { doc_depend: d.doc_depend.push(dep), ..d }
    } else if kind == "depend"@ {
        DepsModel { depend: d.depend.push(dep), ..d }
    } else {
        d
    }
}

/// The value of the last attribute named `key`, if any.
pub open spec fn attr_value(attrs: Seq<(Seq<char>, Seq<char>)>, key: Seq<char>) -> Option<Seq<char>>
    decreases attrs.len(),
{
    if attrs.len() == 0 {
        None
    } else if attrs.last().0 == key {
        Some(attrs.last().1)
    } else {
        attr_value(attrs.drop_last(), key)
    }
}

/// A dependency with no name yet and the version bounds and condition of `attrs`.
pub open spec fn dep_from_attrs(attrs: Seq<(Seq<char>, Seq<char>)>) -> DepModel {
    DepModel {
        name: Seq::empty(),
        version_eq: attr_value(attrs, "version_eq"@),
        version_gte: attr_value(attrs, "version_gte"@),
        version_lte: attr_value(attrs, "version_lte"@),
        version_gt: attr_value(attrs, "version_gt"@),
        version_lt: attr_value(attrs, "version_lt"@),
        condition: attr_value(attrs, "condition"@),
    }
}

/// `scan` with its collected text replaced by `text`.
pub open spec fn with_text(scan: ScanModel, text: Seq<char>) -> ScanModel {
    match scan {
        ScanModel::Main => ScanModel::Main,
        ScanModel::Dep { kind, dep } => ScanModel::Dep { kind, dep: DepModel { name: text, ..dep } },
        ScanModel::Person { kind, person } => ScanModel::Person {
            kind,
            person: PersonModel { name: text, ..person },
        },
        ScanModel::Link { url } => ScanModel::Link { url: UrlModel { url: text, ..url } },
    }
}

/// The manifest with the collected item added, when its text is not empty.
pub open spec fn add_scanned(m: ManifestModel, scan: ScanModel) -> ManifestModel {
    match scan {
        ScanModel::Main => m,
        ScanModel::Dep { kind, dep } => if dep.name.len() == 0 {
            m
        } else {
            ManifestModel { deps: add_dep(m.deps, kind, dep), ..m }
        },
        ScanModel::Person { kind, person } => if person.name.len() == 0 {
            m
        } else if kind == "maintainer"@ {
            ManifestModel { maintainers: m.maintainers.push(person), ..m }
        } else if kind == "author"@ {
            ManifestModel { authors: m.authors.push(person), ..m }
        } else {
            m
        },
        ScanModel::Link { url } => if url.url.len() == 0 {
            m
        } else {
            ManifestModel { urls: m.urls.push(url), ..m }
        },
    }
}

/// The state after the collected item is finished.
pub open spec fn close_scan(st: ParseModel) -> ParseModel {
    ParseModel { manifest: add_scanned(st.manifest, st.scan), scan: ScanModel::Main, ..st }
}

/// Top-level text `t` (already trimmed) stored in the field of the current tag.
pub open spec fn apply_text(st: ParseModel, t: Seq<char>) -> ParseModel {
    let m = st.manifest;
    if t.len() == 0 {
        st
    } else if st.current == "name"@ {
        ParseModel { manifest: ManifestModel { name: t, ..m }, ..st }
    } else if st.current == "version"@ {
        ParseModel { manifest: ManifestModel { version: t, ..m }, ..st }
    } else if st.current == "description"@ {
        ParseModel { manifest: ManifestModel { description: t, ..m }, ..st }
    } else if st.current == "license"@ {
        ParseModel { manifest: ManifestModel { licenses: m.licenses.push(t), ..m }, ..st }
    } else if st.current == "build_type"@ && st.in_export {
        ParseModel { manifest: ManifestModel { build_type: Some(t), ..m }, ..st }
    } else {
        st
    }
}

/// A manifest checked for its required fields, with generic dependencies expanded.
pub open spec fn finish(m: ManifestModel) -> Result<ManifestModel, ParseErrorView> {
    if m.name.len() == 0 {
        Err(ParseErrorView::MissingField("name"@))
    } else if m.version.len() == 0 {
        Err(ParseErrorView::MissingField("version"@))
    } else if m.description.len() == 0 {
        Err(ParseErrorView::MissingField("description"@))
    } else if m.maintainers.len() == 0 {
        Err(ParseErrorView::MissingField("maintainer"@))
    } else {
        Ok(ManifestModel { deps: expand_generic(m.deps), ..m })
    }
}

/// An opening tag read at the top level.
pub open spec fn step_start(st: ParseModel, name: Seq<char>, raw: Seq<char>) -> Step {
    let st1 = ParseModel { current: name, ..st };
    if name == "export"@ {
        Step::Next(ParseModel { in_export: true, ..st1 })
    } else if is_dep_tag(name) || name == "maintainer"@ || name == "author"@ || name == "url"@ {
        match xml_tag_attributes(raw, name) {
            Err(m) => Step::Stop(Err(ParseErrorView::AttrError(m))),
            Ok(attrs) => Step::Next(
                ParseModel {
                    scan: if is_dep_tag(name) {
                        ScanModel::Dep { kind: name, dep: dep_from_attrs(attrs) }
                    } else if name == "url"@ {
                        ScanModel::Link {
                            url: UrlModel { url_type: attr_value(attrs, "type"@), url: Seq::empty() },
                        }
                    } else {
                        ScanModel::Person {
                            kind: name,
                            person: PersonModel { name: Seq::empty(), email: attr_value(attrs, "email"@) },
                        }
                    },
                    ..st1
                },
            ),
        }
    } else {
        Step::Next(st1)
    }
}

/// One event read at the top level.
pub open spec fn step_main(st: ParseModel, t: XmlTokenView) -> Step {
    match t {
        XmlTokenView::Start { name, raw } => step_start(st, name, raw),
        XmlTokenView::End { name } => if name == "export"@ {
            Step::Next(ParseModel { in_export: false, ..st })
        } else {
            Step::Next(st)
        },
        XmlTokenView::Text { text } => match text {
            Ok(s) => Step::Next(apply_text(st, trim(s))),
            Err(m) => Step::Stop(Err(ParseErrorView::XmlError(m))),
        },
        XmlTokenView::Empty { name } => if st.in_export && name == "build_type"@ {
            Step::Next(ParseModel { current: "build_type"@, ..st })
        } else {
            Step::Next(st)
        },
        XmlTokenView::Eof => Step::Stop(finish(st.manifest)),
        XmlTokenView::Fault { message } => Step::Stop(Err(ParseErrorView::XmlError(message))),
        XmlTokenView::Other => Step::Next(st),
    }
}

/// One event read while collecting the text of an item: the last text
/// (trimmed) is kept, any closing tag or the end of the document closes the
/// item, and other events are skipped.
pub open spec fn step_scan(st: ParseModel, t: XmlTokenView) -> Step {
    match t {
        XmlTokenView::Text { text } => match text {
            Ok(s) => Step::Next(ParseModel { scan: with_text(st.scan, trim(s)), ..st }),
            Err(m) => Step::Stop(Err(ParseErrorView::XmlError(m))),
        },
        XmlTokenView::End { .. } => Step::Next(close_scan(st)),
        XmlTokenView::Eof => Step::Next(close_scan(st)),
        _ => Step::Next(st),
    }
}

/// One event.
pub open spec fn step(st: ParseModel, t: XmlTokenView) -> Step {
    match st.scan {
        ScanModel::Main => step_main(st, t),
        _ => step_scan(st, t),
    }
}

/// The outcome of reading the events of `toks` from index `i`, in state `st`.
pub open spec fn run(toks: Seq<XmlTokenView>, i: int, st: ParseModel) -> Result<
    ManifestModel,
    ParseErrorView,
>
    decreases toks.len() - i,
{
    if 0 <= i < toks.len() {
        match step(st, toks[i]) {
            Step::Next(next) => run(toks, i + 1, next),
            Step::Stop(r) => r,
        }
    } else {
        finish(close_scan(st).manifest)
    }
}

/// The manifest that a document with the events `toks` describes, or why there is none.
pub open spec fn manifest_outcome(toks: Seq<XmlTokenView>) -> Result<ManifestModel, ParseErrorView> {
    run(toks, 0, initial_state())
}

/// The model of a reading's result.
pub open spec fn outcome_view(r: Result<PackageManifest, ParseError>) -> Result<
    ManifestModel,
    ParseErrorView,
> {
    match r {
        Ok(m) => Ok(m@),
        Err(e) => Err(e@),
    }
}


/// What the reader is collecting, with the item built so far.
enum Scan {
    Main,
    Dep { kind: String, dep: DependencySpec },
    Person { kind: String, person: Person },
    Link { url: Url },
}

impl View for Scan {
    type V = ScanModel;

    closed spec fn view(&self) -> ScanModel {
        match self {
            Scan::Main => ScanModel::Main,
            Scan::Dep { kind, dep } => ScanModel::Dep { kind: kind@, dep: dep@ },
            Scan::Person { kind, person } => ScanModel::Person { kind: kind@, person: person@ },
            Scan::Link { url } => ScanModel::Link { url: url@ },
        }
    }
}

/// State of the manifest reader.
struct ParseState {
    manifest: PackageManifest,
    current: String,
    in_export: bool,
    scan: Scan,
}

impl View for ParseState {
    type V = ParseModel;

    closed spec fn view(&self) -> ParseModel {
        ParseModel {
            manifest: self.manifest@,
            current: self.current@,
            in_export: self.in_export,
            scan: self.scan@,
        }
    }
}

/// What the reader does after an event.
enum Flow {
    /// Read the next event
    Go,
    /// Stop and check the manifest read so far
    Finish,
    /// Stop with this error
    Fail(ParseError),
}

/// The flow `f` and the state `after` are what the step `s` says.
spec fn agrees(s: Step, f: Flow, after: ParseModel) -> bool {
    match f {
        Flow::Go => s == Step::Next(after),
        Flow::Finish => s == Step::Stop(finish(after.manifest)),
        Flow::Fail(e) => s == Step::Stop(Err(e@)),
    }
}

/// Whether `name` names a kind of dependency.
fn is_dep_tag_exec(name: &str) -> (r: bool)
    ensures
        r == is_dep_tag(name@),
{
    str_eq(name, "build_depend") || str_eq(name, "build_export_depend") || str_eq(
        name,
        "buildtool_depend",
    ) || str_eq(name, "buildtool_export_depend") || str_eq(name, "exec_depend") || str_eq(
        name,
        "test_depend",
    ) || str_eq(name, "doc_depend") || str_eq(name, "depend")
}

/// The value of the last attribute named `key`.
fn attr_lookup(attrs: &Vec<(String, String)>, key: &str) -> (r: Option<String>)
    ensures
        opt_view(r) == attr_value(pair_views(attrs@), key@),
{
    let mut found: Option<String> = None;
    let mut k: usize = 0;
    while k < attrs.len()
        invariant
            k <= attrs.len(),
            opt_view(found) == attr_value(pair_views(attrs@).subrange(0, k as int), key@),
        decreases attrs.len() - k,
    {
        let ghost prefix = pair_views(attrs@).subrange(0, k as int);
        let ghost next = pair_views(attrs@).subrange(0, k + 1);
        assert(next.drop_last() =~= prefix);
        if str_eq(attrs[k].0.as_str(), key) {
            found = Some(attrs[k].1.clone());
        }
        k += 1;
    }
    assert(pair_views(attrs@).subrange(0, attrs.len() as int) =~= pair_views(attrs@));
    found
}

/// A dependency with no name yet and the version bounds and condition of `attrs`.
fn dep_from_attr_list(attrs: &Vec<(String, String)>) -> (d: DependencySpec)
    ensures
        d@ == dep_from_attrs(pair_views(attrs@)),
{
    DependencySpec {
        name: String::new(),
        version_eq: attr_lookup(attrs, "version_eq"),
        version_gte: attr_lookup(attrs, "version_gte"),
        version_lte: attr_lookup(attrs, "version_lte"),
        version_gt: attr_lookup(attrs, "version_gt"),
        version_lt: attr_lookup(attrs, "version_lt"),
        condition: attr_lookup(attrs, "condition"),
    }
}

/// Adds `dep` to the list of the dependency kind `dep_type`; any other name
/// leaves the lists unchanged.
pub fn add_dependency(deps: &mut PackageDependencies, dep_type: &str, dep: DependencySpec)
    ensures
        final(deps)@ == add_dep(old(deps)@, dep_type@, dep@),
{
    if str_eq(dep_type, "build_depend") {
        proof { crate::package_xml::lemma_dep_models_push(deps.build_depend@, dep); }
        deps.build_depend.push(dep);
    } else if str_eq(dep_type, "build_export_depend") {
        proof { crate::package_xml::lemma_dep_models_push(deps.build_export_depend@, dep); }
        deps.build_export_depend.push(dep);
    } else if str_eq(dep_type, "buildtool_depend") {
        proof { crate::package_xml::lemma_dep_models_push(deps.buildtool_depend@, dep); }
        deps.buildtool_depend.push(dep);
    } else if str_eq(dep_type, "buildtool_export_depend") {
        proof { crate::package_xml::lemma_dep_models_push(deps.buildtool_export_depend@, dep); }
        deps.buildtool_export_depend.push(dep);
    } else if str_eq(dep_type, "exec_depend") {
        proof { crate::package_xml::lemma_dep_models_push(deps.exec_depend@, dep); }
        deps.exec_depend.push(dep);
    } else if str_eq(dep_type, "test_depend") {
        proof { crate::package_xml::lemma_dep_models_push(deps.test_depend@, dep); }
        deps.test_depend.push(dep);
    } else if str_eq(dep_type, "doc_depend") {
        proof { crate::package_xml::lemma_dep_models_push(deps.doc_depend@, dep); }
        deps.doc_depend.push(dep);
    } else if str_eq(dep_type, "depend") {
        proof { crate::package_xml::lemma_dep_models_push(deps.depend@, dep); }
        deps.depend.push(dep);
    }
    assert(final(deps)@ =~= add_dep(old(deps)@, dep_type@, dep@));
}

impl ParseState {
    fn new() -> (r: ParseState)
        ensures
            r@ == initial_state(),
    {
        let r = ParseState {
            manifest: PackageManifest {
                name: String::new(),
                version: String::new(),
                description: String::new(),
                maintainers: Vec::new(),
                authors: Vec::new(),
                licenses: Vec::new(),
                urls: Vec::new(),
                build_type: None,
                dependencies: PackageDependencies {
                    build_depend: Vec::new(),
                    build_export_depend: Vec::new(),
                    buildtool_depend: Vec::new(),
                    buildtool_export_depend: Vec::new(),
                    exec_depend: Vec::new(),
                    test_depend: Vec::new(),
                    doc_depend: Vec::new(),
                    depend: Vec::new(),
                },
            },
            current: String::new(),
            in_export: false,
            scan: Scan::Main,
        };
        assert(r@ =~= initial_state());
        r
    }

    /// Adds the collected item to the manifest and goes back to the top level.
    fn close_scan(&mut self)
        ensures
            final(self)@ == close_scan(old(self)@),
    {
        let mut scan = Scan::Main;
        std::mem::swap(&mut scan, &mut self.scan);
        match scan {
            Scan::Main => {},
            Scan::Dep { kind, dep } => {
                if !dep.name.as_str().is_empty() {
                    add_dependency(&mut self.manifest.dependencies, kind.as_str(), dep);
                }
            },
            Scan::Person { kind, person } => {
                if !person.name.as_str().is_empty() {
                    if str_eq(kind.as_str(), "maintainer") {
                        proof {
                            crate::package_xml::lemma_person_models_push(
                                self.manifest.maintainers@,
                                person,
                            );
                        }
                        self.manifest.maintainers.push(person);
                    } else if str_eq(kind.as_str(), "author") {
                        proof {
                            crate::package_xml::lemma_person_models_push(
                                self.manifest.authors@,
                                person,
                            );
                        }
                        self.manifest.authors.push(person);
                    }
                }
            },
            Scan::Link { url } => {
                if !url.url.as_str().is_empty() {
                    proof {
                        crate::package_xml::lemma_url_models_push(self.manifest.urls@, url);
                    }
                    self.manifest.urls.push(url);
                }
            },
        }
        assert(self@ =~= close_scan(old(self)@));
    }

    /// Replaces the collected text by `text`.
    fn set_scanned(&mut self, text: String)
        ensures
            final(self)@ == (ParseModel { scan: with_text(old(self)@.scan, text@), ..old(self)@ }),
    {
        let mut scan = Scan::Main;
        std::mem::swap(&mut scan, &mut self.scan);
        self.scan = match scan {
            Scan::Main => Scan::Main,
            Scan::Dep { kind, dep } => Scan::Dep {
                kind,
                dep: DependencySpec { name: text, ..dep },
            },
            Scan::Person { kind, person } => Scan::Person {
                kind,
                person: Person { name: text, ..person },
            },
            Scan::Link { url } => Scan::Link { url: Url { url: text, ..url } },
        };
        assert(self@ =~= (ParseModel { scan: with_text(old(self)@.scan, text@), ..old(self)@ }));
    }

    /// Stores top-level text `t` (already trimmed) in the field of the current tag.
    fn apply_text(&mut self, t: String)
        ensures
            final(self)@ == apply_text(old(self)@, t@),
    {
        if t.as_str().is_empty() {
        } else if str_eq(self.current.as_str(), "name") {
            self.manifest.name = t;
        } else if str_eq(self.current.as_str(), "version") {
            self.manifest.version = t;
        } else if str_eq(self.current.as_str(), "description") {
            self.manifest.description = t;
        } else if str_eq(self.current.as_str(), "license") {
            proof {
                crate::text::lemma_views_push(self.manifest.licenses@, t);
            }
            self.manifest.licenses.push(t);
        } else if str_eq(self.current.as_str(), "build_type") && self.in_export {
            self.manifest.build_type = Some(t);
        }
        assert(self@ =~= apply_text(old(self)@, t@));
    }

    /// An opening tag read at the top level.
    fn start_tag(&mut self, name: &String, raw: &String) -> (f: Flow)
        requires
            old(self)@.scan is Main,
            name@.is_prefix_of(raw@),
        ensures
            agrees(step_start(old(self)@, name@, raw@), f, final(self)@),
    {
        self.current = name.clone();
        if str_eq(name.as_str(), "export") {
            self.in_export = true;
            assert(self@ =~= (ParseModel { in_export: true, current: name@, ..old(self)@ }));
            return Flow::Go;
        }
        let dep = is_dep_tag_exec(name.as_str());
        let person = str_eq(name.as_str(), "maintainer") || str_eq(name.as_str(), "author");
        let link = str_eq(name.as_str(), "url");
        if !(dep || person || link) {
            assert(self@ =~= (ParseModel { current: name@, ..old(self)@ }));
            return Flow::Go;
        }
        match xml_attributes(raw.as_str(), name.as_str()) {
            Err(m) => Flow::Fail(ParseError::AttrError(m)),
            Ok(attrs) => {
                if dep {
                    self.scan = Scan::Dep { kind: name.clone(), dep: dep_from_attr_list(&attrs) };
                } else if link {
                    self.scan = Scan::Link {
                        url: Url { url_type: attr_lookup(&attrs, "type"), url: String::new() },
                    };
                } else {
                    self.scan = Scan::Person {
                        kind: name.clone(),
                        person: Person { name: String::new(), email: attr_lookup(&attrs, "email") },
                    };
                }
                proof {
                    let st1 = ParseModel { current: name@, ..old(self)@ };
                    match step_start(old(self)@, name@, raw@) {
                        Step::Next(n) => {
                            assert(self@ =~= n);
                        },
                        Step::Stop(_) => {},
                    }
                }
                Flow::Go
            },
        }
    }

    /// One event read at the top level.
    fn step_main(&mut self, t: &XmlToken) -> (f: Flow)
        requires
            old(self)@.scan is Main,
            name_leads(t@),
        ensures
            agrees(step_main(old(self)@, t@), f, final(self)@),
    {
        match t {
            XmlToken::Start { name, raw } => self.start_tag(name, raw),
            XmlToken::End { name } => {
                if str_eq(name.as_str(), "export") {
                    self.in_export = false;
                    assert(self@ =~= (ParseModel { in_export: false, ..old(self)@ }));
                }
                Flow::Go
            },
            XmlToken::Text { text } => match text {
                Ok(s) => {
                    let trimmed = trim_string(s.as_str());
                    self.apply_text(trimmed);
                    Flow::Go
                },
                Err(m) => Flow::Fail(ParseError::XmlError(m.clone())),
            },
            XmlToken::Empty { name } => {
                if self.in_export && str_eq(name.as_str(), "build_type") {
                    self.current = owned("build_type");
                    assert(self@ =~= (ParseModel { current: "build_type"@, ..old(self)@ }));
                }
                Flow::Go
            },
            XmlToken::Eof => Flow::Finish,
            XmlToken::Fault { message } => Flow::Fail(ParseError::XmlError(message.clone())),
            XmlToken::Other => Flow::Go,
        }
    }

    /// One event read while collecting an item.
    fn step_scan(&mut self, t: &XmlToken) -> (f: Flow)
        requires
            !(old(self)@.scan is Main),
        ensures
            agrees(step_scan(old(self)@, t@), f, final(self)@),
    {
        match t {
            XmlToken::Text { text } => match text {
                Ok(s) => {
                    let trimmed = trim_string(s.as_str());
                    self.set_scanned(trimmed);
                    Flow::Go
                },
                Err(m) => Flow::Fail(ParseError::XmlError(m.clone())),
            },
            XmlToken::End { .. } => {
                self.close_scan();
                Flow::Go
            },
            XmlToken::Eof => {
                self.close_scan();
                Flow::Go
            },
            _ => Flow::Go,
        }
    }

    /// One event.
    fn step(&mut self, t: &XmlToken) -> (f: Flow)
        requires
            name_leads(t@),
        ensures
            agrees(step(old(self)@, t@), f, final(self)@),
    {
        let at_top = match &self.scan {
            Scan::Main => true,
            _ => false,
        };
        if at_top {
            self.step_main(t)
        } else {
            self.step_scan(t)
        }
    }
}

/// Checks the required fields of `m` and expands its generic dependencies.
fn finish_manifest(m: PackageManifest) -> (r: Result<PackageManifest, ParseError>)
    ensures
        outcome_view(r) == finish(m@),
{
    if m.name.as_str().is_empty() {
        return Err(ParseError::MissingField(owned("name")));
    }
    if m.version.as_str().is_empty() {
        return Err(ParseError::MissingField(owned("version")));
    }
    if m.description.as_str().is_empty() {
        return Err(ParseError::MissingField(owned("description")));
    }
    if m.maintainers.len() == 0 {
        return Err(ParseError::MissingField(owned("maintainer")));
    }
    let mut m = m;
    let ghost before = m@;
    m.dependencies.expand_generic_depends();
    assert(m@ =~= (ManifestModel { deps: expand_generic(before.deps), ..before }));
    Ok(m)
}

/// The manifest described by the XML events `tokens` (those of a document,
/// up to its end or first error).
pub fn manifest_from_events(tokens: &Vec<XmlToken>) -> (r: Result<PackageManifest, ParseError>)
    requires
        forall|i: int| 0 <= i < tokens@.len() ==> name_leads(#[trigger] tokens@[i]@),
    ensures
        outcome_view(r) == manifest_outcome(token_views(tokens@)),
{
    let ghost toks = token_views(tokens@);
    let mut st = ParseState::new();
    let mut i: usize = 0;
    while i < tokens.len()
        invariant
            i <= tokens.len(),
            toks == token_views(tokens@),
            run(toks, i as int, st@) == run(toks, 0, initial_state()),
            forall|j: int| 0 <= j < tokens@.len() ==> name_leads(#[trigger] tokens@[j]@),
        decreases tokens.len() - i,
    {
        let ghost before = st@;
        assert(toks[i as int] == tokens@[i as int]@);
        let f = st.step(&tokens[i]);
        match f {
            Flow::Go => {},
            Flow::Finish => {
                return finish_manifest(st.manifest);
            },
            Flow::Fail(e) => {
                return Err(e);
            },
        }
        i += 1;
    }
    st.close_scan();
    finish_manifest(st.manifest)
}

/// The manifest of the package.xml text `xml_content`, or why it has none.
fn parse_manifest_internal(xml_content: &str) -> (r: Result<PackageManifest, ParseError>)
    ensures
        outcome_view(r) == manifest_outcome(xml_events(xml_content@)),
{
    let tokens = read_events(xml_content);
    manifest_from_events(&tokens)
}

/// Parses package.xml content into a manifest; a failure becomes a parse
/// error carrying the reason's message.
pub fn parse_package_manifest(xml_content: &str) -> (r: Result<PackageManifest, Error>)
    ensures
        match manifest_outcome(xml_events(xml_content@)) {
            Ok(m) => r matches Ok(p) && p@ == m,
            Err(e) => r matches Err(Error::ParseError { message }) && message@ == parse_error_text(e),
        },
{
    match parse_manifest_internal(xml_content) {
        Ok(m) => Ok(m),
        Err(e) => Err(Error::ParseError { message: e.to_text() }),
    }
}


/// Whether some dependency of `v` is named `n`.
pub open spec fn has_dep_named(v: Seq<DepModel>, n: Seq<char>) -> bool {
    exists|i: int| 0 <= i < v.len() && #[trigger] v[i].name == n
}

/// The build type of a manifest: the declared one, read without regard to
/// case; otherwise the first of ament_cmake, ament_python and cmake found
/// among the build tool dependencies; otherwise unknown.
pub open spec fn package_build_type(m: ManifestModel) -> BuildType {
    match m.build_type {
        Some(bt) => build_type_of(bt),
        None => if has_dep_named(m.deps.buildtool_depend, "ament_cmake"@) {
            BuildType::AmentCmake
        } else if has_dep_named(m.deps.buildtool_depend, "ament_python"@) {
            BuildType::AmentPython
        } else if has_dep_named(m.deps.buildtool_depend, "cmake"@) {
            BuildType::Cmake
        } else {
            BuildType::Unknown
        },
    }
}

/// The directory of a package whose manifest is the file `path`: the
/// parent, or `path` itself when it has none.
pub open spec fn package_dir(path: Seq<char>) -> Seq<char> {
    match path_parent(path) {
        Some(q) => q,
        None => path,
    }
}

/// The email of a person, empty when not given.
pub open spec fn email_or_empty(e: Option<Seq<char>>) -> Seq<char> {
    match e {
        Some(x) => x,
        None => Seq::empty(),
    }
}

/// `p` is the package that the manifest `m`, read from the file `path`, describes.
pub open spec fn package_of(p: Package, m: ManifestModel, path: Seq<char>) -> bool {
    &&& p.name@ == m.name
    &&& p.version@ == m.version
    &&& p.description@ == m.description
    &&& p.path@ == package_dir(path)
    &&& p.license@ == join(m.licenses, ", "@)
    &&& p.build_type == package_build_type(m)
    &&& p.maintainers@.len() == m.maintainers.len()
    &&& forall|i: int|
        0 <= i < m.maintainers.len() ==> (#[trigger] p.maintainers@[i]).name@ == m.maintainers[i].name
            && p.maintainers@[i].email@ == email_or_empty(m.maintainers[i].email)
    &&& views(p.dependencies.build@) == dep_names(m.deps.build_depend)
    &&& views(p.dependencies.build_export@) == dep_names(m.deps.build_export_depend)
    &&& views(p.dependencies.execution@) == dep_names(m.deps.exec_depend)
    &&& views(p.dependencies.test@) == dep_names(m.deps.test_depend)
    &&& views(p.dependencies.build_tool@) == dep_names(m.deps.buildtool_depend)
    &&& views(p.dependencies.doc@) == dep_names(m.deps.doc_depend)
}

/// The names of a list of dependencies.
fn names_of(v: &Vec<DependencySpec>) -> (r: Vec<String>)
    ensures
        views(r@) == dep_names(dep_models(v@)),
{
    let mut r: Vec<String> = Vec::new();
    extend_names(&mut r, v);
    assert(views(Seq::<String>::empty()) + dep_names(dep_models(v@)) =~= dep_names(dep_models(v@)));
    r
}

/// Whether some dependency of `v` is named `lit`.
fn any_named(v: &Vec<DependencySpec>, lit: &str) -> (r: bool)
    ensures
        r == has_dep_named(dep_models(v@), lit@),
{
    let mut k: usize = 0;
    while k < v.len()
        invariant
            k <= v.len(),
            forall|i: int| 0 <= i < k ==> v@[i].name@ != lit@,
        decreases v.len() - k,
    {
        if str_eq(v[k].name.as_str(), lit) {
            assert(dep_models(v@)[k as int].name == lit@);
            return true;
        }
        k += 1;
    }
    assert forall|i: int| 0 <= i < dep_models(v@).len() implies #[trigger] dep_models(v@)[i].name
        != lit@ by {
        assert(dep_models(v@)[i] == v@[i]@);
    }
    false
}

/// The build type of a manifest, declared or inferred from its build tools.
fn build_type_of_manifest(m: &PackageManifest) -> (r: BuildType)
    ensures
        r == package_build_type(m@),
{
    match &m.build_type {
        Some(bt) => BuildType::from_name(bt.as_str()),
        None => {
            let tools = &m.dependencies.buildtool_depend;
            if any_named(tools, "ament_cmake") {
                BuildType::AmentCmake
            } else if any_named(tools, "ament_python") {
                BuildType::AmentPython
            } else if any_named(tools, "cmake") {
                BuildType::Cmake
            } else {
                BuildType::Unknown
            }
        },
    }
}

/// The maintainers of a manifest, a missing email read as empty.
fn maintainers_of(v: &Vec<Person>) -> (r: Vec<Maintainer>)
    ensures
        r@.len() == v@.len(),
        forall|i: int|
            0 <= i < v@.len() ==> (#[trigger] r@[i]).name@ == v@[i].name@ && r@[i].email@
                == email_or_empty(opt_view(v@[i].email)),
{
    let mut r: Vec<Maintainer> = Vec::new();
    let mut k: usize = 0;
    while k < v.len()
        invariant
            k <= v.len(),
            r@.len() == k,
            forall|i: int|
                0 <= i < k ==> (#[trigger] r@[i]).name@ == v@[i].name@ && r@[i].email@
                    == email_or_empty(opt_view(v@[i].email)),
        decreases v.len() - k,
    {
        let p = &v[k];
        let email = match &p.email {
            Some(e) => e.clone(),
            None => String::new(),
        };
        r.push(Maintainer { name: p.name.clone(), email });
        k += 1;
    }
    r
}

/// The package that the manifest `manifest`, read from the file `path`, describes.
pub fn manifest_to_package(manifest: PackageManifest, path: &str) -> (r: Package)
    ensures
        package_of(r, manifest@, path@),
{
    let build_type = build_type_of_manifest(&manifest);
    let dependencies = Dependencies {
        build: names_of(&manifest.dependencies.build_depend),
        build_export: names_of(&manifest.dependencies.build_export_depend),
        execution: names_of(&manifest.dependencies.exec_depend),
        test: names_of(&manifest.dependencies.test_depend),
        build_tool: names_of(&manifest.dependencies.buildtool_depend),
        doc: names_of(&manifest.dependencies.doc_depend),
    };
    let maintainers = maintainers_of(&manifest.maintainers);
    let dir = match parent_of(path) {
        Some(q) => q,
        None => owned(path),
    };
    let license = join_strings(&manifest.licenses, ", ");
    let r = Package {
        name: manifest.name,
        version: manifest.version,
        description: manifest.description,
        path: dir,
        maintainers,
        license,
        build_type,
        dependencies,
    };
    proof {
        assert forall|i: int| 0 <= i < manifest@.maintainers.len() implies (
        #[trigger] r.maintainers@[i]).name@ == manifest@.maintainers[i].name
            && r.maintainers@[i].email@ == email_or_empty(manifest@.maintainers[i].email) by {
            assert(manifest@.maintainers[i] == manifest.maintainers@[i]@);
        }
    }
    r
}

/// The package described by the package.xml text `content` of the file
/// `path`, or a parse error that names the file and the reason.
pub fn package_from_xml(content: &str, path: &str) -> (r: Result<Package, Error>)
    ensures
        match manifest_outcome(xml_events(content@)) {
            Ok(m) => r matches Ok(p) && package_of(p, m, path@),
            Err(e) => r matches Err(Error::ParseError { message }) && message@ == "Failed to parse "@
                + path@ + ": "@ + "Parse error: "@ + parse_error_text(e),
        },
{
    match parse_manifest_internal(content) {
        Ok(m) => Ok(manifest_to_package(m, path)),
        Err(e) => {
            let mut message = owned("Failed to parse ");
            message.append(path);
            message.append(": ");
            message.append("Parse error: ");
            message.append(e.to_text().as_str());
            Err(Error::ParseError { message })
        },
    }
}


/// Reading a dependency tag at the top level starts a dependency of that
/// kind whose bounds and condition are the values of the tag's attributes
/// of the same names: `version_eq`, `version_gte`, `version_lte`,
/// `version_gt`, `version_lt` and `condition` (the last such attribute when
/// one is repeated), and whose name is still to be read.
pub proof fn law_dependency_bounds_from_attributes(
    st: ParseModel,
    name: Seq<char>,
    raw: Seq<char>,
    attrs: Seq<(Seq<char>, Seq<char>)>,
)
    requires
        is_dep_tag(name),
        xml_tag_attributes(raw, name) == Ok::<_, Seq<char>>(attrs),
    ensures
        step_start(st, name, raw) matches Step::Next(n) && n.scan matches ScanModel::Dep { kind, dep } && {
            &&& kind == name
            &&& dep.name.len() == 0
            &&& dep.version_eq == attr_value(attrs, "version_eq"@)
            &&& dep.version_gte == attr_value(attrs, "version_gte"@)
            &&& dep.version_lte == attr_value(attrs, "version_lte"@)
            &&& dep.version_gt == attr_value(attrs, "version_gt"@)
            &&& dep.version_lt == attr_value(attrs, "version_lt"@)
            &&& dep.condition == attr_value(attrs, "condition"@)
        },
{
    reveal_strlit("export");
    reveal_strlit("build_depend");
    reveal_strlit("build_export_depend");
    reveal_strlit("buildtool_depend");
    reveal_strlit("buildtool_export_depend");
    reveal_strlit("exec_depend");
    reveal_strlit("test_depend");
    reveal_strlit("doc_depend");
    reveal_strlit("depend");
    assert(name != "export"@) by {
        if name == "export"@ {
            assert(name.len() == 6);
            assert(name[0] == 'e');
        }
    }
}

/// An attribute's value is the value of the last attribute of that name:
/// `attr_value` finds exactly that one.
pub proof fn law_attribute_value_is_last_of_name(attrs: Seq<(Seq<char>, Seq<char>)>, key: Seq<char>, i: int)
    requires
        0 <= i < attrs.len(),
        attrs[i].0 == key,
        forall|j: int| i < j < attrs.len() ==> attrs[j].0 != key,
    ensures
        attr_value(attrs, key) == Some(attrs[i].1),
    decreases attrs.len(),
{
    if i < attrs.len() - 1 {
        law_attribute_value_is_last_of_name(attrs.drop_last(), key, i);
    }
}

/// A key that no attribute has gives no value.
pub proof fn law_attribute_absent(attrs: Seq<(Seq<char>, Seq<char>)>, key: Seq<char>)
    requires
        forall|j: int| 0 <= j < attrs.len() ==> attrs[j].0 != key,
    ensures
        attr_value(attrs, key) is None,
    decreases attrs.len(),
{
    if attrs.len() > 0 {
        law_attribute_absent(attrs.drop_last(), key);
    }
}
} // verus!
