//! Checks of a package's `debian` directory.
//!
//! The directory is handed over as a snapshot of what was found on disk: which
//! of the known entries exist, and the text (or the read error) of the files
//! that are inspected. The checks themselves are decided here.
use vstd::prelude::*;
use crate::debian_error::{DebianError, DebianErrorView};
use crate::text::{
    chars_of, chars_eq_str, contains_str, contains_sub, is_prefix, join, join_strings, owned,
    push_decimal, starts_with, starts_with_str, str_eq, trim, trim_chars, views, decimal,
};
use crate::xml::result_view;

verus! {

/// What was found of a package's debian directory.
#[derive(Debug, PartialEq, Eq)]
pub struct DebianDirectory {
    /// Whether the path exists
    pub exists: bool,
    /// Whether the path is a directory
    pub is_dir: bool,
    /// The known entries (required and optional files, `source`) that exist in it
    pub present: Vec<String>,
    /// Text of `control`, or the message of the read error
    pub control: Result<String, String>,
    /// Text of `changelog`, or the message of the read error
    pub changelog: Result<String, String>,
    /// Text of `copyright`, or the message of the read error
    pub copyright: Result<String, String>,
    /// Text of `rules`, or the message of the read error
    pub rules: Result<String, String>,
    /// Permission bits of `rules`, or the message of the metadata error
    pub rules_mode: Result<u32, String>,
    /// Whether `source/format` exists
    pub source_format_present: bool,
    /// Text of `source/format`, or the message of the read error
    pub source_format: Result<String, String>,
}

/// Debian directory validator.
#[derive(Debug, Clone, Copy, PartialEq, Eq)]
pub struct DebianValidator {
    strict_mode: bool,
}

/// Result of a debian directory validation.
#[derive(Debug, Clone, PartialEq, Eq)]
pub struct ValidationResult {
    /// Whether the directory is valid
    pub is_valid: bool,
    /// Files that were found
    pub found_files: Vec<String>,
    /// Files that are missing
    pub missing_files: Vec<String>,
    /// Validation warnings
    pub warnings: Vec<String>,
    /// Validation errors
    pub errors: Vec<String>,
}

/// Model of a `ValidationResult`.
#[verifier::ext_equal]
pub struct ValidationModel {
    pub is_valid: bool,
    pub found_files: Seq<Seq<char>>,
    pub missing_files: Seq<Seq<char>>,
    pub warnings: Seq<Seq<char>>,
    pub errors: Seq<Seq<char>>,
}

impl View for ValidationResult {
    type V = ValidationModel;

    open spec fn view(&self) -> ValidationModel {
        ValidationModel {
            is_valid: self.is_valid,
            found_files: views(self.found_files@),
            missing_files: views(self.missing_files@),
            warnings: views(self.warnings@),
            errors: views(self.errors@),
        }
    }
}

/// A result with nothing found and not yet valid.
pub open spec fn empty_validation() -> ValidationModel {
    ValidationModel {
        is_valid: false,
        found_files: Seq::empty(),
        missing_files: Seq::empty(),
        warnings: Seq::empty(),
        errors: Seq::empty(),
    }
}

/// `r` with the warning `w` added.
pub open spec fn warn(r: ValidationModel, w: Seq<char>) -> ValidationModel {
    ValidationModel { warnings: r.warnings.push(w), ..r }
}

/// `r`, with the warning `w` added unless `ok`.
pub open spec fn warn_unless(r: ValidationModel, ok: bool, w: Seq<char>) -> ValidationModel {
    if ok {
        r
    } else {
        warn(r, w)
    }
}

/// `[name]` when `needle` is missing from `c`, else nothing.
pub open spec fn missing_if(c: Seq<char>, needle: Seq<char>, name: Seq<char>) -> Seq<Seq<char>> {
    if contains_sub(c, needle) {
        Seq::empty()
    } else {
        seq![name]
    }
}

/// The required control fields that `c` lacks, in order.
pub open spec fn control_missing(c: Seq<char>) -> Seq<Seq<char>> {
    missing_if(c, "Package:"@, "Package"@) + missing_if(c, "Architecture:"@, "Architecture"@)
        + missing_if(c, "Maintainer:"@, "Maintainer"@) + missing_if(
        c,
        "Description:"@,
        "Description"@,
    )
}

/// `r` with the warnings of the control text `c`.
pub open spec fn control_warnings(r: ValidationModel, c: Seq<char>) -> ValidationModel {
    let r1 = warn_unless(r, contains_sub(c, "Package:"@), "Missing required field in control: Package"@);
    let r2 = warn_unless(
        r1,
        contains_sub(c, "Architecture:"@),
        "Missing required field in control: Architecture"@,
    );
    let r3 = warn_unless(
        r2,
        contains_sub(c, "Maintainer:"@),
        "Missing required field in control: Maintainer"@,
    );
    let r4 = warn_unless(
        r3,
        contains_sub(c, "Description:"@),
        "Missing required field in control: Description"@,
    );
    let r5 = warn_unless(r4, contains_sub(c, "Source:"@), "Missing Source field in control file"@);
    let r6 = warn_unless(r5, contains_sub(c, "Priority:"@), "Missing Priority field in control file"@);
    warn_unless(r6, contains_sub(c, "Section:"@), "Missing Section field in control file"@)
}

/// Checks of `debian/control`; in strict mode a missing required field is an error.
pub open spec fn check_control(
    strict: bool,
    pkg: Seq<char>,
    content: Result<Seq<char>, Seq<char>>,
    r: ValidationModel,
) -> Result<ValidationModel, DebianErrorView> {
    match content {
        Err(m) => Err(
            DebianErrorView::InvalidControlFile {
                package: pkg,
                reason: "Cannot read control file: "@ + m,
            },
        ),
        Ok(c) => if control_missing(c).len() > 0 && strict {
            Err(
                DebianErrorView::InvalidControlFile {
                    package: pkg,
                    reason: "Missing required fields: "@ + join(control_missing(c), ", "@),
                },
            )
        } else {
            Ok(control_warnings(r, c))
        },
    }
}

/// The index of the first newline at or after `i`, or the length.
pub open spec fn newline_from(c: Seq<char>, i: int) -> int
    decreases c.len() - i,
{
    if i < 0 || i >= c.len() {
        c.len() as int
    } else if c[i] == '\n' {
        i
    } else {
        newline_from(c, i + 1)
    }
}

/// The first line of `c` (`str::lines`): up to the first newline, without
/// the carriage return that ends it.
pub open spec fn first_line(c: Seq<char>) -> Seq<char> {
    let k = newline_from(c, 0);
    if 0 < k < c.len() && c[k - 1] == '\r' {
        c.subrange(0, k - 1)
    } else {
        c.subrange(0, k)
    }
}

/// Checks of `debian/changelog`.
pub open spec fn check_changelog(
    pkg: Seq<char>,
    content: Result<Seq<char>, Seq<char>>,
    r: ValidationModel,
) -> Result<ValidationModel, DebianErrorView> {
    match content {
        Err(m) => Err(
            DebianErrorView::InvalidControlFile {
                package: pkg,
                reason: "Cannot read changelog file: "@ + m,
            },
        ),
        Ok(c) => if c.len() == 0 {
            Ok(warn(r, "Changelog file is empty"@))
        } else {
            let line = first_line(c);
            let r1 = warn_unless(
                r,
                is_prefix(pkg, line) || line.contains('('),
                "Changelog doesn't start with proper package entry"@,
            );
            Ok(warn_unless(r1, contains_sub(c, " -- "@), "Changelog missing proper signature line"@))
        },
    }
}

/// Checks of `debian/copyright`.
pub open spec fn check_copyright(
    pkg: Seq<char>,
    content: Result<Seq<char>, Seq<char>>,
    r: ValidationModel,
) -> Result<ValidationModel, DebianErrorView> {
    match content {
        Err(m) => Err(
            DebianErrorView::InvalidControlFile {
                package: pkg,
                reason: "Cannot read copyright file: "@ + m,
            },
        ),
        Ok(c) => if c.len() == 0 {
            Ok(warn(r, "Copyright file is empty"@))
        } else {
            Ok(
                warn_unless(
                    r,
                    contains_sub(c, "Copyright"@) || contains_sub(c, "License"@) || contains_sub(
                        c,
                        "Source"@,
                    ),
                    "Copyright file lacks common copyright information"@,
                ),
            )
        },
    }
}

/// The text of a result whose error is a message.
pub open spec fn mode_view(m: Result<u32, String>) -> Result<u32, Seq<char>> {
    match m {
        Ok(b) => Ok(b),
        Err(e) => Err(e@),
    }
}

/// Checks of `debian/rules`: executable, with a shebang and the build,
/// binary and clean targets.
pub open spec fn check_rules(
    pkg: Seq<char>,
    content: Result<Seq<char>, Seq<char>>,
    mode: Result<u32, Seq<char>>,
    r: ValidationModel,
) -> Result<ValidationModel, DebianErrorView> {
    match content {
        Err(m) => Err(
            DebianErrorView::InvalidControlFile { package: pkg, reason: "Cannot read rules file: "@ + m },
        ),
        Ok(c) => match mode {
            Err(m) => Err(
                DebianErrorView::InvalidControlFile {
                    package: pkg,
                    reason: "Cannot read rules file metadata: "@ + m,
                },
            ),
            Ok(bits) => {
                let r1 = warn_unless(r, bits & 0o111u32 != 0, "Rules file is not executable"@);
                let r2 = warn_unless(r1, is_prefix("#!/"@, c), "Rules file missing shebang"@);
                let r3 = warn_unless(r2, contains_sub(c, "build:"@), "Rules file missing build target"@);
                let r4 = warn_unless(
                    r3,
                    contains_sub(c, "binary:"@),
                    "Rules file missing binary target"@,
                );
                Ok(warn_unless(r4, contains_sub(c, "clean:"@), "Rules file missing clean target"@))
            },
        },
    }
}

/// Checks of `debian/source`: its format file names a known format.
pub open spec fn check_source(
    pkg: Seq<char>,
    format_present: bool,
    content: Result<Seq<char>, Seq<char>>,
    r: ValidationModel,
) -> Result<ValidationModel, DebianErrorView> {
    if !format_present {
        Ok(warn(r, "Missing debian/source/format file"@))
    } else {
        match content {
            Err(m) => Err(
                DebianErrorView::InvalidControlFile {
                    package: pkg,
                    reason: "Cannot read source/format file: "@ + m,
                },
            ),
            Ok(c) => {
                let v = trim(c);
                Ok(
                    warn_unless(
                        r,
                        v == "3.0 (native)"@ || v == "3.0 (quilt)"@,
                        "Unknown source format: "@ + v,
                    ),
                )
            },
        }
    }
}

/// Whether the entry `name` exists in the directory.
pub open spec fn is_present(d: DebianDirectory, name: Seq<char>) -> bool {
    views(d.present@).contains(name)
}

/// The check of the required file `name`: recorded as found and inspected,
/// or recorded as missing (an error in strict mode).
pub open spec fn check_required(
    strict: bool,
    pkg: Seq<char>,
    d: DebianDirectory,
    name: Seq<char>,
    r: ValidationModel,
) -> Result<ValidationModel, DebianErrorView> {
    if is_present(d, name) {
        let r1 = ValidationModel { found_files: r.found_files.push(name), ..r };
        if name == "control"@ {
            check_control(strict, pkg, result_view(d.control), r1)
        } else if name == "changelog"@ {
            check_changelog(pkg, result_view(d.changelog), r1)
        } else if name == "copyright"@ {
            check_copyright(pkg, result_view(d.copyright), r1)
        } else if name == "rules"@ {
            check_rules(pkg, result_view(d.rules), mode_view(d.rules_mode), r1)
        } else {
            Ok(r1)
        }
    } else if strict {
        Err(DebianErrorView::MissingRequiredFile { package: pkg, file: name })
    } else {
        Ok(ValidationModel { missing_files: r.missing_files.push(name), ..r })
    }
}

/// `r` with `name` recorded as found when it exists.
pub open spec fn note_optional(d: DebianDirectory, name: Seq<char>, r: ValidationModel) -> ValidationModel {
    if is_present(d, name) {
        ValidationModel { found_files: r.found_files.push(name), ..r }
    } else {
        r
    }
}

/// `r` with the optional files that exist recorded as found, in order.
pub open spec fn optional_found(d: DebianDirectory, r: ValidationModel) -> ValidationModel {
    let r1 = note_optional(d, "compat"@, r);
    let r2 = note_optional(d, "install"@, r1);
    let r3 = note_optional(d, "postinst"@, r2);
    let r4 = note_optional(d, "prerm"@, r3);
    let r5 = note_optional(d, "postrm"@, r4);
    let r6 = note_optional(d, "preinst"@, r5);
    let r7 = note_optional(d, "triggers"@, r6);
    note_optional(d, "watch"@, r7)
}

/// The last checks: optional files, the source directory, and validity
/// (no required file missing).
pub open spec fn finish_validation(pkg: Seq<char>, d: DebianDirectory, r: ValidationModel) -> Result<
    ValidationModel,
    DebianErrorView,
> {
    let r1 = optional_found(d, r);
    let checked = if is_present(d, "source"@) {
        check_source(pkg, d.source_format_present, result_view(d.source_format), r1)
    } else {
        Ok(r1)
    };
    match checked {
        Err(e) => Err(e),
        Ok(r2) => Ok(ValidationModel { is_valid: r2.missing_files.len() == 0, ..r2 }),
    }
}

/// The validation of the debian directory `d` of the package `pkg`.
pub open spec fn validation_outcome(strict: bool, d: DebianDirectory, pkg: Seq<char>) -> Result<
    ValidationModel,
    DebianErrorView,
> {
    if !d.exists {
        Err(DebianErrorView::MissingRequiredFile { package: pkg, file: "debian directory"@ })
    } else if !d.is_dir {
        Err(
            DebianErrorView::InvalidControlFile {
                package: pkg,
                reason: "debian path is not a directory"@,
            },
        )
    } else {
        match check_required(strict, pkg, d, "control"@, empty_validation()) {
            Err(e) => Err(e),
            Ok(r1) => match check_required(strict, pkg, d, "changelog"@, r1) {
                Err(e) => Err(e),
                Ok(r2) => match check_required(strict, pkg, d, "copyright"@, r2) {
                    Err(e) => Err(e),
                    Ok(r3) => match check_required(strict, pkg, d, "rules"@, r3) {
                        Err(e) => Err(e),
                        Ok(r4) => finish_validation(pkg, d, r4),
                    },
                },
            },
        }
    }
}

/// The model of a validation's result.
pub open spec fn validation_view(r: Result<ValidationResult, DebianError>) -> Result<
    ValidationModel,
    DebianErrorView,
> {
    match r {
        Ok(v) => Ok(v@),
        Err(e) => Err(e@),
    }
}

/// The outcome `r` of a check that updates `old` into `new` is the one `spec` describes.
pub open spec fn check_agrees(
    spec: Result<ValidationModel, DebianErrorView>,
    r: Result<(), DebianError>,
    new: ValidationModel,
) -> bool {
    match spec {
        Ok(m) => r is Ok && new == m,
        Err(e) => r matches Err(x) && x@ == e,
    }
}


/// Adds the warning `w`.
fn add_warning(result: &mut ValidationResult, w: &str)
    ensures
        final(result)@ == warn(old(result)@, w@),
{
    let s = owned(w);
    proof {
        crate::text::lemma_views_push(result.warnings@, s);
    }
    result.warnings.push(s);
    assert(result@ =~= warn(old(result)@, w@));
}

/// An invalid-control-file error whose reason is `prefix` followed by `detail`.
fn control_error(package_name: &str, prefix: &str, detail: &str) -> (e: DebianError)
    ensures
        e@ == (DebianErrorView::InvalidControlFile {
            package: package_name@,
            reason: prefix@ + detail@,
        }),
{
    let mut reason = owned(prefix);
    reason.append(detail);
    DebianError::InvalidControlFile { package: owned(package_name), reason }
}

/// Adds `name` to `missing` when `needle` is not in `c`.
fn note_missing(c: &Vec<char>, needle: &str, name: &str, missing: &mut Vec<String>)
    ensures
        views(final(missing)@) == views(old(missing)@) + missing_if(c@, needle@, name@),
{
    if contains_str(c, needle) {
        assert(views(missing@) =~= views(old(missing)@) + missing_if(c@, needle@, name@));
    } else {
        let s = owned(name);
        proof {
            crate::text::lemma_views_push(missing@, s);
        }
        missing.push(s);
        assert(views(missing@) =~= views(old(missing)@) + missing_if(c@, needle@, name@));
    }
}

/// Adds the warning `w` unless `ok`.
fn warn_if_not(result: &mut ValidationResult, ok: bool, w: &str)
    ensures
        final(result)@ == warn_unless(old(result)@, ok, w@),
{
    if !ok {
        add_warning(result, w);
    }
}

/// The index of the first newline of `c`, or its length.
fn first_newline(c: &Vec<char>) -> (k: usize)
    ensures
        k <= c.len(),
        k == newline_from(c@, 0),
{
    let mut k: usize = 0;
    while k < c.len() && c[k] != '\n'
        invariant
            k <= c.len(),
            newline_from(c@, 0) == newline_from(c@, k as int),
        decreases c.len() - k,
    {
        k += 1;
    }
    k
}

/// The first line of `c`.
fn first_line_of(c: &Vec<char>) -> (r: Vec<char>)
    ensures
        r@ == first_line(c@),
{
    let k = first_newline(c);
    if 0 < k && k < c.len() && c[k - 1] == '\r' {
        crate::text::slice(c, 0, k - 1)
    } else {
        crate::text::slice(c, 0, k)
    }
}

/// Whether `c` contains the character `x`.
fn has_char(c: &Vec<char>, x: char) -> (r: bool)
    ensures
        r == c@.contains(x),
{
    let mut k: usize = 0;
    while k < c.len()
        invariant
            k <= c.len(),
            forall|i: int| 0 <= i < k ==> c@[i] != x,
        decreases c.len() - k,
    {
        if c[k] == x {
            assert(c@[k as int] == x);
            return true;
        }
        k += 1;
    }
    false
}

/// Whether `name` is among the entries found.
fn present(d: &DebianDirectory, name: &str) -> (r: bool)
    ensures
        r == is_present(*d, name@),
{
    let mut k: usize = 0;
    while k < d.present.len()
        invariant
            k <= d.present.len(),
            forall|i: int| 0 <= i < k ==> d.present@[i]@ != name@,
        decreases d.present.len() - k,
    {
        if str_eq(d.present[k].as_str(), name) {
            assert(views(d.present@)[k as int] == name@);
            return true;
        }
        k += 1;
    }
    assert forall|i: int| 0 <= i < views(d.present@).len() implies views(d.present@)[i] != name@ by {
        assert(views(d.present@)[i] == d.present@[i]@);
    }
    false
}

impl DebianValidator {
    /// Whether a missing required file or control field is an error.
    pub closed spec fn is_strict(&self) -> bool {
        self.strict_mode
    }

    /// A validator, strict or not.
    pub fn new(strict_mode: bool) -> (r: Self)
        ensures
            r.is_strict() == strict_mode,
    {
        DebianValidator { strict_mode }
    }

    /// Checks of `debian/control`.
    fn validate_control_file(
        &self,
        content: &Result<String, String>,
        package_name: &str,
        result: &mut ValidationResult,
    ) -> (r: Result<(), DebianError>)
        ensures
            check_agrees(
                check_control(self.is_strict(), package_name@, result_view(*content), old(result)@),
                r,
                final(result)@,
            ),
    {
        let text = match content {
            Ok(t) => t,
            Err(m) => {
                return Err(control_error(package_name, "Cannot read control file: ", m.as_str()));
            },
        };
        let c = chars_of(text.as_str());
        let mut missing: Vec<String> = Vec::new();
        note_missing(&c, "Package:", "Package", &mut missing);
        note_missing(&c, "Architecture:", "Architecture", &mut missing);
        note_missing(&c, "Maintainer:", "Maintainer", &mut missing);
        note_missing(&c, "Description:", "Description", &mut missing);
        assert(views(missing@) =~= control_missing(c@));
        if missing.len() > 0 && self.strict_mode {
            let joined = join_strings(&missing, ", ");
            return Err(control_error(package_name, "Missing required fields: ", joined.as_str()));
        }
        let ok = contains_str(&c, "Package:");
        warn_if_not(result, ok, "Missing required field in control: Package");
        let ok = contains_str(&c, "Architecture:");
        warn_if_not(result, ok, "Missing required field in control: Architecture");
        let ok = contains_str(&c, "Maintainer:");
        warn_if_not(result, ok, "Missing required field in control: Maintainer");
        let ok = contains_str(&c, "Description:");
        warn_if_not(result, ok, "Missing required field in control: Description");
        let ok = contains_str(&c, "Source:");
        warn_if_not(result, ok, "Missing Source field in control file");
        let ok = contains_str(&c, "Priority:");
        warn_if_not(result, ok, "Missing Priority field in control file");
        let ok = contains_str(&c, "Section:");
        warn_if_not(result, ok, "Missing Section field in control file");
        Ok(())
    }

    /// Checks of `debian/changelog`.
    fn validate_changelog_file(
        &self,
        content: &Result<String, String>,
        package_name: &str,
        result: &mut ValidationResult,
    ) -> (r: Result<(), DebianError>)
        ensures
            check_agrees(
                check_changelog(package_name@, result_view(*content), old(result)@),
                r,
                final(result)@,
            ),
    {
        let text = match content {
            Ok(t) => t,
            Err(m) => {
                return Err(control_error(package_name, "Cannot read changelog file: ", m.as_str()));
            },
        };
        let c = chars_of(text.as_str());
        if c.len() == 0 {
            add_warning(result, "Changelog file is empty");
            return Ok(());
        }
        let line = first_line_of(&c);
        let pkg = chars_of(package_name);
        let ok = starts_with(&line, &pkg) || has_char(&line, '(');
        warn_if_not(result, ok, "Changelog doesn't start with proper package entry");
        let ok = contains_str(&c, " -- ");
        warn_if_not(result, ok, "Changelog missing proper signature line");
        Ok(())
    }

    /// Checks of `debian/copyright`.
    fn validate_copyright_file(
        &self,
        content: &Result<String, String>,
        package_name: &str,
        result: &mut ValidationResult,
    ) -> (r: Result<(), DebianError>)
        ensures
            check_agrees(
                check_copyright(package_name@, result_view(*content), old(result)@),
                r,
                final(result)@,
            ),
    {
        let text = match content {
            Ok(t) => t,
            Err(m) => {
                return Err(control_error(package_name, "Cannot read copyright file: ", m.as_str()));
            },
        };
        let c = chars_of(text.as_str());
        if c.len() == 0 {
            add_warning(result, "Copyright file is empty");
            return Ok(());
        }
        let ok = contains_str(&c, "Copyright") || contains_str(&c, "License") || contains_str(
            &c,
            "Source",
        );
        warn_if_not(result, ok, "Copyright file lacks common copyright information");
        Ok(())
    }

    /// Checks of `debian/rules`.
    fn validate_rules_file(
        &self,
        content: &Result<String, String>,
        mode: &Result<u32, String>,
        package_name: &str,
        result: &mut ValidationResult,
    ) -> (r: Result<(), DebianError>)
        ensures
            check_agrees(
                check_rules(package_name@, result_view(*content), mode_view(*mode), old(result)@),
                r,
                final(result)@,
            ),
    {
        let text = match content {
            Ok(t) => t,
            Err(m) => {
                return Err(control_error(package_name, "Cannot read rules file: ", m.as_str()));
            },
        };
        let bits = match mode {
            Ok(b) => *b,
            Err(m) => {
                return Err(
                    control_error(package_name, "Cannot read rules file metadata: ", m.as_str()),
                );
            },
        };
        warn_if_not(result, bits & 0o111u32 != 0, "Rules file is not executable");
        let c = chars_of(text.as_str());
        let ok = starts_with_str(&c, "#!/");
        warn_if_not(result, ok, "Rules file missing shebang");
        let ok = contains_str(&c, "build:");
        warn_if_not(result, ok, "Rules file missing build target");
        let ok = contains_str(&c, "binary:");
        warn_if_not(result, ok, "Rules file missing binary target");
        let ok = contains_str(&c, "clean:");
        warn_if_not(result, ok, "Rules file missing clean target");
        Ok(())
    }

    /// Checks of `debian/source`.
    fn validate_source_directory(
        &self,
        format_present: bool,
        content: &Result<String, String>,
        package_name: &str,
        result: &mut ValidationResult,
    ) -> (r: Result<(), DebianError>)
        ensures
            check_agrees(
                check_source(package_name@, format_present, result_view(*content), old(result)@),
                r,
                final(result)@,
            ),
    {
        if !format_present {
            add_warning(result, "Missing debian/source/format file");
            return Ok(());
        }
        let text = match content {
            Ok(t) => t,
            Err(m) => {
                return Err(
                    control_error(package_name, "Cannot read source/format file: ", m.as_str()),
                );
            },
        };
        let c = chars_of(text.as_str());
        let v = trim_chars(&c);
        if chars_eq_str(&v, "3.0 (native)") || chars_eq_str(&v, "3.0 (quilt)") {
            return Ok(());
        }
        let mut w = owned("Unknown source format: ");
        let vs = crate::text::string_of(&v);
        w.append(vs.as_str());
        add_warning(result, w.as_str());
        Ok(())
    }

    /// The check of the required file `name`.
    fn check_required_file(
        &self,
        d: &DebianDirectory,
        package_name: &str,
        name: &str,
        result: &mut ValidationResult,
    ) -> (r: Result<(), DebianError>)
        ensures
            check_agrees(
                check_required(self.is_strict(), package_name@, *d, name@, old(result)@),
                r,
                final(result)@,
            ),
    {
        if present(d, name) {
            let s = owned(name);
            proof {
                crate::text::lemma_views_push(result.found_files@, s);
            }
            result.found_files.push(s);
            assert(result@ =~= ValidationModel {
                found_files: old(result)@.found_files.push(name@),
                ..old(result)@
            });
            if str_eq(name, "control") {
                self.validate_control_file(&d.control, package_name, result)
            } else if str_eq(name, "changelog") {
                self.validate_changelog_file(&d.changelog, package_name, result)
            } else if str_eq(name, "copyright") {
                self.validate_copyright_file(&d.copyright, package_name, result)
            } else if str_eq(name, "rules") {
                self.validate_rules_file(&d.rules, &d.rules_mode, package_name, result)
            } else {
                Ok(())
            }
        } else if self.strict_mode {
            Err(
                DebianError::MissingRequiredFile {
                    package: owned(package_name),
                    file: owned(name),
                },
            )
        } else {
            let s = owned(name);
            proof {
                crate::text::lemma_views_push(result.missing_files@, s);
            }
            result.missing_files.push(s);
            assert(result@ =~= ValidationModel {
                missing_files: old(result)@.missing_files.push(name@),
                ..old(result)@
            });
            Ok(())
        }
    }

    /// Records the optional file `name` as found when it exists.
    fn note_optional_file(&self, d: &DebianDirectory, name: &str, result: &mut ValidationResult)
        ensures
            final(result)@ == note_optional(*d, name@, old(result)@),
    {
        if present(d, name) {
            let s = owned(name);
            proof {
                crate::text::lemma_views_push(result.found_files@, s);
            }
            result.found_files.push(s);
            assert(result@ =~= note_optional(*d, name@, old(result)@));
        }
    }

    /// Validates a debian directory: its required files (control,
    /// changelog, copyright, rules), its optional files and its source
    /// directory. It is valid when no required file is missing; in strict
    /// mode a missing required file or control field is an error.
    pub fn validate_debian_directory(&self, debian_dir: &DebianDirectory, package_name: &str) -> (r:
        Result<ValidationResult, DebianError>)
        ensures
            validation_view(r) == validation_outcome(self.is_strict(), *debian_dir, package_name@),
    {
        if !debian_dir.exists {
            return Err(
                DebianError::MissingRequiredFile {
                    package: owned(package_name),
                    file: owned("debian directory"),
                },
            );
        }
        if !debian_dir.is_dir {
            return Err(
                DebianError::InvalidControlFile {
                    package: owned(package_name),
                    reason: owned("debian path is not a directory"),
                },
            );
        }
        let mut result = ValidationResult::new();
        assert(result@ =~= empty_validation());
        let d = debian_dir;
        match self.check_required_file(d, package_name, "control", &mut result) {
            Ok(()) => {},
            Err(e) => return Err(e),
        }
        match self.check_required_file(d, package_name, "changelog", &mut result) {
            Ok(()) => {},
            Err(e) => return Err(e),
        }
        match self.check_required_file(d, package_name, "copyright", &mut result) {
            Ok(()) => {},
            Err(e) => return Err(e),
        }
        match self.check_required_file(d, package_name, "rules", &mut result) {
            Ok(()) => {},
            Err(e) => return Err(e),
        }
        let ghost r4 = result@;
        self.note_optional_file(d, "compat", &mut result);
        self.note_optional_file(d, "install", &mut result);
        self.note_optional_file(d, "postinst", &mut result);
        self.note_optional_file(d, "prerm", &mut result);
        self.note_optional_file(d, "postrm", &mut result);
        self.note_optional_file(d, "preinst", &mut result);
        self.note_optional_file(d, "triggers", &mut result);
        self.note_optional_file(d, "watch", &mut result);
        assert(result@ == optional_found(*d, r4));
        if present(d, "source") {
            match self.validate_source_directory(
                d.source_format_present,
                &d.source_format,
                package_name,
                &mut result,
            ) {
                Ok(()) => {},
                Err(e) => return Err(e),
            }
        }
        result.is_valid = result.missing_files.len() == 0;
        Ok(result)
    }

    /// Whether all required files (control, changelog, copyright, rules) exist.
    pub fn is_complete_debian_directory(&self, debian_dir: &DebianDirectory) -> (r: bool)
        ensures
            r == (is_present(*debian_dir, "control"@) && is_present(*debian_dir, "changelog"@)
                && is_present(*debian_dir, "copyright"@) && is_present(*debian_dir, "rules"@)),
    {
        present(debian_dir, "control") && present(debian_dir, "changelog") && present(
            debian_dir,
            "copyright",
        ) && present(debian_dir, "rules")
    }
}

impl Default for DebianValidator {
    fn default() -> (r: Self)
        ensures
            !r.is_strict(),
    {
        DebianValidator::new(false)
    }
}

/// How a validation summary reads.
pub open spec fn summary_text(r: ValidationModel) -> Seq<char> {
    "Valid: "@ + (if r.is_valid { "true"@ } else { "false"@ }) + ", Found: "@ + decimal(
        r.found_files.len(),
    ) + ", Missing: "@ + decimal(r.missing_files.len()) + ", Warnings: "@ + decimal(
        r.warnings.len(),
    ) + ", Errors: "@ + decimal(r.errors.len())
}

impl ValidationResult {
    /// An empty result, not yet valid.
    pub fn new() -> (r: Self)
        ensures
            r@ == empty_validation(),
    {
        let r = ValidationResult {
            is_valid: false,
            found_files: Vec::new(),
            missing_files: Vec::new(),
            warnings: Vec::new(),
            errors: Vec::new(),
        };
        assert(r@ =~= empty_validation());
        r
    }

    /// Whether the directory is valid with no warning and no error.
    pub fn is_clean(&self) -> (r: bool)
        ensures
            r == (self@.is_valid && self@.warnings.len() == 0 && self@.errors.len() == 0),
    {
        self.is_valid && self.warnings.len() == 0 && self.errors.len() == 0
    }

    /// A one-line summary of the counts.
    pub fn summary(&self) -> (r: String)
        ensures
            r@ == summary_text(self@),
    {
        let mut r = owned("Valid: ");
        if self.is_valid {
            r.append("true");
        } else {
            r.append("false");
        }
        r.append(", Found: ");
        push_decimal(&mut r, self.found_files.len() as u64);
        r.append(", Missing: ");
        push_decimal(&mut r, self.missing_files.len() as u64);
        r.append(", Warnings: ");
        push_decimal(&mut r, self.warnings.len() as u64);
        r.append(", Errors: ");
        push_decimal(&mut r, self.errors.len() as u64);
        r
    }
}

impl Default for ValidationResult {
    fn default() -> (r: Self)
        ensures
            r@ == empty_validation(),
    {
        ValidationResult::new()
    }
}


/// A validated directory is valid exactly when no required file is missing.
pub proof fn law_valid_iff_nothing_missing(strict: bool, d: DebianDirectory, pkg: Seq<char>)
    ensures
        validation_outcome(strict, d, pkg) matches Ok(v) ==> v.is_valid == (v.missing_files.len() == 0),
{
}

/// The required control fields reported missing are exactly those among
/// Package, Architecture, Maintainer and Description whose `<name>:` does
/// not occur in the control text.
pub proof fn law_missing_control_fields(c: Seq<char>)
    ensures
        forall|n: Seq<char>| #[trigger] control_missing(c).contains(n) <==> (
            (n == "Package"@ && !contains_sub(c, "Package:"@))
            || (n == "Architecture"@ && !contains_sub(c, "Architecture:"@))
            || (n == "Maintainer"@ && !contains_sub(c, "Maintainer:"@))
            || (n == "Description"@ && !contains_sub(c, "Description:"@))),
{
    let a = missing_if(c, "Package:"@, "Package"@);
    let b = missing_if(c, "Architecture:"@, "Architecture"@);
    let m = missing_if(c, "Maintainer:"@, "Maintainer"@);
    let d = missing_if(c, "Description:"@, "Description"@);
    assert(control_missing(c) == a + b + m + d);
    assert forall|n: Seq<char>| #[trigger] control_missing(c).contains(n) <==> (
        (n == "Package"@ && !contains_sub(c, "Package:"@))
        || (n == "Architecture"@ && !contains_sub(c, "Architecture:"@))
        || (n == "Maintainer"@ && !contains_sub(c, "Maintainer:"@))
        || (n == "Description"@ && !contains_sub(c, "Description:"@))) by {
        let s = a + b + m + d;
        if s.contains(n) {
            let k = choose|k: int| 0 <= k < s.len() && s[k] == n;
            if k < a.len() {
                assert(a[k] == n);
            } else if k < a.len() + b.len() {
                assert(b[k - a.len()] == n);
            } else if k < a.len() + b.len() + m.len() {
                assert(m[k - a.len() - b.len()] == n);
            } else {
                assert(d[k - a.len() - b.len() - m.len()] == n);
            }
        }
        if n == "Package"@ && !contains_sub(c, "Package:"@) {
            assert(s[0] == n);
        }
        if n == "Architecture"@ && !contains_sub(c, "Architecture:"@) {
            assert(s[a.len() as int] == n);
        }
        if n == "Maintainer"@ && !contains_sub(c, "Maintainer:"@) {
            assert(s[(a.len() + b.len()) as int] == n);
        }
        if n == "Description"@ && !contains_sub(c, "Description:"@) {
            assert(s[(a.len() + b.len() + m.len()) as int] == n);
        }
    }
}

/// In strict mode a readable control text fails the check, with an invalid
/// control file error for the package, exactly when one of `Package:`,
/// `Architecture:`, `Maintainer:` and `Description:` does not occur in it.
pub proof fn law_strict_control_needs_required_fields(pkg: Seq<char>, c: Seq<char>, r: ValidationModel)
    ensures
        check_control(true, pkg, Ok(c), r) is Err <==> (!contains_sub(c, "Package:"@) || !contains_sub(
            c,
            "Architecture:"@,
        ) || !contains_sub(c, "Maintainer:"@) || !contains_sub(c, "Description:"@)),
        check_control(true, pkg, Ok(c), r) matches Err(e) ==> e matches DebianErrorView::InvalidControlFile {
            package,
            ..
        } && package == pkg,
{
    law_missing_control_fields(c);
    if !contains_sub(c, "Package:"@) {
        assert(control_missing(c).contains("Package"@));
    }
    if !contains_sub(c, "Architecture:"@) {
        assert(control_missing(c).contains("Architecture"@));
    }
    if !contains_sub(c, "Maintainer:"@) {
        assert(control_missing(c).contains("Maintainer"@));
    }
    if !contains_sub(c, "Description:"@) {
        assert(control_missing(c).contains("Description"@));
    }
    if control_missing(c).len() > 0 {
        assert(control_missing(c).contains(control_missing(c)[0]));
    }
}

/// Strict validation of an existing debian directory whose control file is
/// present and readable fails with an invalid control file error for the
/// package when the control text lacks any of `Package:`, `Architecture:`,
/// `Maintainer:` or `Description:`.
pub proof fn law_strict_validation_rejects_incomplete_control(d: DebianDirectory, pkg: Seq<char>, c: String)
    requires
        d.exists,
        d.is_dir,
        is_present(d, "control"@),
        d.control == Ok::<String, String>(c),
        !contains_sub(c@, "Package:"@) || !contains_sub(c@, "Architecture:"@) || !contains_sub(
            c@,
            "Maintainer:"@,
        ) || !contains_sub(c@, "Description:"@),
    ensures
        validation_outcome(true, d, pkg) matches Err(DebianErrorView::InvalidControlFile { package, .. })
            && package == pkg,
{
    let r1 = ValidationModel { found_files: empty_validation().found_files.push("control"@), ..empty_validation() };
    law_strict_control_needs_required_fields(pkg, c@, r1);
    assert(result_view(d.control) == Ok::<Seq<char>, Seq<char>>(c@));
}
} // verus!
