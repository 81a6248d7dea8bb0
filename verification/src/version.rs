//! ROS version strings and their Debian form.
//!
//! A ROS version is `MAJOR.MINOR.PATCH`, optionally `.BUILD`, optionally a
//! pre-release tag (`alpha`, `beta`, `rc` or `dev`, after an optional `-`
//! or `.`, followed by optional digits). The `regex` crate reads it; what
//! follows from its groups is decided here.
use vstd::prelude::*;
use crate::debian_error::{DebianError, DebianErrorView};
use crate::order::lex_lt;
use crate::regex_match::{group_views, regex_captures, regex_first_match};
use crate::text::{
    all_digits, lacks, lemma_decimal_digits, lemma_digits_lack, lemma_lacks_concat,
    lemma_lacks_no_occurrence, lemma_occurs_char, lemma_replace_none, lemma_replace_one,
    occurs_at, is_digit, slice,
    chars_of, decimal, join, owned, parse_unsigned, parse_usize, push_decimal, split, split_str,
    string_of, char_views,
};

verus! {

/// The pattern of a ROS version.
pub open spec fn version_pattern() -> Seq<char> {
    "^(\\d+)\\.(\\d+)\\.(\\d+)(?:\\.(\\d+))?(?:[-.]?(alpha|beta|rc|dev)(\\d+)?)?$"@
}

/// The pattern of a pre-release tag.
pub open spec fn prerelease_pattern() -> Seq<char> {
    "(alpha|beta|rc|dev)(\\d+)?"@
}

/// Group `i` of a match (`Captures::get`): `None` when it took no part or
/// does not exist.
pub open spec fn group(caps: Seq<Option<Seq<char>>>, i: int) -> Option<Seq<char>> {
    if 0 <= i < caps.len() {
        caps[i]
    } else {
        None
    }
}

/// The major, minor and patch groups are all there.
pub open spec fn has_core_groups(caps: Seq<Option<Seq<char>>>) -> bool {
    group(caps, 1) is Some && group(caps, 2) is Some && group(caps, 3) is Some
}

/// The Debian marker of a pre-release tag.
pub open spec fn pre_marker(t: Seq<char>) -> Option<Seq<char>> {
    if t == "alpha"@ {
        Some("~alpha"@)
    } else if t == "beta"@ {
        Some("~beta"@)
    } else if t == "rc"@ {
        Some("~rc"@)
    } else if t == "dev"@ {
        Some("~dev"@)
    } else {
        None
    }
}

/// The text of an optional group, empty when absent.
pub open spec fn or_empty(g: Option<Seq<char>>) -> Seq<char> {
    match g {
        Some(t) => t,
        None => Seq::empty(),
    }
}

/// The Debian version built from the groups of a version match:
/// `MAJOR.MINOR.PATCH[.BUILD][~TAG[NUM]]-REVISION`.
pub open spec fn debian_from_groups(version: Seq<char>, caps: Seq<Option<Seq<char>>>, revision: u32) -> Result<
    Seq<char>,
    DebianErrorView,
> {
    let base = or_empty(group(caps, 1)) + "."@ + or_empty(group(caps, 2)) + "."@ + or_empty(
        group(caps, 3),
    ) + match group(caps, 4) {
        Some(b) => "."@ + b,
        None => Seq::empty(),
    };
    let rev = "-"@ + decimal(revision as nat);
    match group(caps, 5) {
        None => Ok(base + rev),
        Some(t) => match pre_marker(t) {
            None => Err(
                DebianErrorView::InvalidVersion {
                    version,
                    reason: "Unknown pre-release type: "@ + t,
                },
            ),
            Some(m) => Ok(base + m + or_empty(group(caps, 6)) + rev),
        },
    }
}

/// The Debian version of a ROS version.
pub open spec fn ros_to_debian_spec(version: Seq<char>, revision: u32) -> Result<Seq<char>, DebianErrorView> {
    if version.len() == 0 {
        Err(DebianErrorView::InvalidVersion { version, reason: "Version cannot be empty"@ })
    } else {
        match regex_first_match(version_pattern(), version) {
            Some(caps) => if has_core_groups(caps) {
                debian_from_groups(version, caps, revision)
            } else {
                Err(DebianErrorView::InvalidVersion { version, reason: "Invalid version format"@ })
            },
            None => Err(DebianErrorView::InvalidVersion { version, reason: "Invalid version format"@ }),
        }
    }
}

/// The major and minor numbers of a ROS version.
pub open spec fn major_minor_spec(version: Seq<char>) -> Result<(u32, u32), DebianErrorView> {
    match regex_first_match(version_pattern(), version) {
        Some(caps) => if group(caps, 1) is Some && group(caps, 2) is Some {
            match (
                parse_unsigned(group(caps, 1)->0, u32::MAX as nat),
                parse_unsigned(group(caps, 2)->0, u32::MAX as nat),
            ) {
                (Some(a), Some(b)) => Ok((a as u32, b as u32)),
                (None, _) => Err(
                    DebianErrorView::InvalidVersion { version, reason: "Invalid major version number"@ },
                ),
                (Some(_), None) => Err(
                    DebianErrorView::InvalidVersion { version, reason: "Invalid minor version number"@ },
                ),
            }
        } else {
            Err(DebianErrorView::InvalidVersion { version, reason: "Invalid version format"@ })
        },
        None => Err(DebianErrorView::InvalidVersion { version, reason: "Invalid version format"@ }),
    }
}

/// The model of a result whose error is a Debian error.
pub open spec fn debian_result<T>(r: Result<T, DebianError>) -> Result<T, DebianErrorView> {
    match r {
        Ok(v) => Ok(v),
        Err(e) => Err(e@),
    }
}

/// The text of a string result.
pub open spec fn text_result(r: Result<String, DebianError>) -> Result<Seq<char>, DebianErrorView> {
    match r {
        Ok(v) => Ok(v@),
        Err(e) => Err(e@),
    }
}

/// `e` is an invalid-version error for `version` with reason `reason`.
pub open spec fn is_version_error(e: DebianError, version: Seq<char>, reason: Seq<char>) -> bool {
    e matches DebianError::InvalidVersion { version: v, reason: m } && v@ == version && m@ == reason
}

/// `s` with every occurrence of `pat` replaced by `to` (`str::replace`).
pub open spec fn replace_all(s: Seq<char>, pat: Seq<char>, to: Seq<char>) -> Seq<char> {
    join(split(s, pat), to)
}

/// `i` is the position of the last `-` in `d`.
pub open spec fn is_last_dash(d: Seq<char>, i: int) -> bool {
    0 <= i < d.len() && d[i] == '-' && forall|j: int| i < j < d.len() ==> d[j] != '-'
}

/// The version part of a Debian version: the Debian revision, everything
/// from the last `-` on, removed (all of it when there is no `-`).
pub open spec fn debian_version_part(d: Seq<char>) -> Seq<char> {
    if exists|i: int| is_last_dash(d, i) {
        d.subrange(0, choose|i: int| is_last_dash(d, i))
    } else {
        d
    }
}

/// The last `-` has one position.
proof fn lemma_last_dash_unique(d: Seq<char>, i: int)
    requires
        is_last_dash(d, i),
    ensures
        debian_version_part(d) == d.subrange(0, i),
{
    let c = choose|k: int| is_last_dash(d, k);
    assert(is_last_dash(d, c));
    if c < i {
        assert(d[i] != '-');
    }
    if i < c {
        assert(d[c] != '-');
    }
}

/// The ROS form of a Debian version: revision dropped, `~alpha`, `~beta`
/// and `~rc` written `-alpha`, `-beta`, `-rc`, and `~dev` written `.dev`.
pub open spec fn ros_version_text(d: Seq<char>) -> Seq<char> {
    replace_all(
        replace_all(
            replace_all(replace_all(debian_version_part(d), "~alpha"@, "-alpha"@), "~beta"@, "-beta"@),
            "~rc"@,
            "-rc"@,
        ),
        "~dev"@,
        ".dev"@,
    )
}

/// ROS-to-Debian version conversion.
#[derive(Debug, Clone, Copy, PartialEq, Eq)]
pub struct VersionHandler {}

impl Default for VersionHandler {
    fn default() -> (r: Self) {
        VersionHandler {}
    }
}

/// Group `i` of a match.
fn group_at(groups: &Vec<Option<String>>, i: usize) -> (r: Option<&String>)
    ensures
        match r {
            Some(s) => group(group_views(groups@), i as int) == Some(s@),
            None => group(group_views(groups@), i as int) is None,
        },
{
    if i < groups.len() {
        match &groups[i] {
            Some(s) => Some(s),
            None => None,
        }
    } else {
        None
    }
}

/// The Debian version built from the groups `groups` of a version match of
/// `ros_version`, with Debian revision `debian_revision`.
pub fn debian_version_from_groups(ros_version: &str, groups: &Vec<Option<String>>, debian_revision: u32) -> (r:
    Result<String, DebianError>)
    requires
        has_core_groups(group_views(groups@)),
    ensures
        text_result(r) == debian_from_groups(ros_version@, group_views(groups@), debian_revision),
{
    let ghost caps = group_views(groups@);
    let major = group_at(groups, 1).unwrap();
    let minor = group_at(groups, 2).unwrap();
    let patch = group_at(groups, 3).unwrap();
    let mut out = major.clone();
    out.append(".");
    out.append(minor.as_str());
    out.append(".");
    out.append(patch.as_str());
    match group_at(groups, 4) {
        Some(b) => {
            out.append(".");
            out.append(b.as_str());
        },
        None => {},
    }
    let ghost base = out@;
    assert(base =~= or_empty(group(caps, 1)) + "."@ + or_empty(group(caps, 2)) + "."@ + or_empty(
        group(caps, 3),
    ) + match group(caps, 4) {
        Some(b) => "."@ + b,
        None => Seq::<char>::empty(),
    });
    match group_at(groups, 5) {
        Some(t) => {
            let marker = if crate::text::str_eq(t.as_str(), "alpha") {
                "~alpha"
            } else if crate::text::str_eq(t.as_str(), "beta") {
                "~beta"
            } else if crate::text::str_eq(t.as_str(), "rc") {
                "~rc"
            } else if crate::text::str_eq(t.as_str(), "dev") {
                "~dev"
            } else {
                let mut reason = owned("Unknown pre-release type: ");
                reason.append(t.as_str());
                return Err(DebianError::InvalidVersion { version: owned(ros_version), reason });
            };
            assert(pre_marker(t@) == Some(marker@));
            out.append(marker);
            match group_at(groups, 6) {
                Some(n) => out.append(n.as_str()),
                None => {},
            }
            assert(out@ =~= base + marker@ + or_empty(group(caps, 6)));
        },
        None => {},
    }
    let ghost before_rev = out@;
    out.append("-");
    push_decimal(&mut out, debian_revision as u64);
    assert(out@ =~= before_rev + ("-"@ + decimal(debian_revision as nat)));
    Ok(out)
}

impl VersionHandler {
    /// A version handler.
    pub fn new() -> (r: Self) {
        VersionHandler {}
    }

    /// The Debian version of a ROS version with Debian revision `debian_revision`.
    pub fn ros_to_debian(&self, ros_version: &str, debian_revision: u32) -> (r: Result<String, DebianError>)
        ensures
            text_result(r) == ros_to_debian_spec(ros_version@, debian_revision),
    {
        if ros_version.is_empty() {
            return Err(DebianError::invalid_version(ros_version, "Version cannot be empty"));
        }
        let groups = match regex_captures(
            "^(\\d+)\\.(\\d+)\\.(\\d+)(?:\\.(\\d+))?(?:[-.]?(alpha|beta|rc|dev)(\\d+)?)?$",
            ros_version,
        ) {
            Some(g) => g,
            None => {
                return Err(DebianError::invalid_version(ros_version, "Invalid version format"));
            },
        };
        if group_at(&groups, 1).is_none() || group_at(&groups, 2).is_none() || group_at(&groups, 3).is_none() {
            return Err(DebianError::invalid_version(ros_version, "Invalid version format"));
        }
        debian_version_from_groups(ros_version, &groups, debian_revision)
    }

    /// The ROS version of a Debian version (revision removed, pre-release
    /// markers converted back).
    pub fn debian_to_ros(&self, debian_version: &str) -> (r: Result<String, DebianError>)
        ensures
            r matches Ok(s) && s@ == ros_version_text(debian_version@),
    {
        proof {
            reveal_strlit("-");
            reveal_strlit("~alpha");
            reveal_strlit("~beta");
            reveal_strlit("~rc");
            reveal_strlit("~dev");
        }
        let d = chars_of(debian_version);
        let mut k: usize = d.len();
        while k > 0 && d[k - 1] != '-'
            invariant
                k <= d@.len(),
                forall|j: int| k <= j < d@.len() ==> d@[j] != '-',
            decreases k,
        {
            k -= 1;
        }
        let part = if k > 0 {
            proof {
                lemma_last_dash_unique(d@, k - 1);
            }
            string_of(&slice(&d, 0, k - 1))
        } else {
            proof {
                assert(!exists|i: int| is_last_dash(d@, i));
            }
            owned(debian_version)
        };
        let s1 = replace_all_exec(&part, "~alpha", "-alpha");
        let s2 = replace_all_exec(&s1, "~beta", "-beta");
        let s3 = replace_all_exec(&s2, "~rc", "-rc");
        let s4 = replace_all_exec(&s3, "~dev", ".dev");
        Ok(s4)
    }

    /// Orders two Debian versions as text (a plain comparison, not Debian's
    /// version ordering).
    pub fn compare_debian_versions(&self, version1: &str, version2: &str) -> (r: std::cmp::Ordering)
        ensures
            lex_lt(version1@, version2@) ==> r == std::cmp::Ordering::Less,
            version1@ == version2@ ==> r == std::cmp::Ordering::Equal,
            lex_lt(version2@, version1@) ==> r == std::cmp::Ordering::Greater,
    {
        let a = chars_of(version1);
        let b = chars_of(version2);
        proof {
            crate::order::lemma_lex_irreflexive(a@);
            crate::order::lemma_lex_irreflexive(b@);
            if lex_lt(a@, b@) && lex_lt(b@, a@) {
                crate::order::lemma_lex_transitive(a@, b@, a@);
            }
            if a@ != b@ {
                crate::order::lemma_lex_total(a@, b@);
            }
        }
        if crate::order::lex_less(&a, &b) {
            std::cmp::Ordering::Less
        } else if crate::order::lex_less(&b, &a) {
            std::cmp::Ordering::Greater
        } else {
            std::cmp::Ordering::Equal
        }
    }

    /// Whether `version` is a ROS version.
    pub fn validate_ros_version(&self, version: &str) -> (r: Result<(), DebianError>)
        ensures
            regex_first_match(version_pattern(), version@) is Some ==> r is Ok,
            regex_first_match(version_pattern(), version@) is None ==> (r matches Err(e) && e@
                == DebianErrorView::InvalidVersion {
                version: version@,
                reason: "Does not match expected ROS version format"@,
            }),
    {
        match regex_captures(
            "^(\\d+)\\.(\\d+)\\.(\\d+)(?:\\.(\\d+))?(?:[-.]?(alpha|beta|rc|dev)(\\d+)?)?$",
            version,
        ) {
            Some(_) => Ok(()),
            None => Err(DebianError::invalid_version(version, "Does not match expected ROS version format")),
        }
    }

    /// Major and minor number of a ROS version.
    pub fn get_major_minor(&self, version: &str) -> (r: Result<(u32, u32), DebianError>)
        ensures
            debian_result(r) == major_minor_spec(version@),
    {
        let groups = match regex_captures(
            "^(\\d+)\\.(\\d+)\\.(\\d+)(?:\\.(\\d+))?(?:[-.]?(alpha|beta|rc|dev)(\\d+)?)?$",
            version,
        ) {
            Some(g) => g,
            None => {
                return Err(DebianError::invalid_version(version, "Invalid version format"));
            },
        };
        let (major_text, minor_text) = match (group_at(&groups, 1), group_at(&groups, 2)) {
            (Some(a), Some(b)) => (a, b),
            _ => {
                return Err(DebianError::invalid_version(version, "Invalid version format"));
            },
        };
        let major = match parse_u32(&chars_of(major_text.as_str())) {
            Some(v) => v,
            None => {
                return Err(DebianError::invalid_version(version, "Invalid major version number"));
            },
        };
        let minor = match parse_u32(&chars_of(minor_text.as_str())) {
            Some(v) => v,
            None => {
                return Err(DebianError::invalid_version(version, "Invalid minor version number"));
            },
        };
        Ok((major, minor))
    }

    /// Whether `version` carries a pre-release tag.
    pub fn is_prerelease(&self, version: &str) -> (r: bool)
        ensures
            r == regex_first_match(prerelease_pattern(), version@) is Some,
    {
        regex_captures("(alpha|beta|rc|dev)(\\d+)?", version).is_some()
    }
}

/// Parses a `u32` as `str::parse::<u32>` does.
pub fn parse_u32(s: &Vec<char>) -> (r: Option<u32>)
    ensures
        r == (match parse_unsigned(s@, u32::MAX as nat) {
            Some(v) => Some(v as u32),
            None => None,
        }),
{
    match parse_usize(s) {
        Some(v) => {
            if v <= 0xFFFF_FFFFusize {
                Some(v as u32)
            } else {
                None
            }
        },
        None => None,
    }
}

/// `s` with every occurrence of the non-empty `pat` replaced by `to`.
pub fn replace_all_exec(s: &String, pat: &str, to: &str) -> (r: String)
    requires
        pat@.len() > 0,
    ensures
        r@ == replace_all(s@, pat@, to@),
{
    let c = crate::text::chars_of_string(s);
    let pieces = split_str(&c, pat);
    let mut strs: Vec<String> = Vec::new();
    let mut k: usize = 0;
    while k < pieces.len()
        invariant
            k <= pieces.len(),
            crate::text::views(strs@) =~= char_views(pieces@).subrange(0, k as int),
        decreases pieces.len() - k,
    {
        let t = string_of(&pieces[k]);
        let ghost prev = crate::text::views(strs@);
        strs.push(t);
        assert(crate::text::views(strs@) =~= prev.push(t@));
        assert(char_views(pieces@).subrange(0, k + 1) =~= char_views(pieces@).subrange(0, k as int).push(pieces@[k as int]@));
        k += 1;
    }
    assert(crate::text::views(strs@) =~= char_views(pieces@));
    crate::text::join_strings(&strs, to)
}


/// The ROS spelling of a pre-release tag: `-alpha`, `-beta`, `-rc`, `.dev`.
pub open spec fn ros_tag(t: Seq<char>) -> Seq<char> {
    if t == "dev"@ {
        "."@ + t
    } else {
        "-"@ + t
    }
}

/// `MAJOR.MINOR.PATCH[.BUILD]` of version groups.
pub open spec fn version_base(caps: Seq<Option<Seq<char>>>) -> Seq<char> {
    or_empty(group(caps, 1)) + "."@ + or_empty(group(caps, 2)) + "."@ + or_empty(group(caps, 3))
        + match group(caps, 4) {
        Some(b) => "."@ + b,
        None => Seq::empty(),
    }
}

/// The canonical ROS spelling of version groups.
pub open spec fn canonical_ros_version(caps: Seq<Option<Seq<char>>>) -> Seq<char> {
    match group(caps, 5) {
        None => version_base(caps),
        Some(t) => version_base(caps) + ros_tag(t) + or_empty(group(caps, 6)),
    }
}

/// Groups as a version match gives them: numbers in decimal digits and a
/// known pre-release tag.
pub open spec fn numeric_groups(caps: Seq<Option<Seq<char>>>) -> bool {
    &&& has_core_groups(caps)
    &&& all_digits(or_empty(group(caps, 1)))
    &&& all_digits(or_empty(group(caps, 2)))
    &&& all_digits(or_empty(group(caps, 3)))
    &&& all_digits(or_empty(group(caps, 4)))
    &&& all_digits(or_empty(group(caps, 6)))
    &&& (group(caps, 5) matches Some(t) ==> pre_marker(t) is Some)
}

proof fn lemma_dot_lacks(c: char)
    requires
        c != '.',
    ensures
        lacks("."@, c),
{
    reveal_strlit(".");
}

proof fn lemma_base_lacks(caps: Seq<Option<Seq<char>>>, c: char)
    requires
        numeric_groups(caps),
        c == '-' || c == '~',
    ensures
        lacks(version_base(caps), c),
{
    assert(!is_digit(c));
    lemma_dot_lacks(c);
    let g1 = or_empty(group(caps, 1));
    let g2 = or_empty(group(caps, 2));
    let g3 = or_empty(group(caps, 3));
    lemma_digits_lack(g1, c);
    lemma_digits_lack(g2, c);
    lemma_digits_lack(g3, c);
    lemma_lacks_concat(g1, "."@, c);
    lemma_lacks_concat(g1 + "."@, g2, c);
    lemma_lacks_concat(g1 + "."@ + g2, "."@, c);
    lemma_lacks_concat(g1 + "."@ + g2 + "."@, g3, c);
    let tail = match group(caps, 4) {
        Some(b) => "."@ + b,
        None => Seq::<char>::empty(),
    };
    match group(caps, 4) {
        Some(b) => {
            assert(or_empty(group(caps, 4)) == b);
            lemma_digits_lack(b, c);
            lemma_lacks_concat("."@, b, c);
        },
        None => {},
    }
    lemma_lacks_concat(g1 + "."@ + g2 + "."@ + g3, tail, c);
}

/// Replacing a `~`-pattern `p` in `base + m + n`, where `m` is the only `~`
/// and starts a marker that differs from `p` in its second character
/// unless it is `p`.
proof fn lemma_replace_marker(base: Seq<char>, m: Seq<char>, n: Seq<char>, p: Seq<char>, to: Seq<char>)
    requires
        lacks(base, '~'),
        lacks(n, '~'),
        m.len() >= 2,
        m[0] == '~',
        lacks(m.drop_first(), '~'),
        p.len() >= 2,
        p[0] == '~',
        m == p || m[1] != p[1],
    ensures
        join(split(base + m + n, p), to) == if m == p {
            base + to + n
        } else {
            base + m + n
        },
{
    let s = base + m + n;
    assert forall|k: int| occurs_at(s, p, k) implies k == base.len() by {
        lemma_occurs_char(s, p, k, 0);
        if k < base.len() {
            assert(s[k] == base[k]);
        } else if k < base.len() + m.len() && k > base.len() {
            assert(s[k] == m[k - base.len()]);
            assert(m[k - base.len()] == m.drop_first()[k - base.len() - 1]);
        } else if k >= base.len() + m.len() {
            assert(s[k] == n[k - base.len() - m.len()]);
        }
    }
    if m == p {
        lemma_replace_one(base, p, n, to);
    } else {
        assert forall|k: int| !occurs_at(s, p, k) by {
            if occurs_at(s, p, k) {
                lemma_occurs_char(s, p, k, 1);
                assert(s[k + 1] == m[1]);
            }
        }
        lemma_replace_none(s, p, to);
    }
}

/// Converting a version to Debian form and back gives its canonical ROS
/// spelling: the revision is dropped and the pre-release tag is written
/// `-alpha`, `-beta`, `-rc` or `.dev`.
pub proof fn law_debian_version_round_trip(version: Seq<char>, caps: Seq<Option<Seq<char>>>, revision: u32)
    requires
        numeric_groups(caps),
    ensures
        debian_from_groups(version, caps, revision) matches Ok(d) && ros_version_text(d)
            == canonical_ros_version(caps),
{
    reveal_strlit("-");
    reveal_strlit(".");
    reveal_strlit("~alpha");
    reveal_strlit("~beta");
    reveal_strlit("~rc");
    reveal_strlit("~dev");
    reveal_strlit("-alpha");
    reveal_strlit("-beta");
    reveal_strlit("-rc");
    reveal_strlit(".dev");
    reveal_strlit("alpha");
    reveal_strlit("beta");
    reveal_strlit("rc");
    reveal_strlit("dev");
    let base = version_base(caps);
    lemma_base_lacks(caps, '-');
    lemma_base_lacks(caps, '~');
    let dec = decimal(revision as nat);
    lemma_decimal_digits(revision as nat);
    lemma_digits_lack(dec, '-');
    let n = or_empty(group(caps, 6));
    lemma_digits_lack(n, '-');
    lemma_digits_lack(n, '~');
    let u = match group(caps, 5) {
        None => base,
        Some(t) => base + pre_marker(t)->Some_0 + n,
    };
    match group(caps, 5) {
        None => {},
        Some(t) => {
            let m = pre_marker(t)->Some_0;
            assert(lacks(m, '-'));
            lemma_lacks_concat(base, m, '-');
            lemma_lacks_concat(base + m, n, '-');
        },
    }
    let sep = "-"@;
    let d = u + sep + dec;
    assert(debian_from_groups(version, caps, revision) == Ok::<_, DebianErrorView>(d)) by {
        assert(d =~= u + ("-"@ + dec));
    }
    assert forall|k: int| 0 <= k < u.len() implies !occurs_at(d, sep, k) by {
        if occurs_at(d, sep, k) {
            lemma_occurs_char(d, sep, k, 0);
            assert(d[k] == u[k]);
        }
    }
    assert forall|k: int| u.len() + sep.len() <= k implies !occurs_at(d, sep, k) by {
        if occurs_at(d, sep, k) {
            lemma_occurs_char(d, sep, k, 0);
            assert(d[k] == dec[k - u.len() - 1]);
        }
    }
    assert(is_last_dash(d, u.len() as int)) by {
        assert(d[u.len() as int] == '-');
        assert forall|j: int| u.len() < j < d.len() implies d[j] != '-' by {
            assert(d[j] == dec[j - u.len() - 1]);
        }
    }
    lemma_last_dash_unique(d, u.len() as int);
    assert(d.subrange(0, u.len() as int) =~= u);
    assert(debian_version_part(d) == u);
    match group(caps, 5) {
        None => {
            lemma_lacks_no_occurrence(u, "~alpha"@);
            lemma_replace_none(u, "~alpha"@, "-alpha"@);
            lemma_lacks_no_occurrence(u, "~beta"@);
            lemma_replace_none(u, "~beta"@, "-beta"@);
            lemma_lacks_no_occurrence(u, "~rc"@);
            lemma_replace_none(u, "~rc"@, "-rc"@);
            lemma_lacks_no_occurrence(u, "~dev"@);
            lemma_replace_none(u, "~dev"@, ".dev"@);
        },
        Some(t) => {
            let m = pre_marker(t)->Some_0;
            assert(lacks(m.drop_first(), '~'));
            lemma_replace_marker(base, m, n, "~alpha"@, "-alpha"@);
            let x1 = if m == "~alpha"@ { base + "-alpha"@ + n } else { u };
            lemma_replace_marker(base, m, n, "~beta"@, "-beta"@);
            if m == "~alpha"@ {
                lemma_lacks_concat(base, "-alpha"@, '~');
                lemma_lacks_concat(base + "-alpha"@, n, '~');
                lemma_lacks_no_occurrence(x1, "~beta"@);
                lemma_replace_none(x1, "~beta"@, "-beta"@);
                lemma_lacks_no_occurrence(x1, "~rc"@);
                lemma_replace_none(x1, "~rc"@, "-rc"@);
                lemma_lacks_no_occurrence(x1, "~dev"@);
                lemma_replace_none(x1, "~dev"@, ".dev"@);
                assert("-alpha"@ =~= "-"@ + "alpha"@);
            } else if m == "~beta"@ {
                let x2 = base + "-beta"@ + n;
                lemma_lacks_concat(base, "-beta"@, '~');
                lemma_lacks_concat(base + "-beta"@, n, '~');
                lemma_lacks_no_occurrence(x2, "~rc"@);
                lemma_replace_none(x2, "~rc"@, "-rc"@);
                lemma_lacks_no_occurrence(x2, "~dev"@);
                lemma_replace_none(x2, "~dev"@, ".dev"@);
                assert("-beta"@ =~= "-"@ + "beta"@);
            } else if m == "~rc"@ {
                lemma_replace_marker(base, m, n, "~rc"@, "-rc"@);
                let x3 = base + "-rc"@ + n;
                lemma_lacks_concat(base, "-rc"@, '~');
                lemma_lacks_concat(base + "-rc"@, n, '~');
                lemma_lacks_no_occurrence(x3, "~dev"@);
                lemma_replace_none(x3, "~dev"@, ".dev"@);
                assert("-rc"@ =~= "-"@ + "rc"@);
            } else {
                lemma_replace_marker(base, m, n, "~rc"@, "-rc"@);
                lemma_replace_marker(base, m, n, "~dev"@, ".dev"@);
                assert(".dev"@ =~= "."@ + "dev"@);
            }
        },
    }
}

/// A ROS version `M.m.p` whose major, minor and patch numbers are runs of
/// decimal digits of any length is converted to `M.m.p-r`: whenever the ROS
/// version pattern `^(\d+)\.(\d+)\.(\d+)(?:\.(\d+))?(?:[-.]?(alpha|beta|rc|dev)(\d+)?)?$`
/// matches it with those three groups and no build number or pre-release
/// tag, the Debian version is the text itself followed by `-` and the
/// revision.
pub proof fn law_plain_version_gets_revision(
    major: Seq<char>,
    minor: Seq<char>,
    patch: Seq<char>,
    caps: Seq<Option<Seq<char>>>,
    revision: u32,
)
    requires
        major.len() > 0,
        minor.len() > 0,
        patch.len() > 0,
        all_digits(major),
        all_digits(minor),
        all_digits(patch),
    ensures
        ({
            let v = major + "."@ + minor + "."@ + patch;
            (regex_first_match(
                "^(\\d+)\\.(\\d+)\\.(\\d+)(?:\\.(\\d+))?(?:[-.]?(alpha|beta|rc|dev)(\\d+)?)?$"@,
                v,
            ) == Some(caps) && group(caps, 1) == Some(major) && group(caps, 2) == Some(minor) && group(caps, 3)
                == Some(patch) && group(caps, 4) is None && group(caps, 5) is None) ==> ros_to_debian_spec(
                v,
                revision,
            ) == Ok::<_, DebianErrorView>(v + "-"@ + decimal(revision as nat))
        }),
{
    let v = major + "."@ + minor + "."@ + patch;
    assert(v.len() > 0);
    assert(version_pattern() == "^(\\d+)\\.(\\d+)\\.(\\d+)(?:\\.(\\d+))?(?:[-.]?(alpha|beta|rc|dev)(\\d+)?)?$"@);
    if regex_first_match(version_pattern(), v) == Some(caps) && group(caps, 1) == Some(major) && group(caps, 2)
        == Some(minor) && group(caps, 3) == Some(patch) && group(caps, 4) is None && group(caps, 5) is None {
        assert(v + "-"@ + decimal(revision as nat) =~= v + ("-"@ + decimal(revision as nat)));
    }
}
} // verus!
