//! APT repository layout, `Release` file text, file checksums and the
//! reading of `dpkg-deb --info` output.
use vstd::prelude::*;
use sha2::Digest;
use crate::debian_error::DebianError;
use crate::paths::{join_path, path_join};
use crate::text::{
    char_views, chars_of, decimal, owned, push_char, push_decimal, slice, split, split_str, str_eq, string_of,
    trim, trim_chars,
};

verus! {

broadcast use vstd::string::group_string_axioms;

/// The lowercase hexadecimal digits, by value.
pub open spec fn hex_digits() -> Seq<char> {
    seq!['0', '1', '2', '3', '4', '5', '6', '7', '8', '9', 'a', 'b', 'c', 'd', 'e', 'f']
}

/// Each byte of `b` as two lowercase hexadecimal digits, high nibble first.
pub open spec fn hex_text(b: Seq<u8>) -> Seq<char>
    decreases b.len(),
{
    if b.len() == 0 {
        Seq::empty()
    } else {
        hex_text(b.drop_last()) + seq![hex_digits()[b.last() as int / 16], hex_digits()[b.last() as int % 16]]
    }
}

/// The MD5 digest (16 bytes) of `data`.
pub uninterp spec fn md5_of(data: Seq<u8>) -> Seq<u8>;

/// The SHA-1 digest (20 bytes) of `data`.
pub uninterp spec fn sha1_of(data: Seq<u8>) -> Seq<u8>;

/// The SHA-256 digest (32 bytes) of `data`.
pub uninterp spec fn sha256_of(data: Seq<u8>) -> Seq<u8>;

/// `format!("{:x}", md5::compute(data))`: the `LowerHex` of `md5::Digest`
/// writes each digest byte as `{:02x}`, so the text is `hex_text` of the
/// digest, which is named, not spelled out.
#[verifier::external_body]
fn md5_hex(data: &[u8]) -> (r: String)
    ensures
        r@ == hex_text(md5_of(data@)),
{
    format!("{:x}", md5::compute(data))
}

/// `sha1_smol::Sha1::from(data).digest().bytes()`: the SHA-1 digest bytes.
#[verifier::external_body]
fn sha1_digest(data: &[u8]) -> (r: Vec<u8>)
    ensures
        r@ == sha1_of(data@),
{
    sha1_smol::Sha1::from(data).digest().bytes().to_vec()
}

/// `format!("{:x}", sha2::Sha256::digest(data))`: `generic_array`'s
/// `LowerHex` writes every byte as two lowercase digits when no precision
/// is given.
#[verifier::external_body]
fn sha256_hex(data: &[u8]) -> (r: String)
    ensures
        r@ == hex_text(sha256_of(data@)),
{
    format!("{:x}", sha2::Sha256::digest(data))
}

/// The lowercase hexadecimal digit of `n` (below 16).
fn hex_digit(n: u8) -> (c: char)
    requires
        n < 16,
    ensures
        c == hex_digits()[n as int],
{
    if n < 10 {
        let c = (48u8 + n) as char;
        assert(c == hex_digits()[n as int]) by {
            assert(n == 0 || n == 1 || n == 2 || n == 3 || n == 4 || n == 5 || n == 6 || n == 7 || n == 8 || n == 9);
        }
        c
    } else {
        let c = (87u8 + n) as char;
        assert(c == hex_digits()[n as int]) by {
            assert(n == 10 || n == 11 || n == 12 || n == 13 || n == 14 || n == 15);
        }
        c
    }
}

/// Each byte as two lowercase hexadecimal digits, high nibble first (what
/// `hex::encode` writes).
fn hex_encode(bytes: &[u8]) -> (r: String)
    ensures
        r@ == hex_text(bytes@),
{
    let mut r = String::new();
    let mut i: usize = 0;
    while i < bytes.len()
        invariant
            i <= bytes@.len(),
            r@ == hex_text(bytes@.subrange(0, i as int)),
        decreases bytes@.len() - i,
    {
        let b = bytes[i];
        let ghost before = r@;
        push_char(&mut r, hex_digit(b / 16));
        push_char(&mut r, hex_digit(b % 16));
        assert(bytes@.subrange(0, i + 1).drop_last() =~= bytes@.subrange(0, i as int));
        assert(r@ =~= hex_text(bytes@.subrange(0, i + 1)));
        i += 1;
    }
    assert(bytes@.subrange(0, bytes@.len() as int) =~= bytes@);
    r
}

/// Checksums and size of one index file, as the `Release` file lists them.
pub struct FileInfo {
    pub md5: String,
    pub sha1: String,
    pub sha256: String,
    pub size: usize,
}

/// Information about a .deb package
pub struct DebPackageInfo {
    /// Package name
    pub package: String,
    /// Version
    pub version: String,
    /// Architecture
    pub architecture: String,
    /// All control fields, each key once
    pub fields: Vec<(String, String)>,
}

/// Repository metadata
pub struct RepositoryMetadata {
    /// Repository root directory
    pub repository_root: String,
    /// Distribution name
    pub distribution: String,
    /// Component name
    pub component: String,
    /// Architecture
    pub architecture: String,
    /// Packages file path
    pub packages_file: String,
    /// Release file path
    pub release_file: String,
    /// Number of packages
    pub package_count: usize,
}

/// No key occurs twice among the pairs.
pub open spec fn unique_keys(s: Seq<(String, String)>) -> bool {
    forall|i: int, j: int| 0 <= i < j < s.len() ==> #[trigger] s[i].0@ != #[trigger] s[j].0@
}

/// The pairs as a map from key to value (a later pair wins).
pub open spec fn pairs_map(s: Seq<(String, String)>) -> Map<Seq<char>, Seq<char>>
    decreases s.len(),
{
    if s.len() == 0 {
        Map::empty()
    } else {
        pairs_map(s.drop_last()).insert(s.last().0@, s.last().1@)
    }
}

proof fn lemma_pairs_dom(s: Seq<(String, String)>, k: Seq<char>)
    ensures
        pairs_map(s).dom().contains(k) <==> exists|j: int| 0 <= j < s.len() && s[j].0@ == k,
    decreases s.len(),
{
    if s.len() > 0 {
        lemma_pairs_dom(s.drop_last(), k);
        if pairs_map(s).dom().contains(k) && s.last().0@ != k {
            let j = choose|j: int| 0 <= j < s.drop_last().len() && s.drop_last()[j].0@ == k;
            assert(s[j].0@ == k);
        }
        if exists|j: int| 0 <= j < s.len() && s[j].0@ == k {
            let j = choose|j: int| 0 <= j < s.len() && s[j].0@ == k;
            if j < s.len() - 1 {
                assert(s.drop_last()[j].0@ == k);
            }
        }
    }
}

proof fn lemma_pairs_value(s: Seq<(String, String)>, j: int)
    requires
        unique_keys(s),
        0 <= j < s.len(),
    ensures
        pairs_map(s).dom().contains(s[j].0@),
        pairs_map(s)[s[j].0@] == s[j].1@,
    decreases s.len(),
{
    if j < s.len() - 1 {
        let t = s.drop_last();
        assert(t[j] == s[j]);
        assert(s[j].0@ != s[s.len() - 1].0@);
        lemma_pairs_value(t, j);
    }
}

proof fn lemma_pairs_update(s: Seq<(String, String)>, j: int, p: (String, String))
    requires
        unique_keys(s),
        0 <= j < s.len(),
        p.0@ == s[j].0@,
    ensures
        unique_keys(s.update(j, p)),
        pairs_map(s.update(j, p)) == pairs_map(s).insert(p.0@, p.1@),
{
    let t = s.update(j, p);
    assert forall|a: int, b: int| 0 <= a < b < t.len() implies #[trigger] t[a].0@ != #[trigger] t[b].0@ by {
        assert(s[a].0@ != s[b].0@);
    }
    let m = pairs_map(s).insert(p.0@, p.1@);
    assert forall|k: Seq<char>| pairs_map(t).dom().contains(k) <==> m.dom().contains(k) by {
        lemma_pairs_dom(s, k);
        lemma_pairs_dom(t, k);
        if exists|i: int| 0 <= i < s.len() && s[i].0@ == k {
            let i = choose|i: int| 0 <= i < s.len() && s[i].0@ == k;
            assert(t[i].0@ == k);
        }
        if exists|i: int| 0 <= i < t.len() && t[i].0@ == k {
            let i = choose|i: int| 0 <= i < t.len() && t[i].0@ == k;
            assert(s[i].0@ == k);
        }
    }
    assert forall|k: Seq<char>| #[trigger] pairs_map(t).dom().contains(k) implies pairs_map(t)[k]
        == m[k] by {
        lemma_pairs_dom(t, k);
        let i = choose|i: int| 0 <= i < t.len() && t[i].0@ == k;
        lemma_pairs_value(t, i);
        if i != j {
            assert(s[i] == t[i]);
            lemma_pairs_value(s, i);
        }
    }
    assert(pairs_map(t) =~= m);
}

/// Sets `key` to `value`, replacing an earlier value of the same key.
pub fn insert_field(fields: &mut Vec<(String, String)>, key: String, value: String)
    requires
        unique_keys(old(fields)@),
    ensures
        unique_keys(final(fields)@),
        pairs_map(final(fields)@) == pairs_map(old(fields)@).insert(key@, value@),
{
    let mut j: usize = 0;
    while j < fields.len()
        invariant
            j <= fields.len(),
            fields@ == old(fields)@,
            unique_keys(fields@),
            forall|i: int| 0 <= i < j ==> (#[trigger] fields@[i]).0@ != key@,
        decreases fields.len() - j,
    {
        if str_eq(fields[j].0.as_str(), key.as_str()) {
            proof {
                lemma_pairs_update(fields@, j as int, (key, value));
            }
            fields.set(j, (key, value));
            return;
        }
        j += 1;
    }
    let ghost before = fields@;
    assert(unique_keys(before));
    fields.push((key, value));
    proof {
        assert(fields@.drop_last() =~= before);
        assert forall|a: int, b: int| 0 <= a < b < fields@.len() implies #[trigger] fields@[a].0@
            != #[trigger] fields@[b].0@ by {
            if b < before.len() {
                assert(before[a].0@ != before[b].0@);
            } else {
                assert(before[a].0@ != key@);
            }
        }
    }
}

/// The value stored under `key`, if any.
pub fn find_field(fields: &Vec<(String, String)>, key: &str) -> (r: Option<String>)
    requires
        unique_keys(fields@),
    ensures
        match r {
            Some(v) => pairs_map(fields@).dom().contains(key@) && pairs_map(fields@)[key@] == v@,
            None => !pairs_map(fields@).dom().contains(key@),
        },
{
    let mut j: usize = 0;
    while j < fields.len()
        invariant
            j <= fields.len(),
            unique_keys(fields@),
            forall|i: int| 0 <= i < j ==> (#[trigger] fields@[i]).0@ != key@,
        decreases fields.len() - j,
    {
        if str_eq(fields[j].0.as_str(), key) {
            proof {
                lemma_pairs_value(fields@, j as int);
            }
            return Some(fields[j].1.clone());
        }
        j += 1;
    }
    proof {
        lemma_pairs_dom(fields@, key@);
    }
    None
}


/// Whether `i` is the position of the first `:` in `l`.
pub open spec fn is_first_colon(l: Seq<char>, i: int) -> bool {
    0 <= i < l.len() && l[i] == ':' && forall|k: int| 0 <= k < i ==> l[k] != ':'
}

/// `line.split_once(':')` with both halves trimmed: the key and value that
/// a line of `dpkg-deb --info` output contributes, if it has a colon.
pub open spec fn line_field(l: Seq<char>) -> Option<(Seq<char>, Seq<char>)> {
    if exists|i: int| is_first_colon(l, i) {
        let i = choose|i: int| is_first_colon(l, i);
        Some((trim(l.subrange(0, i)), trim(l.subrange(i + 1, l.len() as int))))
    } else {
        None
    }
}

/// The control fields of the lines, a later line overriding an earlier one
/// with the same key.
pub open spec fn deb_fields(lines: Seq<Seq<char>>) -> Map<Seq<char>, Seq<char>>
    decreases lines.len(),
{
    if lines.len() == 0 {
        Map::empty()
    } else {
        match line_field(lines.last()) {
            Some(kv) => deb_fields(lines.drop_last()).insert(kv.0, kv.1),
            None => deb_fields(lines.drop_last()),
        }
    }
}

/// The control fields of `dpkg-deb --info` output. (`str::lines` also drops
/// a final empty line and a `\r` before each `\n`; neither holds a colon
/// that could change a field, and `trim` removes the `\r`.)
pub open spec fn info_fields(text: Seq<char>) -> Map<Seq<char>, Seq<char>> {
    deb_fields(split(text, "\n"@))
}

/// Key and value of a line, as `line_field` describes them.
fn split_line_field(l: &Vec<char>) -> (r: Option<(String, String)>)
    ensures
        match r {
            Some(kv) => line_field(l@) == Some((kv.0@, kv.1@)),
            None => line_field(l@) is None,
        },
{
    let mut i: usize = 0;
    while i < l.len()
        invariant
            i <= l.len(),
            forall|k: int| 0 <= k < i ==> l@[k] != ':',
        decreases l.len() - i,
    {
        if l[i] == ':' {
            proof {
                assert(is_first_colon(l@, i as int));
                let j = choose|j: int| is_first_colon(l@, j);
                if j < i {
                    assert(l@[j] != ':');
                } else if j > i {
                    assert(l@[i as int] != ':');
                }
                assert(j == i);
            }
            let key = string_of(&trim_chars(&slice(l, 0, i)));
            let value = string_of(&trim_chars(&slice(l, i + 1, l.len())));
            return Some((key, value));
        }
        i += 1;
    }
    proof {
        assert forall|j: int| !is_first_colon(l@, j) by {
            if 0 <= j < l@.len() {
                assert(l@[j] != ':');
            }
        }
    }
    None
}

/// The control fields of `dpkg-deb --info` output, each key once.
pub fn info_field_pairs(info_text: &str) -> (r: Vec<(String, String)>)
    ensures
        unique_keys(r@),
        pairs_map(r@) == info_fields(info_text@),
{
    let text = chars_of(info_text);
    proof {
        reveal_strlit("\n");
    }
    let lines = split_str(&text, "\n");
    let mut fields: Vec<(String, String)> = Vec::new();
    let mut n: usize = 0;
    while n < lines.len()
        invariant
            n <= lines.len(),
            char_views(lines@) == split(info_text@, "\n"@),
            unique_keys(fields@),
            pairs_map(fields@) == deb_fields(char_views(lines@).take(n as int)),
        decreases lines.len() - n,
    {
        let ghost done = char_views(lines@).take(n as int);
        let ghost next = char_views(lines@).take(n + 1);
        assert(next.drop_last() =~= done);
        assert(next.last() == lines@[n as int]@);
        match split_line_field(&lines[n]) {
            Some(kv) => {
                let (key, value) = kv;
                insert_field(&mut fields, key, value);
            },
            None => {},
        }
        n += 1;
    }
    assert(char_views(lines@).take(lines.len() as int) =~= char_views(lines@));
    fields
}

/// What `parse_deb_info` gives for `dpkg-deb --info` output `text`: the
/// first missing field of Package, Version, Architecture, in that order, is
/// an error; otherwise the three values.
pub open spec fn deb_info_missing(text: Seq<char>) -> Option<Seq<char>> {
    let m = info_fields(text);
    if !m.dom().contains("Package"@) {
        Some("Missing Package field in .deb"@)
    } else if !m.dom().contains("Version"@) {
        Some("Missing Version field in .deb"@)
    } else if !m.dom().contains("Architecture"@) {
        Some("Missing Architecture field in .deb"@)
    } else {
        None
    }
}

/// APT repository generator
pub struct RepositoryGenerator {
    /// Repository root directory
    repository_root: String,
    /// Distribution name (e.g., "stable", "unstable")
    distribution: String,
    /// Component name (e.g., "main", "contrib")
    component: String,
    /// Architecture (e.g., "amd64", "arm64")
    architecture: String,
}

impl RepositoryGenerator {
    /// The repository root.
    pub closed spec fn root(&self) -> Seq<char> {
        self.repository_root@
    }

    /// The distribution.
    pub closed spec fn dist(&self) -> Seq<char> {
        self.distribution@
    }

    /// The component.
    pub closed spec fn comp(&self) -> Seq<char> {
        self.component@
    }

    /// The architecture.
    pub closed spec fn arch(&self) -> Seq<char> {
        self.architecture@
    }

    /// Create a new repository generator
    pub fn new(repository_root: String, distribution: String, component: String, architecture: String) -> (r: Self)
        ensures
            r.root() == repository_root@,
            r.dist() == distribution@,
            r.comp() == component@,
            r.arch() == architecture@,
    {
        RepositoryGenerator { repository_root, distribution, component, architecture }
    }

    /// Create a repository generator for ROS packages: the ROS
    /// distribution is the distribution, the component is `main`.
    pub fn for_ros(repository_root: String, ros_distro: &str, architecture: String) -> (r: Self)
        ensures
            r.root() == repository_root@,
            r.dist() == ros_distro@,
            r.comp() == "main"@,
            r.arch() == architecture@,
    {
        Self::new(repository_root, owned(ros_distro), owned("main"), architecture)
    }

    /// `dists/<distribution>/<component>/binary-<architecture>` under the root.
    pub open spec fn binary_dir_spec(&self) -> Seq<char> {
        path_join(
            path_join(path_join(path_join(self.root(), "dists"@), self.dist()), self.comp()),
            "binary-"@ + self.arch(),
        )
    }

    /// The directory that holds the `Packages` index.
    pub fn binary_directory(&self) -> (r: String)
        ensures
            r@ == self.binary_dir_spec(),
    {
        let d = join_path(self.repository_root.as_str(), "dists");
        let d = join_path(d.as_str(), self.distribution.as_str());
        let d = join_path(d.as_str(), self.component.as_str());
        let mut b = owned("binary-");
        b.append(self.architecture.as_str());
        join_path(d.as_str(), b.as_str())
    }

    /// `pool/<component>` under the root: where the .deb files go.
    pub fn get_pool_directory(&self) -> (r: String)
        ensures
            r@ == path_join(path_join(self.root(), "pool"@), self.comp()),
    {
        let d = join_path(self.repository_root.as_str(), "pool");
        join_path(d.as_str(), self.component.as_str())
    }

    /// The `Packages` index in the binary directory.
    pub fn packages_file_path(&self) -> (r: String)
        ensures
            r@ == path_join(self.binary_dir_spec(), "Packages"@),
    {
        let d = self.binary_directory();
        join_path(d.as_str(), "Packages")
    }

    /// The gzip-compressed `Packages.gz` in the binary directory.
    pub fn packages_gz_path(&self) -> (r: String)
        ensures
            r@ == path_join(self.binary_dir_spec(), "Packages.gz"@),
    {
        let d = self.binary_directory();
        join_path(d.as_str(), "Packages.gz")
    }

    /// `dists/<distribution>/Release` under the root.
    pub fn release_file_path(&self) -> (r: String)
        ensures
            r@ == path_join(path_join(path_join(self.root(), "dists"@), self.dist()), "Release"@),
    {
        let d = join_path(self.repository_root.as_str(), "dists");
        let d = join_path(d.as_str(), self.distribution.as_str());
        join_path(d.as_str(), "Release")
    }

    /// Get repository URL for sources.list: `deb <base_url> <distribution>`.
    pub fn get_sources_list_entry(&self, base_url: &str) -> (r: String)
        ensures
            r@ == "deb "@ + base_url@ + " "@ + self.dist(),
    {
        let mut r = owned("deb ");
        r.append(base_url);
        r.append(" ");
        r.append(self.distribution.as_str());
        r
    }

    /// Checksums and size of the content of an index file.
    pub fn calculate_file_info(&self, content: &[u8]) -> (r: FileInfo)
        ensures
            r.md5@ == hex_text(md5_of(content@)),
            r.sha1@ == hex_text(sha1_of(content@)),
            r.sha256@ == hex_text(sha256_of(content@)),
            r.size == content@.len(),
    {
        let md5 = md5_hex(content);
        let digest = sha1_digest(content);
        let sha1 = hex_encode(digest.as_slice());
        let sha256 = sha256_hex(content);
        FileInfo { md5, sha1, sha256, size: content.len() }
    }

    /// Parse dpkg-deb --info output: every `key: value` line is a field;
    /// Package, Version and Architecture must be among them.
    pub fn parse_deb_info(&self, info_text: &str) -> (r: Result<DebPackageInfo, DebianError>)
        ensures
            match deb_info_missing(info_text@) {
                Some(msg) => r matches Err(DebianError::RepositoryGenerationFailed { reason })
                    && reason@ == msg,
                None => r matches Ok(info) && {
                    let m = info_fields(info_text@);
                    &&& info.package@ == m["Package"@]
                    &&& info.version@ == m["Version"@]
                    &&& info.architecture@ == m["Architecture"@]
                    &&& unique_keys(info.fields@)
                    &&& pairs_map(info.fields@) == m
                },
            },
    {
        let fields = info_field_pairs(info_text);
        let package = match find_field(&fields, "Package") {
            Some(v) => v,
            None => {
                return Err(DebianError::repository_generation_failed("Missing Package field in .deb"));
            },
        };
        let version = match find_field(&fields, "Version") {
            Some(v) => v,
            None => {
                return Err(DebianError::repository_generation_failed("Missing Version field in .deb"));
            },
        };
        let architecture = match find_field(&fields, "Architecture") {
            Some(v) => v,
            None => {
                return Err(
                    DebianError::repository_generation_failed("Missing Architecture field in .deb"),
                );
            },
        };
        Ok(DebPackageInfo { package, version, architecture, fields })
    }
}


/// The text of a `Release` file for `dist`, `comp`, `arch`, dated `date`,
/// listing the checksums of `Packages` (`p`) and `Packages.gz` (`gz`).
pub open spec fn release_text(
    dist: Seq<char>,
    comp: Seq<char>,
    arch: Seq<char>,
    date: Seq<char>,
    p: FileInfo,
    gz: FileInfo,
) -> Seq<char> {
    let cp = comp + "/binary-"@ + arch;
    "Origin: Agiros "@ + dist + "\nLabel: Agiros "@ + dist + "\nSuite: "@ + dist
        + "\nCodename: "@ + dist + "\nArchitectures: "@ + arch + "\nComponents: "@ + comp
        + "\nDescription: Agiros "@ + dist + " packages\nDate: "@ + date + "\nMD5Sum:\n"@
        + p.md5@ + " "@ + decimal(p.size as nat) + " "@ + cp + "/Packages\n"@
        + gz.md5@ + " "@ + decimal(gz.size as nat) + " "@ + cp + "/Packages.gz\nSHA1:\n"@
        + p.sha1@ + " "@ + decimal(p.size as nat) + " "@ + cp + "/Packages\n"@
        + gz.sha1@ + " "@ + decimal(gz.size as nat) + " "@ + cp + "/Packages.gz\nSHA256:\n"@
        + p.sha256@ + " "@ + decimal(p.size as nat) + " "@ + cp + "/Packages\n"@
        + gz.sha256@ + " "@ + decimal(gz.size as nat) + " "@ + cp + "/Packages.gz\n"@
}

/// The format of the `Release` file's date, in `chrono`'s notation.
pub open spec fn release_date_format() -> Seq<char> {
    "%a, %d %b %Y %H:%M:%S UTC"@
}

/// `chrono::Utc::now().format(format).to_string()`: the current UTC time in
/// the given format. It depends on the clock, so nothing is stated of it.
/// Only the `Release` date format is admitted (a format `chrono` cannot
/// read makes `to_string` panic).
#[verifier::external_body]
fn utc_now_formatted(format: &str) -> (r: String)
    requires
        format@ == release_date_format(),
{
    chrono::Utc::now().format(format).to_string()
}

/// Appends one checksum line `<sum> <size> <cp><tail>`.
fn push_sum_line(r: &mut String, sum: &str, size: usize, cp: &str, tail: &str)
    ensures
        final(r)@ == old(r)@ + sum@ + " "@ + decimal(size as nat) + " "@ + cp@ + tail@,
{
    r.append(sum);
    r.append(" ");
    push_decimal(r, size as u64);
    r.append(" ");
    r.append(cp);
    r.append(tail);
}

impl RepositoryGenerator {
    /// The `Release` file text, dated `date`.
    pub fn release_content_dated(&self, date: &str, packages_info: &FileInfo, packages_gz_info: &FileInfo) -> (r: String)
        ensures
            r@ == release_text(self.dist(), self.comp(), self.arch(), date@, *packages_info, *packages_gz_info),
    {
        let dist = self.distribution.as_str();
        let mut cp = owned(self.component.as_str());
        cp.append("/binary-");
        cp.append(self.architecture.as_str());
        let mut r = owned("Origin: Agiros ");
        r.append(dist);
        r.append("\nLabel: Agiros ");
        r.append(dist);
        r.append("\nSuite: ");
        r.append(dist);
        r.append("\nCodename: ");
        r.append(dist);
        r.append("\nArchitectures: ");
        r.append(self.architecture.as_str());
        r.append("\nComponents: ");
        r.append(self.component.as_str());
        r.append("\nDescription: Agiros ");
        r.append(dist);
        r.append(" packages\nDate: ");
        r.append(date);
        r.append("\nMD5Sum:\n");
        let p = packages_info;
        let gz = packages_gz_info;
        push_sum_line(&mut r, p.md5.as_str(), p.size, cp.as_str(), "/Packages\n");
        push_sum_line(&mut r, gz.md5.as_str(), gz.size, cp.as_str(), "/Packages.gz\nSHA1:\n");
        push_sum_line(&mut r, p.sha1.as_str(), p.size, cp.as_str(), "/Packages\n");
        push_sum_line(&mut r, gz.sha1.as_str(), gz.size, cp.as_str(), "/Packages.gz\nSHA256:\n");
        push_sum_line(&mut r, p.sha256.as_str(), p.size, cp.as_str(), "/Packages\n");
        push_sum_line(&mut r, gz.sha256.as_str(), gz.size, cp.as_str(), "/Packages.gz\n");
        r
    }

    /// Generate Release file content, dated now.
    pub fn generate_release_content(&self, packages_info: &FileInfo, packages_gz_info: &FileInfo) -> (r: Result<String, DebianError>)
        ensures
            r matches Ok(t) && exists|date: Seq<char>|
                t@ == release_text(self.dist(), self.comp(), self.arch(), date, *packages_info, *packages_gz_info),
    {
        proof {
            reveal_strlit("%a, %d %b %Y %H:%M:%S UTC");
        }
        let date = utc_now_formatted("%a, %d %b %Y %H:%M:%S UTC");
        let t = self.release_content_dated(date.as_str(), packages_info, packages_gz_info);
        Ok(t)
    }

    /// The metadata of a generated repository.
    pub fn metadata(&self, packages_file: String, release_file: String, package_count: usize) -> (r: RepositoryMetadata)
        ensures
            r.repository_root@ == self.root(),
            r.distribution@ == self.dist(),
            r.component@ == self.comp(),
            r.architecture@ == self.arch(),
            r.packages_file == packages_file,
            r.release_file == release_file,
            r.package_count == package_count,
    {
        RepositoryMetadata {
            repository_root: self.repository_root.clone(),
            distribution: self.distribution.clone(),
            component: self.component.clone(),
            architecture: self.architecture.clone(),
            packages_file,
            release_file,
            package_count,
        }
    }
}


/// Two hexadecimal digits per byte.
pub proof fn law_hex_text_length(b: Seq<u8>)
    ensures
        hex_text(b).len() == 2 * b.len(),
    decreases b.len(),
{
    if b.len() > 0 {
        law_hex_text_length(b.drop_last());
    }
}

/// A field set twice keeps the later value; other fields are untouched.
pub proof fn law_later_field_wins(fields: Seq<(String, String)>, key: Seq<char>, first: Seq<char>, second: Seq<char>)
    requires
        unique_keys(fields),
    ensures
        pairs_map(fields).insert(key, first).insert(key, second) == pairs_map(fields).insert(key, second),
{
    assert(pairs_map(fields).insert(key, first).insert(key, second) =~= pairs_map(fields).insert(key, second));
}
} // verus!
