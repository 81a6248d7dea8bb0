//! The human-readable summary of collected artifacts, with sizes in
//! mebibytes to two decimals.
use vstd::prelude::*;
use crate::artifact::{
    group_by_package, group_views, groups_of, package_names, total_size, total_size_of,
    ArtifactCollector, BuildArtifact,
};
use crate::paths::path_file_name;
use crate::text::{decimal, digit_char, owned, push_char, push_decimal};

verus! {

broadcast use vstd::string::group_string_axioms;

/// Bytes in a mebibyte.
pub const MEBIBYTE: u64 = 1048576;

/// `bytes / 2^20` in hundredths, rounded to nearest, ties to even: what
/// `{:.2}` prints of the exact quotient.
pub open spec fn mb_hundredths(bytes: nat) -> nat {
    let t = bytes * 100;
    let q = t / 1048576;
    let r = t % 1048576;
    if r * 2 > 1048576 || (r * 2 == 1048576 && q % 2 == 1) {
        q + 1
    } else {
        q
    }
}

/// `format!("{:.2}", bytes as f64 / 1_048_576.0)`, exact for the sizes below
/// 2^53 that an `f64` holds exactly.
pub open spec fn mb_text(bytes: nat) -> Seq<char> {
    let h = mb_hundredths(bytes);
    decimal(h / 100) + seq!['.', digit_char(((h % 100) / 10) as int), digit_char((h % 10) as int)]
}

/// An artifact's file name, or `unknown`.
pub open spec fn name_or_unknown(path: Seq<char>) -> Seq<char> {
    match path_file_name(path) {
        Some(f) => f,
        None => "unknown"@,
    }
}

/// The summary line of one artifact.
pub open spec fn artifact_line(a: BuildArtifact) -> Seq<char> {
    "  - "@ + name_or_unknown(a.path@) + " ("@ + mb_text(a.size as nat) + " MB) ["@ + a.artifact_type@
        + "]\n"@
}

/// The lines of the artifacts at `idxs`.
pub open spec fn group_lines(arts: Seq<BuildArtifact>, idxs: Seq<int>) -> Seq<char>
    decreases idxs.len(),
{
    if idxs.len() == 0 {
        Seq::empty()
    } else {
        group_lines(arts, idxs.drop_last()) + artifact_line(arts[idxs.last()])
    }
}

/// The package sections of the summary.
pub open spec fn groups_text(arts: Seq<BuildArtifact>, gs: Seq<(Seq<char>, Seq<int>)>) -> Seq<char>
    decreases gs.len(),
{
    if gs.len() == 0 {
        Seq::empty()
    } else {
        groups_text(arts, gs.drop_last()) + "Package: "@ + gs.last().0 + "\n"@ + group_lines(
            arts,
            gs.last().1,
        ) + "\n"@
    }
}

/// The summary of `arts`: a header, one section per package (packages in
/// order of first appearance; the order among packages is otherwise
/// unspecified), and the totals.
pub open spec fn summary_text(arts: Seq<BuildArtifact>) -> Seq<char> {
    "Build Artifacts:\n"@ + "================\n\n"@ + groups_text(arts, groups_of(package_names(arts)))
        + "Total: "@ + decimal(arts.len()) + " artifacts, "@ + mb_text(total_size_of(arts)) + " MB\n"@
}

fn digit_exec(d: u64) -> (c: char)
    requires
        d < 10,
    ensures
        c == digit_char(d as int),
{
    if d == 0 { '0' } else if d == 1 { '1' } else if d == 2 { '2' } else if d == 3 { '3' }
    else if d == 4 { '4' } else if d == 5 { '5' } else if d == 6 { '6' } else if d == 7 { '7' }
    else if d == 8 { '8' } else { '9' }
}

/// Appends `mb_text(bytes)`.
pub fn push_mb(s: &mut String, bytes: u64)
    requires
        bytes < 0x20_0000_0000_0000,
    ensures
        final(s)@ == old(s)@ + mb_text(bytes as nat),
{
    let t: u64 = bytes * 100;
    let q: u64 = t / MEBIBYTE;
    let r: u64 = t % MEBIBYTE;
    let h: u64 = if r * 2 > MEBIBYTE || (r * 2 == MEBIBYTE && q % 2 == 1) {
        q + 1
    } else {
        q
    };
    assert(h == mb_hundredths(bytes as nat));
    push_decimal(s, h / 100);
    push_char(s, '.');
    push_char(s, digit_exec((h % 100) / 10));
    push_char(s, digit_exec(h % 10));
    assert(final(s)@ =~= old(s)@ + mb_text(bytes as nat));
}

/// An element's size is part of the total.
proof fn lemma_size_le_total(v: Seq<BuildArtifact>, i: int)
    requires
        0 <= i < v.len(),
    ensures
        v[i].size <= total_size_of(v),
    decreases v.len(),
{
    if i < v.len() - 1 {
        lemma_size_le_total(v.drop_last(), i);
        assert(v.drop_last()[i] == v[i]);
    }
}

impl ArtifactCollector {
    /// Create artifact summary: per package its artifacts with file name,
    /// size in MB and type, then the count and total size.
    pub fn create_summary(&self, artifacts: &Vec<BuildArtifact>) -> (r: String)
        requires
            total_size_of(artifacts@) < 0x20_0000_0000_0000,
        ensures
            r@ == summary_text(artifacts@),
    {
        let groups = group_by_package(artifacts);
        let ghost arts = artifacts@;
        let ghost gs = groups_of(package_names(arts));
        let mut s = owned("Build Artifacts:\n");
        s.append("================\n\n");
        let ghost head = s@;
        proof {
            crate::artifact::lemma_groups_in_range(package_names(arts));
            assert(gs.take(0) =~= Seq::<(Seq<char>, Seq<int>)>::empty());
        }
        let mut g: usize = 0;
        while g < groups.len()
            invariant
                g <= groups.len(),
                arts == artifacts@,
                group_views(groups@) == gs,
                gs == groups_of(package_names(arts)),
                total_size_of(arts) < 0x20_0000_0000_0000,
                s@ == head + groups_text(arts, gs.take(g as int)),
                forall|a: int, k: int| 0 <= a < gs.len() && 0 <= k < gs[a].1.len() ==> 0 <= #[trigger] gs[a].1[k] < arts.len(),
            decreases groups.len() - g,
        {
            let ghost before = s@;
            assert(gs.take(g + 1).drop_last() =~= gs.take(g as int));
            assert(gs[g as int].0 == groups@[g as int].0@);
            s.append("Package: ");
            s.append(groups[g].0.as_str());
            s.append("\n");
            let ghost mid = s@;
            let idxs = &groups[g].1;
            let ghost gi = gs[g as int].1;
            assert(gi == idxs@.map_values(|i: usize| i as int));
            let mut k: usize = 0;
            while k < idxs.len()
                invariant
                    k <= idxs.len(),
                    arts == artifacts@,
                    gi == idxs@.map_values(|i: usize| i as int),
                    forall|j: int| 0 <= j < gi.len() ==> 0 <= #[trigger] gi[j] < arts.len(),
                    total_size_of(arts) < 0x20_0000_0000_0000,
                    s@ == mid + group_lines(arts, gi.take(k as int)),
                decreases idxs.len() - k,
            {
                assert(gi.take(k + 1).drop_last() =~= gi.take(k as int));
                let i = idxs[k];
                assert(gi[k as int] == i as int);
                let a = &artifacts[i];
                proof {
                    lemma_size_le_total(arts, i as int);
                }
                s.append("  - ");
                match a.filename() {
                    Some(f) => s.append(f.as_str()),
                    None => s.append("unknown"),
                }
                s.append(" (");
                push_mb(&mut s, a.size);
                s.append(" MB) [");
                s.append(a.artifact_type.as_str());
                s.append("]\n");
                k += 1;
            }
            assert(gi.take(idxs.len() as int) =~= gi);
            s.append("\n");
            g += 1;
        }
        assert(gs.take(groups.len() as int) =~= gs);
        s.append("Total: ");
        push_decimal(&mut s, artifacts.len() as u64);
        s.append(" artifacts, ");
        let total = total_size(artifacts);
        push_mb(&mut s, total as u64);
        s.append(" MB\n");
        s
    }
}


/// A whole number of mebibytes prints with `.00`.
pub proof fn law_whole_mebibytes(k: nat)
    ensures
        mb_hundredths(k * 1048576) == k * 100,
{
    assert((k * 1048576 * 100) / 1048576 == k * 100 && (k * 1048576 * 100) % 1048576 == 0) by (nonlinear_arith);
}
} // verus!
