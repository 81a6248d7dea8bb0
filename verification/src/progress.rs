//! Structured progress output of the build container (`::progress::` and
//! `::log::` lines) and the tracking of a build from its events.
use vstd::prelude::*;
use crate::text::{
    all_digits, digits_value, is_digit, lacks, lemma_occurs_first_char, lemma_split_two, occurs_at,
    chars_eq_str, chars_of, char_views, is_prefix, lowercase, parse_unsigned, parse_usize, slice,
    split, split_str, starts_with_str, string_of, to_lowercase, trim, trim_chars, views,
};

verus! {

/// Log levels of progress events.
#[derive(Debug, Clone, Copy, PartialEq, Eq, Structural)]
pub enum LogLevel {
    /// Debug level
    Debug,
    /// Info level
    Info,
    /// Warning level
    Warn,
    /// Error level
    Error,
}

/// The level a level name stands for, read without regard to case; an
/// unknown name reads as info.
pub open spec fn level_of(s: Seq<char>) -> LogLevel {
    let l = lowercase(s);
    if l == "debug"@ {
        LogLevel::Debug
    } else if l == "info"@ {
        LogLevel::Info
    } else if l == "warn"@ || l == "warning"@ {
        LogLevel::Warn
    } else if l == "error"@ {
        LogLevel::Error
    } else {
        LogLevel::Info
    }
}

impl LogLevel {
    /// Reads a log level name; an unknown name reads as info.
    pub fn from_level_str(s: &str) -> (r: Self)
        ensures
            r == level_of(s@),
    {
        let low = to_lowercase(s);
        let l = chars_of(low.as_str());
        if chars_eq_str(&l, "debug") {
            LogLevel::Debug
        } else if chars_eq_str(&l, "info") {
            LogLevel::Info
        } else if chars_eq_str(&l, "warn") || chars_eq_str(&l, "warning") {
            LogLevel::Warn
        } else if chars_eq_str(&l, "error") {
            LogLevel::Error
        } else {
            LogLevel::Info
        }
    }
}

/// A progress event.
#[derive(Debug, Clone, PartialEq, Eq)]
#[allow(inconsistent_fields)]
pub enum ProgressEvent {
    /// Package build started
    PackageStart {
        /// Package name
        name: String,
        /// Current package number
        current: Option<usize>,
        /// Total number of packages
        total: Option<usize>,
    },
    /// Package build completed
    PackageComplete {
        /// Package name
        name: String,
        /// Whether the build succeeded
        success: bool,
        /// Error message if failed
        error: Option<String>,
    },
    /// Build stage changed
    Stage {
        /// Stage name
        name: String,
        /// Stage description
        description: Option<String>,
    },
    /// General progress update
    Progress {
        /// Current step
        current: usize,
        /// Total steps
        total: usize,
        /// Progress message
        message: Option<String>,
    },
    /// Log message
    Log {
        /// Log level
        level: LogLevel,
        /// Log message
        message: String,
    },
}

/// Model of a progress event.
#[verifier::ext_equal]
#[allow(inconsistent_fields)]
pub enum ProgressEventView {
    PackageStart { name: Seq<char>, current: Option<usize>, total: Option<usize> },
    PackageComplete { name: Seq<char>, success: bool, error: Option<Seq<char>> },
    Stage { name: Seq<char>, description: Option<Seq<char>> },
    Progress { current: usize, total: usize, message: Option<Seq<char>> },
    Log { level: LogLevel, message: Seq<char> },
}

/// The text of an optional string.
pub open spec fn opt_text(o: Option<String>) -> Option<Seq<char>> {
    match o {
        Some(s) => Some(s@),
        None => None,
    }
}

impl View for ProgressEvent {
    type V = ProgressEventView;

    open spec fn view(&self) -> ProgressEventView {
        match self {
            ProgressEvent::PackageStart { name, current, total } => ProgressEventView::PackageStart {
                name: name@,
                current: *current,
                total: *total,
            },
            ProgressEvent::PackageComplete { name, success, error } =>
                ProgressEventView::PackageComplete {
                name: name@,
                success: *success,
                error: opt_text(*error),
            },
            ProgressEvent::Stage { name, description } => ProgressEventView::Stage {
                name: name@,
                description: opt_text(*description),
            },
            ProgressEvent::Progress { current, total, message } => ProgressEventView::Progress {
                current: *current,
                total: *total,
                message: opt_text(*message),
            },
            ProgressEvent::Log { level, message } => ProgressEventView::Log {
                level: *level,
                message: message@,
            },
        }
    }
}

/// The model of an optional event.
pub open spec fn event_view(o: Option<ProgressEvent>) -> Option<ProgressEventView> {
    match o {
        Some(e) => Some(e@),
        None => None,
    }
}

/// `"2/10"` read as the pair (2, 10): two unsigned numbers around one `/`.
pub open spec fn fraction_of(s: Seq<char>) -> Option<(usize, usize)> {
    let parts = split(s, "/"@);
    if parts.len() == 2 {
        match (parse_unsigned(parts[0], usize::MAX as nat), parse_unsigned(parts[1], usize::MAX as nat)) {
            (Some(a), Some(b)) => Some((a as usize, b as usize)),
            _ => None,
        }
    } else {
        None
    }
}

/// `"[2/10]"` (around whitespace) read as (Some(2), Some(10)); anything else
/// as (None, None).
pub open spec fn progress_numbers(s: Seq<char>) -> (Option<usize>, Option<usize>) {
    let t = trim(s);
    if t.len() > 0 && t[0] == '[' && t.last() == ']' {
        match fraction_of(t.subrange(1, t.len() - 1)) {
            Some((c, n)) => (Some(c), Some(n)),
            None => (None, None),
        }
    } else {
        (None, None)
    }
}

/// The last index before `end` where `s` holds `c`.
pub open spec fn last_index_of(s: Seq<char>, c: char, end: int) -> Option<int>
    decreases end,
{
    if end <= 0 || end > s.len() {
        None
    } else if s[end - 1] == c {
        Some(end - 1)
    } else {
        last_index_of(s, c, end - 1)
    }
}

/// The event of a `package_start` line whose argument is `arg`: a name,
/// optionally followed by a space and `[current/total]`.
pub open spec fn package_start_of(arg: Seq<char>) -> ProgressEventView {
    match last_index_of(arg, ' ', arg.len() as int) {
        Some(p) => {
            let nums = progress_numbers(arg.subrange(p + 1, arg.len() as int));
            ProgressEventView::PackageStart {
                name: arg.subrange(0, p),
                current: nums.0,
                total: nums.1,
            }
        },
        None => ProgressEventView::PackageStart { name: arg, current: None, total: None },
    }
}

/// The event of the fields of a `::progress::` line (split at `::`).
pub open spec fn progress_event_of(parts: Seq<Seq<char>>) -> Option<ProgressEventView> {
    if parts.len() == 2 && parts[0] == "package_start"@ {
        Some(package_start_of(parts[1]))
    } else if parts.len() == 3 && parts[0] == "package_complete"@ && parts[2] == "success"@ {
        Some(ProgressEventView::PackageComplete { name: parts[1], success: true, error: None })
    } else if parts.len() == 4 && parts[0] == "package_complete"@ && parts[2] == "failed"@ {
        Some(ProgressEventView::PackageComplete { name: parts[1], success: false, error: Some(parts[3]) })
    } else if parts.len() == 2 && parts[0] == "stage"@ {
        Some(ProgressEventView::Stage { name: parts[1], description: None })
    } else if parts.len() == 3 && parts[0] == "stage"@ {
        Some(ProgressEventView::Stage { name: parts[1], description: Some(parts[2]) })
    } else if (parts.len() == 2 || parts.len() == 3) && parts[0] == "overall"@ {
        match fraction_of(parts[1]) {
            Some((c, t)) => Some(
                ProgressEventView::Progress {
                    current: c,
                    total: t,
                    message: if parts.len() == 3 { Some(parts[2]) } else { None },
                },
            ),
            None => None,
        }
    } else {
        None
    }
}

/// The event of a `::progress::` line.
pub open spec fn progress_line_event(line: Seq<char>) -> Option<ProgressEventView> {
    let prefix = "::progress::"@;
    if is_prefix(prefix, line) {
        progress_event_of(split(line.subrange(prefix.len() as int, line.len() as int), "::"@))
    } else {
        None
    }
}

/// The event of a `::log::` line: `level::message`, the message holding no `::`.
pub open spec fn log_line_event(line: Seq<char>) -> Option<ProgressEventView> {
    let prefix = "::log::"@;
    if is_prefix(prefix, line) {
        let parts = split(line.subrange(prefix.len() as int, line.len() as int), "::"@);
        if parts.len() == 2 {
            Some(ProgressEventView::Log { level: level_of(parts[0]), message: parts[1] })
        } else {
            None
        }
    } else {
        None
    }
}

/// The event of a line of container output, if it is one.
pub open spec fn line_event(line: Seq<char>) -> Option<ProgressEventView> {
    if is_prefix("::progress::"@, line) {
        progress_line_event(line)
    } else if is_prefix("::log::"@, line) {
        log_line_event(line)
    } else {
        None
    }
}


/// Reads `"2/10"` as (2, 10).
pub fn parse_fraction(s: &Vec<char>) -> (r: Option<(usize, usize)>)
    ensures
        r == fraction_of(s@),
{
    proof {
        reveal_strlit("/");
    }
    let parts = split_str(s, "/");
    assert(char_views(parts@) == split(s@, "/"@));
    if parts.len() != 2 {
        return None;
    }
    assert(parts@[0]@ == split(s@, "/"@)[0]);
    assert(parts@[1]@ == split(s@, "/"@)[1]);
    let current = parse_usize(&parts[0]);
    let total = parse_usize(&parts[1]);
    match (current, total) {
        (Some(c), Some(t)) => Some((c, t)),
        _ => None,
    }
}

/// Reads `"[2/10]"` (around whitespace) as (Some(2), Some(10)).
pub fn parse_progress_numbers(s: &Vec<char>) -> (r: (Option<usize>, Option<usize>))
    ensures
        r == progress_numbers(s@),
{
    let t = trim_chars(s);
    if t.len() > 0 && t[0] == '[' && t[t.len() - 1] == ']' {
        let inner = slice(&t, 1, t.len() - 1);
        match parse_fraction(&inner) {
            Some((c, n)) => (Some(c), Some(n)),
            None => (None, None),
        }
    } else {
        (None, None)
    }
}

/// The last index of `c` in `s`.
fn rfind_char(s: &Vec<char>, c: char) -> (r: Option<usize>)
    ensures
        match r {
            Some(q) => last_index_of(s@, c, s@.len() as int) == Some(q as int) && q < s.len(),
            None => last_index_of(s@, c, s@.len() as int) is None,
        },
{
    let mut end = s.len();
    while end > 0
        invariant
            end <= s.len(),
            last_index_of(s@, c, s@.len() as int) == last_index_of(s@, c, end as int),
        decreases end,
    {
        if s[end - 1] == c {
            return Some(end - 1);
        }
        end -= 1;
    }
    None
}

/// Whether the text of `v` is `lit`.
fn is_text(v: &Vec<char>, lit: &str) -> (r: bool)
    ensures
        r == (v@ == lit@),
{
    chars_eq_str(v, lit)
}

/// The event of a `package_start` line whose argument is `arg`.
fn package_start_from(arg: &Vec<char>) -> (r: ProgressEvent)
    ensures
        r@ == package_start_of(arg@),
{
    match rfind_char(arg, ' ') {
        Some(pos) => {
            let name = slice(arg, 0, pos);
            let rest = slice(arg, pos + 1, arg.len());
            let nums = parse_progress_numbers(&rest);
            let r = ProgressEvent::PackageStart { name: string_of(&name), current: nums.0, total: nums.1 };
            assert(r@ =~= package_start_of(arg@));
            r
        },
        None => {
            let r = ProgressEvent::PackageStart { name: string_of(arg), current: None, total: None };
            assert(r@ =~= package_start_of(arg@));
            r
        },
    }
}

/// The event of the fields of a `::progress::` line.
fn progress_event_from(parts: &Vec<Vec<char>>) -> (r: Option<ProgressEvent>)
    ensures
        event_view(r) == progress_event_of(char_views(parts@)),
{
    let ghost p = char_views(parts@);
    let n = parts.len();
    if n < 2 {
        return None;
    }
    assert(p[0] == parts@[0]@ && p[1] == parts@[1]@);
    if n == 2 && is_text(&parts[0], "package_start") {
        return Some(package_start_from(&parts[1]));
    }
    if n == 3 {
        assert(p[2] == parts@[2]@);
    }
    if n == 4 {
        assert(p[2] == parts@[2]@ && p[3] == parts@[3]@);
    }
    if n == 3 && is_text(&parts[0], "package_complete") && is_text(&parts[2], "success") {
        return Some(ProgressEvent::PackageComplete { name: string_of(&parts[1]), success: true, error: None });
    }
    if n == 4 && is_text(&parts[0], "package_complete") && is_text(&parts[2], "failed") {
        return Some(
            ProgressEvent::PackageComplete {
                name: string_of(&parts[1]),
                success: false,
                error: Some(string_of(&parts[3])),
            },
        );
    }
    if n == 2 && is_text(&parts[0], "stage") {
        return Some(ProgressEvent::Stage { name: string_of(&parts[1]), description: None });
    }
    if n == 3 && is_text(&parts[0], "stage") {
        return Some(
            ProgressEvent::Stage { name: string_of(&parts[1]), description: Some(string_of(&parts[2])) },
        );
    }
    if (n == 2 || n == 3) && is_text(&parts[0], "overall") {
        return match parse_fraction(&parts[1]) {
            Some((c, t)) => Some(
                ProgressEvent::Progress {
                    current: c,
                    total: t,
                    message: if n == 3 { Some(string_of(&parts[2])) } else { None },
                },
            ),
            None => None,
        };
    }
    None
}

/// Parses a `::progress::` line.
pub fn parse_progress_line(line: &str) -> (r: Option<ProgressEvent>)
    ensures
        event_view(r) == progress_line_event(line@),
{
    let c = chars_of(line);
    if !starts_with_str(&c, "::progress::") {
        return None;
    }
    let prefix = chars_of("::progress::");
    let content = slice(&c, prefix.len(), c.len());
    proof {
        reveal_strlit("::");
    }
    let parts = split_str(&content, "::");
    progress_event_from(&parts)
}

/// Parses a `::log::` line.
pub fn parse_log_line(line: &str) -> (r: Option<ProgressEvent>)
    ensures
        event_view(r) == log_line_event(line@),
{
    let c = chars_of(line);
    if !starts_with_str(&c, "::log::") {
        return None;
    }
    let prefix = chars_of("::log::");
    let content = slice(&c, prefix.len(), c.len());
    proof {
        reveal_strlit("::");
    }
    let parts = split_str(&content, "::");
    if parts.len() != 2 {
        return None;
    }
    assert(char_views(parts@)[0] == parts@[0]@ && char_views(parts@)[1] == parts@[1]@);
    let level_text = string_of(&parts[0]);
    Some(ProgressEvent::Log { level: LogLevel::from_level_str(level_text.as_str()), message: string_of(&parts[1]) })
}

/// Parser of structured progress output (sendable across threads).
pub trait ProgressParser: Send {
    /// The event this parser reads from a line of output, if any.
    spec fn event_of(&self, line: Seq<char>) -> Option<ProgressEventView>;

    /// The event that a line of output stands for, if any.
    fn parse_line(&self, line: &str) -> (r: Option<ProgressEvent>)
        ensures
            event_view(r) == self.event_of(line@),
    ;
}

/// The parser of `::progress::` and `::log::` lines.
#[derive(Debug, Default, Clone, Copy, PartialEq, Eq)]
pub struct DefaultProgressParser;

impl ProgressParser for DefaultProgressParser {
    open spec fn event_of(&self, line: Seq<char>) -> Option<ProgressEventView> {
        line_event(line)
    }

    fn parse_line(&self, line: &str) -> (r: Option<ProgressEvent>)
        ensures
            event_view(r) == line_event(line@),
    {
        let c = chars_of(line);
        if starts_with_str(&c, "::progress::") {
            parse_progress_line(line)
        } else if starts_with_str(&c, "::log::") {
            parse_log_line(line)
        } else {
            None
        }
    }
}


/// Progress of a build, as told by its events.
#[derive(Debug, Clone, PartialEq, Eq)]
pub struct Progress {
    /// Current stage
    pub stage: Option<String>,
    /// Packages in progress
    pub packages_in_progress: Vec<String>,
    /// Completed packages, each with whether it succeeded
    pub completed_packages: Vec<(String, bool)>,
    /// Total packages
    pub total_packages: Option<usize>,
    /// Current overall progress
    pub current_progress: Option<usize>,
    /// Total progress steps
    pub total_progress: Option<usize>,
}

/// Model of a `Progress`.
#[verifier::ext_equal]
pub struct ProgressModel {
    pub stage: Option<Seq<char>>,
    pub in_progress: Seq<Seq<char>>,
    pub completed: Seq<(Seq<char>, bool)>,
    pub total_packages: Option<usize>,
    pub current_progress: Option<usize>,
    pub total_progress: Option<usize>,
}

/// The text of a list of (name, outcome) pairs.
pub open spec fn outcome_views(v: Seq<(String, bool)>) -> Seq<(Seq<char>, bool)> {
    v.map_values(|p: (String, bool)| (p.0@, p.1))
}

impl View for Progress {
    type V = ProgressModel;

    open spec fn view(&self) -> ProgressModel {
        ProgressModel {
            stage: opt_text(self.stage),
            in_progress: views(self.packages_in_progress@),
            completed: outcome_views(self.completed_packages@),
            total_packages: self.total_packages,
            current_progress: self.current_progress,
            total_progress: self.total_progress,
        }
    }
}

/// `s` without the entries equal to `x`, in order.
pub open spec fn without(s: Seq<Seq<char>>, x: Seq<char>) -> Seq<Seq<char>>
    decreases s.len(),
{
    if s.len() == 0 {
        s
    } else if s.last() == x {
        without(s.drop_last(), x)
    } else {
        without(s.drop_last(), x).push(s.last())
    }
}

/// How many completed packages had the outcome `success`.
pub open spec fn count_outcome(s: Seq<(Seq<char>, bool)>, success: bool) -> nat
    decreases s.len(),
{
    if s.len() == 0 {
        0
    } else {
        count_outcome(s.drop_last(), success) + if s.last().1 == success {
            1nat
        } else {
            0nat
        }
    }
}

/// Progress after the event `e`.
pub open spec fn progress_after(p: ProgressModel, e: ProgressEventView) -> ProgressModel {
    match e {
        ProgressEventView::PackageStart { name, total, .. } => ProgressModel {
            in_progress: p.in_progress.push(name),
            total_packages: if total is Some {
                total
            } else {
                p.total_packages
            },
            ..p
        },
        ProgressEventView::PackageComplete { name, success, .. } => ProgressModel {
            in_progress: without(p.in_progress, name),
            completed: p.completed.push((name, success)),
            ..p
        },
        ProgressEventView::Stage { name, .. } => ProgressModel { stage: Some(name), ..p },
        ProgressEventView::Progress { current, total, .. } => ProgressModel {
            current_progress: Some(current),
            total_progress: Some(total),
            ..p
        },
        ProgressEventView::Log { .. } => p,
    }
}

/// The completed part of the build as a fraction: overall steps when a
/// non-zero step total is known, else completed packages when a non-zero
/// package total is known.
pub open spec fn completion_of(p: ProgressModel) -> Option<(nat, nat)> {
    if p.current_progress is Some && p.total_progress is Some && p.total_progress->0 > 0 {
        Some((p.current_progress->0 as nat, p.total_progress->0 as nat))
    } else if p.total_packages is Some && p.total_packages->0 > 0 {
        Some((p.completed.len(), p.total_packages->0 as nat))
    } else {
        None
    }
}

/// Progress with nothing known yet.
pub open spec fn no_progress() -> ProgressModel {
    ProgressModel {
        stage: None,
        in_progress: Seq::empty(),
        completed: Seq::empty(),
        total_packages: None,
        current_progress: None,
        total_progress: None,
    }
}

impl Default for Progress {
    fn default() -> (r: Self)
        ensures
            r@ == no_progress(),
    {
        let r = Progress {
            stage: None,
            packages_in_progress: Vec::new(),
            completed_packages: Vec::new(),
            total_packages: None,
            current_progress: None,
            total_progress: None,
        };
        assert(r@ =~= no_progress());
        r
    }
}

/// `v` without the entries equal to `name`.
fn retain_other(v: &Vec<String>, name: &String) -> (r: Vec<String>)
    ensures
        views(r@) == without(views(v@), name@),
{
    let mut r: Vec<String> = Vec::new();
    let mut k: usize = 0;
    while k < v.len()
        invariant
            k <= v.len(),
            views(r@) == without(views(v@).subrange(0, k as int), name@),
        decreases v.len() - k,
    {
        let ghost prefix = views(v@).subrange(0, k as int);
        let ghost next = views(v@).subrange(0, k + 1);
        assert(next.drop_last() =~= prefix);
        if v[k] != *name {
            let c = v[k].clone();
            proof {
                crate::text::lemma_views_push(r@, c);
            }
            r.push(c);
        }
        k += 1;
    }
    assert(views(v@).subrange(0, v.len() as int) =~= views(v@));
    r
}

impl Progress {
    /// Takes the event `event` into account.
    pub fn update(&mut self, event: &ProgressEvent)
        ensures
            final(self)@ == progress_after(old(self)@, event@),
    {
        match event {
            ProgressEvent::PackageStart { name, total, .. } => {
                let n = name.clone();
                proof {
                    crate::text::lemma_views_push(self.packages_in_progress@, n);
                }
                self.packages_in_progress.push(n);
                if let Some(t) = total {
                    self.total_packages = Some(*t);
                }
            },
            ProgressEvent::PackageComplete { name, success, .. } => {
                self.packages_in_progress = retain_other(&self.packages_in_progress, name);
                let entry = (name.clone(), *success);
                assert(outcome_views(self.completed_packages@.push(entry)) =~= outcome_views(
                    self.completed_packages@,
                ).push((name@, *success)));
                self.completed_packages.push(entry);
            },
            ProgressEvent::Stage { name, .. } => {
                self.stage = Some(name.clone());
            },
            ProgressEvent::Progress { current, total, .. } => {
                self.current_progress = Some(*current);
                self.total_progress = Some(*total);
            },
            ProgressEvent::Log { .. } => {},
        }
        assert(self@ =~= progress_after(old(self)@, event@));
    }

    /// The completed part of the build as a (done, total) fraction, if known.
    pub fn completion_fraction(&self) -> (r: Option<(usize, usize)>)
        ensures
            match completion_of(self@) {
                Some((d, t)) => r matches Some((a, b)) && a == d && b == t,
                None => r is None,
            },
    {
        match (self.current_progress, self.total_progress) {
            (Some(current), Some(total)) => {
                if total > 0 {
                    return Some((current, total));
                }
            },
            _ => {},
        }
        match self.total_packages {
            Some(total) => {
                if total > 0 {
                    return Some((self.completed_packages.len(), total));
                }
            },
            None => {},
        }
        None
    }

    /// How many completed packages had the outcome `success`.
    fn count_with(&self, success: bool) -> (r: usize)
        ensures
            r == count_outcome(self@.completed, success),
    {
        let v = &self.completed_packages;
        let mut n: usize = 0;
        let mut k: usize = 0;
        while k < v.len()
            invariant
                k <= v.len(),
                n <= k,
                n == count_outcome(outcome_views(v@).subrange(0, k as int), success),
            decreases v.len() - k,
        {
            let ghost prefix = outcome_views(v@).subrange(0, k as int);
            let ghost next = outcome_views(v@).subrange(0, k + 1);
            assert(next.drop_last() =~= prefix);
            if v[k].1 == success {
                n += 1;
            }
            k += 1;
        }
        assert(outcome_views(v@).subrange(0, v.len() as int) =~= outcome_views(v@));
        n
    }

    /// Number of packages that succeeded.
    pub fn successful_packages(&self) -> (r: usize)
        ensures
            r == count_outcome(self@.completed, true),
    {
        self.count_with(true)
    }

    /// Number of packages that failed.
    pub fn failed_packages(&self) -> (r: usize)
        ensures
            r == count_outcome(self@.completed, false),
    {
        self.count_with(false)
    }
}


/// Index of the first newline of `s`, if any.
pub open spec fn first_newline_of(s: Seq<char>) -> Option<int> {
    if exists|i: int| 0 <= i < s.len() && s[i] == '\n' {
        Some(choose|i: int| 0 <= i < s.len() && s[i] == '\n' && forall|j: int| 0 <= j < i ==> s[j] != '\n')
    } else {
        None
    }
}

/// A stream of container output read as progress events: chunks are
/// buffered and cut into lines, and each line is handed to the parser.
pub struct ProgressStream<S> {
    inner: S,
    parser: Box<dyn ProgressParser>,
    buffer: String,
}

impl<S> ProgressStream<S> {
    /// Text received and not yet cut into lines.
    pub closed spec fn pending(&self) -> Seq<char> {
        self.buffer@
    }

    /// The underlying stream.
    pub closed spec fn stream(&self) -> S {
        self.inner
    }

    /// The event the stream's parser reads from `line`.
    pub closed spec fn parsed(&self, line: Seq<char>) -> Option<ProgressEventView> {
        self.parser.event_of(line)
    }

    /// A progress stream over `stream` with the default parser.
    pub fn new(stream: S) -> (r: Self)
        ensures
            r.pending() == Seq::<char>::empty(),
            r.stream() == stream,
    {
        Self::with_parser(stream, Box::new(DefaultProgressParser))
    }

    /// A progress stream over `stream` with the parser `parser`.
    pub fn with_parser(stream: S, parser: Box<dyn ProgressParser>) -> (r: Self)
        ensures
            r.pending() == Seq::<char>::empty(),
            r.stream() == stream,
    {
        ProgressStream { inner: stream, parser, buffer: String::new() }
    }

    /// The underlying stream of output chunks.
    pub fn inner_mut(&mut self) -> (r: &mut S)
        ensures
            *r == old(self).stream(),
            final(self).stream() == *final(r),
            final(self).pending() == old(self).pending(),
            forall|line: Seq<char>| #[trigger] final(self).parsed(line) == old(self).parsed(line),
    {
        &mut self.inner
    }

    /// Appends a chunk of output to the text not yet cut into lines.
    pub fn push_chunk(&mut self, chunk: &str)
        ensures
            final(self).pending() == old(self).pending() + chunk@,
    {
        self.buffer.append(chunk);
    }

    /// Cuts the first complete line (up to its newline) off the pending
    /// text, if there is one.
    pub fn next_line(&mut self) -> (r: Option<String>)
        ensures
            match first_newline_of(old(self).pending()) {
                Some(k) => r matches Some(l) && l@ == old(self).pending().subrange(0, k)
                    && final(self).pending() == old(self).pending().subrange(
                    k + 1,
                    old(self).pending().len() as int,
                ),
                None => r is None && final(self).pending() == old(self).pending(),
            },
    {
        let c = chars_of(self.buffer.as_str());
        let mut k: usize = 0;
        while k < c.len() && c[k] != '\n'
            invariant
                k <= c.len(),
                forall|j: int| 0 <= j < k ==> c@[j] != '\n',
            decreases c.len() - k,
        {
            k += 1;
        }
        if k == c.len() {
            return None;
        }
        let ghost s = c@;
        assert(forall|i: int| 0 <= i < s.len() && s[i] == '\n' && (forall|j: int| 0 <= j < i ==> s[j] != '\n') ==> i == k);
        let line = string_of(&slice(&c, 0, k));
        self.buffer = string_of(&slice(&c, k + 1, c.len()));
        Some(line)
    }

    /// Takes all the pending text, when there is some (at the end of the stream).
    pub fn take_rest(&mut self) -> (r: Option<String>)
        ensures
            old(self).pending().len() == 0 ==> r is None,
            old(self).pending().len() > 0 ==> (r matches Some(l) && l@ == old(self).pending()),
            final(self).pending() == Seq::<char>::empty(),
    {
        if self.buffer.as_str().is_empty() {
            return None;
        }
        let mut rest = String::new();
        std::mem::swap(&mut rest, &mut self.buffer);
        Some(rest)
    }

    /// The event the stream's parser reads from `line`.
    pub fn parse(&self, line: &str) -> (r: Option<ProgressEvent>)
        ensures
            event_view(r) == self.parsed(line@),
    {
        self.parser.parse_line(line)
    }
}


/// `without` drops exactly the entries equal to `x`.
pub proof fn lemma_without(s: Seq<Seq<char>>, x: Seq<char>)
    ensures
        !without(s, x).contains(x),
        !s.contains(x) ==> without(s, x) == s,
    decreases s.len(),
{
    if s.len() > 0 {
        lemma_without(s.drop_last(), x);
        let w = without(s.drop_last(), x);
        if s.last() != x {
            assert forall|i: int| 0 <= i < w.push(s.last()).len() implies w.push(s.last())[i] != x by {
                if i < w.len() {
                    assert(w.push(s.last())[i] == w[i]);
                }
            }
        }
        if !s.contains(x) {
            assert(s.drop_last().len() < s.len());
            assert forall|i: int| 0 <= i < s.drop_last().len() implies s.drop_last()[i] != x by {
                assert(s.drop_last()[i] == s[i]);
            }
            assert(s[s.len() - 1] != x);
            assert(s.drop_last().push(s.last()) =~= s);
        }
    }
}

/// A completed package is no longer in progress.
pub proof fn law_complete_clears_package(p: ProgressModel, name: Seq<char>, success: bool, error: Option<Seq<char>>)
    ensures
        !progress_after(p, ProgressEventView::PackageComplete { name, success, error }).in_progress.contains(name),
        progress_after(p, ProgressEventView::PackageComplete { name, success, error }).completed.last() == (name, success),
{
    lemma_without(p.in_progress, name);
}

/// Starting and then completing a package that was not in progress leaves
/// the packages in progress as they were.
pub proof fn law_start_then_complete(p: ProgressModel, name: Seq<char>, current: Option<usize>, total: Option<usize>, success: bool, error: Option<Seq<char>>)
    requires
        !p.in_progress.contains(name),
    ensures
        progress_after(
            progress_after(p, ProgressEventView::PackageStart { name, current, total }),
            ProgressEventView::PackageComplete { name, success, error },
        ).in_progress == p.in_progress,
{
    lemma_without(p.in_progress, name);
    let s = p.in_progress.push(name);
    assert(s.last() == name);
    assert(s.drop_last() =~= p.in_progress);
}

/// Every completed package counts as successful or as failed.
pub proof fn law_outcome_counts(s: Seq<(Seq<char>, bool)>)
    ensures
        count_outcome(s, true) + count_outcome(s, false) == s.len(),
    decreases s.len(),
{
    if s.len() > 0 {
        law_outcome_counts(s.drop_last());
    }
}

/// `sep` occurs in `u + sep + v` only where it was put, when neither `u`
/// nor `v` holds its first character.
proof fn lemma_single_separator(u: Seq<char>, sep: Seq<char>, v: Seq<char>)
    requires
        sep.len() > 0,
        lacks(u, sep[0]),
        lacks(v, sep[0]),
    ensures
        split(u + sep + v, sep) == seq![u, v],
{
    let s = u + sep + v;
    assert forall|k: int| 0 <= k < u.len() implies !occurs_at(s, sep, k) by {
        if occurs_at(s, sep, k) {
            lemma_occurs_first_char(s, sep, k);
            assert(s[k] == u[k]);
        }
    }
    assert forall|k: int| u.len() + sep.len() <= k implies !occurs_at(s, sep, k) by {
        if occurs_at(s, sep, k) {
            lemma_occurs_first_char(s, sep, k);
            assert(s[k] == v[k - u.len() - sep.len()]);
        }
    }
    lemma_split_two(u, sep, v);
}

/// An overall progress line `::progress::overall::A/B`, with `A` and `B`
/// unsigned decimal numbers, is a progress event whose current step is the
/// number before the slash and whose total is the number after it, with no
/// message.
pub proof fn law_overall_progress_line(a: Seq<char>, b: Seq<char>)
    requires
        a.len() > 0,
        b.len() > 0,
        all_digits(a),
        all_digits(b),
        digits_value(a) <= usize::MAX,
        digits_value(b) <= usize::MAX,
    ensures
        line_event("::progress::overall::"@ + a + "/"@ + b) == Some(
            ProgressEventView::Progress {
                current: digits_value(a) as usize,
                total: digits_value(b) as usize,
                message: None,
            },
        ),
{
    reveal_strlit("::progress::overall::");
    reveal_strlit("::progress::");
    reveal_strlit("::log::");
    reveal_strlit("::");
    reveal_strlit("/");
    reveal_strlit("overall");
    reveal_strlit("package_start");
    reveal_strlit("package_complete");
    reveal_strlit("stage");
    let prefix = "::progress::"@;
    let f = a + "/"@ + b;
    let rest = "overall"@ + "::"@ + f;
    let line = "::progress::overall::"@ + a + "/"@ + b;
    assert(line =~= prefix + rest);
    assert(line.subrange(0, prefix.len() as int) =~= prefix);
    assert(line.subrange(prefix.len() as int, line.len() as int) =~= rest);
    assert(lacks(a, '/')) by {
        assert forall|k: int| 0 <= k < a.len() implies #[trigger] a[k] != '/' by {
            assert(is_digit(a[k]));
        }
    }
    assert(lacks(b, '/')) by {
        assert forall|k: int| 0 <= k < b.len() implies #[trigger] b[k] != '/' by {
            assert(is_digit(b[k]));
        }
    }
    assert(lacks(f, ':')) by {
        assert forall|k: int| 0 <= k < f.len() implies #[trigger] f[k] != ':' by {
            if k < a.len() {
                assert(f[k] == a[k] && is_digit(a[k]));
            } else if k > a.len() {
                assert(f[k] == b[k - a.len() - 1] && is_digit(b[k - a.len() - 1]));
            }
        }
    }
    assert(lacks("overall"@, ':'));
    lemma_single_separator("overall"@, "::"@, f);
    lemma_single_separator(a, "/"@, b);
    assert(a[0] != '+') by {
        assert(is_digit(a[0]));
    }
    assert(b[0] != '+') by {
        assert(is_digit(b[0]));
    }
    assert("overall"@ != "package_start"@ && "overall"@ != "package_complete"@ && "overall"@ != "stage"@) by {
        assert("overall"@.len() != "package_start"@.len());
        assert("overall"@.len() != "package_complete"@.len());
        assert("overall"@.len() != "stage"@.len());
    }
}
} // verus!
