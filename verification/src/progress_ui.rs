//! Progress display of a build. The display's state (bars, their texts,
//! the counts, the lines printed above them) is kept and updated here; the
//! terminal drawing belongs to the caller.
use vstd::prelude::*;
use crate::progress::{LogLevel, ProgressEvent};
use crate::text::{decimal, owned, push_decimal};

verus! {

/// A progress display.
pub trait ProgressUI: Send + Sync {
    /// Takes a progress event into account.
    fn update(&mut self, event: &ProgressEvent);

    /// Clears the display.
    fn clear(&mut self);

    /// Finishes the display.
    fn finish(&mut self);
}

/// A display that shows nothing.
#[derive(Debug, Clone, Copy, PartialEq, Eq, Default)]
pub struct NoOpProgressUI;

impl ProgressUI for NoOpProgressUI {
    fn update(&mut self, event: &ProgressEvent)
        ensures
            *final(self) == *old(self),
    {
    }

    fn clear(&mut self)
        ensures
            *final(self) == *old(self),
    {
    }

    fn finish(&mut self)
        ensures
            *final(self) == *old(self),
    {
    }
}

impl NoOpProgressUI {
    /// A display of its own for one package: there is none.
    pub fn get_package_progress(&self, package: &str) -> (r: Option<Box<dyn ProgressUI>>)
        ensures
            r is None,
    {
        None
    }
}

/// The message shown on a bar.
#[derive(Debug, Clone, PartialEq, Eq)]
pub enum BarMessage {
    /// This text
    Text(String),
    /// The share of `done` in `total`, shown as a percentage complete
    Percent { done: usize, total: usize },
    /// The time the build has taken, shown as "Build completed in ..."
    Elapsed,
}

/// State of one progress bar.
#[derive(Debug, Clone, PartialEq, Eq)]
pub struct BarState {
    /// Text before the bar
    pub prefix: String,
    /// Message after the bar
    pub message: BarMessage,
    /// Length of the bar
    pub length: u64,
    /// Position on the bar
    pub position: u64,
    /// Whether the bar is finished
    pub finished: bool,
}

/// A display of the build with a main bar and one bar per package.
#[derive(Debug, Clone, PartialEq, Eq)]
pub struct IndicatifProgressUI {
    /// The main bar
    pub main_bar: BarState,
    /// The bar of each package, in order of start
    pub package_bars: Vec<(String, BarState)>,
    /// Number of packages, when known
    pub total_packages: Option<usize>,
    /// Number of completed packages
    pub completed_packages: usize,
    /// Lines printed above the bars, in order
    pub printed: Vec<String>,
}

/// `i` is the first index of a bar of package `name`.
pub open spec fn first_bar(bars: Seq<(String, BarState)>, name: Seq<char>, i: int) -> bool {
    0 <= i < bars.len() && bars[i].0@ == name && forall|j: int| 0 <= j < i ==> bars[j].0@ != name
}

/// The index of the (first) bar of package `name`, if any.
pub open spec fn bar_index(bars: Seq<(String, BarState)>, name: Seq<char>) -> Option<int> {
    if exists|i: int| first_bar(bars, name, i) {
        Some(choose|i: int| first_bar(bars, name, i))
    } else {
        None
    }
}

/// The first index of a bar is unique.
proof fn lemma_first_bar_unique(bars: Seq<(String, BarState)>, name: Seq<char>, i: int)
    requires
        first_bar(bars, name, i),
    ensures
        bar_index(bars, name) == Some(i),
{
    let c = choose|k: int| first_bar(bars, name, k);
    assert(first_bar(bars, name, c));
    if c < i {
        assert(bars[c].0@ != name);
    }
    if i < c {
        assert(bars[i].0@ != name);
    }
}

/// No bar is named `name`.
proof fn lemma_no_bar(bars: Seq<(String, BarState)>, name: Seq<char>)
    requires
        forall|j: int| 0 <= j < bars.len() ==> bars[j].0@ != name,
    ensures
        bar_index(bars, name) is None,
{
}

/// The index of the first bar of `name`.
fn find_bar(bars: &Vec<(String, BarState)>, name: &str) -> (r: Option<usize>)
    ensures
        match r {
            Some(i) => first_bar(bars@, name@, i as int),
            None => forall|i: int| 0 <= i < bars@.len() ==> bars@[i].0@ != name@,
        },
{
    let mut i: usize = 0;
    while i < bars.len()
        invariant
            i <= bars.len(),
            forall|j: int| 0 <= j < i ==> bars@[j].0@ != name@,
        decreases bars.len() - i,
    {
        if crate::text::str_eq(bars[i].0.as_str(), name) {
            return Some(i);
        }
        i += 1;
    }
    None
}

/// A fresh bar.
fn new_bar(prefix: String, message: BarMessage, length: u64) -> (r: BarState)
    ensures
        r == (BarState { prefix, message, length, position: 0, finished: false }),
{
    BarState { prefix, message, length, position: 0, finished: false }
}

impl IndicatifProgressUI {
    /// A display with an empty main bar of length 100 titled "Building packages".
    pub fn new() -> (r: Self)
        ensures
            r.main_bar.prefix@ == "Building packages"@,
            r.main_bar.length == 100,
            r.main_bar.position == 0,
            !r.main_bar.finished,
            r.package_bars@.len() == 0,
            r.total_packages is None,
            r.completed_packages == 0,
            r.printed@.len() == 0,
    {
        IndicatifProgressUI {
            main_bar: new_bar(owned("Building packages"), BarMessage::Text(String::new()), 100),
            package_bars: Vec::new(),
            total_packages: None,
            completed_packages: 0,
            printed: Vec::new(),
        }
    }

    /// Shows the completed share on the main bar when the total is known and not zero.
    fn update_main_progress(&mut self)
        ensures
            final(self).package_bars == old(self).package_bars,
            final(self).total_packages == old(self).total_packages,
            final(self).completed_packages == old(self).completed_packages,
            final(self).printed == old(self).printed,
            final(self).main_bar.prefix == old(self).main_bar.prefix,
            final(self).main_bar.finished == old(self).main_bar.finished,
            match old(self).total_packages {
                Some(t) => if t > 0 {
                    final(self).main_bar.length == t && final(self).main_bar.position
                        == old(self).completed_packages && final(self).main_bar.message
                        == BarMessage::Percent { done: old(self).completed_packages, total: t }
                } else {
                    final(self).main_bar == old(self).main_bar
                },
                None => final(self).main_bar == old(self).main_bar,
            },
    {
        match self.total_packages {
            Some(t) => {
                if t > 0 {
                    self.main_bar.length = t as u64;
                    self.main_bar.position = self.completed_packages as u64;
                    self.main_bar.message = BarMessage::Percent { done: self.completed_packages, total: t };
                }
            },
            None => {},
        }
    }

    /// A package started: its bar says "Building...", the main bar names it
    /// with its number when given, and the total is updated when given.
    pub fn handle_package_start(&mut self, name: &str, current: Option<usize>, total: Option<usize>)
        ensures
            final(self).total_packages == (match total {
                Some(t) => Some(t),
                None => old(self).total_packages,
            }),
            final(self).completed_packages == old(self).completed_packages,
            match bar_index(final(self).package_bars@, name@) {
                Some(i) => final(self).package_bars@[i].1 == (BarState {
                    prefix: final(self).package_bars@[i].1.prefix,
                    message: BarMessage::Text(final(self).package_bars@[i].1.message->Text_0),
                    length: 0,
                    position: 0,
                    finished: false,
                }) && final(self).package_bars@[i].1.prefix@ == "  "@ + name@
                    && final(self).package_bars@[i].1.message->Text_0@ == "Building..."@,
                None => false,
            },
    {
        match total {
            Some(t) => {
                self.total_packages = Some(t);
            },
            None => {},
        }
        let mut prefix = owned("  ");
        prefix.append(name);
        let bar = new_bar(prefix, BarMessage::Text(owned("Building...")), 0);
        match find_bar(&self.package_bars, name) {
            Some(i) => {
                self.package_bars.set(i, (owned(name), bar));
                proof {
                    assert(first_bar(self.package_bars@, name@, i as int));
                    lemma_first_bar_unique(self.package_bars@, name@, i as int);
                }
            },
            None => {
                self.package_bars.push((owned(name), bar));
                proof {
                    let n = self.package_bars@.len() - 1;
                    assert(first_bar(self.package_bars@, name@, n));
                    lemma_first_bar_unique(self.package_bars@, name@, n);
                }
            },
        }
        match current {
            Some(c) => {
                let mut m = owned("Building ");
                m.append(name);
                m.append(" [");
                push_decimal(&mut m, c as u64);
                m.append("/");
                let t = match total {
                    Some(t) => t,
                    None => 0,
                };
                push_decimal(&mut m, t as u64);
                m.append("]");
                self.main_bar.message = BarMessage::Text(m);
            },
            None => {},
        }
        let ghost before = *self;
        self.update_main_progress();
        assert(self.package_bars == before.package_bars);
    }

    /// A package completed: its bar, if any, finishes with "✓ Complete" or
    /// "✗ " and the error (or "Failed"); the completed count goes up.
    pub fn handle_package_complete(&mut self, name: &str, success: bool, error: Option<&str>)
        requires
            old(self).completed_packages < usize::MAX,
        ensures
            final(self).completed_packages == old(self).completed_packages + 1,
            final(self).total_packages == old(self).total_packages,
            final(self).package_bars@.len() == old(self).package_bars@.len(),
            match bar_index(old(self).package_bars@, name@) {
                Some(i) => final(self).package_bars@[i].1.finished && (final(self).package_bars@[i].1.message
                    matches BarMessage::Text(m) && m@ == (if success {
                    "✓ Complete"@
                } else {
                    "✗ "@ + match error {
                        Some(e) => e@,
                        None => "Failed"@,
                    }
                })),
                None => final(self).package_bars == old(self).package_bars,
            },
    {
        match find_bar(&self.package_bars, name) {
            Some(i) => {
                let msg = if success {
                    owned("✓ Complete")
                } else {
                    let mut m = owned("✗ ");
                    match error {
                        Some(e) => m.append(e),
                        None => m.append("Failed"),
                    }
                    m
                };
                let (n, mut bar) = self.package_bars.remove(i);
                bar.finished = true;
                bar.message = BarMessage::Text(msg);
                self.package_bars.insert(i, (n, bar));
                proof {
                    lemma_first_bar_unique(old(self).package_bars@, name@, i as int);
                }
            },
            None => {
                proof {
                    lemma_no_bar(old(self).package_bars@, name@);
                }
            },
        }
        self.completed_packages = self.completed_packages + 1;
        let ghost before = *self;
        self.update_main_progress();
    }

    /// A stage began: the main bar's title names it (and its description).
    pub fn handle_stage(&mut self, name: &str, description: Option<&str>)
        ensures
            final(self).main_bar.prefix@ == "Stage: "@ + name@ + match description {
                Some(d) => " - "@ + d@,
                None => Seq::<char>::empty(),
            },
            final(self).package_bars == old(self).package_bars,
            final(self).total_packages == old(self).total_packages,
            final(self).completed_packages == old(self).completed_packages,
    {
        let mut msg = owned("Stage: ");
        msg.append(name);
        match description {
            Some(d) => {
                msg.append(" - ");
                msg.append(d);
            },
            None => {},
        }
        self.main_bar.prefix = msg;
    }

    /// Overall progress: the main bar shows `current` of `total` (and the message, if any).
    pub fn handle_progress(&mut self, current: usize, total: usize, message: Option<&str>)
        ensures
            final(self).main_bar.length == total,
            final(self).main_bar.position == current,
            match message {
                Some(m) => final(self).main_bar.message matches BarMessage::Text(t) && t@ == m@,
                None => final(self).main_bar.message == old(self).main_bar.message,
            },
            final(self).package_bars == old(self).package_bars,
            final(self).total_packages == old(self).total_packages,
            final(self).completed_packages == old(self).completed_packages,
    {
        self.main_bar.length = total as u64;
        self.main_bar.position = current as u64;
        match message {
            Some(m) => {
                self.main_bar.message = BarMessage::Text(owned(m));
            },
            None => {},
        }
    }

    /// A log message: errors and warnings are printed above the bars,
    /// marked "ERROR: " and "WARN: ".
    pub fn handle_log(&mut self, level: LogLevel, message: &str)
        ensures
            match level {
                LogLevel::Error => crate::text::views(final(self).printed@) == crate::text::views(
                    old(self).printed@,
                ).push("ERROR: "@ + message@),
                LogLevel::Warn => crate::text::views(final(self).printed@) == crate::text::views(
                    old(self).printed@,
                ).push("WARN: "@ + message@),
                _ => final(self).printed == old(self).printed,
            },
            final(self).main_bar == old(self).main_bar,
            final(self).package_bars == old(self).package_bars,
            final(self).total_packages == old(self).total_packages,
            final(self).completed_packages == old(self).completed_packages,
    {
        match level {
            LogLevel::Error => {
                let mut line = owned("ERROR: ");
                line.append(message);
                proof {
                    crate::text::lemma_views_push(self.printed@, line);
                }
                self.printed.push(line);
            },
            LogLevel::Warn => {
                let mut line = owned("WARN: ");
                line.append(message);
                proof {
                    crate::text::lemma_views_push(self.printed@, line);
                }
                self.printed.push(line);
            },
            _ => {},
        }
    }
}

/// Borrowed text of an optional string.
fn opt_str(o: &Option<String>) -> (r: Option<&str>)
    ensures
        match (r, *o) {
            (Some(a), Some(b)) => a@ == b@,
            (None, None) => true,
            _ => false,
        },
{
    match o {
        Some(s) => Some(s.as_str()),
        None => None,
    }
}

/// What an event does to the display's counts, printed lines and title.
pub open spec fn bars_updated(before: IndicatifProgressUI, after: IndicatifProgressUI, event: ProgressEvent) -> bool {
    &&& after.total_packages == (match event {
        ProgressEvent::PackageStart { total: Some(t), .. } => Some(t),
        _ => before.total_packages,
    })
    &&& after.completed_packages == (match event {
        ProgressEvent::PackageComplete { .. } => if before.completed_packages < usize::MAX {
            (before.completed_packages + 1) as usize
        } else {
            before.completed_packages
        },
        _ => before.completed_packages,
    })
    &&& match event {
        ProgressEvent::Log { level: LogLevel::Error, message } => crate::text::views(after.printed@)
            == crate::text::views(before.printed@).push("ERROR: "@ + message@),
        ProgressEvent::Log { level: LogLevel::Warn, message } => crate::text::views(after.printed@)
            == crate::text::views(before.printed@).push("WARN: "@ + message@),
        ProgressEvent::Stage { name, description } => after.main_bar.prefix@ == "Stage: "@ + name@
            + match description {
            Some(d) => " - "@ + d@,
            None => Seq::<char>::empty(),
        },
        _ => true,
    }
}

/// The display after finishing: every bar finished, the main bar showing
/// the elapsed time, nothing else changed.
pub open spec fn bars_finished(before: IndicatifProgressUI, after: IndicatifProgressUI) -> bool {
    &&& after.main_bar.finished
    &&& after.main_bar.message == BarMessage::Elapsed
    &&& after.package_bars@.len() == before.package_bars@.len()
    &&& forall|j: int|
        0 <= j < after.package_bars@.len() ==> #[trigger] after.package_bars@[j].0 == before.package_bars@[j].0
            && after.package_bars@[j].1.finished
    &&& after.total_packages == before.total_packages
    &&& after.completed_packages == before.completed_packages
    &&& after.printed == before.printed
}

impl ProgressUI for IndicatifProgressUI {
    fn update(&mut self, event: &ProgressEvent)
        ensures
            bars_updated(*old(self), *final(self), *event),
    {
        match event {
            ProgressEvent::PackageStart { name, current, total } => {
                self.handle_package_start(name.as_str(), *current, *total);
            },
            ProgressEvent::PackageComplete { name, success, error } => {
                if self.completed_packages < usize::MAX {
                    self.handle_package_complete(name.as_str(), *success, opt_str(error));
                }
            },
            ProgressEvent::Stage { name, description } => {
                self.handle_stage(name.as_str(), opt_str(description));
            },
            ProgressEvent::Progress { current, total, message } => {
                self.handle_progress(*current, *total, opt_str(message));
            },
            ProgressEvent::Log { level, message } => {
                self.handle_log(*level, message.as_str());
            },
        }
    }

    fn clear(&mut self)
        ensures
            *final(self) == *old(self),
    {
    }

    fn finish(&mut self)
        ensures
            bars_finished(*old(self), *final(self)),
    {
        let mut i: usize = 0;
        let n = self.package_bars.len();
        while i < n
            invariant
                i <= n,
                n == self.package_bars.len(),
                n == old(self).package_bars@.len(),
                forall|j: int| 0 <= j < n ==> #[trigger] self.package_bars@[j].0 == old(self).package_bars@[j].0,
                forall|j: int| 0 <= j < i ==> #[trigger] self.package_bars@[j].1.finished,
                self.total_packages == old(self).total_packages,
                self.completed_packages == old(self).completed_packages,
                self.printed == old(self).printed,
            decreases n - i,
        {
            if !self.package_bars[i].1.finished {
                let (n, mut bar) = self.package_bars.remove(i);
                bar.finished = true;
                self.package_bars.insert(i, (n, bar));
            }
            i += 1;
        }
        self.main_bar.finished = true;
        self.main_bar.message = BarMessage::Elapsed;
    }
}

impl IndicatifProgressUI {
    /// A display of its own for one package: the same display serves all
    /// packages, so there is none.
    pub fn get_package_progress(&self, package: &str) -> (r: Option<Box<dyn ProgressUI>>)
        ensures
            r is None,
    {
        None
    }
}

/// The display a build uses: bars, or nothing.
#[derive(Debug, Clone, PartialEq, Eq)]
pub enum ProgressDisplay {
    /// A display with bars
    Bars(IndicatifProgressUI),
    /// A display that shows nothing
    Silent(NoOpProgressUI),
}

impl ProgressUI for ProgressDisplay {
    fn update(&mut self, event: &ProgressEvent)
        ensures
            match (*old(self), *final(self)) {
                (ProgressDisplay::Bars(a), ProgressDisplay::Bars(b)) => bars_updated(a, b, *event),
                (ProgressDisplay::Silent(a), ProgressDisplay::Silent(b)) => a == b,
                _ => false,
            },
    {
        match self {
            ProgressDisplay::Bars(ui) => ui.update(event),
            ProgressDisplay::Silent(ui) => ui.update(event),
        }
    }

    fn clear(&mut self)
        ensures
            *final(self) == *old(self),
    {
        match self {
            ProgressDisplay::Bars(ui) => ui.clear(),
            ProgressDisplay::Silent(ui) => ui.clear(),
        }
    }

    fn finish(&mut self)
        ensures
            match (*old(self), *final(self)) {
                (ProgressDisplay::Bars(a), ProgressDisplay::Bars(b)) => bars_finished(a, b),
                (ProgressDisplay::Silent(a), ProgressDisplay::Silent(b)) => a == b,
                _ => false,
            },
    {
        match self {
            ProgressDisplay::Bars(ui) => ui.finish(),
            ProgressDisplay::Silent(ui) => ui.finish(),
        }
    }
}

impl ProgressDisplay {
    /// A display of its own for one package: neither kind has one.
    pub fn get_package_progress(&self, package: &str) -> (r: Option<Box<dyn ProgressUI>>)
        ensures
            r is None,
    {
        match self {
            ProgressDisplay::Bars(ui) => ui.get_package_progress(package),
            ProgressDisplay::Silent(ui) => ui.get_package_progress(package),
        }
    }
}

/// A display with bars as `IndicatifProgressUI::new` makes it: an empty main
/// bar of length 100 titled "Building packages", no package bars, no counts,
/// nothing printed.
pub open spec fn fresh_bars(u: IndicatifProgressUI) -> bool {
    &&& u.main_bar.prefix@ == "Building packages"@
    &&& u.main_bar.length == 100
    &&& u.main_bar.position == 0
    &&& !u.main_bar.finished
    &&& u.package_bars@.len() == 0
    &&& u.total_packages is None
    &&& u.completed_packages == 0
    &&& u.printed@.len() == 0
}

/// `atty::is(Stream::Stdout)`: whether standard output is a terminal; it
/// depends on the process's environment, so nothing is stated of it.
#[verifier::external_body]
fn stdout_is_terminal() -> bool {
    atty::is(atty::Stream::Stdout)
}

/// Makes progress displays.
#[derive(Debug, Clone, Copy, PartialEq, Eq, Default)]
pub struct ProgressUIFactory;

impl ProgressUIFactory {
    /// A display for the environment: the bars when asked for and standard
    /// output is a terminal, else none. Whether standard output is a
    /// terminal is the process's environment, so only the refusal when not
    /// asked for is stated.
    pub fn create(interactive: bool) -> (r: ProgressDisplay)
        ensures
            !interactive ==> r == ProgressDisplay::Silent(NoOpProgressUI),
            r matches ProgressDisplay::Bars(u) ==> fresh_bars(u),
    {
        let terminal = interactive && stdout_is_terminal();
        ProgressUIFactory::create_for(interactive, terminal)
    }

    /// A display: the bars when asked for and standard output is a
    /// terminal (`stdout_is_terminal`), else none.
    pub fn create_for(interactive: bool, stdout_is_terminal: bool) -> (r: ProgressDisplay)
        ensures
            (r is Bars) == (interactive && stdout_is_terminal),
            r matches ProgressDisplay::Bars(u) ==> fresh_bars(u),
            r is Silent ==> r == ProgressDisplay::Silent(NoOpProgressUI),
    {
        if interactive && stdout_is_terminal {
            ProgressDisplay::Bars(IndicatifProgressUI::new())
        } else {
            ProgressDisplay::Silent(NoOpProgressUI)
        }
    }

    /// A display with bars.
    pub fn create_indicatif() -> (r: ProgressDisplay)
        ensures
            r matches ProgressDisplay::Bars(u) && fresh_bars(u),
    {
        ProgressDisplay::Bars(IndicatifProgressUI::new())
    }

    /// A display that shows nothing.
    pub fn create_noop() -> (r: ProgressDisplay)
        ensures
            r == ProgressDisplay::Silent(NoOpProgressUI),
    {
        ProgressDisplay::Silent(NoOpProgressUI)
    }
}

} // verus!
