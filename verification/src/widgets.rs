//! Plain data behind the presentation widgets: menu entries, the header and
//! footer state, process status tags, style tags, and the network chart's
//! rolling sample windows.  Rendering itself lives with the embedding
//! application; these types carry exactly what it draws.

use std::collections::VecDeque;

use vstd::prelude::*;

use crate::state::Screen;

verus! {

/// One entry of a navigation menu.
#[derive(Debug)]
pub struct MenuItem {
    /// The display text.
    pub label: String,
    /// An optional longer description.
    pub description: Option<String>,
    /// Whether the entry can be chosen.
    pub enabled: bool,
}

impl Clone for MenuItem {
    fn clone(&self) -> (res: Self)
        ensures
            res.label@ == self.label@,
            res.description is Some <==> self.description is Some,
            self.description matches Some(d) ==> res.description matches Some(r) && r@ == d@,
            res.enabled == self.enabled,
    {
        MenuItem {
            label: self.label.clone(),
            description: match &self.description {
                Some(d) => Some(d.clone()),
                None => None,
            },
            enabled: self.enabled,
        }
    }
}

impl MenuItem {
    /// A plain enabled entry without a description.
    pub fn new(label: &str) -> (item: MenuItem)
        ensures
            item.label@ == label@,
            item.description is None,
            item.enabled,
    {
        MenuItem { label: label.to_owned(), description: None, enabled: true }
    }

    /// An enabled entry with a description.
    pub fn with_description(label: &str, description: &str) -> (item: MenuItem)
        ensures
            item.label@ == label@,
            item.description matches Some(d) && d@ == description@,
            item.enabled,
    {
        MenuItem {
            label: label.to_owned(),
            description: Some(description.to_owned()),
            enabled: true,
        }
    }

    /// The same entry with its enabled flag set to `enabled`.
    pub fn enabled(self, enabled: bool) -> (item: MenuItem)
        ensures
            item.label@ == self.label@,
            item.description == self.description,
            item.enabled == enabled,
    {
        MenuItem { enabled, ..self }
    }
}

/// A menu over a borrowed item list with one selected row.
#[derive(Debug)]
pub struct Menu<'a> {
    /// The rows to show.
    pub items: &'a [String],
    /// The index of the highlighted row.
    pub selected_index: usize,
}

impl<'a> Menu<'a> {
    /// A menu showing `items` with row `selected_index` highlighted.
    pub fn new(items: &'a [String], selected_index: usize) -> (menu: Menu<'a>)
        ensures
            menu.items@ == items@,
            menu.selected_index == selected_index,
    {
        Menu { items, selected_index }
    }
}

/// The header state: the application title and the screen being shown.
#[derive(Debug)]
pub struct Header<'a> {
    /// The application title.
    pub title: &'a str,
    /// The screen whose name the header shows.
    pub current_screen: Screen,
}

impl<'a> Header<'a> {
    /// A header for `current_screen` titled `title`.
    pub fn new(title: &'a str, current_screen: Screen) -> (header: Header<'a>)
        ensures
            header.title@ == title@,
            header.current_screen == current_screen,
    {
        Header { title, current_screen }
    }
}

/// The key hints the footer shows for each screen, as pairs of a key and
/// the action it triggers.
pub open spec fn key_hints(s: Screen) -> Seq<(Seq<char>, Seq<char>)> {
    match s {
        Screen::Home => seq![("↑/↓"@, "Navigate"@), ("Enter"@, "Select"@)],
        Screen::Dashboard => seq![("↑/↓"@, "Navigate"@), ("r"@, "Refresh"@)],
        Screen::Interactive => seq![("+/-"@, "Counter"@), ("a"@, "Add"@), ("d"@, "Delete"@)],
        Screen::Settings => seq![("Tab"@, "Next"@), ("Esc"@, "Back"@), ("Enter"@, "Select"@)],
    }
}

/// The views of a list of key-hint pairs.
pub open spec fn hint_views(hints: Seq<(&str, &str)>) -> Seq<(Seq<char>, Seq<char>)> {
    hints.map_values(|p: (&str, &str)| (p.0@, p.1@))
}

/// The footer state: a status bar keyed on the screen being shown.
#[derive(Debug)]
pub struct Footer {
    /// The screen whose key hints the footer shows.
    pub current_screen: Screen,
}

impl Footer {
    /// A footer for `current_screen`.
    pub fn new(current_screen: Screen) -> (footer: Footer)
        ensures
            footer.current_screen == current_screen,
    {
        Footer { current_screen }
    }

    /// The key hints for the current screen, in display order.
    pub fn get_key_hints(&self) -> (hints: Vec<(&'static str, &'static str)>)
        ensures
            hint_views(hints@) == key_hints(self.current_screen),
    {
        let mut hints: Vec<(&'static str, &'static str)> = Vec::new();
        match self.current_screen {
            Screen::Home => {
                hints.push(("↑/↓", "Navigate"));
                hints.push(("Enter", "Select"));
            },
            Screen::Dashboard => {
                hints.push(("↑/↓", "Navigate"));
                hints.push(("r", "Refresh"));
            },
            Screen::Interactive => {
                hints.push(("+/-", "Counter"));
                hints.push(("a", "Add"));
                hints.push(("d", "Delete"));
            },
            Screen::Settings => {
                hints.push(("Tab", "Next"));
                hints.push(("Esc", "Back"));
                hints.push(("Enter", "Select"));
            },
        }
        proof {
            assert(hint_views(hints@) =~= key_hints(self.current_screen));
        }
        hints
    }
}

/// The status of a process row on the dashboard.
#[derive(Debug, Clone, Copy, PartialEq, Eq, Structural)]
pub enum ProcessStatus {
    Running,
    Sleeping,
    Stopped,
}

/// The display text of each process status.
pub open spec fn process_status_text(s: ProcessStatus) -> Seq<char> {
    match s {
        ProcessStatus::Running => "● Running"@,
        ProcessStatus::Sleeping => "◐ Sleeping"@,
        ProcessStatus::Stopped => "○ Stopped"@,
    }
}

impl ProcessStatus {
    /// The display text of the status.
    pub fn as_str(&self) -> (text: &'static str)
        ensures
            text@ == process_status_text(*self),
    {
        match self {
            ProcessStatus::Running => "● Running",
            ProcessStatus::Sleeping => "◐ Sleeping",
            ProcessStatus::Stopped => "○ Stopped",
        }
    }
}

/// How a chart is drawn.
#[derive(Debug, Clone, Copy)]
pub enum ChartStyle {
    /// A full line chart.
    Line,
    /// A compact sparkline.
    Sparkline,
}

/// How a gauge is drawn.
#[derive(Debug, Clone, Copy)]
pub enum GaugeStyle {
    /// A horizontal bar.
    Horizontal,
    /// A vertical bar.
    Vertical,
}

/// What adding a sample does to a rolling window: once the window has grown
/// to `max_points`, the oldest sample leaves before the new one enters.
pub open spec fn window_push(window: Seq<u64>, max_points: nat, sample: u64) -> Seq<u64> {
    let trimmed = if window.len() > 0 && window.len() >= max_points {
        window.drop_first()
    } else {
        window
    };
    trimmed.push(sample)
}

/// The data behind a network activity chart: two rolling windows of upload
/// and download samples, each keeping at most `max_points` entries.
#[derive(Debug)]
pub struct NetworkChart {
    /// The upload samples, oldest first.
    pub upload: VecDeque<u64>,
    /// The download samples, oldest first.
    pub download: VecDeque<u64>,
    /// How many samples each window keeps.
    pub max_points: usize,
}

impl NetworkChart {
    /// An empty chart whose windows keep `max_points` samples.
    pub fn new(max_points: usize) -> (chart: NetworkChart)
        ensures
            chart.upload@ == Seq::<u64>::empty(),
            chart.download@ == Seq::<u64>::empty(),
            chart.max_points == max_points,
    {
        NetworkChart {
            upload: VecDeque::with_capacity(max_points),
            download: VecDeque::with_capacity(max_points),
            max_points,
        }
    }

    /// Records one upload/download sample pair, evicting the oldest samples
    /// once the windows are full.
    pub fn add_data(&mut self, upload: u64, download: u64)
        ensures
            final(self).upload@ == window_push(
                old(self).upload@,
                old(self).max_points as nat,
                upload,
            ),
            final(self).download@ == window_push(
                old(self).download@,
                old(self).max_points as nat,
                download,
            ),
            final(self).max_points == old(self).max_points,
    {
        if self.upload.len() >= self.max_points {
            self.upload.pop_front();
        }
        if self.download.len() >= self.max_points {
            self.download.pop_front();
        }
        self.upload.push_back(upload);
        self.download.push_back(download);
        proof {
            assert(self.upload@ =~= window_push(
                old(self).upload@,
                old(self).max_points as nat,
                upload,
            ));
            assert(self.download@ =~= window_push(
                old(self).download@,
                old(self).max_points as nat,
                download,
            ));
        }
    }
}

} // verus!
