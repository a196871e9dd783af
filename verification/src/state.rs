use vstd::prelude::*;

use crate::max_sliding_window::MaxSlidingWindow;

verus! {

/// The hard cap on retained log lines.
pub const MAX_LOG_LINES: usize = 1000;

/// How many freshly arrived lines trigger the next trim of the log buffer.
pub const CLEANUP_THRESHOLD: usize = 100;

/// Which panel currently has the keyboard focus.
#[derive(Clone, Copy, Debug, PartialEq, Eq, Structural)]
pub enum AppMode {
    Normal,
    ContextMenu,
    Logs,
    Search,
    Help,
    Resources,
}

impl Default for AppMode {
    fn default() -> (m: Self)
        ensures
            m == AppMode::Normal,
    {
        AppMode::Normal
    }
}

/// The keys the dispatcher distinguishes; any other key is ignored.
#[derive(Clone, Copy, Debug, PartialEq, Eq, Structural)]
pub enum Key {
    Esc,
    Enter,
    Backspace,
    Up,
    Down,
    Left,
    Right,
    Char(char),
}

/// The views of a sequence of strings.
pub open spec fn view_strings(v: Seq<String>) -> Seq<Seq<char>> {
    v.map_values(|s: String| s@)
}

/// The views of the container rows: each `(id, columns)` pair as sequences of
/// characters.
pub open spec fn view_rows(v: Seq<(String, Vec<String>)>) -> Seq<(Seq<char>, Seq<Seq<char>>)> {
    v.map_values(|p: (String, Vec<String>)| (p.0@, view_strings(p.1@)))
}

/// `n` clamped into the range of a `u16`.
pub open spec fn sat_u16(n: int) -> u16 {
    if n < 0 {
        0
    } else if n > u16::MAX {
        u16::MAX
    } else {
        n as u16
    }
}

/// Saturating conversion from a `usize` count to a `u16` scroll offset.
pub fn clamp_u16(n: usize) -> (r: u16)
    ensures
        r == sat_u16(n as int),
{
    if n > u16::MAX as usize {
        u16::MAX
    } else {
        n as u16
    }
}

/// The mathematical snapshot of the whole UI state: every string as a sequence
/// of characters, every collection as a sequence, each task handle as the bare
/// fact of its presence.
#[verifier::ext_equal]
pub ghost struct AppView {
    pub running: bool,
    pub container_data: Seq<(Seq<char>, Seq<Seq<char>>)>,
    pub selected: usize,
    pub mode: AppMode,
    pub last_mode: AppMode,
    pub menu_selected: usize,
    pub logs: Seq<Seq<char>>,
    pub menu_items: Seq<Seq<char>>,
    pub horizontal_scroll: u16,
    pub vertical_scroll: u16,
    pub log_task_running: bool,
    pub user_scrolled: bool,
    pub visible_height: u16,
    pub search_query: Seq<char>,
    pub search_matches: Seq<usize>,
    pub current_match_index: Option<usize>,
    pub cpu_data: Seq<(u64, u64)>,
    pub mem_data: Seq<(u64, u64)>,
    pub stats_task_running: bool,
}

/// What every reachable snapshot satisfies: the fixed three-item menu with a
/// valid selection, five columns in every container row, and a match cursor
/// that stays inside the match list while that list is non-empty.
pub open spec fn view_wf(s: AppView) -> bool {
    &&& s.menu_items.len() == 3
    &&& s.menu_selected < 3
    &&& forall|i: int| 0 <= i < s.container_data.len() ==> #[trigger] s.container_data[i].1.len()
        == 5
    &&& (s.current_match_index is Some && s.search_matches.len() > 0
        ==> s.current_match_index.unwrap() < s.search_matches.len())
}

/// The single mutable aggregate of UI state.
pub struct AppState {
    pub running: bool,
    pub container_data: Vec<(String, Vec<String>)>,
    pub selected: usize,
    pub mode: AppMode,
    pub last_mode: AppMode,
    pub menu_selected: usize,
    pub logs: Vec<String>,
    pub menu_items: Vec<&'static str>,
    pub horizontal_scroll: u16,
    pub vertical_scroll: u16,
    pub log_task: Option<tokio::task::JoinHandle<()>>,
    pub user_scrolled: bool,
    pub visible_height: u16,
    pub search_query: String,
    pub search_matches: Vec<usize>,
    pub current_match_index: Option<usize>,
    pub cpu_data: MaxSlidingWindow,
    pub mem_data: MaxSlidingWindow,
    pub stats_task: Option<tokio::task::JoinHandle<()>>,
}

impl View for AppState {
    type V = AppView;

    open spec fn view(&self) -> AppView {
        AppView {
            running: self.running,
            container_data: view_rows(self.container_data@),
            selected: self.selected,
            mode: self.mode,
            last_mode: self.last_mode,
            menu_selected: self.menu_selected,
            logs: view_strings(self.logs@),
            menu_items: self.menu_items@.map_values(|s: &'static str| s@),
            horizontal_scroll: self.horizontal_scroll,
            vertical_scroll: self.vertical_scroll,
            log_task_running: self.log_task is Some,
            user_scrolled: self.user_scrolled,
            visible_height: self.visible_height,
            search_query: self.search_query@,
            search_matches: self.search_matches@,
            current_match_index: self.current_match_index,
            cpu_data: self.cpu_data@,
            mem_data: self.mem_data@,
            stats_task_running: self.stats_task is Some,
        }
    }
}

impl AppState {
    /// The state invariant: a well-formed snapshot and well-formed windows.
    pub open spec fn well_formed(&self) -> bool {
        &&& view_wf(self@)
        &&& self.cpu_data.well_formed()
        &&& self.mem_data.well_formed()
    }

    /// The log pipeline should be started exactly when a Logs session has just
    /// begun: the mode is Logs and the buffer holds only the loading notice.
    pub fn should_start_log_stream(&self) -> (b: bool)
        ensures
            b == (self@.mode == AppMode::Logs && self@.logs == seq!["Loading logs..."@]),
    {
        if self.mode == AppMode::Logs && self.logs.len() == 1 {
            let loading: String = "Loading logs...".to_owned();
            let eq = self.logs[0] == loading;
            proof {
                if eq {
                    assert(self@.logs =~= seq!["Loading logs..."@]);
                } else {
                    assert(self@.logs[0] != seq!["Loading logs..."@][0]);
                }
            }
            eq
        } else {
            proof {
                if self@.logs.len() != 1 {
                    assert(self@.logs != seq!["Loading logs..."@]);
                }
            }
            false
        }
    }

    /// The stats pipeline should be started exactly when the Resources panel
    /// is open and no sampler is already attached.
    pub fn should_start_stats_stream(&self) -> (b: bool)
        ensures
            b == (self@.mode == AppMode::Resources && !self@.stats_task_running),
    {
        self.mode == AppMode::Resources && self.stats_task.is_none()
    }
}

impl Default for AppState {
    fn default() -> (s: Self)
        ensures
            s.well_formed(),
            s@ == initial_view(),
    {
        let s = AppState {
            running: true,
            container_data: Vec::new(),
            selected: 0,
            mode: AppMode::Normal,
            last_mode: AppMode::Normal,
            menu_selected: 0,
            logs: Vec::new(),
            menu_items: vec!["Logs", "Stats", "Restart"],
            horizontal_scroll: 0,
            vertical_scroll: 0,
            log_task: None,
            user_scrolled: false,
            visible_height: 0,
            search_query: String::new(),
            search_matches: Vec::new(),
            current_match_index: None,
            cpu_data: MaxSlidingWindow::default(),
            mem_data: MaxSlidingWindow::default(),
            stats_task: None,
        };
        proof {
            assert(s@.container_data =~= initial_view().container_data);
            assert(s@.logs =~= initial_view().logs);
            assert(s@.menu_items =~= initial_view().menu_items);
            assert(s@ =~= initial_view());
        }
        s
    }
}

/// The state the dashboard starts in.
pub open spec fn initial_view() -> AppView {
    AppView {
        running: true,
        container_data: Seq::empty(),
        selected: 0,
        mode: AppMode::Normal,
        last_mode: AppMode::Normal,
        menu_selected: 0,
        logs: Seq::empty(),
        menu_items: seq!["Logs"@, "Stats"@, "Restart"@],
        horizontal_scroll: 0,
        vertical_scroll: 0,
        log_task_running: false,
        user_scrolled: false,
        visible_height: 0,
        search_query: Seq::empty(),
        search_matches: Seq::empty(),
        current_match_index: None,
        cpu_data: Seq::empty(),
        mem_data: Seq::empty(),
        stats_task_running: false,
    }
}

} // verus!
