use vstd::prelude::*;

use crate::search::{
    compute_container_matches, compute_log_matches, container_match_indices, log_match_indices,
};
use crate::state::{clamp_u16, sat_u16, AppMode, AppState, AppView, Key};

verus! {

/// Esc or `q`: quit from Normal, otherwise close the current panel, stopping
/// the background producer that belongs to it.
pub open spec fn step_quit(s: AppView) -> AppView {
    match s.mode {
        AppMode::Normal => AppView { running: false, ..s },
        AppMode::Logs => AppView { log_task_running: false, mode: AppMode::Normal, ..s },
        AppMode::Search => AppView {
            mode: s.last_mode,
            search_query: Seq::empty(),
            search_matches: Seq::empty(),
            ..s
        },
        AppMode::ContextMenu => AppView { mode: AppMode::Normal, ..s },
        AppMode::Help => AppView { mode: s.last_mode, ..s },
        AppMode::Resources => AppView {
            stats_task_running: false,
            mode: AppMode::Normal,
            cpu_data: Seq::empty(),
            mem_data: Seq::empty(),
            ..s
        },
    }
}

/// Up or `k`: move the container selection, scroll the logs, or move the menu
/// selection with wrap-around.
pub open spec fn step_scroll_up(s: AppView) -> AppView {
    match s.mode {
        AppMode::Normal => AppView {
            selected: if s.selected > 0 {
                (s.selected - 1) as usize
            } else {
                0
            },
            ..s
        },
        AppMode::Logs => AppView {
            user_scrolled: true,
            vertical_scroll: sat_u16(s.vertical_scroll - 1),
            ..s
        },
        AppMode::ContextMenu => AppView {
            menu_selected: if s.menu_selected > 0 {
                (s.menu_selected - 1) as usize
            } else {
                (s.menu_items.len() - 1) as usize
            },
            ..s
        },
        _ => s,
    }
}

/// Down or `j`: the mirror of `step_scroll_up`; the container selection is
/// clamped only when rendered.
pub open spec fn step_scroll_down(s: AppView) -> AppView {
    match s.mode {
        AppMode::Normal => AppView {
            selected: if s.selected == usize::MAX {
                usize::MAX
            } else {
                (s.selected + 1) as usize
            },
            ..s
        },
        AppMode::Logs => AppView {
            user_scrolled: true,
            vertical_scroll: sat_u16(s.vertical_scroll + 1),
            ..s
        },
        AppMode::ContextMenu => AppView {
            menu_selected: if s.menu_selected + 1 < s.menu_items.len() {
                (s.menu_selected + 1) as usize
            } else {
                0
            },
            ..s
        },
        _ => s,
    }
}

/// Left or `h`: pan the log viewport left.
pub open spec fn step_pan_left(s: AppView) -> AppView {
    if s.mode == AppMode::Logs {
        AppView { horizontal_scroll: sat_u16(s.horizontal_scroll - 10), ..s }
    } else {
        s
    }
}

/// Right or `l`: pan the log viewport right.
pub open spec fn step_pan_right(s: AppView) -> AppView {
    if s.mode == AppMode::Logs {
        AppView { horizontal_scroll: sat_u16(s.horizontal_scroll + 10), ..s }
    } else {
        s
    }
}

/// Enter in Search: compute the matches over the logs or over the container
/// image column, put the cursor on the first match if any, move the viewport
/// or the selection there, and return to the mode the search was opened from.
pub open spec fn step_confirm_search(s: AppView) -> AppView {
    if s.last_mode == AppMode::Logs {
        let ms = log_match_indices(s.logs, s.search_query);
        AppView {
            search_matches: ms,
            current_match_index: if ms.len() == 0 {
                None
            } else {
                Some(0usize)
            },
            vertical_scroll: if ms.len() == 0 {
                s.vertical_scroll
            } else {
                sat_u16(ms[0] as int)
            },
            mode: AppMode::Logs,
            ..s
        }
    } else {
        let ms = container_match_indices(s.container_data, s.search_query);
        AppView {
            search_matches: ms,
            current_match_index: if ms.len() == 0 {
                None
            } else {
                Some(0usize)
            },
            selected: if ms.len() == 0 {
                s.selected
            } else {
                ms[0]
            },
            mode: s.last_mode,
            ..s
        }
    }
}

/// Enter: open the context menu, run the chosen menu item, or confirm a
/// search.
pub open spec fn step_confirm(s: AppView) -> AppView {
    match s.mode {
        AppMode::Normal => AppView { mode: AppMode::ContextMenu, menu_selected: 0, ..s },
        AppMode::ContextMenu => {
            if s.menu_selected == 0 {
                AppView { mode: AppMode::Logs, logs: seq!["Loading logs..."@], ..s }
            } else if s.menu_selected == 1 {
                AppView { mode: AppMode::Resources, ..s }
            } else if s.menu_selected == 2 {
                AppView { mode: AppMode::Normal, ..s }
            } else {
                s
            }
        },
        AppMode::Search => step_confirm_search(s),
        _ => s,
    }
}

/// Backspace: delete the last character of the search query.
pub open spec fn step_backspace(s: AppView) -> AppView {
    if s.mode == AppMode::Search && s.search_query.len() > 0 {
        AppView { search_query: s.search_query.drop_last(), ..s }
    } else {
        s
    }
}

/// `G`: jump to the latest log lines and re-enable follow-tail.
pub open spec fn step_jump_latest(s: AppView) -> AppView {
    if s.mode == AppMode::Logs {
        AppView {
            user_scrolled: false,
            vertical_scroll: sat_u16(s.logs.len() - 15),
            ..s
        }
    } else {
        s
    }
}

/// `/`: open the search prompt, remembering the mode it was opened from.
pub open spec fn step_open_search(s: AppView) -> AppView {
    if s.mode == AppMode::Logs || s.mode == AppMode::Normal {
        AppView {
            last_mode: s.mode,
            mode: AppMode::Search,
            search_query: Seq::empty(),
            ..s
        }
    } else {
        s
    }
}

/// `n`: advance the match cursor cyclically and scroll to that match.
pub open spec fn step_next_match(s: AppView) -> AppView {
    if s.mode == AppMode::Logs && s.current_match_index is Some && s.search_matches.len() > 0 {
        let c = s.current_match_index.unwrap();
        let nc = if c + 1 == s.search_matches.len() {
            0usize
        } else {
            (c + 1) as usize
        };
        AppView {
            current_match_index: Some(nc),
            vertical_scroll: sat_u16(s.search_matches[nc as int] as int),
            ..s
        }
    } else {
        s
    }
}

/// `N`: retreat the match cursor cyclically and scroll to that match.
pub open spec fn step_prev_match(s: AppView) -> AppView {
    if s.mode == AppMode::Logs && s.current_match_index is Some && s.search_matches.len() > 0 {
        let c = s.current_match_index.unwrap();
        let nc = if c == 0 {
            (s.search_matches.len() - 1) as usize
        } else {
            (c - 1) as usize
        };
        AppView {
            current_match_index: Some(nc),
            vertical_scroll: sat_u16(s.search_matches[nc as int] as int),
            ..s
        }
    } else {
        s
    }
}

/// `?`: open the help panel, remembering the mode it was opened from.
pub open spec fn step_help(s: AppView) -> AppView {
    AppView { last_mode: s.mode, mode: AppMode::Help, ..s }
}

/// A printable key in Search mode: absorbed into the query, nothing else.
pub open spec fn step_absorb(s: AppView, c: char) -> AppView {
    AppView { search_query: s.search_query.push(c), ..s }
}

/// A character key outside Search mode, dispatched by the binding table's
/// order; an unbound character changes nothing.
pub open spec fn step_char(s: AppView, c: char) -> AppView {
    if c == 'q' {
        step_quit(s)
    } else if c == 'k' {
        step_scroll_up(s)
    } else if c == 'j' {
        step_scroll_down(s)
    } else if c == 'h' {
        step_pan_left(s)
    } else if c == 'l' {
        step_pan_right(s)
    } else if c == 'G' {
        step_jump_latest(s)
    } else if c == '/' {
        step_open_search(s)
    } else if c == 'n' {
        step_next_match(s)
    } else if c == 'N' {
        step_prev_match(s)
    } else if c == '?' {
        step_help(s)
    } else {
        s
    }
}

/// One keystroke: in Search mode every character key is absorbed into the
/// query; any other key runs the first binding that lists it.
pub open spec fn spec_step(s: AppView, key: Key) -> AppView {
    match key {
        Key::Char(c) => if s.mode == AppMode::Search {
            step_absorb(s, c)
        } else {
            step_char(s, c)
        },
        Key::Esc => step_quit(s),
        Key::Enter => step_confirm(s),
        Key::Backspace => step_backspace(s),
        Key::Up => step_scroll_up(s),
        Key::Down => step_scroll_down(s),
        Key::Left => step_pan_left(s),
        Key::Right => step_pan_right(s),
    }
}

impl AppState {
    fn act_quit(&mut self)
        requires
            old(self).well_formed(),
        ensures
            final(self).well_formed(),
            final(self)@ == step_quit(old(self)@),
    {
        match self.mode {
            AppMode::Normal => {
                self.running = false;
            },
            AppMode::Logs => {
                match self.log_task.take() {
                    Some(handle) => handle.abort(),
                    None => {},
                }
                self.mode = AppMode::Normal;
            },
            AppMode::Search => {
                self.mode = self.last_mode;
                crate::externals::string_clear(&mut self.search_query);
                self.search_matches.clear();
            },
            AppMode::ContextMenu => {
                self.mode = AppMode::Normal;
            },
            AppMode::Help => {
                self.mode = self.last_mode;
            },
            AppMode::Resources => {
                match self.stats_task.take() {
                    Some(handle) => handle.abort(),
                    None => {},
                }
                self.mode = AppMode::Normal;
                self.cpu_data.clear();
                self.mem_data.clear();
            },
        }
        proof {
            assert(self@ =~= step_quit(old(self)@));
        }
    }

    fn act_scroll_up(&mut self)
        requires
            old(self).well_formed(),
        ensures
            final(self).well_formed(),
            final(self)@ == step_scroll_up(old(self)@),
    {
        match self.mode {
            AppMode::Normal => {
                self.selected = self.selected.saturating_sub(1);
            },
            AppMode::Logs => {
                self.user_scrolled = true;
                self.vertical_scroll = self.vertical_scroll.saturating_sub(1);
            },
            AppMode::ContextMenu => {
                if self.menu_selected > 0 {
                    self.menu_selected = self.menu_selected - 1;
                } else {
                    self.menu_selected = self.menu_items.len() - 1;
                }
            },
            _ => {},
        }
        proof {
            assert(self@ =~= step_scroll_up(old(self)@));
        }
    }

    fn act_scroll_down(&mut self)
        requires
            old(self).well_formed(),
        ensures
            final(self).well_formed(),
            final(self)@ == step_scroll_down(old(self)@),
    {
        match self.mode {
            AppMode::Normal => {
                self.selected = self.selected.saturating_add(1);
            },
            AppMode::Logs => {
                self.user_scrolled = true;
                self.vertical_scroll = self.vertical_scroll.saturating_add(1);
            },
            AppMode::ContextMenu => {
                if self.menu_selected + 1 < self.menu_items.len() {
                    self.menu_selected = self.menu_selected + 1;
                } else {
                    self.menu_selected = 0;
                }
            },
            _ => {},
        }
        proof {
            assert(self@ =~= step_scroll_down(old(self)@));
        }
    }

    fn act_pan_left(&mut self)
        requires
            old(self).well_formed(),
        ensures
            final(self).well_formed(),
            final(self)@ == step_pan_left(old(self)@),
    {
        if self.mode == AppMode::Logs {
            self.horizontal_scroll = self.horizontal_scroll.saturating_sub(10);
        }
        proof {
            assert(self@ =~= step_pan_left(old(self)@));
        }
    }

    fn act_pan_right(&mut self)
        requires
            old(self).well_formed(),
        ensures
            final(self).well_formed(),
            final(self)@ == step_pan_right(old(self)@),
    {
        if self.mode == AppMode::Logs {
            self.horizontal_scroll = self.horizontal_scroll.saturating_add(10);
        }
        proof {
            assert(self@ =~= step_pan_right(old(self)@));
        }
    }

    fn act_confirm(&mut self)
        requires
            old(self).well_formed(),
        ensures
            final(self).well_formed(),
            final(self)@ == step_confirm(old(self)@),
    {
        match self.mode {
            AppMode::Normal => {
                self.mode = AppMode::ContextMenu;
                self.menu_selected = 0;
            },
            AppMode::ContextMenu => {
                if self.menu_selected == 0 {
                    self.mode = AppMode::Logs;
                    self.logs = vec!["Loading logs...".to_owned()];
                    proof {
                        assert(self@.logs =~= seq!["Loading logs..."@]);
                    }
                } else if self.menu_selected == 1 {
                    self.mode = AppMode::Resources;
                } else if self.menu_selected == 2 {
                    self.mode = AppMode::Normal;
                }
            },
            AppMode::Search => {
                if self.last_mode == AppMode::Logs {
                    let ms = compute_log_matches(&self.logs, &self.search_query);
                    self.search_matches = ms;
                    if self.search_matches.len() == 0 {
                        self.current_match_index = None;
                    } else {
                        self.current_match_index = Some(0);
                        self.vertical_scroll = clamp_u16(self.search_matches[0]);
                    }
                    self.mode = AppMode::Logs;
                } else {
                    proof {
                        assert forall|i: int| 0 <= i < self.container_data@.len()
                            implies #[trigger] self.container_data@[i].1@.len() >= 2 by {
                            assert(self@.container_data[i].1.len() == 5);
                            assert(self@.container_data[i].1
                                == crate::state::view_strings(self.container_data@[i].1@));
                        }
                    }
                    let ms = compute_container_matches(&self.container_data, &self.search_query);
                    self.search_matches = ms;
                    if self.search_matches.len() == 0 {
                        self.current_match_index = None;
                    } else {
                        self.current_match_index = Some(0);
                        self.selected = self.search_matches[0];
                    }
                    self.mode = self.last_mode;
                }
            },
            _ => {},
        }
        proof {
            assert(self@ =~= step_confirm(old(self)@));
        }
    }

    fn act_backspace(&mut self)
        requires
            old(self).well_formed(),
        ensures
            final(self).well_formed(),
            final(self)@ == step_backspace(old(self)@),
    {
        if self.mode == AppMode::Search {
            let _ = crate::externals::string_pop(&mut self.search_query);
        }
        proof {
            assert(self@ =~= step_backspace(old(self)@));
        }
    }

    fn act_jump_latest(&mut self)
        requires
            old(self).well_formed(),
        ensures
            final(self).well_formed(),
            final(self)@ == step_jump_latest(old(self)@),
    {
        if self.mode == AppMode::Logs {
            self.user_scrolled = false;
            self.vertical_scroll = clamp_u16(self.logs.len().saturating_sub(15));
        }
        proof {
            assert(self@ =~= step_jump_latest(old(self)@));
        }
    }

    fn act_open_search(&mut self)
        requires
            old(self).well_formed(),
        ensures
            final(self).well_formed(),
            final(self)@ == step_open_search(old(self)@),
    {
        if self.mode == AppMode::Logs || self.mode == AppMode::Normal {
            self.last_mode = self.mode;
            self.mode = AppMode::Search;
            crate::externals::string_clear(&mut self.search_query);
        }
        proof {
            assert(self@ =~= step_open_search(old(self)@));
        }
    }

    fn act_next_match(&mut self)
        requires
            old(self).well_formed(),
        ensures
            final(self).well_formed(),
            final(self)@ == step_next_match(old(self)@),
    {
        if self.mode == AppMode::Logs {
            match self.current_match_index {
                Some(current) => {
                    if self.search_matches.len() > 0 {
                        let len = self.search_matches.len();
                        let nc = if current + 1 == len {
                            0
                        } else {
                            current + 1
                        };
                        self.current_match_index = Some(nc);
                        self.vertical_scroll = clamp_u16(self.search_matches[nc]);
                    }
                },
                None => {},
            }
        }
        proof {
            assert(self@ =~= step_next_match(old(self)@));
        }
    }

    fn act_prev_match(&mut self)
        requires
            old(self).well_formed(),
        ensures
            final(self).well_formed(),
            final(self)@ == step_prev_match(old(self)@),
    {
        if self.mode == AppMode::Logs {
            match self.current_match_index {
                Some(current) => {
                    if self.search_matches.len() > 0 {
                        let len = self.search_matches.len();
                        let nc = if current == 0 {
                            len - 1
                        } else {
                            current - 1
                        };
                        self.current_match_index = Some(nc);
                        self.vertical_scroll = clamp_u16(self.search_matches[nc]);
                    }
                },
                None => {},
            }
        }
        proof {
            assert(self@ =~= step_prev_match(old(self)@));
        }
    }

    fn act_help(&mut self)
        requires
            old(self).well_formed(),
        ensures
            final(self).well_formed(),
            final(self)@ == step_help(old(self)@),
    {
        self.last_mode = self.mode;
        self.mode = AppMode::Help;
        proof {
            assert(self@ =~= step_help(old(self)@));
        }
    }

    fn act_absorb(&mut self, c: char)
        requires
            old(self).well_formed(),
        ensures
            final(self).well_formed(),
            final(self)@ == step_absorb(old(self)@, c),
    {
        crate::externals::string_push(&mut self.search_query, c);
        proof {
            assert(self@ =~= step_absorb(old(self)@, c));
        }
    }

    fn act_char(&mut self, c: char)
        requires
            old(self).well_formed(),
        ensures
            final(self).well_formed(),
            final(self)@ == step_char(old(self)@, c),
    {
        if c == 'q' {
            self.act_quit();
        } else if c == 'k' {
            self.act_scroll_up();
        } else if c == 'j' {
            self.act_scroll_down();
        } else if c == 'h' {
            self.act_pan_left();
        } else if c == 'l' {
            self.act_pan_right();
        } else if c == 'G' {
            self.act_jump_latest();
        } else if c == '/' {
            self.act_open_search();
        } else if c == 'n' {
            self.act_next_match();
        } else if c == 'N' {
            self.act_prev_match();
        } else if c == '?' {
            self.act_help();
        }
    }

    /// Interpret one keystroke: in Search mode a character key is absorbed
    /// into the query before any binding is consulted; otherwise the first
    /// binding listing the key runs.
    pub fn handle_input(&mut self, key: Key)
        requires
            old(self).well_formed(),
        ensures
            final(self).well_formed(),
            final(self)@ == spec_step(old(self)@, key),
    {
        if self.mode == AppMode::Search {
            match key {
                Key::Char(c) => {
                    self.act_absorb(c);
                    return;
                },
                _ => {},
            }
        }
        match key {
            Key::Esc => self.act_quit(),
            Key::Enter => self.act_confirm(),
            Key::Backspace => self.act_backspace(),
            Key::Up => self.act_scroll_up(),
            Key::Down => self.act_scroll_down(),
            Key::Left => self.act_pan_left(),
            Key::Right => self.act_pan_right(),
            Key::Char(c) => self.act_char(c),
        }
    }
}

} // verus!
