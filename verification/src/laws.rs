use vstd::prelude::*;

use crate::dispatch::spec_step;
use crate::pipeline::{spec_flush, spec_flush_count};
use crate::state::{sat_u16, AppMode, AppView, Key, CLEANUP_THRESHOLD, MAX_LOG_LINES};

verus! {

/// Pressing Esc in Normal mode only sets `running` to false; pressing it
/// again changes nothing further.
pub proof fn lemma_esc_normal_idempotent(s: AppView)
    requires
        s.mode == AppMode::Normal,
    ensures
        spec_step(s, Key::Esc) == (AppView { running: false, ..s }),
        spec_step(spec_step(s, Key::Esc), Key::Esc) == spec_step(s, Key::Esc),
{
    assert(spec_step(s, Key::Esc) =~= AppView { running: false, ..s });
    assert(spec_step(spec_step(s, Key::Esc), Key::Esc) =~= spec_step(s, Key::Esc));
}

/// In Search mode a character key appends exactly that character to the
/// query and changes nothing else, whatever bindings also list the key.
pub proof fn lemma_search_absorbs(s: AppView, c: char)
    requires
        s.mode == AppMode::Search,
    ensures
        spec_step(s, Key::Char(c)) == (AppView {
            search_query: s.search_query.push(c),
            ..s
        }),
{
    assert(spec_step(s, Key::Char(c)) =~= AppView { search_query: s.search_query.push(c), ..s });
}

/// Any Up or Down press in Logs suspends follow-tail.
pub proof fn lemma_scroll_sets_user_scrolled(s: AppView, key: Key)
    requires
        s.mode == AppMode::Logs,
        key == Key::Up || key == Key::Down || key == Key::Char('k') || key == Key::Char('j'),
    ensures
        spec_step(s, key).user_scrolled,
{
}

/// `G` in Logs re-enables follow-tail.
pub proof fn lemma_jump_resumes_follow(s: AppView)
    requires
        s.mode == AppMode::Logs,
    ensures
        !spec_step(s, Key::Char('G')).user_scrolled,
{
}

/// A flush whose cleanup counter has reached the threshold leaves no more
/// than the cap of log lines and restarts the counter.
pub proof fn lemma_log_cap(s: AppView, buf: Seq<Seq<char>>, n: usize)
    requires
        buf.len() > 0,
        n >= CLEANUP_THRESHOLD,
    ensures
        spec_flush(s, buf, n).logs.len() <= MAX_LOG_LINES,
        spec_flush_count(buf, n) == 0,
{
}

/// While follow-tail is active, a flush pins the viewport to the last screen
/// of lines: the offset is the appended length less the viewport height,
/// floored at zero (and clamped into a `u16`); the trim that may follow is
/// computed from the appended length.
pub proof fn lemma_follow_tail(s: AppView, buf: Seq<Seq<char>>, n: usize)
    requires
        !s.user_scrolled,
        buf.len() > 0,
    ensures
        spec_flush(s, buf, n).vertical_scroll == sat_u16((s.logs + buf).len() - s.visible_height),
{
}

} // verus!
