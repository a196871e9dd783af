use vstd::prelude::*;
use vstd::string::{StrSliceExecFns, StringExecFns};

use crate::externals::{ansi_stripped, decode_utf8_lossy, strip_ansi, utf8_lossy};
use crate::state::{
    clamp_u16, sat_u16, view_strings, AppState, AppView, CLEANUP_THRESHOLD, MAX_LOG_LINES,
};

verus! {

/// The state after one flush of `buf` with cleanup counter `n`: the staged
/// lines are appended, the viewport follows the tail unless the user scrolled,
/// and when the counter has reached the threshold the oldest lines beyond the
/// cap are dropped.
pub open spec fn spec_flush(s: AppView, buf: Seq<Seq<char>>, n: usize) -> AppView {
    if buf.len() == 0 {
        s
    } else {
        let logs1 = s.logs + buf;
        let vs = if !s.user_scrolled {
            if logs1.len() > s.visible_height {
                sat_u16(logs1.len() - s.visible_height)
            } else {
                0u16
            }
        } else {
            s.vertical_scroll
        };
        if n >= CLEANUP_THRESHOLD && logs1.len() > MAX_LOG_LINES {
            AppView {
                logs: logs1.skip(logs1.len() - MAX_LOG_LINES),
                vertical_scroll: vs,
                ..s
            }
        } else {
            AppView { logs: logs1, vertical_scroll: vs, ..s }
        }
    }
}

/// The cleanup counter after one flush: reset once it has reached the
/// threshold and the flush was not empty.
pub open spec fn spec_flush_count(buf: Seq<Seq<char>>, n: usize) -> usize {
    if buf.len() > 0 && n >= CLEANUP_THRESHOLD {
        0usize
    } else {
        n
    }
}

impl AppState {
    /// Move the staged lines into `logs`, recompute the follow-tail offset,
    /// and trim the oldest lines once enough new ones have arrived.
    pub fn flush_buffer(&mut self, buffer: &mut Vec<String>, new_lines_since_cleanup: &mut usize)
        requires
            old(self).well_formed(),
        ensures
            final(self).well_formed(),
            final(self)@ == spec_flush(
                old(self)@,
                view_strings(old(buffer)@),
                *old(new_lines_since_cleanup),
            ),
            *final(new_lines_since_cleanup) == spec_flush_count(
                view_strings(old(buffer)@),
                *old(new_lines_since_cleanup),
            ),
            final(buffer)@.len() == 0,
    {
        if buffer.len() == 0 {
            return;
        }
        self.logs.append(buffer);
        proof {
            assert(view_strings(self.logs@) =~= old(self)@.logs + view_strings(old(buffer)@));
        }
        let ghost logs1 = view_strings(self.logs@);
        let number_of_log_lines = self.logs.len();
        if !self.user_scrolled {
            if number_of_log_lines > self.visible_height as usize {
                self.vertical_scroll = clamp_u16(number_of_log_lines - self.visible_height as usize);
            } else {
                self.vertical_scroll = 0;
            }
        }
        if *new_lines_since_cleanup >= CLEANUP_THRESHOLD {
            if number_of_log_lines > MAX_LOG_LINES {
                let excess = number_of_log_lines - MAX_LOG_LINES;
                let mut kept: Vec<String> = Vec::new();
                let mut i: usize = excess;
                while i < self.logs.len()
                    invariant
                        excess <= i <= self.logs@.len(),
                        logs1 == view_strings(self.logs@),
                        kept@.len() == i - excess,
                        view_strings(kept@) == logs1.subrange(excess as int, i as int),
                    decreases self.logs@.len() - i,
                {
                    let ghost kept0 = kept@;
                    kept.push(self.logs[i].clone());
                    i = i + 1;
                    proof {
                        assert(kept@ == kept0.push(self.logs@[i - 1]));
                        assert forall|k: int| 0 <= k < kept@.len() implies #[trigger] view_strings(
                            kept@,
                        )[k] == logs1[excess + k] by {
                            assert(view_strings(kept@)[k] == kept@[k]@);
                            if k < kept0.len() {
                                assert(kept@[k] == kept0[k]);
                                assert(view_strings(kept0)[k] == kept0[k]@);
                                assert(view_strings(kept0)[k] == logs1.subrange(
                                    excess as int,
                                    (i - 1) as int,
                                )[k]);
                            } else {
                                assert(kept@[k] == self.logs@[i - 1]);
                            }
                        }
                        assert(view_strings(kept@) =~= logs1.subrange(excess as int, i as int));
                    }
                }
                self.logs = kept;
                proof {
                    assert(view_strings(self.logs@) =~= logs1.skip(
                        logs1.len() - MAX_LOG_LINES,
                    ));
                }
            }
            *new_lines_since_cleanup = 0;
        }
        proof {
            assert(self@ =~= spec_flush(
                old(self)@,
                view_strings(old(buffer)@),
                *old(new_lines_since_cleanup),
            ));
        }
    }

    /// Append the synthetic line recorded for a failed log-stream chunk.
    pub fn log_stream_error(&mut self, message: &str)
        requires
            old(self).well_formed(),
        ensures
            final(self).well_formed(),
            final(self)@ == (AppView {
                logs: old(self)@.logs.push("Error streaming logs: "@ + message@),
                ..old(self)@
            }),
    {
        let mut line: String = "Error streaming logs: ".to_owned();
        line.append(message);
        self.logs.push(line);
        proof {
            assert(self@ =~= AppView {
                logs: old(self)@.logs.push("Error streaming logs: "@ + message@),
                ..old(self)@
            });
        }
    }
}

/// One log-stream chunk as a displayable line: ANSI escapes stripped, then
/// decoded as UTF-8 with lossy replacement.
pub fn clean_log_chunk(bytes: &Vec<u8>) -> (line: String)
    ensures
        line@ == utf8_lossy(ansi_stripped(bytes@)),
{
    let stripped = strip_ansi(bytes.as_slice());
    decode_utf8_lossy(stripped.as_slice())
}

/// Stage one arrived chunk: clean it, append it to the flush buffer, and count
/// it toward the next cleanup.
pub fn record_chunk(buffer: &mut Vec<String>, new_lines_since_cleanup: &mut usize, bytes: &Vec<u8>)
    ensures
        view_strings(final(buffer)@) == view_strings(old(buffer)@).push(
            utf8_lossy(ansi_stripped(bytes@)),
        ),
        *final(new_lines_since_cleanup) == if *old(new_lines_since_cleanup) == usize::MAX {
            usize::MAX
        } else {
            (*old(new_lines_since_cleanup) + 1) as usize
        },
{
    let line = clean_log_chunk(bytes);
    buffer.push(line);
    *new_lines_since_cleanup = (*new_lines_since_cleanup).saturating_add(1);
    proof {
        assert(view_strings(buffer@) =~= view_strings(old(buffer)@).push(
            utf8_lossy(ansi_stripped(bytes@)),
        ));
    }
}

/// The CPU terms of one stats sample, or `None` when the sample is skipped:
/// a field is missing or the system-usage delta is zero.
pub open spec fn spec_cpu_usage_inputs(
    total: u64,
    pre_total: u64,
    system: Option<u64>,
    pre_system: Option<u64>,
    online_cpus: Option<u64>,
) -> Option<(i128, i128, u64)> {
    match (system, pre_system, online_cpus) {
        (Some(sys), Some(pre_sys), Some(cpus)) => {
            if sys == pre_sys {
                None
            } else {
                Some(((total - pre_total) as i128, (sys - pre_sys) as i128, cpus))
            }
        },
        _ => None,
    }
}

/// Decide whether a CPU sample counts and compute its exact terms: the usage
/// delta, the system delta, and the CPU count. The percent itself is the
/// caller's quotient of these.
pub fn cpu_usage_inputs(
    total: u64,
    pre_total: u64,
    system: Option<u64>,
    pre_system: Option<u64>,
    online_cpus: Option<u64>,
) -> (r: Option<(i128, i128, u64)>)
    ensures
        r == spec_cpu_usage_inputs(total, pre_total, system, pre_system, online_cpus),
{
    match (system, pre_system, online_cpus) {
        (Some(sys), Some(pre_sys), Some(cpus)) => {
            if sys == pre_sys {
                None
            } else {
                Some((total as i128 - pre_total as i128, sys as i128 - pre_sys as i128, cpus))
            }
        },
        _ => None,
    }
}

/// The memory terms of one stats sample, or `None` when the sample is
/// skipped: the usage or the limit is missing, or the limit is zero. A
/// missing stats object counts as zero cache; used memory is the usage less
/// the cache, floored at zero.
pub open spec fn spec_memory_usage_inputs(
    usage: Option<u64>,
    cache: Option<u64>,
    limit: Option<u64>,
) -> Option<(u64, u64)> {
    match (usage, limit) {
        (Some(u), Some(l)) => {
            if l == 0 {
                None
            } else {
                let c = match cache {
                    Some(c) => c,
                    None => 0u64,
                };
                Some((if u >= c { (u - c) as u64 } else { 0u64 }, l))
            }
        },
        _ => None,
    }
}

/// Decide whether a memory sample counts and compute its exact terms: the
/// used bytes and the limit. The percent itself is the caller's quotient.
pub fn memory_usage_inputs(usage: Option<u64>, cache: Option<u64>, limit: Option<u64>) -> (r:
    Option<(u64, u64)>)
    ensures
        r == spec_memory_usage_inputs(usage, cache, limit),
{
    match (usage, limit) {
        (Some(u), Some(l)) => {
            if l == 0 {
                None
            } else {
                let c = match cache {
                    Some(c) => c,
                    None => 0,
                };
                Some((u.saturating_sub(c), l))
            }
        },
        _ => None,
    }
}

/// `parts` joined with `sep` between consecutive elements.
pub open spec fn join_sep(parts: Seq<Seq<char>>, sep: Seq<char>) -> Seq<char>
    decreases parts.len(),
{
    if parts.len() == 0 {
        Seq::empty()
    } else if parts.len() == 1 {
        parts[0]
    } else {
        join_sep(parts.drop_last(), sep) + sep + parts.last()
    }
}

/// Join strings with a separator, as the container names column shows them.
pub fn join_strings(parts: &Vec<String>, sep: &str) -> (r: String)
    ensures
        r@ == join_sep(view_strings(parts@), sep@),
{
    let ghost pv = view_strings(parts@);
    let mut r = String::new();
    let mut i: usize = 0;
    while i < parts.len()
        invariant
            pv == view_strings(parts@),
            i <= parts@.len(),
            r@ == join_sep(pv.subrange(0, i as int), sep@),
        decreases parts@.len() - i,
    {
        if i > 0 {
            r.append(sep);
        }
        r.append(parts[i].as_str());
        i = i + 1;
        proof {
            let now = pv.subrange(0, i as int);
            assert(now.drop_last() =~= pv.subrange(0, i - 1));
            assert(now.last() == pv[i - 1]);
        }
    }
    proof {
        assert(pv.subrange(0, parts@.len() as int) =~= pv);
    }
    r
}

/// The id shortened for display: its first 12 characters.
pub open spec fn spec_short_id(id: Seq<char>) -> Seq<char> {
    if id.len() > 12 {
        id.subrange(0, 12)
    } else {
        id
    }
}

/// Shorten a container id for display.
pub fn short_id(id: &String) -> (r: String)
    ensures
        r@ == spec_short_id(id@),
{
    let n = id.as_str().unicode_len();
    if n > 12 {
        id.as_str().substring_char(0, 12).to_owned()
    } else {
        id.clone()
    }
}

/// An optional text field, or its default when missing.
pub open spec fn opt_text(o: Option<String>, dflt: Seq<char>) -> Seq<char> {
    match o {
        Some(s) => s@,
        None => dflt,
    }
}

/// One display row of the container table: shortened id, image, status,
/// joined names, and IP, with the documented defaults for missing fields.
pub fn container_row(
    id: &String,
    image: Option<String>,
    status: Option<String>,
    names: &Vec<String>,
    ip: Option<String>,
) -> (row: Vec<String>)
    ensures
        view_strings(row@) == seq![
            spec_short_id(id@),
            opt_text(image, Seq::empty()),
            opt_text(status, Seq::empty()),
            join_sep(view_strings(names@), ", "@),
            opt_text(ip, "N/A"@),
        ],
{
    let mut row: Vec<String> = Vec::new();
    row.push(short_id(id));
    let image_text = match image {
        Some(s) => s,
        None => String::new(),
    };
    row.push(image_text);
    let status_text = match status {
        Some(s) => s,
        None => String::new(),
    };
    row.push(status_text);
    row.push(join_strings(names, ", "));
    let ip_text = match ip {
        Some(s) => s,
        None => "N/A".to_owned(),
    };
    row.push(ip_text);
    proof {
        assert(view_strings(row@) =~= seq![
            spec_short_id(id@),
            opt_text(image, Seq::empty()),
            opt_text(status, Seq::empty()),
            join_sep(view_strings(names@), ", "@),
            opt_text(ip, "N/A"@),
        ]);
    }
    row
}

} // verus!
