//! The progress monitor.
//!
//! The external tool writes its progress to its diagnostic stream, one
//! line at a time, mixed with unrelated chatter.  A line counts as a
//! progress update exactly when it is non-empty and starts with an
//! ASCII digit; such a line is forwarded verbatim behind a fixed
//! prefix.  Reading a line can also fail without ending the stream;
//! that is reported once and the drain goes on.

use vstd::prelude::*;
use crate::notice::Notice;
use crate::notice::NoticeLevel;

verus! {

/// One read from the tool's diagnostic stream: a line, or a failure
/// with the reason's text.
#[derive(Debug, Clone)]
pub enum LineRead {
    Line(String),
    Failed(String),
}

/// What one read asks the caller to do: refresh the loading status, or
/// report a read failure.
#[derive(Debug, Clone)]
pub enum MonitorUpdate {
    Progress(String),
    ReadError(Notice),
}

/// A line that counts as a progress update: non-empty, and starting
/// with an ASCII digit.
pub open spec fn is_progress_line(s: Seq<char>) -> bool {
    s.len() > 0 && 48 <= s[0] as int <= 57
}

/// The loading status shown for the progress line `s`.
pub open spec fn progress_text(s: Seq<char>) -> Seq<char> {
    "Processing: "@ + s
}

/// The report shown when a line could not be read.
pub open spec fn read_error_text(e: Seq<char>) -> Seq<char> {
    "Failed to read a line of the upscaler's output: "@ + e
}

/// What the monitor owes the caller for the single read `l`.
pub open spec fn line_expects(l: LineRead, out: Option<MonitorUpdate>) -> bool {
    match l {
        LineRead::Line(s) => if is_progress_line(s@) {
            out matches Some(MonitorUpdate::Progress(t)) && t@ == progress_text(s@)
        } else {
            out is None
        },
        LineRead::Failed(e) => out matches Some(MonitorUpdate::ReadError(n)) && n.level
            == NoticeLevel::Error && n.text@ == read_error_text(e@),
    }
}

/// Whether the read `l` produces an update at all.
pub open spec fn emits(l: LineRead) -> bool {
    match l {
        LineRead::Line(s) => is_progress_line(s@),
        LineRead::Failed(_) => true,
    }
}

/// `updates` is exactly what draining `lines` in order produces.
pub open spec fn stream_matches(lines: Seq<LineRead>, updates: Seq<MonitorUpdate>) -> bool
    decreases lines.len(),
{
    if lines.len() == 0 {
        updates.len() == 0
    } else if emits(lines[0]) {
        updates.len() > 0 && line_expects(lines[0], Some(updates[0])) && stream_matches(
            lines.skip(1),
            updates.skip(1),
        )
    } else {
        line_expects(lines[0], None) && stream_matches(lines.skip(1), updates)
    }
}

/// Handles one read from the tool's diagnostic stream.
pub fn monitor_line(l: &LineRead) -> (r: Option<MonitorUpdate>)
    ensures
        line_expects(*l, r),
{
    match l {
        LineRead::Line(s) => {
            if s.unicode_len() > 0 {
                let c = s.as_str().get_char(0);
                let cv = c as u32;
                if 48 <= cv && cv <= 57 {
                    let mut t = "Processing: ".to_owned();
                    t.append(s.as_str());
                    Some(MonitorUpdate::Progress(t))
                } else {
                    None
                }
            } else {
                None
            }
        },
        LineRead::Failed(e) => {
            let mut t = "Failed to read a line of the upscaler's output: ".to_owned();
            t.append(e.as_str());
            Some(MonitorUpdate::ReadError(Notice { text: t, level: NoticeLevel::Error }))
        },
    }
}

proof fn lemma_stream_matches_step(
    lines: Seq<LineRead>,
    updates: Seq<MonitorUpdate>,
    l: LineRead,
    u: Option<MonitorUpdate>,
)
    requires
        stream_matches(lines, updates),
        line_expects(l, u),
    ensures
        match u {
            Some(x) => stream_matches(lines.push(l), updates.push(x)),
            None => stream_matches(lines.push(l), updates),
        },
    decreases lines.len(),
{
    let lines2 = lines.push(l);
    if lines.len() == 0 {
        assert(lines =~= Seq::<LineRead>::empty());
        assert(lines2[0] == l);
        assert(lines2.skip(1) =~= Seq::<LineRead>::empty());
        assert(stream_matches(Seq::<LineRead>::empty(), Seq::<MonitorUpdate>::empty()));
        match u {
            Some(x) => {
                assert(updates.push(x)[0] == x);
                assert(updates.push(x).skip(1) =~= Seq::<MonitorUpdate>::empty());
            },
            None => {},
        }
    } else {
        assert(lines2[0] == lines[0]);
        assert(lines2.skip(1) =~= lines.skip(1).push(l));
        if emits(lines[0]) {
            lemma_stream_matches_step(lines.skip(1), updates.skip(1), l, u);
            match u {
                Some(x) => {
                    assert(updates.push(x)[0] == updates[0]);
                    assert(updates.push(x).skip(1) =~= updates.skip(1).push(x));
                },
                None => {},
            }
        } else {
            lemma_stream_matches_step(lines.skip(1), updates, l, u);
        }
    }
}

/// Drains a whole recorded stream, in order.
pub fn monitor_stream(lines: &Vec<LineRead>) -> (updates: Vec<MonitorUpdate>)
    ensures
        stream_matches(lines@, updates@),
{
    let mut updates: Vec<MonitorUpdate> = Vec::new();
    let mut i: usize = 0;
    proof {
        assert(lines@.subrange(0, 0) =~= Seq::<LineRead>::empty());
    }
    while i < lines.len()
        invariant
            i <= lines@.len(),
            stream_matches(lines@.subrange(0, i as int), updates@),
        decreases lines@.len() - i,
    {
        let u = monitor_line(&lines[i]);
        proof {
            assert(lines@.subrange(0, i + 1 as int) =~= lines@.subrange(0, i as int).push(
                lines@[i as int],
            ));
        }
        match u {
            Some(x) => {
                proof {
                    lemma_stream_matches_step(
                        lines@.subrange(0, i as int),
                        updates@,
                        lines@[i as int],
                        Some(x),
                    );
                }
                updates.push(x);
            },
            None => {
                proof {
                    lemma_stream_matches_step(
                        lines@.subrange(0, i as int),
                        updates@,
                        lines@[i as int],
                        None,
                    );
                }
            },
        }
        i = i + 1;
    }
    proof {
        assert(lines@.subrange(0, lines@.len() as int) =~= lines@);
    }
    updates
}

} // verus!
