//! State of the interactive job browser.
//!
//! The browser shows a dashboard of recent jobs with an active-transfer
//! banner, a full history list, and a per-job detail view.  This module
//! holds the view state, the navigation rules, and the text helpers for
//! progress bars and durations; terminal I/O and the RPC client that feeds
//! the data live outside the library.

use vstd::prelude::*;
use crate::models::{Job, JobWithHistory};
use crate::status::TransferStatus;
use crate::text::{append_u64, spec_dec};

verus! {

/// What the daemon reports about itself.
#[derive(Debug, Clone)]
pub struct DaemonStatus {
    pub version: String,
    pub uptime_secs: u64,
    pub active_jobs: usize,
    pub simulation: bool,
}

/// A snapshot of the active jobs and their progress.
#[derive(Debug)]
pub struct ActiveProgress {
    pub jobs: Vec<(String, TransferStatus)>,
    pub count: usize,
}

/// Data the browser last fetched from the daemon.
#[derive(Debug)]
pub struct AppData {
    pub daemon_status: Option<DaemonStatus>,
    pub active_jobs: Vec<(String, TransferStatus)>,
    pub recent_jobs: Vec<Job>,
    pub all_jobs: Vec<Job>,
    pub selected_job: Option<JobWithHistory>,
}

/// The view on screen.
#[derive(Debug, Clone)]
pub enum Screen {
    /// Active-transfer banner plus recent jobs; `selected` indexes the list.
    Dashboard { selected: usize },
    /// Full job history with pagination.
    History { selected: usize, offset: u32 },
    /// One job's detail, scrolled to `scroll`.
    Detail { job_id: String, scroll: u16 },
}

impl Default for Screen {
    /// The browser opens on the dashboard.
    fn default() -> (r: Screen)
        ensures
            r matches Screen::Dashboard { selected } && selected == 0,
    {
        Screen::Dashboard { selected: 0 }
    }
}

/// What a key press asks for.
#[derive(Debug, Clone, Copy, PartialEq, Eq, Structural)]
pub enum Action {
    Quit,
    Up,
    Down,
    Left,
    Right,
    Select,
    Back,
    Refresh,
    History,
}

/// A key press, reduced to what the bindings distinguish.
#[derive(Debug, Clone, Copy, PartialEq, Eq, Structural)]
pub enum Key {
    Char(char),
    Esc,
    Up,
    Down,
    Left,
    Right,
    Enter,
    Function(u8),
}

/// The browser's key bindings: vi-style movement, `q` or control-`c` to
/// quit, enter or space to select, escape to go back, `r` or F5 to refresh,
/// and `h` for the history view.
pub open spec fn spec_key_action(key: Key, ctrl: bool) -> Option<Action> {
    match key {
        Key::Char(c) => if c == 'q' {
            Some(Action::Quit)
        } else if c == 'c' && ctrl {
            Some(Action::Quit)
        } else if c == 'k' {
            Some(Action::Up)
        } else if c == 'j' {
            Some(Action::Down)
        } else if c == 'l' {
            Some(Action::Right)
        } else if c == ' ' {
            Some(Action::Select)
        } else if c == 'r' {
            Some(Action::Refresh)
        } else if c == 'h' {
            Some(Action::History)
        } else {
            None
        },
        Key::Esc => Some(Action::Back),
        Key::Up => Some(Action::Up),
        Key::Down => Some(Action::Down),
        Key::Left => Some(Action::Left),
        Key::Right => Some(Action::Right),
        Key::Enter => Some(Action::Select),
        Key::Function(n) => if n == 5 {
            Some(Action::Refresh)
        } else {
            None
        },
    }
}

/// Maps one key press to the action it asks for, if any.
pub fn key_action(key: Key, ctrl: bool) -> (r: Option<Action>)
    ensures
        r == spec_key_action(key, ctrl),
{
    match key {
        Key::Char(c) => {
            if c == 'q' {
                Some(Action::Quit)
            } else if c == 'c' && ctrl {
                Some(Action::Quit)
            } else if c == 'k' {
                Some(Action::Up)
            } else if c == 'j' {
                Some(Action::Down)
            } else if c == 'l' {
                Some(Action::Right)
            } else if c == ' ' {
                Some(Action::Select)
            } else if c == 'r' {
                Some(Action::Refresh)
            } else if c == 'h' {
                Some(Action::History)
            } else {
                None
            }
        },
        Key::Esc => Some(Action::Back),
        Key::Up => Some(Action::Up),
        Key::Down => Some(Action::Down),
        Key::Left => Some(Action::Left),
        Key::Right => Some(Action::Right),
        Key::Enter => Some(Action::Select),
        Key::Function(n) => {
            if n == 5 {
                Some(Action::Refresh)
            } else {
                None
            }
        },
    }
}

/// Moves the selection up one entry, or scrolls the detail view up.
pub fn navigate_up(view: Screen) -> (r: Screen)
    ensures
        (view matches Screen::Dashboard { selected } ==> (r matches Screen::Dashboard {
            selected: s2,
        } && s2 == (if selected > 0 {
            selected - 1
        } else {
            0int
        }))),
        (view matches Screen::History { selected, offset } ==> (r matches Screen::History {
            selected: s2,
            offset: o2,
        } && o2 == offset && s2 == (if selected > 0 {
            selected - 1
        } else {
            0int
        }))),
        (view matches Screen::Detail { job_id, scroll } ==> (r matches Screen::Detail {
            job_id: j2,
            scroll: sc2,
        } && j2 == job_id && sc2 == (if scroll > 0 {
            scroll - 1
        } else {
            0int
        }))),
{
    match view {
        Screen::Dashboard { selected } => Screen::Dashboard {
            selected: if selected > 0 {
                selected - 1
            } else {
                0
            },
        },
        Screen::History { selected, offset } => Screen::History {
            selected: if selected > 0 {
                selected - 1
            } else {
                0
            },
            offset,
        },
        Screen::Detail { job_id, scroll } => Screen::Detail {
            job_id,
            scroll: if scroll > 0 {
                scroll - 1
            } else {
                0
            },
        },
    }
}

/// Moves the selection down one entry, bounded by the list it indexes, or
/// scrolls the detail view down.
pub fn navigate_down(view: Screen, recent_len: usize, all_len: usize) -> (r: Screen)
    requires
        view matches Screen::Detail { scroll, .. } ==> scroll < u16::MAX,
    ensures
        (view matches Screen::Dashboard { selected } ==> (r matches Screen::Dashboard {
            selected: s2,
        } && s2 == (if selected + 1 < recent_len {
            selected + 1
        } else {
            selected as int
        }))),
        (view matches Screen::History { selected, offset } ==> (r matches Screen::History {
            selected: s2,
            offset: o2,
        } && o2 == offset && s2 == (if selected + 1 < all_len {
            selected + 1
        } else {
            selected as int
        }))),
        (view matches Screen::Detail { job_id, scroll } ==> (r matches Screen::Detail {
            job_id: j2,
            scroll: sc2,
        } && j2 == job_id && sc2 == scroll + 1)),
{
    match view {
        Screen::Dashboard { selected } => Screen::Dashboard {
            selected: if selected < usize::MAX && selected + 1 < recent_len {
                selected + 1
            } else {
                selected
            },
        },
        Screen::History { selected, offset } => Screen::History {
            selected: if selected < usize::MAX && selected + 1 < all_len {
                selected + 1
            } else {
                selected
            },
            offset,
        },
        Screen::Detail { job_id, scroll } => Screen::Detail { job_id, scroll: scroll + 1 },
    }
}

/// The job whose detail a `Select` opens: the highlighted entry of the list
/// the view shows, when there is one.
pub fn select_target(view: &Screen, recent_jobs: &Vec<Job>, all_jobs: &Vec<Job>) -> (r: Option<
    String,
>)
    ensures
        (view matches Screen::Dashboard { selected } ==> ((r is Some <==> selected
            < recent_jobs@.len()) && (r matches Some(id) ==> id
            == recent_jobs@[view->Dashboard_selected as int].id))),
        (view matches Screen::History { selected, .. } ==> ((r is Some <==> selected
            < all_jobs@.len()) && (r matches Some(id) ==> id
            == all_jobs@[view->History_selected as int].id))),
        (view matches Screen::Detail { .. } ==> r is None),
{
    match view {
        Screen::Dashboard { selected } => {
            if *selected < recent_jobs.len() {
                Some(recent_jobs[*selected].id.clone())
            } else {
                None
            }
        },
        Screen::History { selected, .. } => {
            if *selected < all_jobs.len() {
                Some(all_jobs[*selected].id.clone())
            } else {
                None
            }
        },
        Screen::Detail { .. } => None,
    }
}

/// `n` copies of one character.
pub open spec fn spec_repeat(c: char, n: int) -> Seq<char>
    decreases n,
{
    if n <= 0 {
        Seq::empty()
    } else {
        spec_repeat(c, n - 1) + seq![c]
    }
}

/// A textual progress bar: `width` cells in brackets, the leading
/// `⌊min(percentage,100)·width/100⌋` of them filled.
pub fn progress_bar(percentage: u8, width: usize) -> (r: String)
    requires
        width * 100 <= usize::MAX,
    ensures
        ({
            let p = if percentage > 100 {
                100int
            } else {
                percentage as int
            };
            let filled = p * width / 100;
            r@ == "["@ + spec_repeat('█', filled) + spec_repeat('░', width - filled) + "]"@
        }),
{
    let pct: usize = if percentage > 100 {
        100
    } else {
        percentage as usize
    };
    proof {
        assert(pct * width <= width * 100) by (nonlinear_arith)
            requires
                pct <= 100,
                0 <= width,
        ;
        vstd::arithmetic::div_mod::lemma_div_is_ordered(
            0,
            pct as int * width as int,
            100,
        );
        assert(pct as int * width as int / 100 <= width) by (nonlinear_arith)
            requires
                pct <= 100,
                0 <= width,
        ;
    }
    let filled: usize = pct * width / 100;
    let empty: usize = width - filled;
    let mut s = String::new();
    s.append("[");
    let mut i: usize = 0;
    while i < filled
        invariant
            i <= filled,
            s@ == "["@ + spec_repeat('█', i as int),
        decreases filled - i,
    {
        s.append("█");
        proof {
            reveal_strlit("█");
            assert(s@ =~= "["@ + spec_repeat('█', i + 1));
        }
        i += 1;
    }
    let mut j: usize = 0;
    while j < empty
        invariant
            j <= empty,
            s@ == "["@ + spec_repeat('█', filled as int) + spec_repeat('░', j as int),
        decreases empty - j,
    {
        s.append("░");
        proof {
            reveal_strlit("░");
            assert(s@ =~= "["@ + spec_repeat('█', filled as int) + spec_repeat('░', j + 1));
        }
        j += 1;
    }
    s.append("]");
    proof {
        assert(s@ =~= "["@ + spec_repeat('█', filled as int) + spec_repeat(
            '░',
            (width - filled) as int,
        ) + "]"@);
    }
    s
}

/// The rendering of a duration: hours and minutes when there are hours,
/// minutes and seconds when there are minutes, else seconds alone.
pub open spec fn spec_format_duration(secs: int) -> Seq<char> {
    let hours = secs / 3600;
    let mins = (secs % 3600) / 60;
    let rest = secs % 60;
    if hours > 0 {
        spec_dec(hours as nat) + "h "@ + spec_dec(mins as nat) + "m"@
    } else if mins > 0 {
        spec_dec(mins as nat) + "m "@ + spec_dec(rest as nat) + "s"@
    } else {
        spec_dec(rest as nat) + "s"@
    }
}

/// Renders a duration in seconds for the header and job rows.
pub fn format_duration(secs: u64) -> (r: String)
    ensures
        r@ == spec_format_duration(secs as int),
{
    let hours = secs / 3600;
    let mins = (secs % 3600) / 60;
    let rest = secs % 60;
    let mut s = String::new();
    if hours > 0 {
        append_u64(&mut s, hours);
        s.append("h ");
        append_u64(&mut s, mins);
        s.append("m");
    } else if mins > 0 {
        append_u64(&mut s, mins);
        s.append("m ");
        append_u64(&mut s, rest);
        s.append("s");
    } else {
        append_u64(&mut s, rest);
        s.append("s");
    }
    proof {
        assert(s@ =~= spec_format_duration(secs as int));
    }
    s
}

} // verus!
