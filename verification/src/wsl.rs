//! WSL session detection: correlating start/stop events into session
//! lifetimes, keyed by the Windows process id of the WSL host process.

use vstd::prelude::*;

verus! {

/// Whether an event opens or closes a session.
#[derive(Debug, Clone, Copy, PartialEq, Eq, Structural)]
pub enum SessionEventKind {
    Start,
    Stop,
}

/// One session start or stop, as read from the event log.
#[derive(Debug, Clone)]
pub struct SessionEvent {
    pub kind: SessionEventKind,
    pub timestamp_ns: i64,
    pub windows_pid: u32,
    pub distro: Option<String>,
    pub user: Option<String>,
}

/// One WSL session: opened by a start event, closed by the next stop event of
/// the same process (if any).
#[derive(Debug, Clone)]
pub struct WslSession {
    pub distro: String,
    pub windows_pid: u32,
    pub start_ns: i64,
    pub end_ns: Option<i64>,
    pub user: Option<String>,
}

/// A session as plain values.
pub struct SessionView {
    pub distro: Seq<char>,
    pub windows_pid: u32,
    pub start_ns: i64,
    pub end_ns: Option<i64>,
    pub user: Option<Seq<char>>,
}

/// The plain value of an optional string.
pub open spec fn opt_text(o: Option<String>) -> Option<Seq<char>> {
    match o {
        Some(s) => Some(s@),
        None => None,
    }
}

impl View for WslSession {
    type V = SessionView;

    open spec fn view(&self) -> SessionView {
        SessionView {
            distro: self.distro@,
            windows_pid: self.windows_pid,
            start_ns: self.start_ns,
            end_ns: self.end_ns,
            user: opt_text(self.user),
        }
    }
}

/// The plain values of a list of sessions.
pub open spec fn sessions_view(s: Seq<WslSession>) -> Seq<SessionView> {
    s.map_values(|x: WslSession| x@)
}

/// The session a start event opens: its distro (empty when the event names
/// none), process, start time and user, not yet closed.
pub open spec fn opened_by(e: SessionEvent) -> SessionView {
    SessionView {
        distro: match e.distro {
            Some(d) => d@,
            None => seq![],
        },
        windows_pid: e.windows_pid,
        start_ns: e.timestamp_ns,
        end_ns: None,
        user: opt_text(e.user),
    }
}

/// The session is still open, belongs to process `pid` and started no
/// later than `t`, so a stop of that process at `t` can close it.
pub open spec fn open_for(s: SessionView, pid: u32, t: i64) -> bool {
    s.end_ns is None && s.windows_pid == pid && s.start_ns <= t
}

/// Index of the most recently opened session among the first `n` that a
/// stop of `pid` at `t` can close, or -1 when there is none.
pub open spec fn latest_open(ss: Seq<SessionView>, pid: u32, t: i64, n: int) -> int
    decreases n,
{
    if n <= 0 {
        -1
    } else if open_for(ss[n - 1], pid, t) {
        n - 1
    } else {
        latest_open(ss, pid, t, n - 1)
    }
}

/// The sessions after one more event: a start appends a new open session; a
/// stop closes, at the stop's time, the latest open session of the same
/// process that started no later than the stop, and is ignored when there
/// is none.
pub open spec fn step(ss: Seq<SessionView>, e: SessionEvent) -> Seq<SessionView> {
    match e.kind {
        SessionEventKind::Start => ss.push(opened_by(e)),
        SessionEventKind::Stop => {
            let i = latest_open(ss, e.windows_pid, e.timestamp_ns, ss.len() as int);
            if i < 0 {
                ss
            } else {
                ss.update(i, SessionView { end_ns: Some(e.timestamp_ns), ..ss[i] })
            }
        },
    }
}

/// The sessions built from a sequence of events, in order.
pub open spec fn sessions_of(events: Seq<SessionEvent>) -> Seq<SessionView>
    decreases events.len(),
{
    if events.len() == 0 {
        seq![]
    } else {
        step(sessions_of(events.drop_last()), events.last())
    }
}

/// How many of the events are starts.
pub open spec fn start_count(events: Seq<SessionEvent>) -> nat
    decreases events.len(),
{
    if events.len() == 0 {
        0
    } else {
        start_count(events.drop_last()) + if events.last().kind == SessionEventKind::Start {
            1nat
        } else {
            0nat
        }
    }
}

proof fn lemma_latest_open(ss: Seq<SessionView>, pid: u32, t: i64, n: int)
    requires
        0 <= n <= ss.len(),
    ensures
        -1 <= latest_open(ss, pid, t, n) < n,
        latest_open(ss, pid, t, n) >= 0 ==> open_for(ss[latest_open(ss, pid, t, n)], pid, t),
        forall|k: int| latest_open(ss, pid, t, n) < k < n ==> !open_for(#[trigger] ss[k], pid, t),
    decreases n,
{
    if n > 0 && !open_for(ss[n - 1], pid, t) {
        lemma_latest_open(ss, pid, t, n - 1);
    }
}

impl WslSession {
    /// The session's length in nanoseconds, `None` while it is still open.
    pub fn duration_ns(&self) -> (d: Option<i64>)
        requires
            self.end_ns matches Some(end) ==> i64::MIN <= end - self.start_ns <= i64::MAX,
        ensures
            d == (match self.end_ns {
                Some(end) => Some((end - self.start_ns) as i64),
                None => None,
            }),
    {
        match self.end_ns {
            Some(end) => Some(end - self.start_ns),
            None => None,
        }
    }
}

fn copy_text(o: &Option<String>) -> (r: Option<String>)
    ensures
        opt_text(r) == opt_text(*o),
{
    match o {
        Some(s) => Some(s.clone()),
        None => None,
    }
}

/// Correlate session events into sessions: each start opens a session, and
/// each stop closes the most recently opened session of the same process
/// that is still open and started no later than the stop. Sessions come out
/// in the order of their start events.
pub fn build_sessions(events: &[SessionEvent]) -> (r: Vec<WslSession>)
    ensures
        sessions_view(r@) == sessions_of(events@),
{
    let mut out: Vec<WslSession> = Vec::new();
    let mut i: usize = 0;
    while i < events.len()
        invariant
            i <= events.len(),
            sessions_view(out@) == sessions_of(events@.take(i as int)),
        decreases events.len() - i,
    {
        let e = &events[i];
        proof {
            assert(events@.take(i + 1).drop_last() =~= events@.take(i as int));
            assert(events@.take(i + 1).last() == events@[i as int]);
        }
        let ghost before = sessions_view(out@);
        match e.kind {
            SessionEventKind::Start => {
                let distro = match &e.distro {
                    Some(d) => d.clone(),
                    None => String::new(),
                };
                let s = WslSession {
                    distro,
                    windows_pid: e.windows_pid,
                    start_ns: e.timestamp_ns,
                    end_ns: None,
                    user: copy_text(&e.user),
                };
                out.push(s);
                proof {
                    assert(sessions_view(out@) =~= before.push(opened_by(*e)));
                }
            },
            SessionEventKind::Stop => {
                let mut j: usize = out.len();
                while j > 0 && !(out[j - 1].end_ns.is_none() && out[j - 1].windows_pid == e.windows_pid
                    && out[j - 1].start_ns <= e.timestamp_ns)
                    invariant
                        j <= out@.len(),
                        before == sessions_view(out@),
                        latest_open(before, e.windows_pid, e.timestamp_ns, out@.len() as int) == latest_open(
                            before,
                            e.windows_pid,
                            e.timestamp_ns,
                            j as int,
                        ),
                    decreases j,
                {
                    j = j - 1;
                }
                proof {
                    lemma_latest_open(before, e.windows_pid, e.timestamp_ns, out@.len() as int);
                }
                if j > 0 {
                    let k = j - 1;
                    assert(latest_open(before, e.windows_pid, e.timestamp_ns, out@.len() as int) == k);
                    let mut s = out.remove(k);
                    s.end_ns = Some(e.timestamp_ns);
                    out.insert(k, s);
                    proof {
                        assert(sessions_view(out@) =~= before.update(
                            k as int,
                            SessionView { end_ns: Some(e.timestamp_ns), ..before[k as int] },
                        ));
                    }
                } else {
                    assert(latest_open(before, e.windows_pid, e.timestamp_ns, out@.len() as int) == -1);
                }
            },
        }
        i = i + 1;
    }
    assert(events@.take(events@.len() as int) =~= events@);
    out
}

/// Every start event opens exactly one session and stops open none: there
/// are as many sessions as start events.
pub proof fn law_one_session_per_start(events: Seq<SessionEvent>)
    ensures
        sessions_of(events).len() == start_count(events),
    decreases events.len(),
{
    if events.len() > 0 {
        law_one_session_per_start(events.drop_last());
        let ss = sessions_of(events.drop_last());
        let e = events.last();
        if e.kind == SessionEventKind::Stop {
            lemma_latest_open(ss, e.windows_pid, e.timestamp_ns, ss.len() as int);
        }
    }
}

/// A stop closes a session only of its own process, at its own time, and
/// only one that was open and had started by then: after a stop, at most one
/// session changed, and that session was open, belongs to the stop's
/// process, started no later than the stop and now ends at the stop's
/// timestamp.
pub proof fn law_stop_closes_own_open_session(prior: Seq<SessionEvent>, stop: SessionEvent)
    requires
        stop.kind == SessionEventKind::Stop,
    ensures
        ({
            let before = sessions_of(prior);
            let after = sessions_of(prior.push(stop));
            &&& after.len() == before.len()
            &&& forall|k: int|
                0 <= k < before.len() && after[k] != before[k] ==> {
                    &&& open_for(before[k], stop.windows_pid, stop.timestamp_ns)
                    &&& after[k].end_ns == Some(stop.timestamp_ns)
                    &&& forall|m: int| 0 <= m < before.len() && m != k ==> after[m] == before[m]
                }
        }),
{
    let before = sessions_of(prior);
    assert(prior.push(stop).drop_last() =~= prior);
    lemma_latest_open(before, stop.windows_pid, stop.timestamp_ns, before.len() as int);
}

/// No session ends before it starts: every closed session's end is at or
/// after its start.
pub proof fn law_sessions_end_after_start(events: Seq<SessionEvent>)
    ensures
        forall|k: int|
            0 <= k < sessions_of(events).len() ==> match (#[trigger] sessions_of(events)[k]).end_ns {
                Some(end) => sessions_of(events)[k].start_ns <= end,
                None => true,
            },
    decreases events.len(),
{
    if events.len() > 0 {
        let rest = events.drop_last();
        law_sessions_end_after_start(rest);
        let ss = sessions_of(rest);
        let e = events.last();
        lemma_latest_open(ss, e.windows_pid, e.timestamp_ns, ss.len() as int);
        let after = sessions_of(events);
        assert forall|k: int| 0 <= k < after.len() implies match (#[trigger] after[k]).end_ns {
            Some(end) => after[k].start_ns <= end,
            None => true,
        } by {
            if k < ss.len() {
                assert(ss[k] == ss[k]);
            }
        }
    }
}

} // verus!
