use vstd::prelude::*;

verus! {

/// One finished work or break phase of a pomodoro session. Instants are
/// whole seconds since the Unix epoch.
#[derive(Clone, Copy, Debug)]
pub struct CompletedSession {
    pub session_number: u32,
    pub start_time: i64,
    pub end_time: i64,
    pub was_break: bool,
}

/// The state of a running pomodoro session: its fixed parameters (all
/// durations in minutes), which work session is current, whether a break is
/// under way, and the record of finished phases.
#[derive(Debug)]
pub struct PomodoroSession {
    pub id: u32,
    pub work_duration: u32,
    pub short_break: u32,
    pub long_break: u32,
    pub total_sessions: u32,
    pub sessions_before_long_break: u32,
    pub current_session: u32,
    pub is_break: bool,
    pub task_id: Option<u32>,
    pub started_at: i64,
    pub completed_sessions: Vec<CompletedSession>,
}

impl PomodoroSession {
    /// Field-for-field agreement, with the record of finished phases
    /// compared by contents.
    pub open spec fn equiv(self, other: Self) -> bool {
        &&& self.id == other.id
        &&& self.work_duration == other.work_duration
        &&& self.short_break == other.short_break
        &&& self.long_break == other.long_break
        &&& self.total_sessions == other.total_sessions
        &&& self.sessions_before_long_break == other.sessions_before_long_break
        &&& self.current_session == other.current_session
        &&& self.is_break == other.is_break
        &&& self.task_id == other.task_id
        &&& self.started_at == other.started_at
        &&& self.completed_sessions@ == other.completed_sessions@
    }

    /// How long the break after the current work session lasts: the long
    /// break whenever the session number is a multiple of
    /// `sessions_before_long_break`, the short break otherwise.
    pub open spec fn spec_break_minutes(self) -> u32
        recommends
            self.sessions_before_long_break > 0,
    {
        if self.current_session % self.sessions_before_long_break == 0 {
            self.long_break
        } else {
            self.short_break
        }
    }

    /// Exec counterpart of [`Self::spec_break_minutes`], for running timers
    /// against the session.
    pub fn break_minutes(&self) -> (m: u32)
        requires
            self.sessions_before_long_break > 0,
        ensures
            m == self.spec_break_minutes(),
    {
        if self.current_session % self.sessions_before_long_break == 0 {
            self.long_break
        } else {
            self.short_break
        }
    }

    /// Whether the break after the current work session is the long one.
    pub fn is_long_break(&self) -> (b: bool)
        requires
            self.sessions_before_long_break > 0,
        ensures
            b == (self.current_session % self.sessions_before_long_break == 0),
    {
        self.current_session % self.sessions_before_long_break == 0
    }

    /// Whether every planned work session has been completed.
    pub fn is_finished(&self) -> (b: bool)
        ensures
            b == (self.current_session > self.total_sessions),
    {
        self.current_session > self.total_sessions
    }
}

impl Clone for PomodoroSession {
    fn clone(&self) -> (res: Self)
        ensures
            res.equiv(*self),
    {
        PomodoroSession {
            id: self.id,
            work_duration: self.work_duration,
            short_break: self.short_break,
            long_break: self.long_break,
            total_sessions: self.total_sessions,
            sessions_before_long_break: self.sessions_before_long_break,
            current_session: self.current_session,
            is_break: self.is_break,
            task_id: self.task_id,
            started_at: self.started_at,
            completed_sessions: self.completed_sessions.clone(),
        }
    }
}

/// `post` is `pre` after finishing the current work session at instant
/// `now`: a work record covering the last `work_duration` minutes is
/// appended, the session moves onto its break, and everything else is kept.
pub open spec fn work_session_completed(pre: PomodoroSession, post: PomodoroSession, now: i64) -> bool {
    &&& post.id == pre.id
    &&& post.work_duration == pre.work_duration
    &&& post.short_break == pre.short_break
    &&& post.long_break == pre.long_break
    &&& post.total_sessions == pre.total_sessions
    &&& post.sessions_before_long_break == pre.sessions_before_long_break
    &&& post.current_session == pre.current_session
    &&& post.is_break == true
    &&& post.task_id == pre.task_id
    &&& post.started_at == pre.started_at
    &&& post.completed_sessions@ == pre.completed_sessions@.push(
        CompletedSession {
            session_number: pre.current_session,
            start_time: (now - 60 * (pre.work_duration as i64)) as i64,
            end_time: now,
            was_break: false,
        },
    )
}

/// `post` is `pre` after finishing the current break at instant `now`: a
/// break record covering the just-elapsed break is appended, the break
/// ends, the session count moves one ahead, and everything else is kept.
pub open spec fn break_completed(pre: PomodoroSession, post: PomodoroSession, now: i64) -> bool {
    &&& post.id == pre.id
    &&& post.work_duration == pre.work_duration
    &&& post.short_break == pre.short_break
    &&& post.long_break == pre.long_break
    &&& post.total_sessions == pre.total_sessions
    &&& post.sessions_before_long_break == pre.sessions_before_long_break
    &&& post.current_session == pre.current_session + 1
    &&& post.is_break == false
    &&& post.task_id == pre.task_id
    &&& post.started_at == pre.started_at
    &&& post.completed_sessions@ == pre.completed_sessions@.push(
        CompletedSession {
            session_number: pre.current_session,
            start_time: (now - 60 * (pre.spec_break_minutes() as i64)) as i64,
            end_time: now,
            was_break: true,
        },
    )
}

} // verus!
