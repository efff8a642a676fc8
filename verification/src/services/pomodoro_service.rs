use vstd::prelude::*;

use crate::clock::now_timestamp;
use crate::error::ServiceError;
use crate::models::pomodoro::{
    break_completed, work_session_completed, CompletedSession, PomodoroSession,
};
use crate::models::task::Task;

verus! {

/// Drive a pomodoro session through its work and break phases. The service
/// owns the current session (if any) and the task collection; callers load
/// both from wherever they are kept, run operations here, and write the
/// state back out.
pub struct PomodoroService {
    pub session: Option<PomodoroSession>,
    pub tasks: Vec<Task>,
}

impl PomodoroService {
    pub fn new(session: Option<PomodoroSession>, tasks: Vec<Task>) -> (s: Self)
        ensures
            s.session == session,
            s.tasks == tasks,
    {
        PomodoroService { session, tasks }
    }

    /// Begin a fresh session on work phase one, stamped with the current
    /// clock. A task handed in is appended to the task collection and the
    /// session remembers its id.
    pub fn start_session(
        &mut self,
        work_duration: u32,
        short_break: u32,
        long_break: u32,
        total_sessions: u32,
        sessions_before_long_break: u32,
        task: Option<Task>,
    ) -> (r: Result<PomodoroSession, ServiceError>)
        ensures
            r matches Ok(s) && exists|now: i64|
                now >= 0 && #[trigger] session_started(
                    s,
                    work_duration,
                    short_break,
                    long_break,
                    total_sessions,
                    sessions_before_long_break,
                    task,
                    now,
                ),
            final(self).session matches Some(st) && (r matches Ok(s) && st.equiv(s)),
            final(self).tasks@ == match task {
                Some(t) => old(self).tasks@.push(t),
                None => old(self).tasks@,
            },
    {
        let now = now_timestamp();
        self.start_session_at(
            work_duration,
            short_break,
            long_break,
            total_sessions,
            sessions_before_long_break,
            task,
            now,
        )
    }

    /// `start_session` with the starting instant supplied by the caller.
    pub fn start_session_at(
        &mut self,
        work_duration: u32,
        short_break: u32,
        long_break: u32,
        total_sessions: u32,
        sessions_before_long_break: u32,
        task: Option<Task>,
        now: i64,
    ) -> (r: Result<PomodoroSession, ServiceError>)
        ensures
            r matches Ok(s) && session_started(
                s,
                work_duration,
                short_break,
                long_break,
                total_sessions,
                sessions_before_long_break,
                task,
                now,
            ),
            final(self).session matches Some(st) && (r matches Ok(s) && st.equiv(s)),
            final(self).tasks@ == match task {
                Some(t) => old(self).tasks@.push(t),
                None => old(self).tasks@,
            },
    {
        let task_id = match &task {
            Some(t) => Some(t.id),
            None => None,
        };
        let session = PomodoroSession {
            id: 1,
            work_duration,
            short_break,
            long_break,
            total_sessions,
            sessions_before_long_break,
            current_session: 1,
            is_break: false,
            task_id,
            started_at: now,
            completed_sessions: Vec::new(),
        };
        if let Some(t) = task {
            self.tasks.push(t);
        }
        let returned = session.clone();
        self.session = Some(session);
        Ok(returned)
    }

    /// Hand out a copy of the current session, or `None` when no session
    /// is active.
    pub fn get_status(&self) -> (r: Result<Option<PomodoroSession>, ServiceError>)
        ensures
            match self.session {
                Some(s) => r matches Ok(o) && o matches Some(c) && c.equiv(s),
                None => r matches Ok(o) && o is None,
            },
    {
        match &self.session {
            Some(s) => Ok(Some(s.clone())),
            None => Ok(None),
        }
    }

    /// Close the current work phase at the present clock instant: record
    /// it and move onto a break. Fails when no session is active.
    pub fn complete_work_session(&mut self) -> (r: Result<PomodoroSession, ServiceError>)
        ensures
            old(self).session matches Some(pre) ==> r matches Ok(s)
                && final(self).session matches Some(st) && exists|now: i64|
                now >= 0 && #[trigger] work_session_completed(pre, s, now)
                    && work_session_completed(pre, st, now),
            old(self).session is None ==> r == Err::<PomodoroSession, ServiceError>(
                ServiceError::NoActiveSession,
            ) && *final(self) == *old(self),
            final(self).tasks@ == old(self).tasks@,
    {
        let now = now_timestamp();
        self.complete_work_session_at(now)
    }

    /// `complete_work_session` with the finishing instant supplied by the
    /// caller.
    pub fn complete_work_session_at(&mut self, now: i64) -> (r: Result<
        PomodoroSession,
        ServiceError,
    >)
        requires
            old(self).session matches Some(pre) ==> now - 60 * (pre.work_duration as int)
                >= i64::MIN,
        ensures
            old(self).session matches Some(pre) ==> r matches Ok(s)
                && final(self).session matches Some(st) && work_session_completed(pre, s, now)
                && work_session_completed(pre, st, now),
            old(self).session is None ==> r == Err::<PomodoroSession, ServiceError>(
                ServiceError::NoActiveSession,
            ) && *final(self) == *old(self),
            final(self).tasks@ == old(self).tasks@,
    {
        match self.session.take() {
            None => Err(ServiceError::NoActiveSession),
            Some(mut s) => {
                let completed = CompletedSession {
                    session_number: s.current_session,
                    start_time: now - 60 * (s.work_duration as i64),
                    end_time: now,
                    was_break: false,
                };
                s.completed_sessions.push(completed);
                s.is_break = true;
                let returned = s.clone();
                self.session = Some(s);
                Ok(returned)
            },
        }
    }

    /// Close the current break at the present clock instant: record it,
    /// return to work, and move the session count one ahead. Fails when no
    /// session is active.
    pub fn complete_break(&mut self) -> (r: Result<PomodoroSession, ServiceError>)
        requires
            old(self).session matches Some(pre) ==> pre.sessions_before_long_break > 0
                && pre.current_session < u32::MAX,
        ensures
            old(self).session matches Some(pre) ==> r matches Ok(s)
                && final(self).session matches Some(st) && exists|now: i64|
                now >= 0 && #[trigger] break_completed(pre, s, now) && break_completed(
                    pre,
                    st,
                    now,
                ),
            old(self).session is None ==> r == Err::<PomodoroSession, ServiceError>(
                ServiceError::NoActiveSession,
            ) && *final(self) == *old(self),
            final(self).tasks@ == old(self).tasks@,
    {
        let now = now_timestamp();
        self.complete_break_at(now)
    }

    /// `complete_break` with the finishing instant supplied by the caller.
    pub fn complete_break_at(&mut self, now: i64) -> (r: Result<PomodoroSession, ServiceError>)
        requires
            old(self).session matches Some(pre) ==> pre.sessions_before_long_break > 0
                && pre.current_session < u32::MAX && now - 60 * (pre.spec_break_minutes() as int)
                >= i64::MIN,
        ensures
            old(self).session matches Some(pre) ==> r matches Ok(s)
                && final(self).session matches Some(st) && break_completed(pre, s, now)
                && break_completed(pre, st, now),
            old(self).session is None ==> r == Err::<PomodoroSession, ServiceError>(
                ServiceError::NoActiveSession,
            ) && *final(self) == *old(self),
            final(self).tasks@ == old(self).tasks@,
    {
        match self.session.take() {
            None => Err(ServiceError::NoActiveSession),
            Some(mut s) => {
                let break_duration = s.break_minutes();
                let completed = CompletedSession {
                    session_number: s.current_session,
                    start_time: now - 60 * (break_duration as i64),
                    end_time: now,
                    was_break: true,
                };
                s.completed_sessions.push(completed);
                s.is_break = false;
                s.current_session = s.current_session + 1;
                let returned = s.clone();
                self.session = Some(s);
                Ok(returned)
            },
        }
    }

    /// Drop the current session, if any.
    pub fn stop_session(&mut self) -> (r: Result<(), ServiceError>)
        ensures
            r is Ok,
            final(self).session is None,
            final(self).tasks@ == old(self).tasks@,
    {
        self.session = None;
        Ok(())
    }

    /// Hand out a copy of every task.
    pub fn list_tasks(&self) -> (r: Result<Vec<Task>, ServiceError>)
        ensures
            r matches Ok(ts) && ts@ == self.tasks@,
    {
        Ok(self.tasks.clone())
    }
}

/// `s` is a session freshly started at instant `now` with the given
/// parameters: on work phase one, not on a break, with nothing recorded,
/// and tied to the handed-in task's id, if any.
pub open spec fn session_started(
    s: PomodoroSession,
    work_duration: u32,
    short_break: u32,
    long_break: u32,
    total_sessions: u32,
    sessions_before_long_break: u32,
    task: Option<Task>,
    now: i64,
) -> bool {
    &&& s.id == 1
    &&& s.work_duration == work_duration
    &&& s.short_break == short_break
    &&& s.long_break == long_break
    &&& s.total_sessions == total_sessions
    &&& s.sessions_before_long_break == sessions_before_long_break
    &&& s.current_session == 1
    &&& !s.is_break
    &&& s.task_id == match task {
        Some(t) => Some(t.id),
        None => None::<u32>,
    }
    &&& s.started_at == now
    &&& s.completed_sessions@ == Seq::<CompletedSession>::empty()
}

} // verus!
