//! What a failure to reach the monitor does.

use crate::error::IpcError;
use crate::ipc::client::OpenSessionInfo;
use vstd::prelude::*;

verus! {

/// Behaviour when the monitor cannot be reached.
#[derive(Debug, Clone, Copy, PartialEq, Eq, Structural)]
pub enum MonitorFailMode {
    /// Every error counts.
    Strict,
    /// Only an error that changes the verdict counts.
    Permissive,
}

impl MonitorFailMode {
    /// The mode of a validated configuration.
    pub fn from_config(m: crate::config::validated::MonitorFailMode) -> (r: MonitorFailMode)
        ensures
            r == match m {
                crate::config::validated::MonitorFailMode::Strict => MonitorFailMode::Strict,
                crate::config::validated::MonitorFailMode::Permissive => {
                    MonitorFailMode::Permissive
                },
            },
    {
        match m {
            crate::config::validated::MonitorFailMode::Strict => MonitorFailMode::Strict,
            crate::config::validated::MonitorFailMode::Permissive => MonitorFailMode::Permissive,
        }
    }
}

/// A question to the monitor.
pub ghost enum MonitorAsk<T> {
    /// A greeting.
    Hello,
    /// A session opens.
    OpenSession(OpenSessionInfo<T>),
    /// The session of this id closes, for this reason.
    CloseSession(Seq<char>, Seq<char>),
    /// A ping.
    Ping,
}

/// One call of a client, and its answer.
pub ghost struct MonitorCall<T> {
    /// What was asked.
    pub ask: MonitorAsk<T>,
    /// The answer.
    pub answer: Result<(), IpcError>,
}

/// What can be asked of the monitor; `T` says where a session runs. Nothing is assumed of the
/// answers; only that each call is one more call.
pub trait MonitorClient<T> {
    /// The calls so far, oldest first. An implementation says which they are.
    closed spec fn calls(&self) -> Seq<MonitorCall<T>> {
        arbitrary()
    }

    /// Greets the monitor.
    fn hello(&mut self) -> (r: Result<(), IpcError>)
        ensures
            final(self).calls() == old(self).calls().push(
                MonitorCall { ask: MonitorAsk::Hello, answer: r },
            ),
    ;

    /// Tells of a session that opens.
    fn open_session(&mut self, info: &OpenSessionInfo<T>) -> (r: Result<(), IpcError>)
        ensures
            final(self).calls() == old(self).calls().push(
                MonitorCall { ask: MonitorAsk::OpenSession(*info), answer: r },
            ),
    ;

    /// Tells of a session that closes.
    fn close_session(&mut self, session_id: &str, reason: &str) -> (r: Result<(), IpcError>)
        ensures
            final(self).calls() == old(self).calls().push(
                MonitorCall { ask: MonitorAsk::CloseSession(session_id@, reason@), answer: r },
            ),
    ;

    /// Pings the monitor.
    fn ping(&mut self) -> (r: Result<(), IpcError>)
        ensures
            final(self).calls() == old(self).calls().push(
                MonitorCall { ask: MonitorAsk::Ping, answer: r },
            ),
    ;
}

/// Whether an error changes the verdict on an authentication.
pub open spec fn fatal(e: IpcError) -> bool {
    e is DeviceGone || e is Unauthorized
}

/// Whether an error changes the verdict on an authentication, and so counts in every mode.
pub fn is_fatal(err: &IpcError) -> (r: bool)
    ensures
        r == fatal(*err),
{
    matches!(err, IpcError::DeviceGone | IpcError::Unauthorized)
}

/// What a result comes to under a mode.
pub open spec fn under_mode(mode: MonitorFailMode, r: Result<(), IpcError>) -> Result<(), IpcError> {
    match r {
        Ok(x) => Ok(x),
        Err(e) => if fatal(e) || mode == MonitorFailMode::Strict {
            Err(e)
        } else {
            Ok(())
        },
    }
}

/// The error that a mode keeps from the caller, if there is one.
pub open spec fn ignored_error(mode: MonitorFailMode, r: Result<(), IpcError>) -> Option<IpcError> {
    match r {
        Ok(_) => None,
        Err(e) => if fatal(e) || mode == MonitorFailMode::Strict {
            None
        } else {
            Some(e)
        },
    }
}

/// What a result comes to under a mode, and the error that is to be warned of instead.
pub fn judge(mode: MonitorFailMode, r: Result<(), IpcError>) -> (out: (
    Result<(), IpcError>,
    Option<IpcError>,
))
    ensures
        out.0 == under_mode(mode, r),
        out.1 == ignored_error(mode, r),
{
    match r {
        Ok(x) => (Ok(x), None),
        Err(e) => {
            if is_fatal(&e) {
                return (Err(e), None);
            }
            match mode {
                MonitorFailMode::Strict => (Err(e), None),
                MonitorFailMode::Permissive => (Ok(()), Some(e)),
            }
        },
    }
}

/// What a result comes to under a mode.
pub fn apply(mode: MonitorFailMode, r: Result<(), IpcError>) -> (out: Result<(), IpcError>)
    ensures
        out == under_mode(mode, r),
{
    judge(mode, r).0
}

/// A failure that the caller did not see.
#[derive(Debug)]
pub struct IgnoredFailure {
    /// What was asked.
    pub op: &'static str,
    /// Why it failed.
    pub error: IpcError,
}

/// A client whose failures are subject to a mode.
#[derive(Debug)]
pub struct FailModeWrapper<C> {
    /// The client.
    pub inner: C,
    /// The mode.
    pub mode: MonitorFailMode,
    /// The failures that a caller did not see, oldest first: each is worth a warning.
    pub ignored: Vec<IgnoredFailure>,
}

/// A call as it is seen under a mode.
pub open spec fn seen_under<T>(mode: MonitorFailMode, c: MonitorCall<T>) -> MonitorCall<T> {
    MonitorCall { ask: c.ask, answer: under_mode(mode, c.answer) }
}

/// Whether one question, and no other, reached the client of a wrapper; the result is its answer
/// under the mode, and an error that the mode keeps back is noted under the question's name.
pub open spec fn passed_on<T, C: MonitorClient<T>>(
    before: FailModeWrapper<C>,
    after: FailModeWrapper<C>,
    ask: MonitorAsk<T>,
    name: Seq<char>,
    r: Result<(), IpcError>,
) -> bool {
    let calls = after.inner.calls();
    let x = calls.last().answer;
    &&& after.mode == before.mode
    &&& calls == before.inner.calls().push(MonitorCall { ask, answer: x })
    &&& r == under_mode(before.mode, x)
    &&& match ignored_error(before.mode, x) {
        None => after.ignored@ == before.ignored@,
        Some(error) => exists|op: &'static str|
            op@ == name && after.ignored@ == before.ignored@.push(
                #[trigger] ignored_failure(op, error),
            ),
    }
}

/// A failure of the operation `op`.
pub open spec fn ignored_failure(op: &'static str, error: IpcError) -> IgnoredFailure {
    IgnoredFailure { op, error }
}

impl<C> FailModeWrapper<C> {
    /// Puts a client under a mode.
    pub fn new(inner: C, mode: MonitorFailMode) -> (r: FailModeWrapper<C>)
        ensures
            r.inner == inner,
            r.mode == mode,
            r.ignored@.len() == 0,
    {
        FailModeWrapper { inner, mode, ignored: Vec::new() }
    }

    /// Hands out the failures that the caller did not see, and forgets them.
    pub fn take_ignored(&mut self) -> (r: Vec<IgnoredFailure>)
        ensures
            r@ == old(self).ignored@,
            final(self).ignored@.len() == 0,
            final(self).inner == old(self).inner,
            final(self).mode == old(self).mode,
    {
        let mut out: Vec<IgnoredFailure> = Vec::new();
        out.append(&mut self.ignored);
        assert(out@ =~= old(self).ignored@);
        out
    }

    fn settle(&mut self, op: &'static str, x: Result<(), IpcError>) -> (r: Result<(), IpcError>)
        ensures
            final(self).inner == old(self).inner,
            final(self).mode == old(self).mode,
            r == under_mode(old(self).mode, x),
            match ignored_error(old(self).mode, x) {
                None => final(self).ignored@ == old(self).ignored@,
                Some(error) => final(self).ignored@ == old(self).ignored@.push(
                    ignored_failure(op, error),
                ),
            },
    {
        let (r, ignored) = judge(self.mode, x);
        if let Some(error) = ignored {
            self.ignored.push(IgnoredFailure { op, error });
        }
        r
    }
}

proof fn lemma_seen_push<T>(mode: MonitorFailMode, s: Seq<MonitorCall<T>>, c: MonitorCall<T>)
    ensures
        s.push(c).map_values(|c: MonitorCall<T>| seen_under(mode, c)) == s.map_values(
            |c: MonitorCall<T>| seen_under(mode, c),
        ).push(seen_under(mode, c)),
{
    assert(s.push(c).map_values(|c: MonitorCall<T>| seen_under(mode, c)) =~= s.map_values(
        |c: MonitorCall<T>| seen_under(mode, c),
    ).push(seen_under(mode, c)));
}

impl<T, C: MonitorClient<T>> MonitorClient<T> for FailModeWrapper<C> {
    /// The calls of the client, with the answers as they are under the mode.
    open spec fn calls(&self) -> Seq<MonitorCall<T>> {
        self.inner.calls().map_values(|c: MonitorCall<T>| seen_under(self.mode, c))
    }

    fn hello(&mut self) -> (r: Result<(), IpcError>)
        ensures
            passed_on(*old(self), *final(self), MonitorAsk::<T>::Hello, "hello"@, r),
    {
        let ghost before = self.inner.calls();
        let x = self.inner.hello();
        let ghost c = MonitorCall { ask: MonitorAsk::<T>::Hello, answer: x };
        proof {
            lemma_seen_push(self.mode, before, c);
        }
        let r = self.settle("hello", x);
        r
    }

    fn open_session(&mut self, info: &OpenSessionInfo<T>) -> (r: Result<(), IpcError>)
        ensures
            passed_on(
                *old(self),
                *final(self),
                MonitorAsk::OpenSession(*info),
                "open_session"@,
                r,
            ),
    {
        let ghost before = self.inner.calls();
        let x = self.inner.open_session(info);
        let ghost c = MonitorCall { ask: MonitorAsk::OpenSession(*info), answer: x };
        proof {
            lemma_seen_push(self.mode, before, c);
        }
        let r = self.settle("open_session", x);
        r
    }

    fn close_session(&mut self, session_id: &str, reason: &str) -> (r: Result<(), IpcError>)
        ensures
            passed_on(
                *old(self),
                *final(self),
                MonitorAsk::<T>::CloseSession(session_id@, reason@),
                "close_session"@,
                r,
            ),
    {
        let ghost before = self.inner.calls();
        let x = self.inner.close_session(session_id, reason);
        let ghost c = MonitorCall {
            ask: MonitorAsk::<T>::CloseSession(session_id@, reason@),
            answer: x,
        };
        proof {
            lemma_seen_push(self.mode, before, c);
        }
        let r = self.settle("close_session", x);
        r
    }

    fn ping(&mut self) -> (r: Result<(), IpcError>)
        ensures
            passed_on(*old(self), *final(self), MonitorAsk::<T>::Ping, "ping"@, r),
    {
        let ghost before = self.inner.calls();
        let x = self.inner.ping();
        let ghost c = MonitorCall { ask: MonitorAsk::<T>::Ping, answer: x };
        proof {
            lemma_seen_push(self.mode, before, c);
        }
        let r = self.settle("ping", x);
        r
    }
}

/// In no mode does a client hide an error that changes the verdict, nor make one up; an error that
/// it does hide is the one to be warned of.
pub proof fn fatal_errors_always_count(mode: MonitorFailMode, r: Result<(), IpcError>)
    ensures
        r is Err && fatal(r->Err_0) ==> under_mode(mode, r) == r,
        under_mode(mode, r) is Err ==> under_mode(mode, r) == r,
        mode == MonitorFailMode::Strict ==> under_mode(mode, r) == r,
        r is Err && under_mode(mode, r) is Ok ==> ignored_error(mode, r) == Some(r->Err_0),
{
}

/// What a mode does to each error: a device that is gone and a client that is not authorised count
/// in both, any other only in the strict one, and nothing turns success into failure.
pub proof fn modes_weigh_errors(mode: MonitorFailMode, e: IpcError)
    ensures
        under_mode(mode, Ok(())) is Ok,
        ignored_error(mode, Ok(())) is None,
        e is DeviceGone || e is Unauthorized ==> under_mode(mode, Err(e)) == Err::<(), IpcError>(e),
        mode == MonitorFailMode::Strict ==> under_mode(mode, Err(e)) == Err::<(), IpcError>(e)
            && ignored_error(mode, Err(e)) is None,
        mode == MonitorFailMode::Permissive && !(e is DeviceGone) && !(e is Unauthorized)
            ==> under_mode(mode, Err(e)) is Ok && ignored_error(mode, Err(e)) == Some(e),
        fatal(e) <==> e is DeviceGone || e is Unauthorized,
{
}

} // verus!
