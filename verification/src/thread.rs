//! Driving a Lua coroutine to its end, one poll at a time.

use crate::lua::{found_in, no_values, resume, resumes_to, status, values, ThreadStatus};
use crate::poll::Poll;
use rlua::{Context, Error, MultiValue, Thread, Value};
use vstd::prelude::*;

verus! {

/// An asynchronous call of a Lua function that runs in a coroutine of its own.
pub struct PollThreadFut<'lua, Arg> {
    /// The arguments of the call, until the coroutine has been given them.
    pub args: Option<Arg>,
    /// The Lua state that the coroutine belongs to.
    pub ctx: Context<'lua>,
    /// The coroutine that runs the function.
    pub thread: Thread<'lua>,
}

/// The asynchronous call that comes of making its coroutine with the result `spawned`.
pub open spec fn call_in<'lua, Arg>(
    spawned: Result<Thread<'lua>, Error>,
    ctx: Context<'lua>,
    args: Arg,
) -> Result<PollThreadFut<'lua, Arg>, Error> {
    match spawned {
        Ok(thread) => Ok(PollThreadFut { args: Some(args), ctx, thread }),
        Err(e) => Err(e),
    }
}

/// `given` is what the next resumption of `call` hands to its coroutine: the arguments of the call,
/// converted by `to_lua`, as long as they have not been handed over, and no values from then on.
pub open spec fn hands_over<'lua, Arg, To>(
    call: PollThreadFut<'lua, Arg>,
    to_lua: To,
    given: Result<MultiValue<'lua>, Error>,
) -> bool where To: FnOnce(Arg, Context<'lua>) -> Result<MultiValue<'lua>, Error> {
    match call.args {
        Some(args) => call_ensures(to_lua, (args, call.ctx), given),
        None => given matches Ok(m) && values(m) == Seq::<Value<'lua>>::empty(),
    }
}

/// What a coroutine that was found in the state `status`, after it had passed out `passed`, makes
/// of the call: a coroutine that can go on is waiting, one that cannot has finished.
pub open spec fn settled<V>(passed: V, status: ThreadStatus) -> Poll<V>
    recommends
        status != ThreadStatus::Error,
{
    if status == ThreadStatus::Resumable {
        Poll::Pending
    } else {
        Poll::Ready(passed)
    }
}

/// `outcome` is how a poll ends once the coroutine has passed out `passed` and was then found in the
/// state `status`. There is no outcome if it was found to have raised an error.
pub open spec fn ends_in<'lua, Ret, From>(
    ctx: Context<'lua>,
    passed: MultiValue<'lua>,
    status: ThreadStatus,
    from_lua: From,
    outcome: Option<Poll<Result<Ret, Error>>>,
) -> bool where From: FnOnce(MultiValue<'lua>, Context<'lua>) -> Result<Ret, Error> {
    if status == ThreadStatus::Error {
        outcome is None
    } else {
        match settled(passed, status) {
            Poll::Pending => outcome == Some(Poll::<Result<Ret, Error>>::Pending),
            Poll::Ready(results) => outcome matches Some(Poll::Ready(ret)) && call_ensures(
                from_lua,
                (results, ctx),
                ret,
            ),
        }
    }
}

/// `outcome` is how a poll ends once resuming the coroutine, which is `thread` from then on, has
/// given `resumed`.
pub open spec fn concludes<'lua, Ret, From>(
    thread: Thread<'lua>,
    ctx: Context<'lua>,
    resumed: Result<MultiValue<'lua>, Error>,
    from_lua: From,
    outcome: Option<Poll<Result<Ret, Error>>>,
) -> bool where From: FnOnce(MultiValue<'lua>, Context<'lua>) -> Result<Ret, Error> {
    match resumed {
        Err(e) => outcome == Some(Poll::<Result<Ret, Error>>::Ready(Err(e))),
        Ok(passed) => exists|status: ThreadStatus| #[trigger]
            found_in(thread, status) && ends_in(ctx, passed, status, from_lua, outcome),
    }
}

/// `outcome` is how a poll of `call` ends that hands `given` to its coroutine, which is `after` from
/// then on.
pub open spec fn polls_to<'lua, Arg, Ret, From>(
    call: PollThreadFut<'lua, Arg>,
    given: Result<MultiValue<'lua>, Error>,
    after: Thread<'lua>,
    from_lua: From,
    outcome: Option<Poll<Result<Ret, Error>>>,
) -> bool where From: FnOnce(MultiValue<'lua>, Context<'lua>) -> Result<Ret, Error> {
    match given {
        Err(e) => {
            &&& after == call.thread
            &&& outcome == Some(Poll::<Result<Ret, Error>>::Ready(Err(e)))
        },
        Ok(args) => exists|resumed: Result<MultiValue<'lua>, Error>|
            {
                &&& #[trigger] resumes_to(call.thread, args, resumed, after)
                &&& concludes(after, call.ctx, resumed, from_lua, outcome)
            },
    }
}

/// A poll of `before` hands `given` to its coroutine, ends in `outcome` and leaves the call as
/// `after`, which has no arguments to hand over any more.
pub open spec fn poll_leads<'lua, Arg, Ret, To, From>(
    before: PollThreadFut<'lua, Arg>,
    to_lua: To,
    given: Result<MultiValue<'lua>, Error>,
    from_lua: From,
    outcome: Option<Poll<Result<Ret, Error>>>,
    after: PollThreadFut<'lua, Arg>,
) -> bool where
    To: FnOnce(Arg, Context<'lua>) -> Result<MultiValue<'lua>, Error>,
    From: FnOnce(MultiValue<'lua>, Context<'lua>) -> Result<Ret, Error>,
 {
    &&& hands_over(before, to_lua, given)
    &&& polls_to(before, given, after.thread, from_lua, outcome)
    &&& after.args is None
    &&& after.ctx == before.ctx
}

/// Decides what the state of a coroutine means for the call that it runs, after it was resumed
/// without an error and passed out `passed`.
pub fn settle<V>(passed: V, status: ThreadStatus) -> (r: Poll<V>)
    requires
        status != ThreadStatus::Error,
    ensures
        r == settled(passed, status),
{
    match status {
        ThreadStatus::Resumable => Poll::Pending,
        _ => Poll::Ready(passed),
    }
}

impl<'lua, Arg> PollThreadFut<'lua, Arg> {
    /// A call with the arguments `args` that has not begun, given what came of making its coroutine.
    pub fn new(spawned: Result<Thread<'lua>, Error>, ctx: Context<'lua>, args: Arg) -> (r: Result<
        Self,
        Error,
    >)
        ensures
            r == call_in(spawned, ctx, args),
    {
        let thread = spawned?;
        Ok(PollThreadFut { args: Some(args), ctx, thread })
    }

    /// Ends a poll, given what came of resuming the coroutine.
    ///
    /// There is no outcome if the coroutine was resumed without an error and is then found to have
    /// raised one. `rlua` does not let this happen.
    pub fn conclude<Ret, From>(
        &self,
        resumed: Result<MultiValue<'lua>, Error>,
        from_lua: From,
    ) -> (r: Option<Poll<Result<Ret, Error>>>) where
        From: FnOnce(MultiValue<'lua>, Context<'lua>) -> Result<Ret, Error>,

        requires
            forall|m: MultiValue<'lua>| #[trigger] call_requires(from_lua, (m, self.ctx)),
        ensures
            concludes(self.thread, self.ctx, resumed, from_lua, r),
    {
        match resumed {
            Err(e) => Some(Poll::Ready(Err(e))),
            Ok(passed) => {
                let status = status(&self.thread);
                match status {
                    ThreadStatus::Error => None,
                    _ => match settle(passed, status) {
                        Poll::Pending => Some(Poll::Pending),
                        Poll::Ready(results) => Some(Poll::Ready(from_lua(results, self.ctx))),
                    },
                }
            },
        }
    }

    /// Resumes the coroutine once and says how far the call has come.
    ///
    /// `to_lua` converts the arguments of the call to Lua values, and `from_lua` converts the
    /// results of the function from Lua values. There is no outcome where
    /// [`conclude`](Self::conclude) has none.
    pub fn poll<Ret, To, From>(&mut self, to_lua: To, from_lua: From) -> (r: Option<
        Poll<Result<Ret, Error>>,
    >) where
        To: FnOnce(Arg, Context<'lua>) -> Result<MultiValue<'lua>, Error>,
        From: FnOnce(MultiValue<'lua>, Context<'lua>) -> Result<Ret, Error>,

        requires
            old(self).args matches Some(args) ==> call_requires(to_lua, (args, old(self).ctx)),
            forall|m: MultiValue<'lua>| #[trigger] call_requires(from_lua, (m, old(self).ctx)),
        ensures
            exists|given: Result<MultiValue<'lua>, Error>| #[trigger]
                poll_leads(*old(self), to_lua, given, from_lua, r, *final(self)),
    {
        let given = match self.args.take() {
            Some(args) => to_lua(args, self.ctx),
            None => Ok(no_values()),
        };
        let r = match given {
            Err(e) => Some(Poll::Ready(Err(e))),
            Ok(args) => {
                let resumed = resume(&mut self.thread, args);
                self.conclude(resumed, from_lua)
            },
        };
        assert(poll_leads(*old(self), to_lua, given, from_lua, r, *self));
        r
    }
}

} // verus!
