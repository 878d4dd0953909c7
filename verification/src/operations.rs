//! What each operation of the library does, in terms of what goes into it, what comes out of it and
//! what Lua was asked to do in between.

use crate::args::{converts_to, FromArgs};
use crate::ext::{calls_async, calls_chunk_async, makes_async, makes_async_mut, ChunkExt, ScopeExt};
use crate::fut_gen::FutGen;
use crate::helper::{wrap_generator, wrap_start, wraps_generator, wraps_start};
use crate::lua::{
    callback_answers, callback_starts, chunk_name, chunk_of, chunk_source, compiles_to,
    creates_mut_to, creates_to, evaluates_to, found_in, kind, resumes_to, returns_for_function,
    returns_for_userdata, same_function, spawns_to, tabulates_to, values, Kind, ThreadStatus,
};
use crate::poll::Poll;
use crate::poller::{is_poller, poller_fn, reached, Poller, Starter};
use crate::reply::{answer, answer_results, answers};
use crate::thread::{poll_leads, settle, PollThreadFut};
use rlua::{AnyUserData, Chunk, Context, Error, Function, MultiValue, Scope, Thread, Value};
use vstd::prelude::*;
use vstd::string::StringSliceAdditionalSpecFns;

verus! {

/// The coroutine of an asynchronous call runs the function that was called, and no other, and the
/// call keeps its arguments for it. A call fails only with the error of making the coroutine.
pub proof fn law_call_runs_its_function<'lua, Arg>(
    func: Function<'lua>,
    ctx: Context<'lua>,
    args: Arg,
    r: Result<PollThreadFut<'lua, Arg>, Error>,
)
    requires
        calls_async(func, ctx, args, r),
    ensures
        match r {
            Ok(call) => {
                &&& call.args == Some(args)
                &&& call.ctx == ctx
                &&& exists|body: Function<'lua>| #[trigger]
                    same_function(func, body) && spawns_to(
                        ctx,
                        body,
                        Ok::<Thread<'lua>, Error>(call.thread),
                    )
            },
            Err(e) => exists|body: Function<'lua>| #[trigger]
                same_function(func, body) && spawns_to(ctx, body, Err::<Thread<'lua>, Error>(e)),
        },
{
}

/// The coroutine of an asynchronous call of a chunk runs the function that the chunk compiles to,
/// and the call keeps its arguments for it. A call fails only with the error of compiling the chunk
/// or of making the coroutine.
pub proof fn law_chunk_call_runs_its_chunk<'lua, 'a, Arg>(
    chunk: Chunk<'lua, 'a>,
    ctx: Context<'lua>,
    args: Arg,
    r: Result<PollThreadFut<'lua, Arg>, Error>,
)
    requires
        calls_chunk_async(chunk, ctx, args, r),
    ensures
        match r {
            Ok(call) => {
                &&& call.args == Some(args)
                &&& call.ctx == ctx
                &&& exists|func: Function<'lua>, body: Function<'lua>| #[trigger]
                    same_function(func, body) && compiles_to(
                        chunk,
                        Ok::<Function<'lua>, Error>(func),
                    ) && spawns_to(ctx, body, Ok::<Thread<'lua>, Error>(call.thread))
            },
            Err(e) => {
                ||| compiles_to(chunk, Err::<Function<'lua>, Error>(e))
                ||| exists|func: Function<'lua>, body: Function<'lua>| #[trigger]
                    same_function(func, body) && compiles_to(
                        chunk,
                        Ok::<Function<'lua>, Error>(func),
                    ) && spawns_to(ctx, body, Err::<Thread<'lua>, Error>(e))
            },
        },
{
    let compiled = choose|compiled: Result<Function<'lua>, Error>| #[trigger]
        compiles_to(chunk, compiled) && match compiled {
            Err(e) => r == Err::<PollThreadFut<'lua, Arg>, Error>(e),
            Ok(func) => calls_async(func, ctx, args, r),
        };
    if let Ok(func) = compiled {
        law_call_runs_its_function(func, ctx, args, r);
    }
}

/// Executing a chunk asynchronously runs the function that the chunk compiles to in a coroutine,
/// and keeps `()` as its arguments.
pub proof fn law_exec_runs_its_chunk<'lua, 'a>(
    chunk: Chunk<'lua, 'a>,
    ctx: Context<'lua>,
    call: PollThreadFut<'lua, ()>,
)
    requires
        call_ensures(
            <Chunk<'lua, 'a> as ChunkExt<'lua, 'a>>::exec_async,
            (chunk, ctx),
            Ok::<PollThreadFut<'lua, ()>, Error>(call),
        ),
    ensures
        call.args == Some(()),
        call.ctx == ctx,
        exists|func: Function<'lua>, body: Function<'lua>| #[trigger]
            same_function(func, body) && compiles_to(
                chunk,
                Ok::<Function<'lua>, Error>(func),
            ) && spawns_to(ctx, body, Ok::<Thread<'lua>, Error>(call.thread)),
{
    law_chunk_call_runs_its_chunk(chunk, ctx, (), Ok::<PollThreadFut<'lua, ()>, Error>(call));
}

/// A chunk that cannot be executed asynchronously could not be compiled or got no coroutine.
pub proof fn law_exec_hands_errors_on<'lua, 'a>(
    chunk: Chunk<'lua, 'a>,
    ctx: Context<'lua>,
    e: Error,
)
    requires
        call_ensures(
            <Chunk<'lua, 'a> as ChunkExt<'lua, 'a>>::exec_async,
            (chunk, ctx),
            Err::<PollThreadFut<'lua, ()>, Error>(e),
        ),
    ensures
        compiles_to(chunk, Err::<Function<'lua>, Error>(e)) || exists|
            func: Function<'lua>,
            body: Function<'lua>,
        | #[trigger]
            same_function(func, body) && compiles_to(
                chunk,
                Ok::<Function<'lua>, Error>(func),
            ) && spawns_to(ctx, body, Err::<Thread<'lua>, Error>(e)),
{
    law_chunk_call_runs_its_chunk(chunk, ctx, (), Err::<PollThreadFut<'lua, ()>, Error>(e));
}

/// A new call is in the coroutine that was made for it, and has all of its arguments still to hand
/// over. Without a coroutine there is no call, only the error.
pub proof fn law_new_call_has_not_begun<'lua, Arg>(
    spawned: Result<Thread<'lua>, Error>,
    ctx: Context<'lua>,
    args: Arg,
    r: Result<PollThreadFut<'lua, Arg>, Error>,
)
    requires
        call_ensures(PollThreadFut::<'lua, Arg>::new, (spawned, ctx, args), r),
    ensures
        r is Ok <==> spawned is Ok,
        r matches Ok(call) ==> call.thread == spawned->Ok_0 && call.ctx == ctx && call.args == Some(
            args,
        ),
        r matches Err(e) ==> spawned == Err::<Thread<'lua>, Error>(e),
{
}

/// A coroutine that can go on makes its call pending, and one that cannot makes it ready with all
/// that the coroutine has passed out.
pub proof fn law_status_settles_the_call<V>(passed: V, status: ThreadStatus, r: Poll<V>)
    requires
        status != ThreadStatus::Error,
        call_ensures(settle::<V>, (passed, status), r),
    ensures
        r is Pending <==> status == ThreadStatus::Resumable,
        r matches Poll::Ready(v) ==> v == passed,
{
}

/// Once the coroutine was resumed, an error of it is handed on. Else the state that it is found in
/// decides: the call is pending if the coroutine can go on, and ready with exactly the values that
/// were passed out, converted, if it cannot.
pub proof fn law_conclusion_follows_the_status<'lua, Arg, Ret, From>(
    call: PollThreadFut<'lua, Arg>,
    resumed: Result<MultiValue<'lua>, Error>,
    from_lua: From,
    r: Option<Poll<Result<Ret, Error>>>,
) where From: FnOnce(MultiValue<'lua>, Context<'lua>) -> Result<Ret, Error>
    requires
        call_ensures(
            PollThreadFut::<'lua, Arg>::conclude::<Ret, From>,
            (&call, resumed, from_lua),
            r,
        ),
    ensures
        match resumed {
            Err(e) => r == Some(Poll::Ready(Err::<Ret, Error>(e))),
            Ok(passed) => exists|status: ThreadStatus| #[trigger]
                found_in(call.thread, status) && match status {
                    ThreadStatus::Resumable => r == Some(Poll::<Result<Ret, Error>>::Pending),
                    ThreadStatus::Unresumable => r matches Some(Poll::Ready(ret)) && call_ensures(
                        from_lua,
                        (passed, call.ctx),
                        ret,
                    ),
                    ThreadStatus::Error => r is None,
                },
        },
{
}

/// The first poll of a call resumes its coroutine once, with the converted arguments of the call,
/// which are then handed over. An error of the conversion or of the coroutine is handed on. Else the
/// call is pending if the coroutine is then found to be able to go on, and ready with exactly the
/// values that it has passed out, converted, if it is found to have finished.
pub proof fn law_first_poll_hands_the_arguments_over<'lua, Arg, Ret, To, From>(
    call: &mut PollThreadFut<'lua, Arg>,
    to_lua: To,
    from_lua: From,
    r: Option<Poll<Result<Ret, Error>>>,
) where
    To: FnOnce(Arg, Context<'lua>) -> Result<MultiValue<'lua>, Error>,
    From: FnOnce(MultiValue<'lua>, Context<'lua>) -> Result<Ret, Error>,

    requires
        call_ensures(
            PollThreadFut::<'lua, Arg>::poll::<Ret, To, From>,
            (call, to_lua, from_lua),
            r,
        ),
        old(call).args is Some,
    ensures
        final(call).args is None,
        final(call).ctx == old(call).ctx,
        exists|given: Result<MultiValue<'lua>, Error>|
            {
                &&& #[trigger] call_ensures(to_lua, (old(call).args->0, old(call).ctx), given)
                &&& match given {
                    Err(e) => {
                        &&& final(call).thread == old(call).thread
                        &&& r == Some(Poll::Ready(Err::<Ret, Error>(e)))
                    },
                    Ok(m) => exists|resumed: Result<MultiValue<'lua>, Error>|
                        {
                            &&& #[trigger] resumes_to(
                                old(call).thread,
                                m,
                                resumed,
                                final(call).thread,
                            )
                            &&& match resumed {
                                Err(e) => r == Some(Poll::Ready(Err::<Ret, Error>(e))),
                                Ok(passed) => exists|status: ThreadStatus| #[trigger]
                                    found_in(final(call).thread, status) && match status {
                                        ThreadStatus::Resumable => r == Some(
                                            Poll::<Result<Ret, Error>>::Pending,
                                        ),
                                        ThreadStatus::Unresumable => {
                                            &&& r matches Some(Poll::Ready(ret))
                                            &&& call_ensures(from_lua, (passed, old(call).ctx), ret)
                                        },
                                        ThreadStatus::Error => r is None,
                                    },
                            }
                        },
                }
            },
{
}

/// Each later poll resumes the coroutine once, with no values, and ends as the first one does.
pub proof fn law_later_poll_hands_nothing_over<'lua, Arg, Ret, To, From>(
    call: &mut PollThreadFut<'lua, Arg>,
    to_lua: To,
    from_lua: From,
    r: Option<Poll<Result<Ret, Error>>>,
) where
    To: FnOnce(Arg, Context<'lua>) -> Result<MultiValue<'lua>, Error>,
    From: FnOnce(MultiValue<'lua>, Context<'lua>) -> Result<Ret, Error>,

    requires
        call_ensures(
            PollThreadFut::<'lua, Arg>::poll::<Ret, To, From>,
            (call, to_lua, from_lua),
            r,
        ),
        old(call).args is None,
    ensures
        final(call).args is None,
        final(call).ctx == old(call).ctx,
        exists|m: MultiValue<'lua>|
            {
                &&& #[trigger] values(m) == Seq::<Value<'lua>>::empty()
                &&& exists|resumed: Result<MultiValue<'lua>, Error>|
                    {
                        &&& #[trigger] resumes_to(old(call).thread, m, resumed, final(call).thread)
                        &&& match resumed {
                            Err(e) => r == Some(Poll::Ready(Err::<Ret, Error>(e))),
                            Ok(passed) => exists|status: ThreadStatus| #[trigger]
                                found_in(final(call).thread, status) && match status {
                                    ThreadStatus::Resumable => r == Some(
                                        Poll::<Result<Ret, Error>>::Pending,
                                    ),
                                    ThreadStatus::Unresumable => {
                                        &&& r matches Some(Poll::Ready(ret))
                                        &&& call_ensures(from_lua, (passed, old(call).ctx), ret)
                                    },
                                    ThreadStatus::Error => r is None,
                                },
                        }
                    }
            },
{
    let given = choose|given: Result<MultiValue<'lua>, Error>| #[trigger]
        poll_leads(*old(call), to_lua, given, from_lua, r, *final(call));
    assert(values(given->Ok_0) == Seq::<Value<'lua>>::empty());
}

/// What Lua is told after a poll of a future. While the future is pending, this is `nil` and `false`.
/// An error of the future is raised as it is. Once it is done, this is `true` behind a table that
/// holds exactly the values that its result was converted to.
pub proof fn law_reply_tells_the_results<'lua, Ret, R>(
    ctx: Context<'lua>,
    polled: Poll<Result<Ret, Error>>,
    to_lua: R,
    r: Result<MultiValue<'lua>, Error>,
) where R: Fn(Ret, Context<'lua>) -> Result<MultiValue<'lua>, Error>
    requires
        answers(ctx, polled, to_lua, r),
    ensures
        match polled {
            Poll::Pending => {
                &&& r matches Ok(reply)
                &&& values(reply).len() == 2
                &&& kind(values(reply)[0]) == Kind::Nil
                &&& kind(values(reply)[1]) == Kind::Boolean(false)
            },
            Poll::Ready(Err(e)) => r == Err::<MultiValue<'lua>, Error>(e),
            Poll::Ready(Ok(ret)) => exists|converted: Result<MultiValue<'lua>, Error>|
                {
                    &&& #[trigger] call_ensures(to_lua, (ret, ctx), converted)
                    &&& match converted {
                        Err(e) => r == Err::<MultiValue<'lua>, Error>(e),
                        Ok(results) => exists|tabulated: Result<Value<'lua>, Error>|
                            {
                                &&& #[trigger] tabulates_to(values(results), ctx, tabulated)
                                &&& match tabulated {
                                    Err(e) => r == Err::<MultiValue<'lua>, Error>(e),
                                    Ok(table) => {
                                        &&& r matches Ok(reply)
                                        &&& values(reply).len() == 2
                                        &&& values(reply)[0] == table
                                        &&& kind(table) == Kind::Table
                                        &&& kind(values(reply)[1]) == Kind::Boolean(true)
                                    },
                                }
                            },
                    }
                },
        },
{
}

/// An answer to Lua tells what [`law_reply_tells_the_results`] says.
pub proof fn law_answer_is_the_reply<'lua, Ret, R>(
    ctx: Context<'lua>,
    polled: Poll<Result<Ret, Error>>,
    to_lua: R,
    r: Result<MultiValue<'lua>, Error>,
) where R: Fn(Ret, Context<'lua>) -> Result<MultiValue<'lua>, Error>
    requires
        call_ensures(answer::<Ret, R>, (ctx, polled, &to_lua), r),
    ensures
        answers(ctx, polled, to_lua, r),
{
}

/// The table of a ready reply holds exactly the values that the result of the future was converted
/// to, in order and number. An error of the conversion, or of making the table, is raised as it is.
pub proof fn law_results_are_told_in_full<'lua>(
    ctx: Context<'lua>,
    converted: Result<MultiValue<'lua>, Error>,
    r: Result<MultiValue<'lua>, Error>,
)
    requires
        call_ensures(answer_results, (ctx, converted), r),
    ensures
        converted matches Err(e) ==> r == Err::<MultiValue<'lua>, Error>(e),
        converted matches Ok(results) ==> match r {
            Err(e) => tabulates_to(values(results), ctx, Err::<Value<'lua>, Error>(e)),
            Ok(reply) => {
                &&& tabulates_to(values(results), ctx, Ok::<Value<'lua>, Error>(values(reply)[0]))
                &&& values(reply).len() == 2
                &&& kind(values(reply)[0]) == Kind::Table
                &&& kind(values(reply)[1]) == Kind::Boolean(true)
            },
        },
{
}

/// A call of a poller polls its future once, keeps what the poll leaves of it, and tells Lua what the
/// poll gave.
pub proof fn law_poller_polls_once<'lua, RetFut, Ret, P, R>(
    poller: &mut Poller<RetFut, P, R>,
    ctx: Context<'lua>,
    r: Result<MultiValue<'lua>, Error>,
) where
    P: Fn(RetFut) -> (RetFut, Poll<Result<Ret, Error>>),
    R: Fn(Ret, Context<'lua>) -> Result<MultiValue<'lua>, Error>,

    requires
        call_ensures(Poller::<RetFut, P, R>::poll::<Ret>, (poller, ctx), r),
    ensures
        final(poller).poll_fut == old(poller).poll_fut,
        final(poller).to_lua == old(poller).to_lua,
        exists|left: RetFut, polled: Poll<Result<Ret, Error>>|
            {
                &&& #[trigger] call_ensures(
                    old(poller).poll_fut,
                    (old(poller).fut->0,),
                    (left, polled),
                )
                &&& final(poller).fut == Some(left)
                &&& answers(ctx, polled, old(poller).to_lua, r)
            },
{
    let polled = choose|polled: Poll<Result<Ret, Error>>| #[trigger]
        old(poller).polls(ctx, polled, *final(poller), r);
    assert(call_ensures(
        old(poller).poll_fut,
        (old(poller).fut->0,),
        (final(poller).fut->0, polled),
    ));
}

/// The Lua function of a poller polls the future of the poller once at each call, and each poll goes
/// on where the one before has left the future. Call `call` tells Lua what its own poll gave.
pub proof fn law_each_call_polls_on<'lua, RetFut, Ret, P, R>(
    func: Function<'lua>,
    poller: Poller<RetFut, P, R>,
    call: nat,
    ctx: Context<'lua>,
    r: Result<MultiValue<'lua>, Error>,
) where
    P: Fn(RetFut) -> (RetFut, Poll<Result<Ret, Error>>),
    R: Fn(Ret, Context<'lua>) -> Result<MultiValue<'lua>, Error>,

    requires
        is_poller(func, poller),
        callback_answers(func, call, ctx, r),
    ensures
        exists|futs: Seq<RetFut>, polled: Seq<Poll<Result<Ret, Error>>>|
            #![trigger futs.len(), polled.len()]
            {
                &&& futs.len() == call + 2
                &&& polled.len() == call + 1
                &&& futs[0] == poller.fut->0
                &&& forall|i: int|
                    0 <= i <= call ==> call_ensures(
                        poller.poll_fut,
                        (#[trigger] futs[i],),
                        (futs[i + 1], polled[i]),
                    )
                &&& answers(ctx, polled[call as int], poller.to_lua, r)
            },
{
    let (before, last, after) = choose|
        before: Poller<RetFut, P, R>,
        last: Poll<Result<Ret, Error>>,
        after: Poller<RetFut, P, R>,
    |
        {
            &&& before == (Poller { fut: before.fut, ..poller })
            &&& reached(poller.poll_fut, poller.fut->0, call, before.fut->0)
            &&& #[trigger] before.polls(ctx, last, after, r)
        };
    let (futs, polled) = lemma_reached_by_polls(
        poller.poll_fut,
        poller.fut->0,
        call,
        before.fut->0,
    );
    let futs = futs.push(after.fut->0);
    let polled = polled.push(last);
    assert(futs.len() == call + 2);
    assert(polled.len() == call + 1);
}

/// The futures between `start` and `fut`, and what each poll on the way gives.
proof fn lemma_reached_by_polls<RetFut, Ret, P>(
    poll_fut: P,
    start: RetFut,
    polls: nat,
    fut: RetFut,
) -> (r: (Seq<RetFut>, Seq<Poll<Result<Ret, Error>>>)) where
    P: Fn(RetFut) -> (RetFut, Poll<Result<Ret, Error>>),

    requires
        reached(poll_fut, start, polls, fut),
    ensures
        r.0.len() == polls + 1,
        r.1.len() == polls,
        r.0[0] == start,
        r.0[polls as int] == fut,
        forall|i: int|
            0 <= i < polls ==> call_ensures(
                poll_fut,
                (#[trigger] r.0[i],),
                (r.0[i + 1], r.1[i]),
            ),
    decreases polls,
{
    if polls == 0 {
        (seq![start], seq![])
    } else {
        let (earlier, last) = choose|earlier: RetFut, last: Poll<Result<Ret, Error>>|
            {
                &&& reached(poll_fut, start, (polls - 1) as nat, earlier)
                &&& #[trigger] call_ensures(poll_fut, (earlier,), (fut, last))
            };
        let (futs, polled) = lemma_reached_by_polls::<RetFut, Ret, P>(
            poll_fut,
            start,
            (polls - 1) as nat,
            earlier,
        );
        (futs.push(fut), polled.push(last))
    }
}

/// The Lua function that is made for a future polls this future, and no other.
pub proof fn law_poller_function_polls_its_future<'lua, Ret, RetFut, P, R>(
    ctx: Context<'lua>,
    fut: RetFut,
    poll_fut: P,
    to_lua: R,
    r: Result<Function<'lua>, Error>,
) where
    RetFut: 'static + Send,
    P: 'static + Send + Fn(RetFut) -> (RetFut, Poll<Result<Ret, Error>>),
    R: 'static + Send + Fn(Ret, Context<'lua>) -> Result<MultiValue<'lua>, Error>,

    requires
        call_ensures(poller_fn::<Ret, RetFut, P, R>, (ctx, fut, poll_fut, to_lua), r),
    ensures
        creates_mut_to(ctx, r),
        r matches Ok(func) ==> is_poller(func, Poller { fut: Some(fut), poll_fut, to_lua }),
{
}

/// Starting the future of `arg` gives the Lua function that polls the future which the asynchronous
/// function makes of `arg`.
pub proof fn law_start_makes_one_future<'lua, Arg, Ret, RetFut, F, P, R>(
    starter: Starter<F, P, R>,
    ctx: Context<'lua>,
    arg: Arg,
    r: Result<Function<'lua>, Error>,
) where
    F: Fn(Context<'lua>, Arg) -> RetFut,
    RetFut: 'static + Send,
    P: 'static + Send + Copy + Fn(RetFut) -> (RetFut, Poll<Result<Ret, Error>>),
    R: 'static + Send + Copy + Fn(Ret, Context<'lua>) -> Result<MultiValue<'lua>, Error>,

    requires
        call_ensures(Starter::<F, P, R>::start::<Arg, Ret, RetFut>, (&starter, ctx, arg), r),
    ensures
        creates_mut_to(ctx, r),
        r matches Ok(func) ==> exists|fut: RetFut| #[trigger]
            call_ensures(starter.func, (ctx, arg), fut) && is_poller(
                func,
                Poller { fut: Some(fut), poll_fut: starter.poll_fut, to_lua: starter.to_lua },
            ),
{
}

/// The same where making the future may change the state of the asynchronous function. How futures
/// are polled and their results converted does not change.
pub proof fn law_start_mut_makes_one_future<'lua, Arg, Ret, RetFut, F, P, R>(
    starter: &mut Starter<F, P, R>,
    ctx: Context<'lua>,
    arg: Arg,
    r: Result<Function<'lua>, Error>,
) where
    F: FnMut(Context<'lua>, Arg) -> RetFut,
    RetFut: 'static + Send,
    P: 'static + Send + Copy + Fn(RetFut) -> (RetFut, Poll<Result<Ret, Error>>),
    R: 'static + Send + Copy + Fn(Ret, Context<'lua>) -> Result<MultiValue<'lua>, Error>,

    requires
        call_ensures(Starter::<F, P, R>::start_mut::<Arg, Ret, RetFut>, (starter, ctx, arg), r),
    ensures
        final(starter).poll_fut == old(starter).poll_fut,
        final(starter).to_lua == old(starter).to_lua,
        creates_mut_to(ctx, r),
        r matches Ok(func) ==> exists|fut: RetFut| #[trigger]
            call_ensures(old(starter).func, (ctx, arg), fut) && is_poller(
                func,
                Poller {
                    fut: Some(fut),
                    poll_fut: old(starter).poll_fut,
                    to_lua: old(starter).to_lua,
                },
            ),
{
}

/// A new generator makes futures by the function that it was given, and has made none.
pub proof fn law_new_generator_holds_no_future<RetFut, F>(gen: F, r: FutGen<RetFut, F>)
    requires
        call_ensures(FutGen::<RetFut, F>::new, (gen,), r),
    ensures
        r.gen == gen,
        r.cur_fut is None,
{
}

/// Starting a future makes it of the very arguments that were given, and puts it in the place that
/// was empty.
pub proof fn law_generator_starts_from_its_arguments<'lua, Arg, RetFut, F>(
    generator: &mut FutGen<RetFut, F>,
    ctx: Context<'lua>,
    arg: Arg,
) where F: Fn(Context<'lua>, Arg) -> RetFut
    requires
        call_ensures(FutGen::<RetFut, F>::set_arg::<Arg>, (generator, ctx, arg), ()),
    ensures
        final(generator).gen == old(generator).gen,
        final(generator).cur_fut matches Some(fut) && call_ensures(
            old(generator).gen,
            (ctx, arg),
            fut,
        ),
{
}

/// Polling a generator polls its future once and tells Lua what the poll gave. The generator keeps
/// what the poll leaves of the future for as long as it is pending, and drops it once it has ended.
pub proof fn law_generator_polls_once<'lua, RetFut, Ret, F, P, R>(
    generator: &mut FutGen<RetFut, F>,
    ctx: Context<'lua>,
    poll_fut: P,
    to_lua: R,
    r: Result<MultiValue<'lua>, Error>,
) where
    P: FnOnce(RetFut) -> (RetFut, Poll<Result<Ret, Error>>),
    R: Fn(Ret, Context<'lua>) -> Result<MultiValue<'lua>, Error>,

    requires
        call_ensures(
            FutGen::<RetFut, F>::poll::<Ret, P, R>,
            (generator, ctx, poll_fut, &to_lua),
            r,
        ),
    ensures
        final(generator).gen == old(generator).gen,
        exists|left: RetFut, polled: Poll<Result<Ret, Error>>|
            {
                &&& #[trigger] call_ensures(poll_fut, (old(generator).cur_fut->0,), (left, polled))
                &&& polled is Pending ==> final(generator).cur_fut == Some(left)
                &&& polled is Ready ==> final(generator).cur_fut is None
                &&& answers(ctx, polled, to_lua, r)
            },
{
    let (left, polled) = choose|left: RetFut, polled: Poll<Result<Ret, Error>>| #[trigger]
        old(generator).polls(ctx, poll_fut, to_lua, left, polled, *final(generator), r);
    assert(call_ensures(poll_fut, (old(generator).cur_fut->0,), (left, polled)));
}

/// An asynchronous function is what the value of this very script gives for the start callback. In
/// the script all of `...` goes to the callback, a yield has no values, and all that the table of
/// results holds is returned. What Lua makes of the script is not stated.
pub proof fn law_script_for_a_start_callback<'lua>(
    ctx: Context<'lua>,
    start: Function<'lua>,
    r: Result<Function<'lua>, Error>,
)
    requires
        wraps_start(ctx, start, r),
    ensures
        exists|chunk: Chunk<'lua, 'static>, made: Result<Function<'lua>, Error>|
            {
                &&& chunk_of(chunk, ctx)
                &&& chunk_name(chunk) == Some("coroutine yield helper".spec_bytes())
                &&& chunk_source(chunk) == "function(start)
    return function(...)
        local poll = start(...)
        while true do
            local results, ready = poll()
            if ready then
                local count = 0
                for key in next, results do
                    if key > count then count = key end
                end
                return table.unpack(results, 1, count)
            end
            coroutine.yield()
        end
    end
end".spec_bytes()
                &&& #[trigger] evaluates_to(chunk, made)
                &&& match made {
                    Err(e) => r == Err::<Function<'lua>, Error>(e),
                    Ok(make) => returns_for_function(make, start, r),
                }
            },
{
}

/// What is made of a start callback is what [`law_script_for_a_start_callback`] says.
pub proof fn law_start_callback_is_wrapped<'lua>(
    ctx: Context<'lua>,
    start: Function<'lua>,
    r: Result<Function<'lua>, Error>,
)
    requires
        call_ensures(wrap_start, (ctx, start), r),
    ensures
        wraps_start(ctx, start, r),
{
}

/// A scoped asynchronous function is what the value of this very script gives for the generator. In
/// the script all of `...` goes to the generator, a yield has no values, and all that the table of
/// results holds is returned. What Lua makes of the script is not stated.
pub proof fn law_script_for_a_generator<'lua>(
    ctx: Context<'lua>,
    generator: AnyUserData<'lua>,
    r: Result<Function<'lua>, Error>,
)
    requires
        wraps_generator(ctx, generator, r),
    ensures
        exists|chunk: Chunk<'lua, 'static>, made: Result<Function<'lua>, Error>|
            {
                &&& chunk_of(chunk, ctx)
                &&& chunk_name(chunk) == Some("coroutine yield helper".spec_bytes())
                &&& chunk_source(chunk) == "function(generator)
    return function(...)
        generator:set_arg(...)
        while true do
            local results, ready = generator:poll()
            if ready then
                local count = 0
                for key in next, results do
                    if key > count then count = key end
                end
                return table.unpack(results, 1, count)
            end
            coroutine.yield()
        end
    end
end".spec_bytes()
                &&& #[trigger] evaluates_to(chunk, made)
                &&& match made {
                    Err(e) => r == Err::<Function<'lua>, Error>(e),
                    Ok(make) => returns_for_userdata(make, generator, r),
                }
            },
{
}

/// What is made of a generator is what [`law_script_for_a_generator`] says.
pub proof fn law_generator_is_wrapped<'lua>(
    ctx: Context<'lua>,
    generator: AnyUserData<'lua>,
    r: Result<Function<'lua>, Error>,
)
    requires
        call_ensures(wrap_generator, (ctx, generator), r),
    ensures
        wraps_generator(ctx, generator, r),
{
}

/// A scoped asynchronous function is made of the generator that the scope has made. Where the scope
/// has made none, its error is handed on.
pub proof fn law_scoped_function_is_made_of_its_generator<'lua, 'scope>(
    scope: Scope<'lua, 'scope>,
    ctx: Context<'lua>,
    generator: Result<AnyUserData<'lua>, Error>,
    r: Result<Function<'lua>, Error>,
)
    requires
        call_ensures(
            <Scope<'lua, 'scope> as ScopeExt<'lua, 'scope>>::create_async_function,
            (&scope, ctx, generator),
            r,
        ),
    ensures
        match generator {
            Err(e) => r == Err::<Function<'lua>, Error>(e),
            Ok(made) => wraps_generator(ctx, made, r),
        },
{
}

/// The arguments of an asynchronous function are converted from the very values that Lua has called
/// it with.
pub proof fn law_arguments_are_converted_as_they_came<'lua, Arg: FromArgs<'lua>>(
    values: MultiValue<'lua>,
    ctx: Context<'lua>,
    converted: Result<Arg, Error>,
)
    requires
        converts_to(values, ctx, converted),
    ensures
        call_ensures(Arg::from_args, (values, ctx), converted),
{
}

/// An asynchronous function is made of a callback that converts all that it is called with, as Lua
/// has it, and makes one future of that by the Rust function. The callback hands an error of the
/// conversion on, and else the Lua function that polls this future.
pub proof fn law_function_makes_one_future_for_each_call<'lua, Arg, Ret, RetFut, F, P, R>(
    ctx: Context<'lua>,
    func: F,
    poll_fut: P,
    to_lua: R,
    r: Result<Function<'lua>, Error>,
) where
    Arg: FromArgs<'lua>,
    F: Fn(Context<'lua>, Arg) -> RetFut,
    P: Fn(RetFut) -> (RetFut, Poll<Result<Ret, Error>>),
    R: Fn(Ret, Context<'lua>) -> Result<MultiValue<'lua>, Error>,

    requires
        makes_async(ctx, Starter { func, poll_fut, to_lua }, r),
    ensures
        exists|created: Result<Function<'lua>, Error>| #[trigger]
            creates_to(ctx, created) && match created {
                Err(e) => r == Err::<Function<'lua>, Error>(e),
                Ok(start) => wraps_start(ctx, start, r) && forall|
                    call: nat,
                    c: Context<'lua>,
                    args: MultiValue<'lua>,
                    outcome: Result<Function<'lua>, Error>,
                | #[trigger]
                    callback_starts(start, call, c, args, outcome) ==> exists|converted: Result<Arg, Error>|
                    {
                        &&& #[trigger] call_ensures(Arg::from_args, (args, c), converted)
                        &&& match converted {
                            Err(e) => outcome == Err::<Function<'lua>, Error>(e),
                            Ok(arg) => exists|fut: RetFut|
                                {
                                    &&& #[trigger] call_ensures(func, (c, arg), fut)
                                    &&& creates_mut_to(c, outcome)
                                    &&& outcome matches Ok(poll) ==> is_poller(
                                        poll,
                                        Poller { fut: Some(fut), poll_fut, to_lua },
                                    )
                                },
                        }
                    },
            },
{
}

/// The same of a function that may change its own state when it is called: a call that is not
/// refused makes its future in the state that the function has by then, which for the first call is
/// the one that it was handed over in.
pub proof fn law_mutable_function_makes_one_future_for_each_call<'lua, Arg, Ret, RetFut, F, P, R>(
    ctx: Context<'lua>,
    func: F,
    poll_fut: P,
    to_lua: R,
    r: Result<Function<'lua>, Error>,
) where
    Arg: FromArgs<'lua>,
    F: FnMut(Context<'lua>, Arg) -> RetFut,
    P: Fn(RetFut) -> (RetFut, Poll<Result<Ret, Error>>),
    R: Fn(Ret, Context<'lua>) -> Result<MultiValue<'lua>, Error>,

    requires
        makes_async_mut(ctx, Starter { func, poll_fut, to_lua }, r),
    ensures
        exists|created: Result<Function<'lua>, Error>| #[trigger]
            creates_mut_to(ctx, created) && match created {
                Err(e) => r == Err::<Function<'lua>, Error>(e),
                Ok(start) => wraps_start(ctx, start, r) && forall|
                    call: nat,
                    c: Context<'lua>,
                    args: MultiValue<'lua>,
                    outcome: Result<Function<'lua>, Error>,
                | #[trigger]
                    callback_starts(start, call, c, args, outcome) ==> exists|converted: Result<Arg, Error>|
                    {
                        &&& #[trigger] call_ensures(Arg::from_args, (args, c), converted)
                        &&& match converted {
                            Err(e) => outcome == Err::<Function<'lua>, Error>(e),
                            Ok(arg) => exists|state: F, fut: RetFut|
                                {
                                    &&& call == 0 ==> state == func
                                    &&& #[trigger] call_ensures(state, (c, arg), fut)
                                    &&& creates_mut_to(c, outcome)
                                    &&& outcome matches Ok(poll) ==> is_poller(
                                        poll,
                                        Poller { fut: Some(fut), poll_fut, to_lua },
                                    )
                                },
                        }
                    },
            },
{
}

} // verus!
