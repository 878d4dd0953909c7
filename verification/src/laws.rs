//! What holds of the library over more than one call.

use crate::args::{converts_to, FromArgs};
use crate::ext::calls_async;
use crate::fut_gen::FutGen;
use crate::lua::{
    callback_answers, callback_starts, found_in, kind, resumes_to, values, Kind, ThreadStatus,
};
use crate::poll::Poll;
use crate::poller::{is_poller, is_starter, is_starter_mut, reached, Poller, Starter};
use crate::reply::{answers, is_pending_reply};
use crate::thread::{poll_leads, polls_to, PollThreadFut};
use rlua::{Context, Error, Function, MultiValue, Thread, Value};
use vstd::prelude::*;

verus! {

/// `calls` are the states of one asynchronous call before its first poll and after each poll. Poll
/// `i`, which converts arguments by `to_lua[i]` and results by `from_lua[i]`, hands `given[i]` to the
/// coroutine and ends in `outcomes[i]`.
pub open spec fn is_call_history<'lua, Arg, Ret, To, From>(
    calls: Seq<PollThreadFut<'lua, Arg>>,
    to_lua: Seq<To>,
    given: Seq<Result<MultiValue<'lua>, Error>>,
    from_lua: Seq<From>,
    outcomes: Seq<Option<Poll<Result<Ret, Error>>>>,
) -> bool where
    To: FnOnce(Arg, Context<'lua>) -> Result<MultiValue<'lua>, Error>,
    From: FnOnce(MultiValue<'lua>, Context<'lua>) -> Result<Ret, Error>,
 {
    &&& calls.len() == given.len() + 1
    &&& to_lua.len() == given.len()
    &&& from_lua.len() == given.len()
    &&& outcomes.len() == given.len()
    &&& forall|i: int|
        0 <= i < given.len() ==> poll_leads(
            calls[i],
            to_lua[i],
            #[trigger] given[i],
            from_lua[i],
            outcomes[i],
            calls[i + 1],
        )
}

/// The arguments that a function is called with asynchronously are handed to its coroutine by the
/// first poll and by no other: each later poll resumes the coroutine with no values.
pub proof fn law_arguments_are_handed_over_once<'lua, Arg, Ret, To, From>(
    func: Function<'lua>,
    ctx: Context<'lua>,
    args: Arg,
    calls: Seq<PollThreadFut<'lua, Arg>>,
    to_lua: Seq<To>,
    given: Seq<Result<MultiValue<'lua>, Error>>,
    from_lua: Seq<From>,
    outcomes: Seq<Option<Poll<Result<Ret, Error>>>>,
) where
    To: FnOnce(Arg, Context<'lua>) -> Result<MultiValue<'lua>, Error>,
    From: FnOnce(MultiValue<'lua>, Context<'lua>) -> Result<Ret, Error>,

    requires
        is_call_history(calls, to_lua, given, from_lua, outcomes),
        calls_async(func, ctx, args, Ok::<PollThreadFut<'lua, Arg>, Error>(calls[0])),
    ensures
        given.len() > 0 ==> call_ensures(to_lua[0], (args, ctx), given[0]),
        forall|i: int|
            1 <= i < given.len() ==> (#[trigger] given[i]) is Ok && values(given[i]->Ok_0) == Seq::<
                Value<'lua>,
            >::empty(),
{
    assert forall|i: int| 1 <= i < given.len() implies (#[trigger] given[i]) is Ok && values(
        given[i]->Ok_0,
    ) == Seq::<Value<'lua>>::empty() by {
        let earlier = given[i - 1];
        assert(calls[i].args is None);
    }
}

/// A call is pending only while its coroutine can go on, and it is done only once the coroutine has
/// finished, has raised an error or could not be given its arguments.
pub proof fn law_outcome_follows_the_coroutine<'lua, Arg, Ret, From>(
    call: PollThreadFut<'lua, Arg>,
    given: Result<MultiValue<'lua>, Error>,
    after: Thread<'lua>,
    from_lua: From,
    outcome: Option<Poll<Result<Ret, Error>>>,
) where From: FnOnce(MultiValue<'lua>, Context<'lua>) -> Result<Ret, Error>
    requires
        polls_to(call, given, after, from_lua, outcome),
    ensures
        outcome matches Some(Poll::Pending) ==> {
            &&& given is Ok
            &&& exists|passed: MultiValue<'lua>|
                resumes_to(call.thread, given->Ok_0, Ok::<MultiValue<'lua>, Error>(passed), after)
            &&& found_in(after, ThreadStatus::Resumable)
        },
        outcome matches Some(Poll::Ready(_)) ==> {
            ||| given is Err
            ||| exists|e: Error|
                resumes_to(call.thread, given->Ok_0, Err::<MultiValue<'lua>, Error>(e), after)
            ||| found_in(after, ThreadStatus::Unresumable)
        },
{
}

/// The second value of a reply tells Lua whether the future is done.
pub proof fn law_reply_tells_readiness<'lua, Ret, R>(
    ctx: Context<'lua>,
    polled: Poll<Result<Ret, Error>>,
    to_lua: R,
    reply: MultiValue<'lua>,
) where R: Fn(Ret, Context<'lua>) -> Result<MultiValue<'lua>, Error>
    requires
        answers(ctx, polled, to_lua, Ok::<MultiValue<'lua>, Error>(reply)),
    ensures
        values(reply).len() == 2,
        kind(values(reply)[1]) == Kind::Boolean(polled !is Pending),
{
}

/// A step in the life of a generator.
pub enum GeneratorStep<'lua, Arg, RetFut, Ret> {
    /// A future is started.
    SetArg { ctx: Context<'lua>, arg: Arg },
    /// The future that was started is polled. This gives `polled`, leaves the future as `left` and
    /// answers Lua with `reply`.
    Poll {
        ctx: Context<'lua>,
        left: RetFut,
        polled: Poll<Result<Ret, Error>>,
        reply: Result<MultiValue<'lua>, Error>,
    },
}

impl<'lua, Arg, RetFut, Ret> GeneratorStep<'lua, Arg, RetFut, Ret> {
    /// After this step a future is under way.
    pub open spec fn leaves_future(self) -> bool {
        match self {
            GeneratorStep::SetArg { .. } => true,
            GeneratorStep::Poll { polled, .. } => polled is Pending,
        }
    }

    /// The step can lead a generator from `before` to `after`.
    pub open spec fn leads<F, P, R>(
        self,
        before: FutGen<RetFut, F>,
        after: FutGen<RetFut, F>,
        poll_fut: P,
        to_lua: R,
    ) -> bool where
        F: Fn(Context<'lua>, Arg) -> RetFut,
        P: Fn(RetFut) -> (RetFut, Poll<Result<Ret, Error>>),
        R: Fn(Ret, Context<'lua>) -> Result<MultiValue<'lua>, Error>,
     {
        match self {
            GeneratorStep::SetArg { ctx, arg } => before.starts(ctx, arg, after),
            GeneratorStep::Poll { ctx, left, polled, reply } => before.polls(
                ctx,
                poll_fut,
                to_lua,
                left,
                polled,
                after,
                reply,
            ),
        }
    }
}

/// `generators` are the states of one generator, from a new one on, before and after each of `steps`.
pub open spec fn is_generator_life<'lua, Arg, RetFut, Ret, F, P, R>(
    generators: Seq<FutGen<RetFut, F>>,
    steps: Seq<GeneratorStep<'lua, Arg, RetFut, Ret>>,
    poll_fut: P,
    to_lua: R,
) -> bool where
    F: Fn(Context<'lua>, Arg) -> RetFut,
    P: Fn(RetFut) -> (RetFut, Poll<Result<Ret, Error>>),
    R: Fn(Ret, Context<'lua>) -> Result<MultiValue<'lua>, Error>,
 {
    &&& generators.len() == steps.len() + 1
    &&& generators[0].cur_fut is None
    &&& forall|i: int|
        0 <= i < steps.len() ==> (#[trigger] steps[i]).leads(
            generators[i],
            generators[i + 1],
            poll_fut,
            to_lua,
        )
}

/// Whatever is done with a generator, it never changes how it makes futures. It holds a future
/// exactly after one was started or a poll was pending. A future is polled only while it is under
/// way, and started only while none is. So between two starts exactly the last poll is not pending.
pub proof fn law_generator_life<'lua, Arg, RetFut, Ret, F, P, R>(
    generators: Seq<FutGen<RetFut, F>>,
    steps: Seq<GeneratorStep<'lua, Arg, RetFut, Ret>>,
    poll_fut: P,
    to_lua: R,
) where
    F: Fn(Context<'lua>, Arg) -> RetFut,
    P: Fn(RetFut) -> (RetFut, Poll<Result<Ret, Error>>),
    R: Fn(Ret, Context<'lua>) -> Result<MultiValue<'lua>, Error>,

    requires
        is_generator_life(generators, steps, poll_fut, to_lua),
    ensures
        forall|i: int|
            0 <= i < generators.len() ==> (#[trigger] generators[i]).gen == generators[0].gen,
        forall|i: int|
            0 <= i < steps.len() ==> (#[trigger] steps[i].leaves_future() <==> generators[i
                + 1].cur_fut is Some),
        steps.len() > 0 ==> steps[0] is SetArg,
        forall|i: int|
            0 <= i < steps.len() - 1 ==> (#[trigger] steps[i].leaves_future() <==> steps[i
                + 1] is Poll),
        forall|i: int, j: int|
            #![trigger steps[i], steps[j]]
            0 <= i < j < steps.len() && steps[i] is SetArg && steps[j] is SetArg && (forall|k: int|
                i < k < j ==> (#[trigger] steps[k]) is Poll) ==> {
                &&& i + 1 < j
                &&& forall|k: int|
                    i < k < j ==> (#[trigger] steps[k].leaves_future() <==> k < j - 1)
            },
{
    assert forall|i: int| 0 <= i < generators.len() implies (#[trigger] generators[i]).gen
        == generators[0].gen by {
        lemma_generator_keeps_gen(generators, steps, poll_fut, to_lua, i);
    }
    assert forall|i: int| 0 <= i < steps.len() implies (#[trigger] steps[i].leaves_future()
        <==> generators[i + 1].cur_fut is Some) by {
        lemma_generator_step(generators, steps, poll_fut, to_lua, i);
    }
    assert forall|i: int| 0 <= i < steps.len() - 1 implies (#[trigger] steps[i].leaves_future()
        <==> steps[i + 1] is Poll) by {
        lemma_generator_step(generators, steps, poll_fut, to_lua, i + 1);
    }
    if steps.len() > 0 {
        lemma_generator_step(generators, steps, poll_fut, to_lua, 0);
    }
    assert forall|i: int, j: int|
        #![trigger steps[i], steps[j]]
        0 <= i < j < steps.len() && steps[i] is SetArg && steps[j] is SetArg && (forall|k: int|
            i < k < j ==> (#[trigger] steps[k]) is Poll) implies {
        &&& i + 1 < j
        &&& forall|k: int| i < k < j ==> (#[trigger] steps[k].leaves_future() <==> k < j - 1)
    } by {
        assert(!steps[j - 1].leaves_future());
    }
}

/// What a single step does to a generator.
proof fn lemma_generator_step<'lua, Arg, RetFut, Ret, F, P, R>(
    generators: Seq<FutGen<RetFut, F>>,
    steps: Seq<GeneratorStep<'lua, Arg, RetFut, Ret>>,
    poll_fut: P,
    to_lua: R,
    i: int,
) where
    F: Fn(Context<'lua>, Arg) -> RetFut,
    P: Fn(RetFut) -> (RetFut, Poll<Result<Ret, Error>>),
    R: Fn(Ret, Context<'lua>) -> Result<MultiValue<'lua>, Error>,

    requires
        is_generator_life(generators, steps, poll_fut, to_lua),
        0 <= i < steps.len(),
    ensures
        generators[i + 1].gen == generators[i].gen,
        generators[i].cur_fut is None <==> steps[i] is SetArg,
        generators[i + 1].cur_fut is Some <==> steps[i].leaves_future(),
{
    assert(steps[i].leads(generators[i], generators[i + 1], poll_fut, to_lua));
}

proof fn lemma_generator_keeps_gen<'lua, Arg, RetFut, Ret, F, P, R>(
    generators: Seq<FutGen<RetFut, F>>,
    steps: Seq<GeneratorStep<'lua, Arg, RetFut, Ret>>,
    poll_fut: P,
    to_lua: R,
    i: int,
) where
    F: Fn(Context<'lua>, Arg) -> RetFut,
    P: Fn(RetFut) -> (RetFut, Poll<Result<Ret, Error>>),
    R: Fn(Ret, Context<'lua>) -> Result<MultiValue<'lua>, Error>,

    requires
        is_generator_life(generators, steps, poll_fut, to_lua),
        0 <= i < generators.len(),
    ensures
        generators[i].gen == generators[0].gen,
    decreases i,
{
    if i > 0 {
        lemma_generator_keeps_gen(generators, steps, poll_fut, to_lua, i - 1);
        lemma_generator_step(generators, steps, poll_fut, to_lua, i - 1);
    }
}

/// Each future that a generator starts is made from the argument that it is started with. Every poll
/// up to the next start polls this future once and goes on where the poll before has left it. What
/// came of earlier futures, an error included, plays no part.
pub proof fn law_generator_polls_the_future_it_started<'lua, Arg, RetFut, Ret, F, P, R>(
    generators: Seq<FutGen<RetFut, F>>,
    steps: Seq<GeneratorStep<'lua, Arg, RetFut, Ret>>,
    poll_fut: P,
    to_lua: R,
    start: int,
    i: int,
) where
    F: Fn(Context<'lua>, Arg) -> RetFut,
    P: Fn(RetFut) -> (RetFut, Poll<Result<Ret, Error>>),
    R: Fn(Ret, Context<'lua>) -> Result<MultiValue<'lua>, Error>,

    requires
        is_generator_life(generators, steps, poll_fut, to_lua),
        0 <= start < i < steps.len(),
        steps[start] is SetArg,
        forall|k: int| start < k <= i ==> (#[trigger] steps[k]) is Poll,
    ensures
        generators[start + 1].cur_fut is Some,
        call_ensures(
            generators[0].gen,
            (steps[start]->SetArg_ctx, steps[start]->arg),
            generators[start + 1].cur_fut->0,
        ),
        reached(
            poll_fut,
            generators[start + 1].cur_fut->0,
            (i - start - 1) as nat,
            generators[i].cur_fut->0,
        ),
        (Poller { fut: generators[start + 1].cur_fut, poll_fut, to_lua }).may_answer(
            (i - start - 1) as nat,
            steps[i]->Poll_ctx,
            steps[i]->reply,
        ),
    decreases i,
{
    lemma_generator_keeps_gen(generators, steps, poll_fut, to_lua, start);
    assert(steps[start].leads(generators[start], generators[start + 1], poll_fut, to_lua));
    assert(steps[i].leads(generators[i], generators[i + 1], poll_fut, to_lua));
    if start + 1 < i {
        law_generator_polls_the_future_it_started(
            generators,
            steps,
            poll_fut,
            to_lua,
            start,
            i - 1,
        );
        assert(steps[i - 1].leads(generators[i - 1], generators[i], poll_fut, to_lua));
        assert(call_ensures(
            poll_fut,
            (generators[i - 1].cur_fut->0,),
            (generators[i].cur_fut->0, steps[i - 1]->polled),
        ));
    }
    let before = Poller { fut: generators[i].cur_fut, poll_fut, to_lua };
    let after = Poller { fut: Some(steps[i]->left), poll_fut, to_lua };
    assert(before.polls(steps[i]->Poll_ctx, steps[i]->polled, after, steps[i]->reply));
}

/// `pollers` are the states of one poller before its first call and after each call. Call `i` gives
/// `polled[i]` and answers Lua with `replies[i]`.
pub open spec fn is_poller_history<'lua, RetFut, Ret, P, R>(
    pollers: Seq<Poller<RetFut, P, R>>,
    ctx: Seq<Context<'lua>>,
    polled: Seq<Poll<Result<Ret, Error>>>,
    replies: Seq<Result<MultiValue<'lua>, Error>>,
) -> bool where
    P: Fn(RetFut) -> (RetFut, Poll<Result<Ret, Error>>),
    R: Fn(Ret, Context<'lua>) -> Result<MultiValue<'lua>, Error>,
 {
    &&& pollers.len() == polled.len() + 1
    &&& ctx.len() == polled.len()
    &&& replies.len() == polled.len()
    &&& forall|i: int|
        0 <= i < polled.len() ==> (#[trigger] pollers[i]).polls(
            ctx[i],
            polled[i],
            pollers[i + 1],
            replies[i],
        )
}

/// Each answer of a poller comes of polling the future that it began with once more than it was
/// polled before.
pub proof fn law_poller_polls_its_future<'lua, RetFut, Ret, P, R>(
    pollers: Seq<Poller<RetFut, P, R>>,
    ctx: Seq<Context<'lua>>,
    polled: Seq<Poll<Result<Ret, Error>>>,
    replies: Seq<Result<MultiValue<'lua>, Error>>,
    i: int,
) where
    P: Fn(RetFut) -> (RetFut, Poll<Result<Ret, Error>>),
    R: Fn(Ret, Context<'lua>) -> Result<MultiValue<'lua>, Error>,

    requires
        is_poller_history(pollers, ctx, polled, replies),
        0 <= i < replies.len(),
    ensures
        pollers[i] == (Poller { fut: pollers[i].fut, ..pollers[0] }),
        reached(pollers[0].poll_fut, pollers[0].fut->0, i as nat, pollers[i].fut->0),
        pollers[0].may_answer(i as nat, ctx[i], replies[i]),
    decreases i,
{
    assert(pollers[i].polls(ctx[i], polled[i], pollers[i + 1], replies[i]));
    if i > 0 {
        law_poller_polls_its_future(pollers, ctx, polled, replies, i - 1);
        assert(pollers[i - 1].polls(ctx[i - 1], polled[i - 1], pollers[i], replies[i - 1]));
        assert(call_ensures(
            pollers[0].poll_fut,
            (pollers[i - 1].fut->0,),
            (pollers[i].fut->0, polled[i - 1]),
        ));
    }
}

/// Each call of an asynchronous function that makes a Lua function for its polls has a future of its
/// own, made from its own arguments. Whatever other calls there are, each poll through the Lua
/// function polls this future once, and is answered by what all polls through it have made of it.
pub proof fn law_call_polls_its_own_future<'lua, Arg, Ret, RetFut, F, P, R>(
    start: Function<'lua>,
    starter: Starter<F, P, R>,
    call: nat,
    ctx: Context<'lua>,
    args: MultiValue<'lua>,
    poll: Function<'lua>,
) where
    Arg: FromArgs<'lua>,
    F: Fn(Context<'lua>, Arg) -> RetFut,
    P: Fn(RetFut) -> (RetFut, Poll<Result<Ret, Error>>),
    R: Fn(Ret, Context<'lua>) -> Result<MultiValue<'lua>, Error>,

    requires
        is_starter(start, starter),
        callback_starts(start, call, ctx, args, Ok::<Function<'lua>, Error>(poll)),
    ensures
        exists|arg: Arg, fut: RetFut|
            {
                &&& converts_to(args, ctx, Ok::<Arg, Error>(arg))
                &&& #[trigger] call_ensures(starter.func, (ctx, arg), fut)
                &&& forall|k: nat, c: Context<'lua>, r: Result<MultiValue<'lua>, Error>| #[trigger]
                    callback_answers(poll, k, c, r) ==> starter.poller_of(fut).may_answer(k, c, r)
            },
{
}

/// The same of a function that may change its own state when it is called: the future of a call is
/// made by the function in the state that it has by then, which for the first call is the one that
/// it was handed over in.
pub proof fn law_mutable_call_polls_its_own_future<'lua, Arg, Ret, RetFut, F, P, R>(
    start: Function<'lua>,
    starter: Starter<F, P, R>,
    call: nat,
    ctx: Context<'lua>,
    args: MultiValue<'lua>,
    poll: Function<'lua>,
) where
    Arg: FromArgs<'lua>,
    F: FnMut(Context<'lua>, Arg) -> RetFut,
    P: Fn(RetFut) -> (RetFut, Poll<Result<Ret, Error>>),
    R: Fn(Ret, Context<'lua>) -> Result<MultiValue<'lua>, Error>,

    requires
        is_starter_mut(start, starter),
        callback_starts(start, call, ctx, args, Ok::<Function<'lua>, Error>(poll)),
    ensures
        exists|state: F, arg: Arg, fut: RetFut|
            {
                &&& call == 0 ==> state == starter.func
                &&& converts_to(args, ctx, Ok::<Arg, Error>(arg))
                &&& #[trigger] call_ensures(state, (ctx, arg), fut)
                &&& forall|k: nat, c: Context<'lua>, r: Result<MultiValue<'lua>, Error>| #[trigger]
                    callback_answers(poll, k, c, r) ==> starter.poller_of(fut).may_answer(k, c, r)
            },
{
}

/// Polling the future `futs[0]` can only lead through all of `futs`, pending each time, until a poll
/// of the last one gives `ended`.
pub open spec fn ends_after<RetFut, Ret, P>(
    poll_fut: P,
    futs: Seq<RetFut>,
    ended: Result<Ret, Error>,
) -> bool where P: Fn(RetFut) -> (RetFut, Poll<Result<Ret, Error>>) {
    &&& futs.len() > 0
    &&& forall|i: int, left: RetFut, polled: Poll<Result<Ret, Error>>|
        0 <= i < futs.len() && #[trigger] call_ensures(poll_fut, (futs[i],), (left, polled))
            ==> if i + 1 < futs.len() {
            left == futs[i + 1] && polled is Pending
        } else {
            polled == Poll::Ready(ended)
        }
}

/// A Lua function that polls a future tells Lua as often as the future is pending that it is, and
/// what it has ended in at the very next call.
pub proof fn law_each_pending_poll_is_told<'lua, RetFut, Ret, P, R>(
    func: Function<'lua>,
    poller: Poller<RetFut, P, R>,
    futs: Seq<RetFut>,
    ended: Result<Ret, Error>,
    call: nat,
    ctx: Context<'lua>,
    r: Result<MultiValue<'lua>, Error>,
) where
    P: Fn(RetFut) -> (RetFut, Poll<Result<Ret, Error>>),
    R: Fn(Ret, Context<'lua>) -> Result<MultiValue<'lua>, Error>,

    requires
        is_poller(func, poller),
        ends_after(poller.poll_fut, futs, ended),
        poller.fut == Some(futs[0]),
        callback_answers(func, call, ctx, r),
        call < futs.len(),
    ensures
        call + 1 < futs.len() ==> r is Ok && is_pending_reply(r->Ok_0),
        call + 1 == futs.len() ==> answers(ctx, Poll::Ready(ended), poller.to_lua, r),
{
    let (before, polled, after) = choose|
        before: Poller<RetFut, P, R>,
        polled: Poll<Result<Ret, Error>>,
        after: Poller<RetFut, P, R>,
    |
        {
            &&& before == (Poller { fut: before.fut, ..poller })
            &&& reached(poller.poll_fut, poller.fut->0, call, before.fut->0)
            &&& #[trigger] before.polls(ctx, polled, after, r)
        };
    lemma_polls_lead_on(poller.poll_fut, futs, ended, call, before.fut->0);
}

proof fn lemma_polls_lead_on<RetFut, Ret, P>(
    poll_fut: P,
    futs: Seq<RetFut>,
    ended: Result<Ret, Error>,
    polls: nat,
    fut: RetFut,
) where P: Fn(RetFut) -> (RetFut, Poll<Result<Ret, Error>>)
    requires
        ends_after(poll_fut, futs, ended),
        reached(poll_fut, futs[0], polls, fut),
        polls < futs.len(),
    ensures
        fut == futs[polls as int],
    decreases polls,
{
    if polls > 0 {
        let (earlier, polled) = choose|earlier: RetFut, polled: Poll<Result<Ret, Error>>|
            {
                &&& reached(poll_fut, futs[0], (polls - 1) as nat, earlier)
                &&& #[trigger] call_ensures(poll_fut, (earlier,), (fut, polled))
            };
        lemma_polls_lead_on(poll_fut, futs, ended, (polls - 1) as nat, earlier);
    }
}

} // verus!
