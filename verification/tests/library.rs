//! Futures here are plain numbers: a future is pending as many times as the number says.

use std::sync::{Arc, Mutex};

use rlua::{Context, Error, Function, Lua, MultiValue, Result, Table, ToLuaMulti, Value};
use rlua::{FromLuaMulti, UserData, UserDataMethods};
use rlua_async::args::FromArgs;
use rlua_async::fut_gen::FutGen;
use rlua_async::helper::{wrap_generator, wrap_start, HELPER_NAME};
use rlua_async::lua::ThreadStatus;
use rlua_async::poll::Poll;
use rlua_async::poller::{poller_fn, Poller, Starter};
use rlua_async::prelude::{ChunkExt, ContextExt, FunctionExt, ScopeExt};
use rlua_async::reply::{answer, answer_results};
use rlua_async::thread::{settle, PollThreadFut};

type Fut = (u32, i64);

/// Ends in the number that the future carries, or in an error if it carries none.
fn poll_fut(fut: Fut) -> (Fut, Poll<Result<i64>>) {
    if fut.0 > 0 {
        ((fut.0 - 1, fut.1), Poll::Pending)
    } else if fut.1 < 0 {
        (fut, Poll::Ready(Err(Error::StackError)))
    } else {
        (fut, Poll::Ready(Ok(fut.1)))
    }
}

fn num_to_lua<'lua>(n: i64, ctx: Context<'lua>) -> Result<MultiValue<'lua>> {
    n.to_lua_multi(ctx)
}

struct Args<T>(T);

impl<'lua, T: FromLuaMulti<'lua>> FromArgs<'lua> for Args<T> {
    fn from_args(values: MultiValue<'lua>, ctx: Context<'lua>) -> Result<Self> {
        Ok(Args(T::from_lua_multi(values, ctx)?))
    }
}

fn countdown<'lua>(ctx: Context<'lua>) -> Result<Function<'lua>> {
    ctx.create_async_function(|_: Context<'lua>, Args(arg): Args<Fut>| arg, poll_fut, num_to_lua)
}

fn poll<'lua, Arg: ToLuaMulti<'lua>, Ret: FromLuaMulti<'lua>>(
    call: &mut PollThreadFut<'lua, Arg>,
) -> Option<Poll<Result<Ret>>> {
    call.poll(
        |args: Arg, ctx| args.to_lua_multi(ctx),
        |values, ctx| Ret::from_lua_multi(values, ctx),
    )
}

fn is_pending<T>(polled: Option<Poll<T>>) -> bool {
    matches!(polled, Some(Poll::Pending))
}

fn ready<T>(polled: Option<Poll<T>>) -> T {
    match polled {
        Some(Poll::Ready(v)) => v,
        _ => panic!("not ready"),
    }
}

/// The error that a Rust callback has raised in the Lua code that called it.
fn cause<T>(called: Result<T>) -> Error {
    match called {
        Err(Error::CallbackError { cause, .. }) => cause.as_ref().clone(),
        _ => panic!("no error of a callback"),
    }
}

fn assert_pending_reply(reply: Result<MultiValue<'_>>) {
    let values = reply.unwrap().into_vec();
    assert_eq!(values.len(), 2);
    assert!(matches!(values[0], Value::Nil));
    assert!(matches!(values[1], Value::Boolean(false)));
}

fn assert_ready_reply(reply: Result<MultiValue<'_>>, results: &[i64]) {
    let values = reply.unwrap().into_vec();
    assert_eq!(values.len(), 2);
    match &values[0] {
        Value::Table(table) => {
            assert_eq!(table.raw_len() as usize, results.len());
            for (i, n) in results.iter().enumerate() {
                assert_eq!(table.get::<_, i64>(i + 1).unwrap(), *n);
            }
        }
        _ => panic!("not a table"),
    }
    assert!(matches!(values[1], Value::Boolean(true)));
}

#[test]
fn settle_follows_the_status() {
    assert_eq!(settle(7, ThreadStatus::Resumable), Poll::Pending);
    assert_eq!(settle(7, ThreadStatus::Unresumable), Poll::Ready(7));
}

#[test]
fn pending_future_is_told_as_nil_and_false() {
    Lua::new().context(|ctx| {
        assert_pending_reply(answer(ctx, Poll::<Result<i64>>::Pending, &num_to_lua));
    });
}

#[test]
fn ready_future_is_told_as_table_and_true() {
    Lua::new().context(|ctx| {
        assert_ready_reply(answer(ctx, Poll::Ready(Ok(8)), &num_to_lua), &[8]);
        let three = |n: i64, ctx| (n, n + 1, n + 2).to_lua_multi(ctx);
        assert_ready_reply(answer(ctx, Poll::Ready(Ok(4)), &three), &[4, 5, 6]);
        assert_ready_reply(answer_results(ctx, ().to_lua_multi(ctx)), &[]);
    });
}

#[test]
fn failed_future_is_not_told_but_raised() {
    Lua::new().context(|ctx| {
        let reply = answer(ctx, Poll::Ready(Err(Error::StackError)), &num_to_lua);
        assert!(matches!(reply, Err(Error::StackError)));
        let fail = |_: i64, _: Context<'_>| Err(Error::BindError);
        let reply = answer(ctx, Poll::Ready(Ok(1)), &fail);
        assert!(matches!(reply, Err(Error::BindError)));
        assert!(matches!(answer_results(ctx, Err(Error::BindError)), Err(Error::BindError)));
    });
}

#[test]
fn generator_polls_a_future_to_its_end() {
    Lua::new().context(|ctx| {
        let mut futures = FutGen::new(|_: Context<'_>, arg: i64| (2, arg * 10));
        assert_eq!(futures.cur_fut, None);
        futures.set_arg(ctx, 3);
        assert_eq!(futures.cur_fut, Some((2, 30)));
        assert_pending_reply(futures.poll(ctx, poll_fut, &num_to_lua));
        assert_eq!(futures.cur_fut, Some((1, 30)));
        assert_pending_reply(futures.poll(ctx, poll_fut, &num_to_lua));
        assert_eq!(futures.cur_fut, Some((0, 30)));
        assert_ready_reply(futures.poll(ctx, poll_fut, &num_to_lua), &[30]);
        assert_eq!(futures.cur_fut, None);
        futures.set_arg(ctx, 4);
        assert_eq!(futures.cur_fut, Some((2, 40)));
    });
}

#[test]
fn generator_drops_a_failed_future() {
    Lua::new().context(|ctx| {
        let mut futures = FutGen::new(|_: Context<'_>, arg: i64| (0, arg));
        futures.set_arg(ctx, -1);
        let reply = futures.poll(ctx, poll_fut, &num_to_lua);
        assert!(matches!(reply, Err(Error::StackError)));
        assert_eq!(futures.cur_fut, None);
    });
}

#[test]
fn poller_polls_its_own_future() {
    Lua::new().context(|ctx| {
        let mut poller = Poller { fut: Some((1, 5)), poll_fut, to_lua: num_to_lua };
        assert_pending_reply(poller.poll(ctx));
        assert_eq!(poller.fut, Some((0, 5)));
        assert_ready_reply(poller.poll(ctx), &[5]);
        assert_eq!(poller.fut, Some((0, 5)));
    });
}

#[test]
fn poller_function_polls_once_for_each_call() {
    Lua::new().context(|ctx| {
        let poll = poller_fn(ctx, (1, 9), poll_fut, num_to_lua).unwrap();
        assert_eq!(poll.call::<_, (Option<Table>, bool)>("ignored").unwrap().1, false);
        let (results, ready): (Table, bool) = poll.call(()).unwrap();
        assert!(ready);
        assert_eq!(results.get::<_, i64>(1).unwrap(), 9);
    });
}

#[test]
fn poller_function_tells_pending_and_then_the_results() {
    Lua::new().context(|ctx| {
        let both = |n: i64, ctx| (n, 2 * n).to_lua_multi(ctx);
        let poll = poller_fn(ctx, (1, 10), poll_fut, both).unwrap();
        assert_pending_reply(poll.call(()));
        assert_ready_reply(poll.call(()), &[10, 20]);

        let poll = poller_fn(ctx, (0, 10), poll_fut, both).unwrap();
        assert_ready_reply(poll.call((1, "two")), &[10, 20]);
    });
}

#[test]
fn starter_makes_a_poller_function() {
    Lua::new().context(|ctx| {
        let mut starter =
            Starter { func: |_: Context<'_>, arg: Fut| arg, poll_fut, to_lua: num_to_lua };
        let poll = starter.start(ctx, (0, 6)).unwrap();
        assert_ready_reply(poll.call(()), &[6]);
        let poll = starter.start_mut(ctx, (1, 7)).unwrap();
        assert_pending_reply(poll.call(()));
        assert_ready_reply(poll.call(()), &[7]);
    });
}

#[test]
fn poller_keeps_a_future_whose_result_could_not_be_told() {
    Lua::new().context(|ctx| {
        let poll = poller_fn(
            ctx,
            0,
            |polls: i64| (polls + 1, Poll::Ready(Ok(polls))),
            |polls: i64, ctx| match polls {
                0 => Err(Error::BindError),
                _ => polls.to_lua_multi(ctx),
            },
        )
        .unwrap();
        assert!(matches!(cause(poll.call::<_, MultiValue>(())), Error::BindError));
        assert_ready_reply(poll.call(()), &[1]);
        assert_ready_reply(poll.call(()), &[2]);
    });
}

#[test]
fn arguments_of_an_asynchronous_function_that_cannot_be_converted() {
    Lua::new().context(|ctx| {
        let f = countdown(ctx).unwrap();
        let refused = cause(f.call::<_, i64>("no number"));
        assert!(matches!(refused, Error::FromLuaConversionError { .. }));
        assert_eq!(f.call::<_, i64>((0, 3)).unwrap(), 3);
    });
}

#[test]
fn call_from_within_a_call_converts_its_arguments_first() {
    Lua::new().context(|ctx| {
        let errors = Arc::new(Mutex::new(Vec::new()));
        let seen = errors.clone();
        let f = ctx
            .create_async_function_mut(
                move |ctx: Context<'_>, Args(n): Args<i64>| {
                    let f: Function = ctx.globals().get("f").unwrap();
                    seen.lock().unwrap().push(cause(f.call::<_, i64>("no number")));
                    seen.lock().unwrap().push(cause(f.call::<_, i64>(n)));
                    (0, n)
                },
                poll_fut,
                num_to_lua,
            )
            .unwrap();
        ctx.globals().set("f", f.clone()).unwrap();
        assert_eq!(f.call::<_, i64>(14).unwrap(), 14);
        let errors = errors.lock().unwrap();
        assert_eq!(errors.len(), 2);
        assert!(matches!(errors[0], Error::FromLuaConversionError { .. }));
        assert!(matches!(errors[1], Error::RecursiveMutCallback));
    });
}

/// Calls the global function `f` on the number before it, down to zero.
struct Nested(i64);

impl<'lua> FromArgs<'lua> for Nested {
    fn from_args(values: MultiValue<'lua>, ctx: Context<'lua>) -> Result<Self> {
        let n = i64::from_lua_multi(values, ctx)?;
        if n == 0 {
            return Ok(Nested(0));
        }
        let f: Function = ctx.globals().get("f")?;
        Ok(Nested(n + f.call::<_, i64>(n - 1)?))
    }
}

#[test]
fn conversion_may_call_the_function() {
    Lua::new().context(|ctx| {
        let f = ctx
            .create_async_function_mut(|_: Context<'_>, arg: Nested| (0, arg.0), poll_fut, num_to_lua)
            .unwrap();
        ctx.globals().set("f", f.clone()).unwrap();
        assert_eq!(f.call::<_, i64>(4).unwrap(), 10);
    });
}

#[test]
fn call_is_pending_as_often_as_its_future() {
    Lua::new().context(|ctx| {
        ctx.globals().set("f", countdown(ctx).unwrap()).unwrap();
        let mut call = ctx.load("return f(3, 20) + 1").call_async(ctx, ()).unwrap();
        assert_eq!(call.args, Some(()));
        for _ in 0..3 {
            assert!(is_pending(poll::<_, i64>(&mut call)));
            assert_eq!(call.args, None);
        }
        assert_eq!(ready(poll::<_, i64>(&mut call)).unwrap(), 21);
        assert!(matches!(ready(poll::<_, i64>(&mut call)), Err(Error::CoroutineInactive)));
    });
}

#[test]
fn several_futures_in_one_call() {
    Lua::new().context(|ctx| {
        ctx.globals().set("f", countdown(ctx).unwrap()).unwrap();
        let mut call = ctx.load("return f(1, 2) * f(0, 3) * f(2, 5)").call_async(ctx, ()).unwrap();
        for _ in 0..3 {
            assert!(is_pending(poll::<_, i64>(&mut call)));
        }
        assert_eq!(ready(poll::<_, i64>(&mut call)).unwrap(), 30);
    });
}

#[test]
fn calls_do_not_share_futures() {
    Lua::new().context(|ctx| {
        let f = countdown(ctx).unwrap();
        let mut one = f.call_async(ctx, (2, 1)).unwrap();
        let mut other = f.call_async(ctx, (1, 2)).unwrap();
        assert!(is_pending(poll::<_, i64>(&mut one)));
        assert!(is_pending(poll::<_, i64>(&mut other)));
        assert_eq!(ready(poll::<_, i64>(&mut other)).unwrap(), 2);
        assert!(is_pending(poll::<_, i64>(&mut one)));
        assert_eq!(ready(poll::<_, i64>(&mut one)).unwrap(), 1);
    });
}

#[test]
fn arguments_are_handed_over_once() {
    Lua::new().context(|ctx| {
        let f: Function = ctx
            .load(
                "function(...)
                    local given = select('#', ...)
                    local later = select('#', coroutine.yield())
                    return given, later
                end",
            )
            .eval()
            .unwrap();
        let mut call = f.call_async(ctx, (1, 2, 3)).unwrap();
        assert!(is_pending(poll::<_, (i64, i64)>(&mut call)));
        assert_eq!(ready(poll::<_, (i64, i64)>(&mut call)).unwrap(), (3, 0));
    });
}

#[test]
fn yields_pass_out_no_values() {
    Lua::new().context(|ctx| {
        ctx.globals().set("f", countdown(ctx).unwrap()).unwrap();
        let (alive, count): (bool, i64) = ctx
            .load(
                "local co = coroutine.create(function() return f(1, 5) end)
                local count = select('#', coroutine.resume(co)) - 1
                return coroutine.status(co) == 'suspended', count",
            )
            .eval()
            .unwrap();
        assert!(alive);
        assert_eq!(count, 0);
    });
}

#[test]
fn arguments_that_cannot_be_converted() {
    Lua::new().context(|ctx| {
        let f: Function = ctx.load("function(...) return select('#', ...) end").eval().unwrap();
        let mut call = f.call_async(ctx, 5).unwrap();
        let refused: Option<Poll<Result<i64>>> = call.poll(
            |_, _| Err(Error::BindError),
            |values, ctx| i64::from_lua_multi(values, ctx),
        );
        assert!(matches!(ready(refused), Err(Error::BindError)));
        assert_eq!(call.args, None);
        assert_eq!(ready(poll::<_, i64>(&mut call)).unwrap(), 0);
    });
}

#[test]
fn results_that_cannot_be_converted() {
    Lua::new().context(|ctx| {
        let mut call = ctx.load("return {}").call_async(ctx, ()).unwrap();
        let refused = ready(poll::<_, i64>(&mut call));
        assert!(matches!(refused, Err(Error::FromLuaConversionError { .. })));
    });
}

#[test]
fn error_of_the_lua_code() {
    Lua::new().context(|ctx| {
        let mut call = ctx.load("error('oops')").exec_async(ctx).unwrap();
        match ready(poll::<_, ()>(&mut call)) {
            Err(Error::RuntimeError(message)) => assert!(message.contains("oops")),
            _ => panic!("no error"),
        }
    });
}

#[test]
fn error_of_the_future_is_raised_in_lua() {
    Lua::new().context(|ctx| {
        ctx.globals().set("f", countdown(ctx).unwrap()).unwrap();
        let mut call = ctx.load("return f(1, -1)").call_async(ctx, ()).unwrap();
        assert!(is_pending(poll::<_, i64>(&mut call)));
        match ready(poll::<_, i64>(&mut call)) {
            Err(Error::CallbackError { cause, traceback }) => {
                assert!(matches!(*cause, Error::StackError));
                assert!(traceback.contains(HELPER_NAME));
            }
            _ => panic!("no error"),
        }

        let mut call = ctx.load("return (pcall(f, 0, -1))").call_async(ctx, ()).unwrap();
        assert_eq!(ready(poll::<_, bool>(&mut call)).unwrap(), false);
    });
}

#[test]
fn chunk_that_cannot_be_compiled() {
    Lua::new().context(|ctx| {
        let call = ctx.load("return +").call_async(ctx, ());
        assert!(matches!(call, Err(Error::SyntaxError { .. })));
        let call = ctx.load("return +").exec_async(ctx);
        assert!(matches!(call, Err(Error::SyntaxError { .. })));
    });
}

#[test]
fn chunk_takes_arguments() {
    Lua::new().context(|ctx| {
        let mut call = ctx.load("local a, b = ... return a - b").call_async(ctx, (9, 4)).unwrap();
        assert_eq!(ready(poll::<_, i64>(&mut call)).unwrap(), 5);
    });
}

#[test]
fn conclude_follows_the_coroutine() {
    Lua::new().context(|ctx| {
        let f: Function = ctx.load("function() return 1 end").eval().unwrap();
        let mut call = f.call_async(ctx, ()).unwrap();
        let from_lua = |values, ctx| i64::from_lua_multi(values, ctx);
        let five = || 5.to_lua_multi(ctx);
        assert!(is_pending(call.conclude(five(), from_lua)));
        assert_eq!(ready(poll::<_, i64>(&mut call)).unwrap(), 1);
        assert_eq!(ready(call.conclude(five(), from_lua)).unwrap(), 5);
        let failed = ready(call.conclude(Err(Error::BindError), from_lua));
        assert!(matches!(failed, Err(Error::BindError)));

        let f: Function = ctx.load("function() error('oops') end").eval().unwrap();
        let mut call = f.call_async(ctx, ()).unwrap();
        assert!(ready(poll::<_, i64>(&mut call)).is_err());
        assert!(call.conclude(five(), from_lua).is_none());
    });
}

#[test]
fn call_needs_a_coroutine() {
    Lua::new().context(|ctx| {
        let failed = PollThreadFut::new(Err(Error::BindError), ctx, 1);
        assert!(matches!(failed, Err(Error::BindError)));
        let f: Function = ctx.load("function(a) return a end").eval().unwrap();
        let mut call = PollThreadFut::new(ctx.create_thread(f), ctx, 1).unwrap();
        assert_eq!(call.args, Some(1));
        assert_eq!(ready(poll::<_, i64>(&mut call)).unwrap(), 1);
    });
}

#[test]
fn all_results_come_through() {
    Lua::new().context(|ctx| {
        let f = ctx
            .create_async_function(
                |_: Context<'_>, _: Args<()>| (1, 0),
                poll_fut,
                |_: i64, ctx| (Value::Nil, 2, Value::Nil, 4).to_lua_multi(ctx),
            )
            .unwrap();
        let mut call = f.call_async(ctx, ()).unwrap();
        assert!(is_pending(poll::<_, MultiValue>(&mut call)));
        let values = ready(poll::<_, MultiValue>(&mut call)).unwrap().into_vec();
        assert_eq!(values.len(), 4);
        assert!(matches!(values[0], Value::Nil));
        assert!(matches!(values[1], Value::Integer(2)));
        assert!(matches!(values[2], Value::Nil));
        assert!(matches!(values[3], Value::Integer(4)));
    });
}

#[test]
fn mutable_function_keeps_its_state() {
    Lua::new().context(|ctx| {
        let mut calls = 0;
        let f = ctx
            .create_async_function_mut(
                move |_: Context<'_>, _: Args<()>| {
                    calls += 1;
                    (1, calls)
                },
                poll_fut,
                num_to_lua,
            )
            .unwrap();
        for expected in 1..4 {
            let mut call = f.call_async(ctx, ()).unwrap();
            assert!(is_pending(poll::<_, i64>(&mut call)));
            assert_eq!(ready(poll::<_, i64>(&mut call)).unwrap(), expected);
        }
    });
}

#[test]
fn calls_of_a_mutable_function_overlap() {
    Lua::new().context(|ctx| {
        let mut calls = 0;
        let f = ctx
            .create_async_function_mut(
                move |_: Context<'_>, Args(pending): Args<u32>| {
                    calls += 1;
                    (pending, calls)
                },
                poll_fut,
                num_to_lua,
            )
            .unwrap();
        let mut one = f.call_async(ctx, 2).unwrap();
        let mut other = f.call_async(ctx, 1).unwrap();
        assert!(is_pending(poll::<_, i64>(&mut one)));
        assert!(is_pending(poll::<_, i64>(&mut other)));
        assert!(is_pending(poll::<_, i64>(&mut one)));
        assert_eq!(ready(poll::<_, i64>(&mut one)).unwrap(), 1);
        assert_eq!(ready(poll::<_, i64>(&mut other)).unwrap(), 2);
    });
}

#[test]
fn function_is_called_once_for_each_call_from_lua() {
    Lua::new().context(|ctx| {
        let calls = Arc::new(Mutex::new(Vec::new()));
        let seen = calls.clone();
        let f = ctx
            .create_async_function(
                move |_: Context<'_>, Args(arg): Args<Fut>| {
                    seen.lock().unwrap().push(arg);
                    arg
                },
                poll_fut,
                num_to_lua,
            )
            .unwrap();
        ctx.globals().set("f", f).unwrap();
        assert_eq!(calls.lock().unwrap().len(), 0);
        let mut call = ctx.load("return f(2, 3) + f(1, 4)").call_async(ctx, ()).unwrap();
        for _ in 0..3 {
            assert!(is_pending(poll::<_, i64>(&mut call)));
        }
        assert_eq!(ready(poll::<_, i64>(&mut call)).unwrap(), 7);
        assert_eq!(*calls.lock().unwrap(), vec![(2, 3), (1, 4)]);
    });
}

#[test]
fn start_function_written_in_lua() {
    Lua::new().context(|ctx| {
        let start: Function = ctx
            .load(
                "function(n)
                    return function()
                        if n == 0 then return {'done', 'now'}, true end
                        n = n - 1
                        return nil, false
                    end
                end",
            )
            .eval()
            .unwrap();
        let f = wrap_start(ctx, start).unwrap();
        let mut call = f.call_async(ctx, 2).unwrap();
        assert!(is_pending(poll::<_, String>(&mut call)));
        assert!(is_pending(poll::<_, String>(&mut call)));
        let (first, second) = ready(poll::<_, (String, String)>(&mut call)).unwrap();
        assert_eq!((first.as_str(), second.as_str()), ("done", "now"));
    });
}

struct Countdown(FutGen<Fut, fn(Context<'_>, Fut) -> Fut>);

fn same(_: Context<'_>, fut: Fut) -> Fut {
    fut
}

impl UserData for Countdown {
    fn add_methods<'lua, M: UserDataMethods<'lua, Self>>(methods: &mut M) {
        methods.add_method_mut("set_arg", |ctx, this, arg: Fut| {
            this.0.set_arg(ctx, arg);
            Ok(())
        });
        methods.add_method_mut("poll", |ctx, this, _: ()| this.0.poll(ctx, poll_fut, &num_to_lua));
    }
}

#[test]
fn generator_function() {
    Lua::new().context(|ctx| {
        let generator = ctx.create_userdata(Countdown(FutGen::new(same))).unwrap();
        let f = wrap_generator(ctx, generator).unwrap();
        for n in 0..3 {
            let mut call = f.call_async(ctx, (n, 11)).unwrap();
            for _ in 0..n {
                assert!(is_pending(poll::<_, i64>(&mut call)));
            }
            assert_eq!(ready(poll::<_, i64>(&mut call)).unwrap(), 11);
        }
        let mut call = f.call_async(ctx, (0, -1)).unwrap();
        assert!(matches!(ready(poll::<_, i64>(&mut call)), Err(Error::CallbackError { .. })));
        let mut call = f.call_async(ctx, (0, 12)).unwrap();
        assert_eq!(ready(poll::<_, i64>(&mut call)).unwrap(), 12);
    });
}

#[test]
fn scoped_function() {
    Lua::new().context(|ctx| {
        ctx.scope(|scope| {
            let generator = scope.create_nonstatic_userdata(Countdown(FutGen::new(same)));
            let f = scope.create_async_function(ctx, generator).unwrap();
            let mut call = f.call_async(ctx, (1, 13)).unwrap();
            assert!(is_pending(poll::<_, i64>(&mut call)));
            assert_eq!(ready(poll::<_, i64>(&mut call)).unwrap(), 13);

            let failed = scope.create_async_function(ctx, Err(Error::BindError));
            assert!(matches!(failed, Err(Error::BindError)));
        });
    });
}
