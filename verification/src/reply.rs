//! What the Lua side of an asynchronous function is told after each poll of its future.
//!
//! A reply is a list of two values. While the future is pending they are `nil` and `false`. Once it
//! is ready they are a table of its results and `true`. A future that ends in an error has no reply:
//! the error is raised in the Lua code that asked.

use crate::lua::{into_vec, kind, nil, pair, tabulate, tabulates_to, values, Kind};
use crate::poll::Poll;
use rlua::{Context, Error, MultiValue, Value};
use vstd::prelude::*;

verus! {

/// `m` tells Lua that the future is pending.
pub open spec fn is_pending_reply(m: MultiValue<'_>) -> bool {
    &&& values(m).len() == 2
    &&& kind(values(m)[0]) == Kind::Nil
    &&& kind(values(m)[1]) == Kind::Boolean(false)
}

/// `m` tells Lua that the future is done and that its results are in `table`.
pub open spec fn is_ready_reply(m: MultiValue<'_>, table: Value<'_>) -> bool {
    &&& values(m).len() == 2
    &&& values(m)[0] == table
    &&& kind(table) == Kind::Table
    &&& kind(values(m)[1]) == Kind::Boolean(true)
}

/// `r` is the answer to Lua once the results of the future have been converted to `converted`.
pub open spec fn answers_results<'lua>(
    ctx: Context<'lua>,
    converted: Result<MultiValue<'lua>, Error>,
    r: Result<MultiValue<'lua>, Error>,
) -> bool {
    match converted {
        Err(e) => r == Err::<MultiValue<'lua>, Error>(e),
        Ok(results) => exists|tabulated: Result<Value<'lua>, Error>| #[trigger]
            tabulates_to(values(results), ctx, tabulated) && match tabulated {
                Err(e) => r == Err::<MultiValue<'lua>, Error>(e),
                Ok(table) => r matches Ok(m) && is_ready_reply(m, table),
            },
    }
}

/// `r` is the answer to Lua once a poll of the future has given `polled`.
pub open spec fn answers<'lua, Ret, R>(
    ctx: Context<'lua>,
    polled: Poll<Result<Ret, Error>>,
    to_lua: R,
    r: Result<MultiValue<'lua>, Error>,
) -> bool where R: Fn(Ret, Context<'lua>) -> Result<MultiValue<'lua>, Error> {
    match polled {
        Poll::Pending => r matches Ok(m) && is_pending_reply(m),
        Poll::Ready(Err(e)) => r == Err::<MultiValue<'lua>, Error>(e),
        Poll::Ready(Ok(ret)) => exists|converted: Result<MultiValue<'lua>, Error>| #[trigger]
            call_ensures(to_lua, (ret, ctx), converted) && answers_results(ctx, converted, r),
    }
}

/// Answers Lua once the results of the future have been converted.
pub fn answer_results<'lua>(
    ctx: Context<'lua>,
    converted: Result<MultiValue<'lua>, Error>,
) -> (r: Result<MultiValue<'lua>, Error>)
    ensures
        answers_results(ctx, converted, r),
{
    let results = into_vec(converted?);
    let table = tabulate(results, ctx)?;
    pair(table, true, ctx)
}

/// Answers Lua after a poll of the future.
pub fn answer<'lua, Ret, R>(
    ctx: Context<'lua>,
    polled: Poll<Result<Ret, Error>>,
    to_lua: &R,
) -> (r: Result<MultiValue<'lua>, Error>) where
    R: Fn(Ret, Context<'lua>) -> Result<MultiValue<'lua>, Error>,

    requires
        polled matches Poll::Ready(Ok(ret)) ==> call_requires(*to_lua, (ret, ctx)),
    ensures
        answers(ctx, polled, *to_lua, r),
{
    match polled {
        Poll::Pending => pair(nil(), false, ctx),
        Poll::Ready(ended) => {
            let ret = ended?;
            let converted = to_lua(ret, ctx);
            answer_results(ctx, converted)
        },
    }
}

} // verus!
