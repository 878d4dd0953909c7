//! The Lua side of an asynchronous function.
//!
//! Only Lua code can yield from a coroutine, so each asynchronous function is a small Lua function
//! around Rust callbacks. It asks for a poll again and again. As long as the reply is that the
//! future is pending it yields, with no values, and when it is resumed it asks again. Once the
//! future is ready it returns the results.

use crate::lua::{
    call_with_function, call_with_userdata, chunk_name, chunk_of, chunk_source, eval, evaluates_to,
    load, returns_for_function, returns_for_userdata, set_name,
};
use rlua::{AnyUserData, Chunk, Context, Error, Function};
use vstd::prelude::*;
use vstd::string::{is_ascii, is_ascii_spec_bytes, StringSliceAdditionalSpecFns};

verus! {

/// Makes an asynchronous function of a Rust callback. The callback takes the arguments of a call
/// and returns the function that polls the future of this call.
pub const MAKE_POLLER: &'static str = "function(start)
    return function(...)
        local poll = start(...)
        while true do
            local results, ready = poll()
            if ready then
                local count = 0
                for key in next, results do
                    if key > count then count = key end
                end
                return table.unpack(results, 1, count)
            end
            coroutine.yield()
        end
    end
end";

/// Makes an asynchronous function of a generator of futures. The method `set_arg` of the generator
/// takes the arguments of a call, and its method `poll` polls the future of this call.
pub const MAKE_USERDATA_POLLER: &'static str = "function(generator)
    return function(...)
        generator:set_arg(...)
        while true do
            local results, ready = generator:poll()
            if ready then
                local count = 0
                for key in next, results do
                    if key > count then count = key end
                end
                return table.unpack(results, 1, count)
            end
            coroutine.yield()
        end
    end
end";

/// The name of both scripts in error traces.
pub const HELPER_NAME: &'static str = "coroutine yield helper";

/// `chunk` is the helper script `source`, ready to run in `ctx` under its name.
pub open spec fn is_helper(chunk: Chunk<'_, '_>, ctx: Context<'_>, source: &str) -> bool {
    &&& chunk_of(chunk, ctx)
    &&& chunk_source(chunk) == source.spec_bytes()
    &&& chunk_name(chunk) == Some(HELPER_NAME.spec_bytes())
}

/// The name of the scripts holds no zero byte.
proof fn lemma_name_is_valid()
    ensures
        !HELPER_NAME.spec_bytes().contains(0),
{
    reveal_strlit("coroutine yield helper");
    assert(is_ascii(HELPER_NAME));
    is_ascii_spec_bytes(HELPER_NAME);
}

/// The helper script `source`, ready to run.
fn helper<'lua, 'a>(ctx: Context<'lua>, source: &'a str) -> (r: Result<Chunk<'lua, 'a>, Error>)
    ensures
        r is Ok,
        is_helper(r->Ok_0, ctx, source),
{
    proof {
        lemma_name_is_valid();
    }
    set_name(load(ctx, source), HELPER_NAME)
}

/// `r` can come of running the script [`MAKE_POLLER`] in `ctx` and calling its value on `start`.
pub open spec fn wraps_start<'lua>(
    ctx: Context<'lua>,
    start: Function<'lua>,
    r: Result<Function<'lua>, Error>,
) -> bool {
    exists|chunk: Chunk<'lua, 'static>, made: Result<Function<'lua>, Error>|
        {
            &&& is_helper(chunk, ctx, MAKE_POLLER)
            &&& #[trigger] evaluates_to(chunk, made)
            &&& match made {
                Err(e) => r == Err::<Function<'lua>, Error>(e),
                Ok(make) => returns_for_function(make, start, r),
            }
        }
}

/// `r` can come of running the script [`MAKE_USERDATA_POLLER`] in `ctx` and calling its value on
/// `generator`.
pub open spec fn wraps_generator<'lua>(
    ctx: Context<'lua>,
    generator: AnyUserData<'lua>,
    r: Result<Function<'lua>, Error>,
) -> bool {
    exists|chunk: Chunk<'lua, 'static>, made: Result<Function<'lua>, Error>|
        {
            &&& is_helper(chunk, ctx, MAKE_USERDATA_POLLER)
            &&& #[trigger] evaluates_to(chunk, made)
            &&& match made {
                Err(e) => r == Err::<Function<'lua>, Error>(e),
                Ok(make) => returns_for_userdata(make, generator, r),
            }
        }
}

/// Makes an asynchronous function of the callback `start`.
pub fn wrap_start<'lua>(ctx: Context<'lua>, start: Function<'lua>) -> (r: Result<
    Function<'lua>,
    Error,
>)
    ensures
        wraps_start(ctx, start, r),
{
    let chunk = helper(ctx, MAKE_POLLER)?;
    let make = eval(chunk)?;
    call_with_function(&make, start)
}

/// Makes an asynchronous function of the generator `generator`.
pub fn wrap_generator<'lua>(ctx: Context<'lua>, generator: AnyUserData<'lua>) -> (r: Result<
    Function<'lua>,
    Error,
>)
    ensures
        wraps_generator(ctx, generator, r),
{
    let chunk = helper(ctx, MAKE_USERDATA_POLLER)?;
    let make = eval(chunk)?;
    call_with_userdata(&make, generator)
}

} // verus!
