//! The arguments that Lua code calls an asynchronous function with.

use rlua::{Context, Error, FromLuaMulti, MultiValue};
use vstd::prelude::*;

verus! {

/// Arguments that can be made of the Lua values of a call.
pub trait FromArgs<'lua>: Sized {
    /// Converts the values that a function was called with.
    fn from_args(values: MultiValue<'lua>, ctx: Context<'lua>) -> (r: Result<Self, Error>);
}

/// `converted` can come of converting `values` to arguments in `ctx`.
pub open spec fn converts_to<'lua, Arg: FromArgs<'lua>>(
    values: MultiValue<'lua>,
    ctx: Context<'lua>,
    converted: Result<Arg, Error>,
) -> bool {
    call_ensures(Arg::from_args, (values, ctx), converted)
}

/// Arguments that `rlua` converts by itself, before it hands them to a callback.
pub struct Received<Arg>(pub Arg);

impl<'lua, Arg: FromArgs<'lua>> FromLuaMulti<'lua> for Received<Arg> {
    fn from_lua_multi(values: MultiValue<'lua>, ctx: Context<'lua>) -> (r: Result<Self, Error>)
        ensures
            match r {
                Ok(received) => converts_to(values, ctx, Ok::<Arg, Error>(received.0)),
                Err(e) => converts_to(values, ctx, Err::<Arg, Error>(e)),
            },
    {
        let convert = Arg::from_args;
        match convert(values, ctx) {
            Ok(arg) => Ok(Received(arg)),
            Err(e) => Err(e),
        }
    }
}

} // verus!
