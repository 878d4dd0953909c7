//! Extension traits for the types of `rlua`.

use crate::args::FromArgs;
use crate::helper::{wrap_generator, wrap_start, wraps_generator, wraps_start};
use crate::lua::{
    clone_function, compiles_to, create_starter, create_starter_mut, create_thread, creates_mut_to,
    creates_to, into_function, same_function, spawns_to,
};
use crate::poll::Poll;
use crate::poller::{is_starter, is_starter_mut, Starter};
use crate::thread::{call_in, PollThreadFut};
use rlua::{AnyUserData, Chunk, Context, Error, Function, MultiValue, Scope, Thread};
use vstd::prelude::*;

verus! {

/// Extension trait for [`rlua::Context`].
pub trait ContextExt<'lua>: Sized {
    /// Makes an asynchronous function of `func`, which makes a future from the arguments of a call.
    ///
    /// The function is to be called from Lua code that runs in a coroutine of its own, such as
    /// [`FunctionExt::call_async`] sets up, and that does not use coroutines itself.
    ///
    /// The other parameters say how to work with the futures: `poll_fut` polls a future once, and
    /// `to_lua` converts what a future results in to Lua values. Where a future panics, `poll_fut`
    /// gives it back all the same, with the panic as its result, and `to_lua` raises the panic.
    fn create_async_function<Arg, Ret, RetFut, F, P, R>(
        self,
        func: F,
        poll_fut: P,
        to_lua: R,
    ) -> (r: Result<Function<'lua>, Error>) where
        Arg: FromArgs<'lua>,
        RetFut: 'static + Send,
        F: 'static + Send + Fn(Context<'lua>, Arg) -> RetFut,
        P: 'static + Send + Copy + Fn(RetFut) -> (RetFut, Poll<Result<Ret, Error>>),
        R: 'static + Send + Copy + Fn(Ret, Context<'lua>) -> Result<MultiValue<'lua>, Error>,

        requires
            (Starter { func, poll_fut, to_lua }).callable(),
    ;

    /// The same for a `func` that may change its own state when it is called.
    fn create_async_function_mut<Arg, Ret, RetFut, F, P, R>(
        self,
        func: F,
        poll_fut: P,
        to_lua: R,
    ) -> (r: Result<Function<'lua>, Error>) where
        Arg: FromArgs<'lua>,
        RetFut: 'static + Send,
        F: 'static + Send + FnMut(Context<'lua>, Arg) -> RetFut,
        P: 'static + Send + Copy + Fn(RetFut) -> (RetFut, Poll<Result<Ret, Error>>),
        R: 'static + Send + Copy + Fn(Ret, Context<'lua>) -> Result<MultiValue<'lua>, Error>,

        requires
            (Starter { func, poll_fut, to_lua }).callable(),
    ;
}

/// `r` can come of making an asynchronous function in `ctx` whose calls are taken by `starter`.
pub open spec fn makes_async<'lua, Arg, Ret, RetFut, F, P, R>(
    ctx: Context<'lua>,
    starter: Starter<F, P, R>,
    r: Result<Function<'lua>, Error>,
) -> bool where
    Arg: FromArgs<'lua>,
    F: Fn(Context<'lua>, Arg) -> RetFut,
    P: Fn(RetFut) -> (RetFut, Poll<Result<Ret, Error>>),
    R: Fn(Ret, Context<'lua>) -> Result<MultiValue<'lua>, Error>,
 {
    exists|created: Result<Function<'lua>, Error>| #[trigger]
        creates_to(ctx, created) && match created {
            Err(e) => r == Err::<Function<'lua>, Error>(e),
            Ok(start) => is_starter(start, starter) && wraps_start(ctx, start, r),
        }
}

/// The same where each call may change the state of the asynchronous function.
pub open spec fn makes_async_mut<'lua, Arg, Ret, RetFut, F, P, R>(
    ctx: Context<'lua>,
    starter: Starter<F, P, R>,
    r: Result<Function<'lua>, Error>,
) -> bool where
    Arg: FromArgs<'lua>,
    F: FnMut(Context<'lua>, Arg) -> RetFut,
    P: Fn(RetFut) -> (RetFut, Poll<Result<Ret, Error>>),
    R: Fn(Ret, Context<'lua>) -> Result<MultiValue<'lua>, Error>,
 {
    exists|created: Result<Function<'lua>, Error>| #[trigger]
        creates_mut_to(ctx, created) && match created {
            Err(e) => r == Err::<Function<'lua>, Error>(e),
            Ok(start) => is_starter_mut(start, starter) && wraps_start(ctx, start, r),
        }
}

impl<'lua> ContextExt<'lua> for Context<'lua> {
    fn create_async_function<Arg, Ret, RetFut, F, P, R>(
        self,
        func: F,
        poll_fut: P,
        to_lua: R,
    ) -> (r: Result<Function<'lua>, Error>) where
        Arg: FromArgs<'lua>,
        RetFut: 'static + Send,
        F: 'static + Send + Fn(Context<'lua>, Arg) -> RetFut,
        P: 'static + Send + Copy + Fn(RetFut) -> (RetFut, Poll<Result<Ret, Error>>),
        R: 'static + Send + Copy + Fn(Ret, Context<'lua>) -> Result<MultiValue<'lua>, Error>,

        ensures
            makes_async(self, Starter { func, poll_fut, to_lua }, r),
    {
        let start = create_starter(self, Starter { func, poll_fut, to_lua })?;
        wrap_start(self, start)
    }

    fn create_async_function_mut<Arg, Ret, RetFut, F, P, R>(
        self,
        func: F,
        poll_fut: P,
        to_lua: R,
    ) -> (r: Result<Function<'lua>, Error>) where
        Arg: FromArgs<'lua>,
        RetFut: 'static + Send,
        F: 'static + Send + FnMut(Context<'lua>, Arg) -> RetFut,
        P: 'static + Send + Copy + Fn(RetFut) -> (RetFut, Poll<Result<Ret, Error>>),
        R: 'static + Send + Copy + Fn(Ret, Context<'lua>) -> Result<MultiValue<'lua>, Error>,

        ensures
            makes_async_mut(self, Starter { func, poll_fut, to_lua }, r),
    {
        let start = create_starter_mut(self, Starter { func, poll_fut, to_lua })?;
        wrap_start(self, start)
    }
}

/// Extension trait for [`rlua::Scope`].
pub trait ScopeExt<'lua, 'scope> {
    /// Makes an asynchronous function that is gone from Lua once the scope has ended.
    ///
    /// `generator` is what came of making, in this scope, an object whose methods `set_arg` and
    /// `poll` are those of a [`FutGen`](crate::fut_gen::FutGen).
    fn create_async_function(
        &self,
        ctx: Context<'lua>,
        generator: Result<AnyUserData<'lua>, Error>,
    ) -> (r: Result<Function<'lua>, Error>);
}

impl<'lua, 'scope> ScopeExt<'lua, 'scope> for Scope<'lua, 'scope> {
    fn create_async_function(
        &self,
        ctx: Context<'lua>,
        generator: Result<AnyUserData<'lua>, Error>,
    ) -> (r: Result<Function<'lua>, Error>)
        ensures
            match generator {
                Err(e) => r == Err::<Function<'lua>, Error>(e),
                Ok(ud) => wraps_generator(ctx, ud, r),
            },
    {
        wrap_generator(ctx, generator?)
    }
}

/// `r` can come of calling `func` asynchronously in `ctx` with the arguments `args`.
pub open spec fn calls_async<'lua, Arg>(
    func: Function<'lua>,
    ctx: Context<'lua>,
    args: Arg,
    r: Result<PollThreadFut<'lua, Arg>, Error>,
) -> bool {
    exists|body: Function<'lua>, spawned: Result<Thread<'lua>, Error>|
        {
            &&& same_function(func, body)
            &&& #[trigger] spawns_to(ctx, body, spawned)
            &&& r == call_in(spawned, ctx, args)
        }
}

/// `r` can come of calling `chunk` asynchronously in `ctx` with the arguments `args`.
pub open spec fn calls_chunk_async<'lua, 'a, Arg>(
    chunk: Chunk<'lua, 'a>,
    ctx: Context<'lua>,
    args: Arg,
    r: Result<PollThreadFut<'lua, Arg>, Error>,
) -> bool {
    exists|compiled: Result<Function<'lua>, Error>| #[trigger]
        compiles_to(chunk, compiled) && match compiled {
            Err(e) => r == Err::<PollThreadFut<'lua, Arg>, Error>(e),
            Ok(func) => calls_async(func, ctx, args, r),
        }
}

/// Extension trait for [`rlua::Function`].
pub trait FunctionExt<'lua> {
    /// Calls the function asynchronously: the call makes progress only when it is polled, and it is
    /// pending for as long as an asynchronous function that it waits for is pending.
    fn call_async<Arg>(&self, ctx: Context<'lua>, args: Arg) -> (r: Result<
        PollThreadFut<'lua, Arg>,
        Error,
    >);
}

impl<'lua> FunctionExt<'lua> for Function<'lua> {
    fn call_async<Arg>(&self, ctx: Context<'lua>, args: Arg) -> (r: Result<
        PollThreadFut<'lua, Arg>,
        Error,
    >)
        ensures
            calls_async(*self, ctx, args, r),
    {
        let spawned = create_thread(ctx, clone_function(self));
        PollThreadFut::new(spawned, ctx, args)
    }
}

/// Extension trait for [`rlua::Chunk`].
pub trait ChunkExt<'lua, 'a>: Sized {
    /// Runs the chunk asynchronously.
    fn exec_async(self, ctx: Context<'lua>) -> (r: Result<PollThreadFut<'lua, ()>, Error>);

    /// Compiles the chunk and calls it asynchronously with the arguments `args`.
    fn call_async<Arg>(self, ctx: Context<'lua>, args: Arg) -> (r: Result<
        PollThreadFut<'lua, Arg>,
        Error,
    >);
}

impl<'lua, 'a> ChunkExt<'lua, 'a> for Chunk<'lua, 'a> {
    fn exec_async(self, ctx: Context<'lua>) -> (r: Result<PollThreadFut<'lua, ()>, Error>)
        ensures
            calls_chunk_async(self, ctx, (), r),
    {
        self.call_async(ctx, ())
    }

    fn call_async<Arg>(self, ctx: Context<'lua>, args: Arg) -> (r: Result<
        PollThreadFut<'lua, Arg>,
        Error,
    >)
        ensures
            calls_chunk_async(self, ctx, args, r),
    {
        let func = into_function(self)?;
        func.call_async(ctx, args)
    }
}

} // verus!
