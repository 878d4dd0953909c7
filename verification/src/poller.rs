//! The Rust callbacks behind an asynchronous function: one starts a future for each call, and for
//! each future another one polls it.

use crate::args::{converts_to, FromArgs};
use crate::lua::{callback_answers, callback_starts, create_poller, creates_mut_to};
use crate::poll::Poll;
use crate::reply::{answer, answers};
use rlua::{Context, Error, Function, MultiValue};
use vstd::prelude::*;

verus! {

/// Polls one future on behalf of Lua code.
pub struct Poller<RetFut, P, R> {
    /// The future. It is missing only while it is being polled.
    pub fut: Option<RetFut>,
    /// Polls the future once and gives it back. This holds too if the future panics: then the panic
    /// is its result, and `to_lua` raises it once the future is back in its place.
    pub poll_fut: P,
    /// Converts what the future results in to Lua values.
    pub to_lua: R,
}

/// The future `fut` is what `start` has become after it was polled `polls` times.
pub open spec fn reached<RetFut, Ret, P>(poll_fut: P, start: RetFut, polls: nat, fut: RetFut) -> bool where
    P: Fn(RetFut) -> (RetFut, Poll<Result<Ret, Error>>),

    decreases polls,
{
    if polls == 0 {
        fut == start
    } else {
        exists|earlier: RetFut, polled: Poll<Result<Ret, Error>>|
            {
                &&& reached(poll_fut, start, (polls - 1) as nat, earlier)
                &&& #[trigger] call_ensures(poll_fut, (earlier,), (fut, polled))
            }
    }
}

impl<RetFut, P, R> Poller<RetFut, P, R> {
    /// The poller can be called: its future is there, and its functions take any argument.
    pub open spec fn callable<'lua, Ret>(self) -> bool where
        P: Fn(RetFut) -> (RetFut, Poll<Result<Ret, Error>>),
        R: Fn(Ret, Context<'lua>) -> Result<MultiValue<'lua>, Error>,
     {
        &&& self.fut is Some
        &&& forall|fut: RetFut| #[trigger] call_requires(self.poll_fut, (fut,))
        &&& forall|ret: Ret, ctx: Context<'lua>| #[trigger] call_requires(self.to_lua, (ret, ctx))
    }

    /// A call of this poller polls its future once. The poll gives `polled`, the call leaves the
    /// poller as `after` and answers Lua with `r`.
    pub open spec fn polls<'lua, Ret>(
        self,
        ctx: Context<'lua>,
        polled: Poll<Result<Ret, Error>>,
        after: Self,
        r: Result<MultiValue<'lua>, Error>,
    ) -> bool where
        P: Fn(RetFut) -> (RetFut, Poll<Result<Ret, Error>>),
        R: Fn(Ret, Context<'lua>) -> Result<MultiValue<'lua>, Error>,
     {
        &&& after == (Poller { fut: after.fut, ..self })
        &&& self.fut is Some
        &&& after.fut is Some
        &&& call_ensures(self.poll_fut, (self.fut->0,), (after.fut->0, polled))
        &&& answers(ctx, polled, self.to_lua, r)
    }

    /// `r` is an answer that this poller can give after it has been called `call` times: it comes of
    /// polling once the future that as many polls have left.
    pub open spec fn may_answer<'lua, Ret>(
        self,
        call: nat,
        ctx: Context<'lua>,
        r: Result<MultiValue<'lua>, Error>,
    ) -> bool where
        P: Fn(RetFut) -> (RetFut, Poll<Result<Ret, Error>>),
        R: Fn(Ret, Context<'lua>) -> Result<MultiValue<'lua>, Error>,
     {
        exists|before: Self, polled: Poll<Result<Ret, Error>>, after: Self|
            {
                &&& before == (Poller { fut: before.fut, ..self })
                &&& reached(self.poll_fut, self.fut->0, call, before.fut->0)
                &&& #[trigger] before.polls(ctx, polled, after, r)
            }
    }

    /// Polls the future once and answers Lua.
    pub fn poll<'lua, Ret>(&mut self, ctx: Context<'lua>) -> (r: Result<
        MultiValue<'lua>,
        Error,
    >) where
        P: Fn(RetFut) -> (RetFut, Poll<Result<Ret, Error>>),
        R: Fn(Ret, Context<'lua>) -> Result<MultiValue<'lua>, Error>,

        requires
            old(self).callable(),
        ensures
            final(self).callable(),
            exists|polled: Poll<Result<Ret, Error>>| #[trigger]
                old(self).polls(ctx, polled, *final(self), r),
    {
        let fut = self.fut.take().unwrap();
        let (left, polled) = (self.poll_fut)(fut);
        self.fut = Some(left);
        let r = answer(ctx, polled, &self.to_lua);
        assert(old(self).polls(ctx, polled, *self, r));
        r
    }
}

/// Every call of `func` from Lua that gets as far as its Rust callback is answered by `poller`: the
/// first one polls the future for the first time, and each polls it once.
pub open spec fn is_poller<'lua, RetFut, Ret, P, R>(
    func: Function<'lua>,
    poller: Poller<RetFut, P, R>,
) -> bool where
    P: Fn(RetFut) -> (RetFut, Poll<Result<Ret, Error>>),
    R: Fn(Ret, Context<'lua>) -> Result<MultiValue<'lua>, Error>,
 {
    forall|call: nat, ctx: Context<'lua>, r: Result<MultiValue<'lua>, Error>| #[trigger]
        callback_answers(func, call, ctx, r) ==> poller.may_answer(call, ctx, r)
}

/// Makes the Lua function that polls `fut`.
pub fn poller_fn<'lua, Ret, RetFut, P, R>(
    ctx: Context<'lua>,
    fut: RetFut,
    poll_fut: P,
    to_lua: R,
) -> (r: Result<Function<'lua>, Error>) where
    RetFut: 'static + Send,
    P: 'static + Send + Fn(RetFut) -> (RetFut, Poll<Result<Ret, Error>>),
    R: 'static + Send + Fn(Ret, Context<'lua>) -> Result<MultiValue<'lua>, Error>,

    requires
        (Poller { fut: Some(fut), poll_fut, to_lua }).callable(),
    ensures
        creates_mut_to(ctx, r),
        r matches Ok(func) ==> is_poller(func, Poller { fut: Some(fut), poll_fut, to_lua }),
{
    create_poller(ctx, Poller { fut: Some(fut), poll_fut, to_lua })
}

/// Starts a future for each call of an asynchronous function.
pub struct Starter<F, P, R> {
    /// The asynchronous function: makes a future from the arguments.
    pub func: F,
    /// Polls a future once, as in a [`Poller`].
    pub poll_fut: P,
    /// Converts what a future results in to Lua values.
    pub to_lua: R,
}

impl<F, P, R> Starter<F, P, R> {
    /// The starter can be called: its functions take any argument.
    pub open spec fn callable<'lua, Arg, Ret, RetFut>(self) -> bool where
        F: FnOnce(Context<'lua>, Arg) -> RetFut,
        P: Fn(RetFut) -> (RetFut, Poll<Result<Ret, Error>>),
        R: Fn(Ret, Context<'lua>) -> Result<MultiValue<'lua>, Error>,
     {
        &&& forall|ctx: Context<'lua>, arg: Arg| #[trigger] call_requires(self.func, (ctx, arg))
        &&& forall|fut: RetFut| #[trigger] call_requires(self.poll_fut, (fut,))
        &&& forall|ret: Ret, ctx: Context<'lua>| #[trigger] call_requires(self.to_lua, (ret, ctx))
    }

    /// The poller of the future `fut`.
    pub open spec fn poller_of<RetFut>(self, fut: RetFut) -> Poller<RetFut, P, R> {
        Poller { fut: Some(fut), poll_fut: self.poll_fut, to_lua: self.to_lua }
    }

    /// `r` is what starting the future of `arg` can give: the Lua function that polls the future
    /// which the asynchronous function makes of `arg`.
    pub open spec fn may_start<'lua, Arg, Ret, RetFut>(
        self,
        ctx: Context<'lua>,
        arg: Arg,
        r: Result<Function<'lua>, Error>,
    ) -> bool where
        F: FnOnce(Context<'lua>, Arg) -> RetFut,
        P: Fn(RetFut) -> (RetFut, Poll<Result<Ret, Error>>),
        R: Fn(Ret, Context<'lua>) -> Result<MultiValue<'lua>, Error>,
     {
        exists|fut: RetFut|
            {
                &&& #[trigger] call_ensures(self.func, (ctx, arg), fut)
                &&& creates_mut_to(ctx, r)
                &&& r matches Ok(func) ==> is_poller(func, self.poller_of(fut))
            }
    }

    /// `r` is what a call from Lua with the values `args` can give: the values are converted first,
    /// and only if this succeeds the future is started.
    pub open spec fn may_take<'lua, Arg, Ret, RetFut>(
        self,
        ctx: Context<'lua>,
        args: MultiValue<'lua>,
        r: Result<Function<'lua>, Error>,
    ) -> bool where
        Arg: FromArgs<'lua>,
        F: FnOnce(Context<'lua>, Arg) -> RetFut,
        P: Fn(RetFut) -> (RetFut, Poll<Result<Ret, Error>>),
        R: Fn(Ret, Context<'lua>) -> Result<MultiValue<'lua>, Error>,
     {
        exists|converted: Result<Arg, Error>| #[trigger]
            converts_to(args, ctx, converted) && match converted {
                Err(e) => r == Err::<Function<'lua>, Error>(e),
                Ok(arg) => self.may_start(ctx, arg, r),
            }
    }

    /// `r` is what a call from Lua with the values `args` can give after `call` earlier calls of the
    /// asynchronous function, each of which may have changed its state. The first call finds it as
    /// it is.
    pub open spec fn may_take_mut<'lua, Arg, Ret, RetFut>(
        self,
        call: nat,
        ctx: Context<'lua>,
        args: MultiValue<'lua>,
        r: Result<Function<'lua>, Error>,
    ) -> bool where
        Arg: FromArgs<'lua>,
        F: FnMut(Context<'lua>, Arg) -> RetFut,
        P: Fn(RetFut) -> (RetFut, Poll<Result<Ret, Error>>),
        R: Fn(Ret, Context<'lua>) -> Result<MultiValue<'lua>, Error>,
     {
        exists|state: F|
            {
                &&& call == 0 ==> state == self.func
                &&& #[trigger] (Starter { func: state, ..self }).may_take(ctx, args, r)
            }
    }

    /// Starts the future of `arg`.
    pub fn start<'lua, Arg, Ret, RetFut>(&self, ctx: Context<'lua>, arg: Arg) -> (r: Result<
        Function<'lua>,
        Error,
    >) where
        F: Fn(Context<'lua>, Arg) -> RetFut,
        RetFut: 'static + Send,
        P: 'static + Send + Copy + Fn(RetFut) -> (RetFut, Poll<Result<Ret, Error>>),
        R: 'static + Send + Copy + Fn(Ret, Context<'lua>) -> Result<MultiValue<'lua>, Error>,

        requires
            self.callable(),
        ensures
            self.may_start(ctx, arg, r),
    {
        let fut = (self.func)(ctx, arg);
        poller_fn(ctx, fut, self.poll_fut, self.to_lua)
    }

    /// Starts the future of `arg`, where making it may change the state of the asynchronous function.
    pub fn start_mut<'lua, Arg, Ret, RetFut>(&mut self, ctx: Context<'lua>, arg: Arg) -> (r: Result<
        Function<'lua>,
        Error,
    >) where
        F: FnMut(Context<'lua>, Arg) -> RetFut,
        RetFut: 'static + Send,
        P: 'static + Send + Copy + Fn(RetFut) -> (RetFut, Poll<Result<Ret, Error>>),
        R: 'static + Send + Copy + Fn(Ret, Context<'lua>) -> Result<MultiValue<'lua>, Error>,

        requires
            old(self).callable(),
        ensures
            final(self).callable(),
            final(self).poll_fut == old(self).poll_fut,
            final(self).to_lua == old(self).to_lua,
            old(self).may_start(ctx, arg, r),
    {
        let fut = (self.func)(ctx, arg);
        poller_fn(ctx, fut, self.poll_fut, self.to_lua)
    }
}

/// Every call of `func` from Lua that gets as far as its arguments is taken by `starter`.
pub open spec fn is_starter<'lua, Arg, Ret, RetFut, F, P, R>(
    func: Function<'lua>,
    starter: Starter<F, P, R>,
) -> bool where
    Arg: FromArgs<'lua>,
    F: Fn(Context<'lua>, Arg) -> RetFut,
    P: Fn(RetFut) -> (RetFut, Poll<Result<Ret, Error>>),
    R: Fn(Ret, Context<'lua>) -> Result<MultiValue<'lua>, Error>,
 {
    forall|
        call: nat,
        ctx: Context<'lua>,
        args: MultiValue<'lua>,
        r: Result<Function<'lua>, Error>,
    | #[trigger]
        callback_starts(func, call, ctx, args, r) ==> starter.may_take(ctx, args, r)
}

/// Every call of `func` from Lua that gets as far as its arguments, and is not refused for being
/// made from within another one, is taken by `starter`: the first one finds the asynchronous
/// function as it is, and each may change its state.
pub open spec fn is_starter_mut<'lua, Arg, Ret, RetFut, F, P, R>(
    func: Function<'lua>,
    starter: Starter<F, P, R>,
) -> bool where
    Arg: FromArgs<'lua>,
    F: FnMut(Context<'lua>, Arg) -> RetFut,
    P: Fn(RetFut) -> (RetFut, Poll<Result<Ret, Error>>),
    R: Fn(Ret, Context<'lua>) -> Result<MultiValue<'lua>, Error>,
 {
    forall|
        call: nat,
        ctx: Context<'lua>,
        args: MultiValue<'lua>,
        r: Result<Function<'lua>, Error>,
    | #[trigger]
        callback_starts(func, call, ctx, args, r) ==> starter.may_take_mut(call, ctx, args, r)
}

} // verus!
