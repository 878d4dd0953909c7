//! A source of futures that Lua code drives through two methods: one starts the next future, the
//! other polls it.

use crate::poll::Poll;
use crate::reply::{answer, answers};
use rlua::{Context, Error, MultiValue};
use vstd::prelude::*;

verus! {

/// Makes futures and holds the one that has not ended yet, if there is one.
pub struct FutGen<RetFut, F> {
    /// Makes a future from a Lua state and the arguments of a call.
    pub gen: F,
    /// The future that has been started and has not ended.
    pub cur_fut: Option<RetFut>,
}

/// What a generator holds after a poll that gave `polled` and left the future as `left`: a future
/// that is pending is kept for the next poll, one that has ended is dropped.
pub open spec fn kept<RetFut, T>(left: RetFut, polled: Poll<T>) -> Option<RetFut> {
    match polled {
        Poll::Pending => Some(left),
        Poll::Ready(_) => None,
    }
}

impl<RetFut, F> FutGen<RetFut, F> {
    /// A generator that has not started a future yet.
    pub fn new(gen: F) -> (r: Self)
        ensures
            r == (FutGen::<RetFut, F> { gen, cur_fut: None }),
    {
        FutGen { gen, cur_fut: None }
    }

    /// Starting the future of `arg` can lead from this generator to `after`.
    pub open spec fn starts<'lua, Arg>(self, ctx: Context<'lua>, arg: Arg, after: Self) -> bool where
        F: Fn(Context<'lua>, Arg) -> RetFut,
     {
        &&& self.cur_fut is None
        &&& after.gen == self.gen
        &&& after.cur_fut is Some
        &&& call_ensures(self.gen, (ctx, arg), after.cur_fut->0)
    }

    /// Polling the future that was started can give `polled`, leave the future as `left`, lead from
    /// this generator to `after` and answer Lua with `r`.
    pub open spec fn polls<'lua, Ret, P, R>(
        self,
        ctx: Context<'lua>,
        poll_fut: P,
        to_lua: R,
        left: RetFut,
        polled: Poll<Result<Ret, Error>>,
        after: Self,
        r: Result<MultiValue<'lua>, Error>,
    ) -> bool where
        P: FnOnce(RetFut) -> (RetFut, Poll<Result<Ret, Error>>),
        R: Fn(Ret, Context<'lua>) -> Result<MultiValue<'lua>, Error>,
     {
        &&& self.cur_fut is Some
        &&& call_ensures(poll_fut, (self.cur_fut->0,), (left, polled))
        &&& after == (FutGen { gen: self.gen, cur_fut: kept(left, polled) })
        &&& answers(ctx, polled, to_lua, r)
    }

    /// Starts a future. The one before must have ended.
    pub fn set_arg<'lua, Arg>(&mut self, ctx: Context<'lua>, arg: Arg) where
        F: Fn(Context<'lua>, Arg) -> RetFut,

        requires
            old(self).cur_fut is None,
            call_requires(old(self).gen, (ctx, arg)),
        ensures
            old(self).starts(ctx, arg, *final(self)),
    {
        self.cur_fut = Some((self.gen)(ctx, arg));
    }

    /// Polls the future that was started, and answers Lua.
    pub fn poll<'lua, Ret, P, R>(&mut self, ctx: Context<'lua>, poll_fut: P, to_lua: &R) -> (r:
        Result<MultiValue<'lua>, Error>) where
        P: FnOnce(RetFut) -> (RetFut, Poll<Result<Ret, Error>>),
        R: Fn(Ret, Context<'lua>) -> Result<MultiValue<'lua>, Error>,

        requires
            old(self).cur_fut is Some,
            call_requires(poll_fut, (old(self).cur_fut->0,)),
            forall|ret: Ret| #[trigger] call_requires(*to_lua, (ret, ctx)),
        ensures
            exists|left: RetFut, polled: Poll<Result<Ret, Error>>| #[trigger]
                old(self).polls(ctx, poll_fut, *to_lua, left, polled, *final(self), r),
    {
        let fut = self.cur_fut.take().unwrap();
        let (left, polled) = poll_fut(fut);
        if let Poll::Pending = polled {
            self.cur_fut = Some(left);
        }
        let r = answer(ctx, polled, to_lua);
        assert(old(self).polls(ctx, poll_fut, *to_lua, left, polled, *self, r));
        r
    }
}

} // verus!
