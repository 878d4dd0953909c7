//! The parts of `rlua` that the library stands on.
//!
//! Lua values, functions and coroutines live inside a Lua state, and what running them gives
//! depends on that state. So most names here are relations, not functions: `resumes_to(t, a, r)`
//! reads "`r` is an outcome that resuming `t` with `a` can have". They pin down what was handed to
//! Lua and which of Lua's answers was passed on, and promise nothing about the answer itself.
//!
//! `rlua` panics when its reference stack or the stack of Lua is exhausted, and a panic inside a
//! Rust callback carries on through the Lua code that called it. No contract here speaks of that.
//! All values in one call share the lifetime `'lua`, which `rlua` makes unique to one Lua state, so
//! values of different states cannot meet.

use crate::args::{FromArgs, Received};
use crate::poll::Poll;
use crate::poller::{Poller, Starter};
use rlua::{AnyUserData, Chunk, Context, Error, Function, MultiValue, Thread, Value};
use rlua::{ToLua, ToLuaMulti};
use vstd::prelude::*;
use vstd::string::StringSliceAdditionalSpecFns;

verus! {

/// Access to a Lua state.
#[verifier::external_type_specification]
#[verifier::external_body]
pub struct ExContext<'lua>(rlua::Context<'lua>);

/// A Lua function.
#[verifier::external_type_specification]
#[verifier::external_body]
pub struct ExFunction<'lua>(rlua::Function<'lua>);

/// A Lua coroutine.
#[verifier::external_type_specification]
#[verifier::external_body]
pub struct ExThread<'lua>(rlua::Thread<'lua>);

/// A single Lua value.
#[verifier::external_type_specification]
#[verifier::external_body]
pub struct ExValue<'lua>(rlua::Value<'lua>);

/// A list of Lua values: the arguments or the results of a call.
#[verifier::external_type_specification]
#[verifier::external_body]
pub struct ExMultiValue<'lua>(rlua::MultiValue<'lua>);

/// A piece of Lua source code that has not been compiled yet.
#[verifier::external_type_specification]
#[verifier::external_body]
pub struct ExChunk<'lua, 'a>(rlua::Chunk<'lua, 'a>);

/// A Rust object that Lua code can call methods on.
#[verifier::external_type_specification]
#[verifier::external_body]
pub struct ExAnyUserData<'lua>(rlua::AnyUserData<'lua>);

/// What makes functions and objects that are gone from Lua once the scope has ended.
#[verifier::external_type_specification]
#[verifier::external_body]
pub struct ExScope<'lua, 'scope>(rlua::Scope<'lua, 'scope>);

/// An error of `rlua`, or one that Lua code raised.
#[verifier::external_type_specification]
#[verifier::external_body]
pub struct ExError(rlua::Error);

/// What the library needs to know of a single Lua value.
pub enum Kind {
    Nil,
    Boolean(bool),
    Table,
    Other,
}

/// What sort of value `v` is.
pub uninterp spec fn kind(v: Value<'_>) -> Kind;

/// The values that `m` lists, first value first.
pub uninterp spec fn values(m: MultiValue<'_>) -> Seq<Value<'_>>;

/// `outcome` can come of making a table that holds `items` at the keys 1, 2, 3 and so on.
pub uninterp spec fn tabulates_to(
    items: Seq<Value<'_>>,
    ctx: Context<'_>,
    outcome: Result<Value<'_>, Error>,
) -> bool;

/// `a` and `b` are handles to one and the same Lua function.
pub uninterp spec fn same_function(a: Function<'_>, b: Function<'_>) -> bool;

/// `outcome` can come of making a coroutine in `ctx` that will run `func`.
pub uninterp spec fn spawns_to(
    ctx: Context<'_>,
    func: Function<'_>,
    outcome: Result<Thread<'_>, Error>,
) -> bool;

/// `outcome` can come of resuming the coroutine `before` with `args`, and `after` is the same
/// coroutine from then on.
pub uninterp spec fn resumes_to(
    before: Thread<'_>,
    args: MultiValue<'_>,
    outcome: Result<MultiValue<'_>, Error>,
    after: Thread<'_>,
) -> bool;

/// `thread` can be found in the state `status`.
pub uninterp spec fn found_in(thread: Thread<'_>, status: ThreadStatus) -> bool;

/// The source code of `chunk`.
pub uninterp spec fn chunk_source(chunk: Chunk<'_, '_>) -> Seq<u8>;

/// The name of `chunk` in error traces, if it has one.
pub uninterp spec fn chunk_name(chunk: Chunk<'_, '_>) -> Option<Seq<u8>>;

/// Whether `chunk` belongs to `ctx` and will see its global variables.
pub uninterp spec fn chunk_of(chunk: Chunk<'_, '_>, ctx: Context<'_>) -> bool;

/// `outcome` can come of compiling `chunk`.
pub uninterp spec fn compiles_to(
    chunk: Chunk<'_, '_>,
    outcome: Result<Function<'_>, Error>,
) -> bool;

/// `outcome` can come of running `chunk` and expecting a function as its value.
pub uninterp spec fn evaluates_to(
    chunk: Chunk<'_, '_>,
    outcome: Result<Function<'_>, Error>,
) -> bool;

/// `outcome` can come of calling `func` on the function `arg` and expecting a function back.
pub uninterp spec fn returns_for_function(
    func: Function<'_>,
    arg: Function<'_>,
    outcome: Result<Function<'_>, Error>,
) -> bool;

/// `outcome` can come of calling `func` on the object `arg` and expecting a function back.
pub uninterp spec fn returns_for_userdata(
    func: Function<'_>,
    arg: AnyUserData<'_>,
    outcome: Result<Function<'_>, Error>,
) -> bool;

/// `outcome` can come of making a Lua function in `ctx` of a Rust function.
pub uninterp spec fn creates_to(ctx: Context<'_>, outcome: Result<Function<'_>, Error>) -> bool;

/// `outcome` can come of making a Lua function in `ctx` of a Rust function that may change its own
/// state when it is called.
pub uninterp spec fn creates_mut_to(ctx: Context<'_>, outcome: Result<Function<'_>, Error>) -> bool;

/// A call of `func` from Lua with `args` in `ctx` has got as far as the conversion of `args`, was not
/// refused after it for being made from within another call, and has come to `outcome`, a function
/// for Lua. Before it, `call` calls have reached the Rust function behind `func`.
pub uninterp spec fn callback_starts(
    func: Function<'_>,
    call: nat,
    ctx: Context<'_>,
    args: MultiValue<'_>,
    outcome: Result<Function<'_>, Error>,
) -> bool;

/// A call of `func` from Lua has reached the Rust callback of `func` in `ctx`, after `call` earlier
/// calls that have reached it, and the callback has returned `outcome`, a list of values for Lua.
pub uninterp spec fn callback_answers(
    func: Function<'_>,
    call: nat,
    ctx: Context<'_>,
    outcome: Result<MultiValue<'_>, Error>,
) -> bool;

/// The state of a coroutine.
#[derive(Clone, Copy, Debug, PartialEq, Eq, Structural)]
pub enum ThreadStatus {
    /// The coroutine has not started yet, or it has yielded.
    Resumable,
    /// The coroutine has finished, or it is running.
    Unresumable,
    /// The coroutine has raised an error.
    Error,
}

/// `rlua::Value::Nil`, the Lua value `nil`.
#[verifier::external_body]
pub(crate) fn nil<'lua>() -> (v: Value<'lua>)
    ensures
        kind(v) == Kind::Nil,
{
    Value::Nil
}

/// `rlua::MultiValue::new`: a list of no values.
#[verifier::external_body]
pub(crate) fn no_values<'lua>() -> (m: MultiValue<'lua>)
    ensures
        values(m) == Seq::<Value<'lua>>::empty(),
{
    MultiValue::new()
}

/// `rlua::MultiValue::into_vec`: the same values, in the same order.
#[verifier::external_body]
pub(crate) fn into_vec<'lua>(m: MultiValue<'lua>) -> (v: Vec<Value<'lua>>)
    ensures
        v@ == values(m),
{
    m.into_vec()
}

/// `rlua::ToLua::to_lua` on a vector: makes a Lua table of its items. This fails where Lua runs out
/// of memory or stack.
#[verifier::external_body]
pub(crate) fn tabulate<'lua>(items: Vec<Value<'lua>>, ctx: Context<'lua>) -> (r: Result<
    Value<'lua>,
    Error,
>)
    ensures
        tabulates_to(items@, ctx, r),
        r matches Ok(table) ==> kind(table) == Kind::Table,
{
    items.to_lua(ctx)
}

/// `rlua::ToLuaMulti::to_lua_multi` on a pair of a value and a `bool`: always succeeds, and lists
/// the value and then the boolean.
#[verifier::external_body]
pub(crate) fn pair<'lua>(first: Value<'lua>, second: bool, ctx: Context<'lua>) -> (r: Result<
    MultiValue<'lua>,
    Error,
>)
    ensures
        r is Ok,
        values(r->Ok_0).len() == 2,
        values(r->Ok_0)[0] == first,
        kind(values(r->Ok_0)[1]) == Kind::Boolean(second),
{
    (first, second).to_lua_multi(ctx)
}

/// `rlua::Function::clone`: another handle to the same Lua function.
#[verifier::external_body]
pub(crate) fn clone_function<'lua>(func: &Function<'lua>) -> (r: Function<'lua>)
    ensures
        same_function(*func, r),
{
    func.clone()
}

/// `rlua::Context::create_thread`. This fails where Lua runs out of memory.
#[verifier::external_body]
pub(crate) fn create_thread<'lua>(ctx: Context<'lua>, func: Function<'lua>) -> (r: Result<
    Thread<'lua>,
    Error,
>)
    ensures
        spawns_to(ctx, func, r),
{
    ctx.create_thread(func)
}

/// `rlua::Thread::resume`: runs the coroutine until it yields, finishes or raises an error.
#[verifier::external_body]
pub(crate) fn resume<'lua>(thread: &mut Thread<'lua>, args: MultiValue<'lua>) -> (r: Result<
    MultiValue<'lua>,
    Error,
>)
    ensures
        resumes_to(*old(thread), args, r, *final(thread)),
{
    thread.resume(args)
}

/// `rlua::Thread::status`: the state that the coroutine is in at the time of the call.
#[verifier::external_body]
pub(crate) fn status<'lua>(thread: &Thread<'lua>) -> (s: ThreadStatus)
    ensures
        found_in(*thread, s),
{
    match thread.status() {
        rlua::ThreadStatus::Resumable => ThreadStatus::Resumable,
        rlua::ThreadStatus::Unresumable => ThreadStatus::Unresumable,
        rlua::ThreadStatus::Error => ThreadStatus::Error,
    }
}

/// `rlua::Context::load`: a nameless chunk of the given source code.
#[verifier::external_body]
pub(crate) fn load<'lua, 'a>(ctx: Context<'lua>, source: &'a str) -> (chunk: Chunk<'lua, 'a>)
    ensures
        chunk_of(chunk, ctx),
        chunk_source(chunk) == source.spec_bytes(),
        chunk_name(chunk) is None,
{
    ctx.load(source)
}

/// `rlua::Chunk::set_name`: names the chunk and leaves the rest of it alone. This fails on exactly
/// the names that hold a zero byte.
#[verifier::external_body]
pub(crate) fn set_name<'lua, 'a>(chunk: Chunk<'lua, 'a>, name: &str) -> (r: Result<
    Chunk<'lua, 'a>,
    Error,
>)
    ensures
        r is Ok <==> !name.spec_bytes().contains(0),
        r matches Ok(named) ==> {
            &&& chunk_name(named) == Some(name.spec_bytes())
            &&& chunk_source(named) == chunk_source(chunk)
            &&& forall|ctx: Context<'lua>| chunk_of(named, ctx) == chunk_of(chunk, ctx)
        },
{
    chunk.set_name(name)
}

/// `rlua::Chunk::into_function`: compiles the chunk without running it.
#[verifier::external_body]
pub(crate) fn into_function<'lua, 'a>(chunk: Chunk<'lua, 'a>) -> (r: Result<Function<'lua>, Error>)
    ensures
        compiles_to(chunk, r),
{
    chunk.into_function()
}

/// `rlua::Chunk::eval`: compiles and runs the chunk, as an expression or else as a block, and
/// converts its value to a function.
#[verifier::external_body]
pub(crate) fn eval<'lua, 'a>(chunk: Chunk<'lua, 'a>) -> (r: Result<Function<'lua>, Error>)
    ensures
        evaluates_to(chunk, r),
{
    chunk.eval()
}

/// `rlua::Function::call` on a function, with the value that comes back converted to a function.
#[verifier::external_body]
pub(crate) fn call_with_function<'lua>(func: &Function<'lua>, arg: Function<'lua>) -> (r: Result<
    Function<'lua>,
    Error,
>)
    ensures
        returns_for_function(*func, arg, r),
{
    func.call(arg)
}

/// `rlua::Function::call` on an object, with the value that comes back converted to a function.
#[verifier::external_body]
pub(crate) fn call_with_userdata<'lua>(func: &Function<'lua>, arg: AnyUserData<'lua>) -> (r: Result<
    Function<'lua>,
    Error,
>)
    ensures
        returns_for_userdata(*func, arg, r),
{
    func.call(arg)
}

/// `rlua::Context::create_function` on a starter: at each call of the Lua function, `rlua` converts
/// the arguments through [`Received`] and then starts a future of them. Where they cannot be
/// converted, the call fails with the error of the conversion. Making the function fails where Lua
/// runs out of memory.
#[verifier::external_body]
pub(crate) fn create_starter<'lua, Arg, Ret, RetFut, F, P, R>(
    ctx: Context<'lua>,
    starter: Starter<F, P, R>,
) -> (r: Result<Function<'lua>, Error>) where
    Arg: FromArgs<'lua>,
    RetFut: 'static + Send,
    F: 'static + Send + Fn(Context<'lua>, Arg) -> RetFut,
    P: 'static + Send + Copy + Fn(RetFut) -> (RetFut, Poll<Result<Ret, Error>>),
    R: 'static + Send + Copy + Fn(Ret, Context<'lua>) -> Result<MultiValue<'lua>, Error>,

    requires
        starter.callable(),
    ensures
        creates_to(ctx, r),
        r matches Ok(func) ==> forall|
            call: nat,
            c: Context<'lua>,
            args: MultiValue<'lua>,
            outcome: Result<Function<'lua>, Error>,
        | #[trigger]
            callback_starts(func, call, c, args, outcome) ==> starter.may_take(c, args, outcome),
{
    ctx.create_function(move |ctx, args: Received<Arg>| starter.start(ctx, args.0))
}

/// `rlua::Context::create_function_mut` on a starter whose asynchronous function may change its own
/// state: as `create_starter`, but once its arguments are converted, a call that is made while the
/// starter is at work is refused. The first call that reaches the starter finds the asynchronous
/// function as it was handed over. Of a later call nothing is said of the state that the calls
/// before it have left the function in.
#[verifier::external_body]
pub(crate) fn create_starter_mut<'lua, Arg, Ret, RetFut, F, P, R>(
    ctx: Context<'lua>,
    starter: Starter<F, P, R>,
) -> (r: Result<Function<'lua>, Error>) where
    Arg: FromArgs<'lua>,
    RetFut: 'static + Send,
    F: 'static + Send + FnMut(Context<'lua>, Arg) -> RetFut,
    P: 'static + Send + Copy + Fn(RetFut) -> (RetFut, Poll<Result<Ret, Error>>),
    R: 'static + Send + Copy + Fn(Ret, Context<'lua>) -> Result<MultiValue<'lua>, Error>,

    requires
        starter.callable(),
    ensures
        creates_mut_to(ctx, r),
        r matches Ok(func) ==> forall|
            call: nat,
            c: Context<'lua>,
            args: MultiValue<'lua>,
            outcome: Result<Function<'lua>, Error>,
        | #[trigger]
            callback_starts(func, call, c, args, outcome) ==> starter.may_take_mut(
                call,
                c,
                args,
                outcome,
            ),
{
    let mut starter = starter;
    ctx.create_function_mut(move |ctx, args: Received<Arg>| starter.start_mut(ctx, args.0))
}

/// `rlua::Context::create_function_mut` on a poller: each call of the Lua function that reaches the
/// poller polls once, whatever its arguments are, and goes on where the call before has left the
/// future. Making the function does not poll. This fails where Lua runs out of memory.
#[verifier::external_body]
pub(crate) fn create_poller<'lua, Ret, RetFut, P, R>(
    ctx: Context<'lua>,
    poller: Poller<RetFut, P, R>,
) -> (r: Result<Function<'lua>, Error>) where
    RetFut: 'static + Send,
    P: 'static + Send + Fn(RetFut) -> (RetFut, Poll<Result<Ret, Error>>),
    R: 'static + Send + Fn(Ret, Context<'lua>) -> Result<MultiValue<'lua>, Error>,

    requires
        poller.callable(),
    ensures
        creates_mut_to(ctx, r),
        r matches Ok(func) ==> forall|
            call: nat,
            c: Context<'lua>,
            outcome: Result<MultiValue<'lua>, Error>,
        | #[trigger]
            callback_answers(func, call, c, outcome) ==> poller.may_answer(call, c, outcome),
{
    let mut poller = poller;
    ctx.create_function_mut(move |ctx, _: MultiValue<'lua>| poller.poll(ctx))
}

} // verus!
