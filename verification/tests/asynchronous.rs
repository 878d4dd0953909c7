use std::cell::Cell;
use std::future::Future;
use std::marker::PhantomData;
use std::pin::Pin;
use std::rc::Rc;
use std::sync::{Arc, Mutex};
use std::task;
use std::time::Duration;

use futures::executor;
use futures::future;
use rlua::{
    Context, Error, FromLuaMulti, Function, Lua, MultiValue, Result, Scope, ToLuaMulti, UserData,
    UserDataMethods,
};
use rlua_async::args::FromArgs;
use rlua_async::fut_gen::FutGen;
use rlua_async::poll::Poll;
use rlua_async::thread::PollThreadFut;
use rlua_async::{ChunkExt, ContextExt, FunctionExt, ScopeExt};

/// Drives asynchronous calls, and lets the futures that they wait for find the waker.
#[derive(Clone, Copy)]
struct Runtime {
    waker: &'static Mutex<Option<task::Waker>>,
}

fn poll_with<Fut: Future + ?Sized>(
    waker: &Mutex<Option<task::Waker>>,
    mut fut: Pin<Box<Fut>>,
) -> (Pin<Box<Fut>>, Poll<Fut::Output>) {
    let waker = waker.lock().unwrap().clone().expect("polled outside of a call");
    let polled = match fut.as_mut().poll(&mut task::Context::from_waker(&waker)) {
        task::Poll::Pending => Poll::Pending,
        task::Poll::Ready(v) => Poll::Ready(v),
    };
    (fut, polled)
}

struct Args<T>(T);

impl<'lua, T: FromLuaMulti<'lua>> FromArgs<'lua> for Args<T> {
    fn from_args(values: MultiValue<'lua>, ctx: Context<'lua>) -> Result<Self> {
        Ok(Args(T::from_lua_multi(values, ctx)?))
    }
}

impl Runtime {
    fn new() -> Runtime {
        Runtime { waker: Box::leak(Box::new(Mutex::new(None))) }
    }

    fn function<'lua, Arg, Ret, RetFut, F>(
        self,
        ctx: Context<'lua>,
        func: F,
    ) -> Result<Function<'lua>>
    where
        Arg: FromLuaMulti<'lua>,
        Ret: ToLuaMulti<'lua>,
        RetFut: 'static + Send + Future<Output = Result<Ret>>,
        F: 'static + Send + Fn(Context<'lua>, Arg) -> RetFut,
    {
        let waker = self.waker;
        ctx.create_async_function(
            move |ctx, arg: Args<Arg>| Box::pin(func(ctx, arg.0)),
            move |fut: Pin<Box<RetFut>>| poll_with(waker, fut),
            |ret: Ret, ctx| ret.to_lua_multi(ctx),
        )
    }

    fn function_mut<'lua, Arg, Ret, RetFut, F>(
        self,
        ctx: Context<'lua>,
        mut func: F,
    ) -> Result<Function<'lua>>
    where
        Arg: FromLuaMulti<'lua>,
        Ret: ToLuaMulti<'lua>,
        RetFut: 'static + Send + Future<Output = Result<Ret>>,
        F: 'static + Send + FnMut(Context<'lua>, Arg) -> RetFut,
    {
        let waker = self.waker;
        ctx.create_async_function_mut(
            move |ctx, arg: Args<Arg>| Box::pin(func(ctx, arg.0)),
            move |fut: Pin<Box<RetFut>>| poll_with(waker, fut),
            |ret: Ret, ctx| ret.to_lua_multi(ctx),
        )
    }

    fn scoped_function<'lua, 'scope, Arg, Ret, RetFut, F>(
        self,
        scope: &Scope<'lua, 'scope>,
        ctx: Context<'lua>,
        func: F,
    ) -> Result<Function<'lua>>
    where
        Arg: 'scope + for<'all> FromLuaMulti<'all>,
        Ret: 'scope + for<'all> ToLuaMulti<'all>,
        RetFut: 'scope + Future<Output = Result<Ret>>,
        F: 'scope + for<'all> Fn(Context<'all>, Arg) -> RetFut,
    {
        let generator = Generator::new(self, move |ctx: Context<'_>, arg| Box::pin(func(ctx, arg)));
        scope.create_async_function(ctx, scope.create_nonstatic_userdata(generator))
    }

    fn drive<'lua, Arg, Ret>(
        self,
        call: Result<PollThreadFut<'lua, Arg>>,
    ) -> Driver<'lua, Arg, Ret> {
        Driver {
            runtime: self,
            call: call.map(Box::new).map_err(Some),
            _ret: PhantomData,
        }
    }
}

struct Generator<Arg, Ret, RetFut, F> {
    runtime: Runtime,
    futures: FutGen<Pin<Box<RetFut>>, F>,
    _types: PhantomData<fn(Arg) -> Ret>,
}

impl<Arg, Ret, RetFut, F> Generator<Arg, Ret, RetFut, F>
where
    F: for<'all> Fn(Context<'all>, Arg) -> Pin<Box<RetFut>>,
{
    fn new(runtime: Runtime, func: F) -> Self {
        Generator { runtime, futures: FutGen::new(func), _types: PhantomData }
    }
}

impl<Arg, Ret, RetFut, F> UserData for Generator<Arg, Ret, RetFut, F>
where
    Arg: for<'all> FromLuaMulti<'all>,
    Ret: for<'all> ToLuaMulti<'all>,
    RetFut: Future<Output = Result<Ret>>,
    F: for<'all> Fn(Context<'all>, Arg) -> Pin<Box<RetFut>>,
{
    fn add_methods<'lua, M: UserDataMethods<'lua, Self>>(methods: &mut M) {
        methods.add_method_mut("set_arg", |ctx, this, arg: Arg| {
            assert!(this.futures.cur_fut.is_none());
            this.futures.set_arg(ctx, arg);
            Ok(())
        });
        methods.add_method_mut("poll", |ctx, this, _: ()| {
            assert!(this.futures.cur_fut.is_some());
            let waker = this.runtime.waker;
            this.futures.poll(
                ctx,
                |fut: Pin<Box<RetFut>>| poll_with(waker, fut),
                &|ret: Ret, ctx| ret.to_lua_multi(ctx),
            )
        });
    }
}

struct Driver<'lua, Arg, Ret> {
    runtime: Runtime,
    call: std::result::Result<Box<PollThreadFut<'lua, Arg>>, Option<Error>>,
    _ret: PhantomData<fn() -> Ret>,
}

impl<'lua, Arg, Ret> Future for Driver<'lua, Arg, Ret>
where
    Arg: ToLuaMulti<'lua>,
    Ret: FromLuaMulti<'lua>,
{
    type Output = Result<Ret>;

    fn poll(self: Pin<&mut Self>, cx: &mut task::Context<'_>) -> task::Poll<Result<Ret>> {
        let this = self.get_mut();
        match &mut this.call {
            Err(e) => task::Poll::Ready(Err(e.take().expect("polled after the end"))),
            Ok(call) => {
                *this.runtime.waker.lock().unwrap() = Some(cx.waker().clone());
                let polled = call.poll(
                    |args: Arg, ctx| args.to_lua_multi(ctx),
                    |values, ctx| Ret::from_lua_multi(values, ctx),
                );
                *this.runtime.waker.lock().unwrap() = None;
                match polled.expect("a coroutine that was resumed cannot have failed") {
                    Poll::Pending => task::Poll::Pending,
                    Poll::Ready(r) => task::Poll::Ready(r),
                }
            }
        }
    }
}

fn block_on<'lua, Arg, Ret>(driver: Driver<'lua, Arg, Ret>) -> Result<Ret>
where
    Arg: ToLuaMulti<'lua>,
    Ret: FromLuaMulti<'lua>,
{
    executor::block_on(driver)
}

#[test]
fn async_fn() {
    let rt = Runtime::new();
    let lua = Lua::new();

    lua.context(|lua_ctx| {
        let globals = lua_ctx.globals();

        let f = rt.function(lua_ctx, |_, a: usize| future::ok(a + 1)).unwrap();
        globals.set("f", f).unwrap();

        assert_eq!(
            block_on::<_, usize>(
                rt.drive(
                    lua_ctx
                        .load(r#"function(a) return f(a) - 1 end"#)
                        .eval::<Function>()
                        .unwrap()
                        .call_async(lua_ctx, 2)
                )
            )
            .unwrap(),
            2
        );
    });
}

#[test]
fn actually_awaiting_fn() {
    let rt = Runtime::new();
    let lua = Lua::new();

    lua.context(|lua_ctx| {
        let globals = lua_ctx.globals();

        let f = rt
            .function(lua_ctx, |_, a: usize| async move {
                futures_timer::Delay::new(Duration::from_millis(50)).await;
                Ok(a + 1)
            })
            .unwrap();
        globals.set("f", f).unwrap();

        assert_eq!(
            block_on::<_, usize>(
                rt.drive(
                    lua_ctx
                        .load(r#"function(a) return f(a) - 1 end"#)
                        .set_name(b"example")
                        .expect("failed to set name")
                        .eval::<Function>()
                        .expect("failed to eval")
                        .call_async(lua_ctx, 2)
                )
            )
            .expect("failed to call"),
            2
        );
    });
}

#[test]
fn async_fn_mut() {
    let rt = Runtime::new();
    let lua = Lua::new();

    lua.context(|lua_ctx| {
        let globals = lua_ctx.globals();

        let v = Arc::new(Mutex::new(0));
        let v_clone = v.clone();
        let f = rt
            .function_mut(lua_ctx, move |_, a: usize| {
                *v_clone.lock().unwrap() += 1;
                future::ok(a + 1)
            })
            .unwrap();
        globals.set("f", f).unwrap();

        assert_eq!(*v.lock().unwrap(), 0);
        assert_eq!(
            block_on::<_, usize>(
                rt.drive(
                    lua_ctx
                        .load(r#"function(a) return f(a) - 1 end"#)
                        .set_name(b"example")
                        .expect("failed to set name")
                        .eval::<Function>()
                        .expect("failed to eval")
                        .call_async(lua_ctx, 2)
                )
            )
            .expect("failed to call"),
            2
        );
        assert_eq!(*v.lock().unwrap(), 1);
    });
}

#[test]
fn async_chunk() {
    let rt = Runtime::new();
    let lua = Lua::new();

    lua.context(|lua_ctx| {
        let globals = lua_ctx.globals();

        let f = rt
            .function(lua_ctx, |_, a: usize| async move {
                futures_timer::Delay::new(Duration::from_millis(50)).await;
                Ok(a + 1)
            })
            .unwrap();
        globals.set("f", f).unwrap();

        block_on::<_, ()>(
            rt.drive(
                lua_ctx
                    .load(
                        r#"
                            bar = f(1)
                            function foo(a)
                                return a + bar
                            end
                        "#,
                    )
                    .set_name(b"foo")
                    .expect("failed to set name")
                    .exec_async(lua_ctx),
            ),
        )
        .expect("failed to exec");

        assert_eq!(
            block_on::<_, usize>(
                rt.drive(lua_ctx.load(r#"return foo(1)"#).call_async(lua_ctx, ()))
            )
            .expect("failed to call"),
            3,
        );

        assert_eq!(
            lua_ctx
                .load(r#"foo(1)"#)
                .eval::<usize>()
                .expect("failed to eval"),
            3,
        );
    });
}

#[test]
fn scopes_do_drop_things() {
    let rt = Runtime::new();
    Lua::new().context(|lua| {
        let rc = Rc::new(Cell::new(0));
        lua.scope(|scope| {
            let rc_clone = rc.clone();
            assert_eq!(Rc::strong_count(&rc), 2);
            let f: Function = rt
                .scoped_function(scope, lua, move |_, ()| {
                    rc_clone.set(rc_clone.get() + 21);
                    future::ok(())
                })
                .unwrap();
            assert_eq!(Rc::strong_count(&rc), 2);
            lua.globals().set("bad", f.clone()).unwrap();
            assert_eq!(Rc::strong_count(&rc), 2);
            block_on::<_, ()>(rt.drive(f.call_async(lua, ()))).expect("call failed");
            assert_eq!(Rc::strong_count(&rc), 2);
            block_on::<_, ()>(rt.drive(f.call_async(lua, ()))).expect("call failed");
            assert_eq!(Rc::strong_count(&rc), 2);
        });
        assert_eq!(rc.get(), 42);
        assert_eq!(Rc::strong_count(&rc), 1);

        let call_res = block_on::<_, ()>(
            rt.drive(
                lua.globals()
                    .get::<_, Function>("bad")
                    .unwrap()
                    .call_async(lua, ()),
            ),
        );
        match call_res {
            Err(Error::CallbackError { .. }) => {}
            r => panic!("improper return for destructed function: {:?}", r),
        };
    });
}
