# rlua_async

Lets asynchronous Rust code and Lua code that runs in `rlua` call each other. The only condition is
that the Lua code does not use coroutines, because coroutines are how a pending future is carried
through Lua.

- An asynchronous Rust function becomes a Lua function with `ContextExt::create_async_function`,
  `ContextExt::create_async_function_mut` or, for the length of a scope,
  `ScopeExt::create_async_function`.
- Lua code is called asynchronously with `FunctionExt::call_async`, `ChunkExt::call_async` and
  `ChunkExt::exec_async`. Called in any other way, it cannot wait for a future.

## Layout

- `src/` is the verified library. It decides what is handed to a coroutine, what Lua is told after a
  poll, and when a call is pending, done or failed. How a future is polled and how its results are
  converted to Lua values are parameters of its functions.
  - `lua` holds what is taken on trust about `rlua`.
  - `thread` drives a coroutine to its end.
  - `reply` is the protocol between the poll of a future and Lua.
  - `args` is how the arguments of a call are converted from Lua values.
  - `poller` and `fut_gen` are the callbacks behind asynchronous functions.
  - `helper` holds the Lua scripts that turn these callbacks into asynchronous functions.
  - `ext` offers all this as extension traits, and `prelude` exports them.
  - `laws` states what holds over more than one call.
- `app/` puts the traits of `std::future` and `rlua` around it.
- `tests/` runs the library on real Lua states.
