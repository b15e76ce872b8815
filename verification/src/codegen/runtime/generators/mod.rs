pub mod coro;
