use tide_diesel::middleware::{PoolMiddleware, RequestContext};
use tide_diesel::pool::ConnectionPool;

#[test]
fn fresh_context_has_no_handle() {
    let ctx = RequestContext::new();
    assert!(!ctx.has_handle());
    assert!(ctx.acquire_shared_pool().is_err());
}

#[test]
fn handle_attached_on_first_pass() {
    let pool = ConnectionPool::new(7, 4);
    let mw = PoolMiddleware::from_pool(&pool);
    let mut ctx = RequestContext::new();
    mw.handle(&mut ctx);
    assert!(ctx.has_handle());
    let handle = ctx.acquire_shared_pool().unwrap();
    assert_eq!(handle.pool_id(), 7);
}

#[test]
fn idempotent_attachment() {
    // Two instances of the same middleware, simulating nested installation:
    // the handle is attached exactly once and the second pass leaves it
    // untouched.
    let pool = ConnectionPool::new(3, 2);
    let outer = PoolMiddleware::from_pool(&pool);
    let inner = PoolMiddleware::from_pool(&pool);
    let mut ctx = RequestContext::new();

    outer.handle(&mut ctx);
    let first = ctx.acquire_shared_pool().unwrap().pool_id();

    inner.handle(&mut ctx);
    let second = ctx.acquire_shared_pool().unwrap().pool_id();

    assert_eq!(first, 3);
    assert_eq!(second, first);
}

#[test]
fn existing_handle_from_another_pool_is_kept() {
    // An outer layer already attached a handle to pool 1; an inner
    // middleware over pool 2 must detect it and pass through unchanged.
    let pool_one = ConnectionPool::new(1, 2);
    let pool_two = ConnectionPool::new(2, 2);
    let outer = PoolMiddleware::from_pool(&pool_one);
    let inner = PoolMiddleware::from_pool(&pool_two);
    let mut ctx = RequestContext::new();

    outer.handle(&mut ctx);
    inner.handle(&mut ctx);

    assert_eq!(ctx.acquire_shared_pool().unwrap().pool_id(), 1);
}
