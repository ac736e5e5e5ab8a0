use tide_diesel::errors::AccessError;
use tide_diesel::middleware::{PoolMiddleware, RequestContext};
use tide_diesel::pool::{ConnectionPool, PoolError};

fn context_for(pool: &ConnectionPool) -> RequestContext {
    let mw = PoolMiddleware::from_pool(pool);
    let mut ctx = RequestContext::new();
    mw.handle(&mut ctx);
    ctx
}

#[test]
fn capacity_respected() {
    // A pool of size 3 serves 3 checkouts; the 4th is refused with the
    // exhaustion error instead of a connection beyond capacity appearing.
    let mut pool = ConnectionPool::new(1, 3);
    let ctx = context_for(&pool);

    let a = ctx.acquire_connection(&mut pool).unwrap();
    let b = ctx.acquire_connection(&mut pool).unwrap();
    let c = ctx.acquire_connection(&mut pool).unwrap();
    assert_eq!(pool.checked_out(), 3);

    let fourth = ctx.acquire_connection(&mut pool);
    assert!(matches!(fourth, Err(AccessError::PoolExhausted)));
    assert_eq!(pool.checked_out(), 3);
    assert_eq!(pool.max_size(), 3);

    pool.release(a);
    pool.release(b);
    pool.release(c);
    assert_eq!(pool.checked_out(), 0);
}

#[test]
fn release_reopens_a_full_pool() {
    // A connection dropped partway through a handler is returned to the
    // pool; for a pool of size 1 the next checkout then succeeds instead of
    // hitting exhaustion.
    let mut pool = ConnectionPool::new(1, 1);
    let ctx = context_for(&pool);

    let conn = ctx.acquire_connection(&mut pool).unwrap();
    assert!(matches!(
        ctx.acquire_connection(&mut pool),
        Err(AccessError::PoolExhausted)
    ));

    pool.release(conn);
    let again = ctx.acquire_connection(&mut pool);
    assert!(again.is_ok());
    pool.release(again.unwrap());
}

#[test]
fn three_requests_against_a_pool_of_two() {
    // Pool size 2; requests A, B and C arrive concurrently. A and B check
    // out at once; C is refused until A releases, then succeeds. The pool's
    // size stays 2 throughout and every connection comes back.
    let mut pool = ConnectionPool::new(9, 2);
    let ctx_a = context_for(&pool);
    let ctx_b = context_for(&pool);
    let ctx_c = context_for(&pool);

    let conn_a = ctx_a.acquire_connection(&mut pool).unwrap();
    let conn_b = ctx_b.acquire_connection(&mut pool).unwrap();
    assert_eq!(pool.max_size(), 2);
    assert!(matches!(
        ctx_c.acquire_connection(&mut pool),
        Err(AccessError::PoolExhausted)
    ));

    pool.release(conn_a);
    assert_eq!(pool.max_size(), 2);
    let conn_c = ctx_c.acquire_connection(&mut pool).unwrap();

    pool.release(conn_b);
    pool.release(conn_c);
    assert_eq!(pool.checked_out(), 0);
    assert_eq!(pool.max_size(), 2);
}

#[test]
fn direct_checkout_reports_exhaustion() {
    let mut pool = ConnectionPool::new(4, 1);
    let conn = pool.acquire().unwrap();
    assert_eq!(conn.pool_id(), 4);
    assert_eq!(pool.acquire().unwrap_err(), PoolError::Exhausted);
    pool.release(conn);
}
