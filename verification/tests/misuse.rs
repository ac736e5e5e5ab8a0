use tide_diesel::errors::AccessError;
use tide_diesel::middleware::RequestContext;
use tide_diesel::pool::ConnectionPool;
use tide_diesel::serialized::SerializedPool;

#[test]
fn checkout_without_middleware_is_refused() {
    // An accessor on a request that never passed through the middleware
    // fails immediately with the distinct misuse diagnostic and leaves the
    // pool untouched.
    let mut pool = ConnectionPool::new(2, 2);
    let ctx = RequestContext::new();
    let r = ctx.acquire_connection(&mut pool);
    assert!(matches!(r, Err(AccessError::MiddlewareNotInstalled)));
    assert_eq!(pool.checked_out(), 0);
}

#[test]
fn shared_pool_without_middleware_is_refused() {
    let ctx = RequestContext::new();
    match ctx.acquire_shared_pool() {
        Err(e) => assert_eq!(e, AccessError::MiddlewareNotInstalled),
        Ok(_) => panic!("a handle appeared without the middleware"),
    }
}

#[test]
fn exclusive_access_without_middleware_is_refused() {
    let mut lock = SerializedPool::new(2);
    let ctx = RequestContext::new();
    let r = ctx.acquire_exclusive_connection(&mut lock);
    assert!(matches!(r, Err(AccessError::MiddlewareNotInstalled)));
    assert!(!lock.is_locked());
}

#[test]
fn misuse_diagnostic_is_distinct() {
    assert_eq!(
        AccessError::MiddlewareNotInstalled.message(),
        "the pool middleware is not installed for this request"
    );
    assert_eq!(
        AccessError::PoolExhausted.message(),
        "no connection is available: the pool is exhausted"
    );
    assert_ne!(
        AccessError::MiddlewareNotInstalled.message(),
        AccessError::PoolExhausted.message()
    );
}
