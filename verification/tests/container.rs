use easy_error::attach::attach_context;
use easy_error::EasyError;
use easy_error::ErrorValue;

#[test]
fn render_joins_context_and_source() {
    let e = ErrorValue::new(String::from("boom"));
    let err = EasyError::with_context(e, "ctx");
    assert_eq!(err.render(), "ctx: boom");
}

#[test]
fn construct_keeps_context_and_source() {
    let e = ErrorValue::new(String::from("boom"));
    let err = EasyError::with_context(e, "ctx");
    assert_eq!(err.context(), "ctx");
    assert_eq!(err.source().message(), "boom");
    assert!(err.source().cause().is_none());
}

#[test]
fn wrapped_cause_is_reachable() {
    let leaf = ErrorValue::new(String::from("io failure"));
    let v = ErrorValue::with_cause(String::from("higher"), leaf);
    assert_eq!(v.message(), "higher");
    assert_eq!(v.render(), "higher");
    let c = v.cause().unwrap();
    assert_eq!(c.message(), "io failure");
    assert!(c.cause().is_none());
}

#[test]
fn attach_context_passes_success_through() {
    let r: Result<i32, EasyError> = attach_context(Ok(5), "ctx");
    assert_eq!(r.unwrap(), 5);
}

#[test]
fn attach_context_wraps_failure() {
    let e = ErrorValue::new(String::from("boom"));
    let r: Result<i32, EasyError> = attach_context(Err(e), "ctx");
    let err = r.err().unwrap();
    assert_eq!(err.context(), "ctx");
    assert_eq!(err.source().message(), "boom");
    assert_eq!(err.render(), "ctx: boom");
}

#[test]
fn chains_compose_and_walk() {
    let leaf = ErrorValue::new(String::from("leaf"));
    let inner = EasyError::with_context(leaf, "inner");
    let outer = EasyError::with_context(inner.into_value(), "outer");
    assert_eq!(outer.render(), "outer: inner: leaf");
    let chain = outer.cause_chain();
    assert_eq!(chain.len(), 2);
    assert_eq!(chain[0].message(), "inner: leaf");
    assert_eq!(chain[1].message(), "leaf");
}
