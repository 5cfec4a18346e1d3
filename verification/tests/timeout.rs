use harrow::response::Response;
use harrow::timeout::{timeout_middleware, TimeoutMiddleware};
use std::time::Duration;

fn run(mw: &TimeoutMiddleware, delay: Option<Duration>) -> Response {
    let rt = tokio::runtime::Builder::new_current_thread()
        .enable_time()
        .build()
        .unwrap();
    rt.block_on(async {
        let handler = async move {
            if let Some(d) = delay {
                tokio::time::sleep(d).await;
            }
            Response::ok()
        };
        let outcome = tokio::time::timeout(mw.duration(), handler).await.ok();
        mw.finish(outcome)
    })
}

#[test]
fn timeout_fires_returns_408() {
    let mw = timeout_middleware(Duration::from_millis(10));
    let resp = run(&mw, Some(Duration::from_millis(200)));
    assert_eq!(resp.status_code(), 408);
}

#[test]
fn fast_handler_passes_through() {
    let mw = timeout_middleware(Duration::from_secs(1));
    let resp = run(&mw, None);
    assert_eq!(resp.status_code(), 200);
}

#[test]
fn zero_duration_immediately_times_out() {
    let mw = timeout_middleware(Duration::ZERO);
    let resp = run(&mw, Some(Duration::from_millis(10)));
    assert_eq!(resp.status_code(), 408);
}

#[test]
fn timeout_response_body() {
    let mw = timeout_middleware(Duration::from_secs(3));
    assert_eq!(mw.duration(), Duration::from_secs(3));
    let resp = mw.finish(None);
    assert_eq!(resp.status_code(), 408);
    assert_eq!(resp.body().as_slice(), b"request timeout");
    assert_eq!(resp.headers().len(), 0);
    let passed = mw.finish(Some(Response::text("done")));
    assert_eq!(passed.body().as_slice(), b"done");
}
