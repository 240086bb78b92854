//! The download throttle and the single-flight identity cache, driven the
//! way the dispatcher drives them.

use fractal::backend::BKCommand;
use fractal::backend::Backend;
use fractal::backend::DispatchOutcome;
use fractal::backend::Error;
use fractal::backend::ProtocolCall;
use fractal::backend::deliver_media_reply;
use fractal::backend::media_reply_value;
use fractal::throttle::DownloadThrottle;

#[test]
fn throttle_grants_up_to_capacity() {
    let mut t = DownloadThrottle::new(2);
    assert!(t.try_acquire());
    assert!(t.try_acquire());
    // the third task must not begin until one of the first two releases
    assert!(!t.try_acquire());
    t.release();
    assert!(t.try_acquire());
    assert!(!t.try_acquire());
}

#[test]
fn throttle_capacity_zero_never_grants() {
    let mut t = DownloadThrottle::new(0);
    assert!(!t.try_acquire());
    assert_eq!(t.available_permits(), 0);
}

#[test]
fn five_thumb_fetches_run_at_most_two_at_once() {
    // scenario: five thumbnail commands with throttle capacity two; at any
    // sampled instant no more than two fetch tasks run, and all five
    // eventually deliver a reply
    let mut bk = Backend::new(2);
    let mut receivers = Vec::new();
    let mut pending: Vec<std::sync::mpsc::Sender<String>> = Vec::new();
    for i in 0..5 {
        let (tx, rx) = std::sync::mpsc::channel::<String>();
        receivers.push(rx);
        match bk.dispatch(BKCommand::GetThumbAsync(format!("mxc://thumb/{i}"), tx)) {
            DispatchOutcome::ThrottledCall(ProtocolCall::GetThumb { url, tx, .. }) => {
                assert_eq!(url, format!("mxc://thumb/{i}"));
                pending.push(tx);
            }
            _ => panic!("a thumbnail lookup must be a throttled fetch"),
        }
    }
    let mut active: Vec<std::sync::mpsc::Sender<String>> = Vec::new();
    let mut max_active = 0usize;
    let mut completed = 0usize;
    while completed < 5 {
        while !pending.is_empty() && bk.limit_threads.try_acquire() {
            active.push(pending.remove(0));
        }
        assert!(active.len() <= 2, "more fetch tasks than permits were running");
        max_active = max_active.max(active.len());
        let tx = active.remove(0);
        deliver_media_reply(&tx, Ok(format!("/cache/thumb-{completed}")));
        bk.limit_threads.release();
        completed += 1;
    }
    assert_eq!(max_active, 2);
    for rx in receivers {
        let got = rx.try_recv().unwrap();
        assert!(got.starts_with("/cache/thumb-"));
    }
}

#[test]
fn media_reply_falls_back_on_failure() {
    // a failed fetch still answers its reply channel, with the fallback
    let (tx, rx) = std::sync::mpsc::channel::<String>();
    deliver_media_reply(&tx, Err(Error::Network("gone".to_string())));
    assert_eq!(rx.try_recv().unwrap(), "");
}

#[test]
fn concurrent_identity_lookups_share_one_fetch() {
    // scenario: two lookups of the same user before any response; both
    // reply channels get the identical pair, and the remote lookup was
    // invoked exactly once
    let mut bk = Backend::new(2);
    let (tx_a, rx_a) = std::sync::mpsc::channel::<(String, String)>();
    let (tx_b, rx_b) = std::sync::mpsc::channel::<(String, String)>();
    let first = bk.dispatch(BKCommand::GetUserInfoAsync("@bob:example.org".to_string(), tx_a));
    match first {
        DispatchOutcome::ThrottledCall(ProtocolCall::GetUserInfo { uid, .. }) => {
            assert_eq!(uid, "@bob:example.org");
        }
        _ => panic!("the first lookup performs the one fetch"),
    }
    let second = bk.dispatch(BKCommand::GetUserInfoAsync("@bob:example.org".to_string(), tx_b));
    assert!(
        matches!(second, DispatchOutcome::Done),
        "the second lookup must ride on the in-flight fetch"
    );
    let answered = bk.complete_user_info(
        &"@bob:example.org".to_string(),
        Ok(("Bob".to_string(), "/cache/bob.png".to_string())),
    );
    assert_eq!(answered, 2);
    let a = rx_a.try_recv().unwrap();
    let b = rx_b.try_recv().unwrap();
    assert_eq!(a, b);
    assert_eq!(a, ("Bob".to_string(), "/cache/bob.png".to_string()));
}

#[test]
fn later_identity_lookup_is_answered_from_the_cache() {
    let mut bk = Backend::new(2);
    let (tx_a, _rx_a) = std::sync::mpsc::channel::<(String, String)>();
    bk.dispatch(BKCommand::GetUserInfoAsync("@amy:s".to_string(), tx_a));
    bk.complete_user_info(&"@amy:s".to_string(), Ok(("Amy".to_string(), "a.png".to_string())));
    let (tx_b, rx_b) = std::sync::mpsc::channel::<(String, String)>();
    let again = bk.dispatch(BKCommand::GetUserInfoAsync("@amy:s".to_string(), tx_b));
    assert!(matches!(again, DispatchOutcome::Done), "a cache hit performs no fetch");
    assert_eq!(rx_b.try_recv().unwrap(), ("Amy".to_string(), "a.png".to_string()));
}

#[test]
fn failed_identity_fetch_fills_the_fallback() {
    let mut bk = Backend::new(2);
    let (tx, rx) = std::sync::mpsc::channel::<(String, String)>();
    bk.dispatch(BKCommand::GetUserInfoAsync("@gone:s".to_string(), tx));
    let answered = bk.complete_user_info(
        &"@gone:s".to_string(),
        Err(Error::Network("no route".to_string())),
    );
    assert_eq!(answered, 1);
    assert_eq!(rx.try_recv().unwrap(), ("".to_string(), "".to_string()));
    // and later callers are answered from the fallback, not left waiting
    let (tx2, rx2) = std::sync::mpsc::channel::<(String, String)>();
    let again = bk.dispatch(BKCommand::GetUserInfoAsync("@gone:s".to_string(), tx2));
    assert!(matches!(again, DispatchOutcome::Done));
    assert_eq!(rx2.try_recv().unwrap(), ("".to_string(), "".to_string()));
}

#[test]
fn logout_tears_the_identity_cache_down() {
    let mut bk = Backend::new(2);
    let (tx, _rx) = std::sync::mpsc::channel::<(String, String)>();
    bk.dispatch(BKCommand::GetUserInfoAsync("@amy:s".to_string(), tx));
    bk.complete_user_info(&"@amy:s".to_string(), Ok(("Amy".to_string(), "a".to_string())));
    bk.complete(fractal::backend::CallOutcome::Logout(Ok(())));
    // after the teardown the next lookup fetches again
    let (tx2, _rx2) = std::sync::mpsc::channel::<(String, String)>();
    let out = bk.dispatch(BKCommand::GetUserInfoAsync("@amy:s".to_string(), tx2));
    assert!(matches!(out, DispatchOutcome::ThrottledCall(_)));
}

#[test]
fn media_reply_value_is_the_path_or_the_fallback() {
    assert_eq!(media_reply_value(Ok("/cache/a.png".to_string())), "/cache/a.png");
    assert_eq!(media_reply_value(Err(Error::Network("gone".to_string()))), "");
}

#[test]
fn user_info_completion_after_teardown_answers_nobody() {
    // a logout can tear the cache down while a fetch is in flight; the
    // late completion then changes nothing and owes no answer
    let mut bk = Backend::new(2);
    let (tx, rx) = std::sync::mpsc::channel::<(String, String)>();
    bk.dispatch(BKCommand::GetUserInfoAsync("@amy:s".to_string(), tx));
    bk.complete(fractal::backend::CallOutcome::Logout(Ok(())));
    let answered = bk.complete_user_info(
        &"@amy:s".to_string(),
        Ok(("Amy".to_string(), "a.png".to_string())),
    );
    assert_eq!(answered, 0);
    assert!(rx.try_recv().is_err());
}

#[test]
fn first_identity_completion_wins() {
    // once a cell is filled its pair is permanent: a late second
    // completion changes nothing and answers nobody
    let mut bk = Backend::new(2);
    let (tx, rx) = std::sync::mpsc::channel::<(String, String)>();
    bk.dispatch(BKCommand::GetUserInfoAsync("@amy:s".to_string(), tx));
    let first = bk.complete_user_info(
        &"@amy:s".to_string(),
        Ok(("Amy".to_string(), "a.png".to_string())),
    );
    assert_eq!(first, 1);
    assert_eq!(rx.try_recv().unwrap(), ("Amy".to_string(), "a.png".to_string()));
    let second = bk.complete_user_info(
        &"@amy:s".to_string(),
        Ok(("Impostor".to_string(), "i.png".to_string())),
    );
    assert_eq!(second, 0);
    let (tx2, rx2) = std::sync::mpsc::channel::<(String, String)>();
    let again = bk.dispatch(BKCommand::GetUserInfoAsync("@amy:s".to_string(), tx2));
    assert!(matches!(again, DispatchOutcome::Done));
    assert_eq!(rx2.try_recv().unwrap(), ("Amy".to_string(), "a.png".to_string()));
}
