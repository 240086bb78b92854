//! Point-to-point reply channels.
//!
//! Lookup-style commands carry a one-shot reply sender; the engine delivers
//! exactly one value (the result, or a fallback) on each such sender. The
//! sender type is std's mpsc sender, which Verus knows only through the
//! declarations here; sends are fire-and-forget best effort.

use vstd::prelude::*;

verus! {

/// std's mpsc sender, declared so values of it can ride through commands
/// and cache cells; the engine only carries it and sends on it.
#[verifier::external_type_specification]
#[verifier::external_body]
#[verifier::reject_recursive_types(T)]
pub struct ExSender<T>(std::sync::mpsc::Sender<T>);

/// Relies on std's `mpsc::Sender::send`: hands the value to the channel,
/// telling whether a receiver was still attached. Never blocks.
#[verifier::external_body]
pub fn send_string(tx: &std::sync::mpsc::Sender<String>, value: String) -> bool {
    tx.send(value).is_ok()
}

/// Relies on std's `mpsc::Sender::send`: hands the pair to the channel,
/// telling whether a receiver was still attached. Never blocks.
#[verifier::external_body]
pub fn send_user_info(
    tx: &std::sync::mpsc::Sender<(String, String)>,
    name: String,
    avatar: String,
) -> bool {
    tx.send((name, avatar)).is_ok()
}

} // verus!
