//! The watcher's side of the live subscription: the control message it
//! sends, and what it does with each inbound frame.
use vstd::prelude::*;
use vstd::string::StringExecFns;

verus! {

/// The `method` member of the JSON object that `text` holds, when `text` is
/// a JSON object whose `method` is a string.
pub uninterp spec fn json_method(text: Seq<char>) -> Option<Seq<char>>;

/// The member `params.result.root` of the JSON value that `text` holds,
/// when it is present and a non-negative integer that fits in a `u64`.
pub uninterp spec fn json_slot_root(text: Seq<char>) -> Option<u64>;

/// Relies on `serde_json::from_str` to read `text` as a JSON value and on
/// `Value::get` and `Value::as_str` to read its string member `method`.
#[verifier::external_body]
fn read_method(text: &str) -> (r: Option<String>)
    ensures
        r matches Some(m) ==> json_method(text@) == Some(m@),
        r is None ==> json_method(text@) is None,
{
    let v: serde_json::Value = serde_json::from_str(text).ok()?;
    v.get("method")?.as_str().map(|m| m.to_string())
}

/// Relies on `serde_json::from_str` to read `text` as a JSON value and on
/// `Value`'s indexing and `Value::as_u64` to read `params.result.root`.
#[verifier::external_body]
fn read_slot_root(text: &str) -> (r: Option<u64>)
    ensures
        r == json_slot_root(text@),
{
    let v: serde_json::Value = serde_json::from_str(text).ok()?;
    v["params"]["result"]["root"].as_u64()
}

/// The subscription request for slot finalization notifications.
pub fn slot_subscribe_message() -> (r: String)
    ensures
        r@ == "{\"jsonrpc\":\"2.0\",\"id\":\"1\",\"method\":\"slotSubscribe\"}"@,
{
    String::from_str("{\"jsonrpc\":\"2.0\",\"id\":\"1\",\"method\":\"slotSubscribe\"}")
}

/// One inbound frame of the subscription connection.
pub enum Frame {
    /// A text message.
    Text(String),
    /// The peer closed the connection.
    Close,
    /// The transport failed.
    TransportError(String),
    /// Any other frame (binary, ping, pong).
    Other,
}

/// What the watcher does with a frame.
#[derive(Debug, PartialEq, Eq)]
pub enum WatchAction {
    /// Queue this finalized slot for the processor.
    Enqueue(u64),
    /// Nothing: the frame carries no finalized slot.
    Ignore,
    /// End the watch normally.
    Stop,
    /// End the watch with this transport failure.
    Fail(String),
}

/// The action for a text message whose `method` and `params.result.root`
/// read as given: a slot finalization notification with a root slot queues
/// that slot; every other message is ignored.
pub open spec fn text_action(method: Option<Seq<char>>, root: Option<u64>) -> WatchAction {
    if method == Some("slotNotification"@) && root is Some {
        WatchAction::Enqueue(root->0)
    } else {
        WatchAction::Ignore
    }
}

/// The action for a text message whose `method` member and
/// `params.result.root` member were read as `method` and `root`.
pub fn classify_text(method: &Option<String>, root: Option<u64>) -> (r: WatchAction)
    ensures
        r == text_action(
            match method {
                Some(m) => Some(m@),
                None => None,
            },
            root,
        ),
{
    let is_slot = match method {
        Some(m) => str_eq(m.as_str(), "slotNotification"),
        None => false,
    };
    match root {
        Some(slot) if is_slot => WatchAction::Enqueue(slot),
        _ => WatchAction::Ignore,
    }
}

fn str_eq(a: &str, b: &str) -> (r: bool)
    ensures
        r == (a@ == b@),
{
    let n = a.unicode_len();
    if n != b.unicode_len() {
        return false;
    }
    let mut i: usize = 0;
    while i < n
        invariant
            n == a@.len(),
            n == b@.len(),
            i <= n,
            forall|k: int| 0 <= k < i ==> a@[k] == b@[k],
        decreases n - i,
    {
        if a.get_char(i) != b.get_char(i) {
            return false;
        }
        i = i + 1;
    }
    assert(a@ =~= b@);
    true
}

/// The action for one inbound frame: a text message as
/// [`classify_text`] decides on what it reads; a close ends the watch; a
/// transport error ends it with that failure; any other frame is ignored.
pub fn on_frame(frame: &Frame) -> (r: WatchAction)
    ensures
        frame matches Frame::Text(t) ==> r == text_action(json_method(t@), json_slot_root(t@)),
        frame matches Frame::Close ==> r == WatchAction::Stop,
        frame matches Frame::TransportError(e) ==> r == WatchAction::Fail(*e),
        frame matches Frame::Other ==> r == WatchAction::Ignore,
{
    match frame {
        Frame::Text(t) => {
            let method = read_method(t.as_str());
            let root = read_slot_root(t.as_str());
            classify_text(&method, root)
        },
        Frame::Close => WatchAction::Stop,
        Frame::TransportError(e) => WatchAction::Fail(e.clone()),
        Frame::Other => WatchAction::Ignore,
    }
}

} // verus!
