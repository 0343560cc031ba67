use vstd::prelude::*;
use crate::models::Message;

verus! {

/// How many messages the history keeps by default.
pub const HISTORY_WINDOW: usize = 10;

/// The last `k` elements of `s`, or all of `s` when it holds no more than `k`.
pub open spec fn window<T>(s: Seq<T>, k: nat) -> Seq<T> {
    if s.len() > k {
        s.subrange(s.len() - k, s.len() as int)
    } else {
        s
    }
}

/// Keeps the `k` most recent messages, dropping the oldest ones.
pub fn keep_recent(messages: Vec<Message>, k: usize) -> (r: Vec<Message>)
    ensures
        r@ == window(messages@, k as nat),
{
    let mut messages = messages;
    let count = messages.len();
    if count > k {
        let recent = messages.split_off(count - k);
        recent
    } else {
        messages
    }
}

/// Keeps the `HISTORY_WINDOW` most recent messages.
pub fn remove_old_messages(messages: Vec<Message>) -> (r: Vec<Message>)
    ensures
        r@ == window(messages@, HISTORY_WINDOW as nat),
{
    keep_recent(messages, HISTORY_WINDOW)
}

/// The window never fails and holds the `min(count, k)` most recent elements, in the order
/// they had.
pub proof fn lemma_window_keeps_most_recent<T>(s: Seq<T>, k: nat)
    ensures
        window(s, k).len() == if s.len() < k { s.len() } else { k },
        forall|i: int|
            0 <= i < window(s, k).len() ==> #[trigger] window(s, k)[i] == s[s.len()
                - window(s, k).len() + i],
{
}

} // verus!
