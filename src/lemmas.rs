use vstd::prelude::*;
use crate::history::{window, HISTORY_WINDOW};
use crate::models::{MessageView, UserView};
use crate::session::{composed, delivered, key_step, ActionView, AppView, InputMode, Key};
use crate::text::is_blank;

verus! {

/// The session after each body of `bodies` in turn is held by the input box and submitted
/// with the Enter key, the i-th one getting the id `ids[i]`.
pub open spec fn submit_all(s: AppView, u: UserView, bodies: Seq<Seq<char>>, ids: Seq<i32>) -> AppView
    decreases bodies.len(),
{
    if bodies.len() == 0 {
        s
    } else {
        let before = submit_all(s, u, bodies.drop_last(), ids.drop_last());
        key_step(AppView { input: bodies.last(), ..before }, u, Key::Enter, ids[bodies.len() - 1]).0
    }
}

/// Submitting non-blank bodies one after another while composing leaves in the history the
/// messages shown before, followed by one message per body, in submission order.
pub proof fn lemma_submissions_append(s: AppView, u: UserView, bodies: Seq<Seq<char>>, ids: Seq<i32>)
    requires
        s.input_mode == InputMode::Editing,
        ids.len() == bodies.len(),
        forall|i: int| 0 <= i < bodies.len() ==> !is_blank(#[trigger] bodies[i]),
    ensures
        submit_all(s, u, bodies, ids).input_mode == InputMode::Editing,
        submit_all(s, u, bodies, ids).messages == s.messages + Seq::new(
            bodies.len(),
            |i: int| composed(ids[i], u.name, bodies[i]),
        ),
    decreases bodies.len(),
{
    if bodies.len() > 0 {
        let n = bodies.len() - 1;
        assert forall|i: int| 0 <= i < bodies.drop_last().len() implies !is_blank(
            #[trigger] bodies.drop_last()[i],
        ) by {
            assert(bodies.drop_last()[i] == bodies[i]);
        }
        lemma_submissions_append(s, u, bodies.drop_last(), ids.drop_last());
        assert(!is_blank(bodies[n]));
        let prev = Seq::new(
            bodies.drop_last().len(),
            |i: int| composed(ids.drop_last()[i], u.name, bodies.drop_last()[i]),
        );
        let all = Seq::new(bodies.len(), |i: int| composed(ids[i], u.name, bodies[i]));
        assert(all =~= prev.push(composed(ids[n], u.name, bodies[n])));
        assert(s.messages + all =~= (s.messages + prev).push(composed(ids[n], u.name, bodies[n])));
    }
}

/// A key press changes the history only when it submits a non-blank input while composing,
/// and exactly then the message is handed on for dispatch. In particular a blank submission
/// leaves the history as it was and dispatches nothing.
pub proof fn lemma_only_submissions_change_history(s: AppView, u: UserView, key: Key, id: i32)
    ensures
        key_step(s, u, key, id).2 is Dispatch <==> (s.input_mode == InputMode::Editing && key
            == Key::Enter && !is_blank(s.input)),
        !(key_step(s, u, key, id).2 is Dispatch) ==> key_step(s, u, key, id).0.messages
            == s.messages,
        s.input_mode == InputMode::Editing && key == Key::Enter && is_blank(s.input) ==> key_step(
            s,
            u,
            key,
            id,
        ).2 == ActionView::Continue,
{
}

/// After a render tick, the messages delivered in it stand at the end of the history in
/// arrival order, as long as no more of them arrive in one tick than the window holds.
pub proof fn lemma_inbound_visible_after_tick(history: Seq<MessageView>, inbound: Seq<Option<MessageView>>)
    requires
        delivered(inbound).len() <= HISTORY_WINDOW,
    ensures
        ({
            let d = delivered(inbound);
            let h = window(history + d, HISTORY_WINDOW as nat);
            &&& d.len() <= h.len()
            &&& h.subrange(h.len() - d.len(), h.len() as int) == d
        }),
{
    let d = delivered(inbound);
    let h = window(history + d, HISTORY_WINDOW as nat);
    assert(h.subrange(h.len() - d.len(), h.len() as int) =~= d);
}

/// A payload that could not be decoded delivers nothing, and valid payloads after it are
/// still delivered in order.
pub proof fn lemma_malformed_payload_dropped(inbound: Seq<Option<MessageView>>, m: MessageView)
    ensures
        delivered(inbound.push(None)) == delivered(inbound),
        delivered(inbound.push(None).push(Some(m))) == delivered(inbound).push(m),
{
    assert(inbound.push(None).drop_last() =~= inbound);
    assert(inbound.push(None).push(Some(m)).drop_last() =~= inbound.push(None));
}

} // verus!
