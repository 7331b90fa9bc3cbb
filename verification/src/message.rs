use vstd::prelude::*;
use vstd::string::StrSliceExecFns;

use crate::error::ChatError;

verus! {

/// The speaker of a single message exchanged with the API.
#[derive(Clone, Copy, Debug, PartialEq, Eq, Structural)]
pub enum MessageRole {
    System,
    User,
    Assistant,
}

/// A single role-tagged content unit; immutable once created.
#[derive(Debug)]
pub struct Message {
    pub role: MessageRole,
    pub content: String,
}

/// Mathematical model of a message: its role and its content as a
/// sequence of characters.
pub struct MessageView {
    pub role: MessageRole,
    pub content: Seq<char>,
}

impl View for Message {
    type V = MessageView;

    open spec fn view(&self) -> MessageView {
        MessageView { role: self.role, content: self.content@ }
    }
}

/// The models of a sequence of messages, in order.
pub open spec fn msg_views(msgs: Seq<Message>) -> Seq<MessageView> {
    msgs.map_values(|m: Message| m@)
}

impl Message {
    /// A fresh user message carrying `content`.
    pub fn new(content: &str) -> (r: Message)
        ensures
            r@ == (MessageView { role: MessageRole::User, content: content@ }),
    {
        Message { role: MessageRole::User, content: content.to_owned() }
    }

    /// A fresh message with the given role and content.
    pub fn with_role(role: MessageRole, content: &str) -> (r: Message)
        ensures
            r@ == (MessageView { role: role, content: content@ }),
    {
        Message { role, content: content.to_owned() }
    }
}

/// The model's context limit: the maximum estimated token count that one
/// request's message sequence may carry.
pub const MAX_TOKENS: u64 = 4096;

/// Estimated token cost of a message sequence: the sum of the character
/// counts of the contents. The heuristic is deterministic and monotonic
/// in content length.
pub open spec fn estimate_of(msgs: Seq<MessageView>) -> nat
    decreases msgs.len(),
{
    if msgs.len() == 0 {
        0
    } else {
        estimate_of(msgs.drop_last()) + msgs.last().content.len()
    }
}

/// `estimate_of`, saturated at the largest machine-representable count.
pub open spec fn estimate_sat(msgs: Seq<MessageView>) -> nat {
    if estimate_of(msgs) > u64::MAX {
        u64::MAX as nat
    } else {
        estimate_of(msgs)
    }
}

/// Appending a message never lowers the estimate; it grows by exactly the
/// appended content's length.
pub proof fn lemma_estimate_push(msgs: Seq<MessageView>, m: MessageView)
    ensures
        estimate_of(msgs.push(m)) == estimate_of(msgs) + m.content.len(),
{
    assert(msgs.push(m).drop_last() =~= msgs);
}

/// The estimate is monotonically non-decreasing as messages are appended:
/// a prefix of a sequence estimates no higher than the whole.
pub proof fn lemma_estimate_prefix_mono(m1: Seq<MessageView>, m2: Seq<MessageView>)
    requires
        m1.is_prefix_of(m2),
    ensures
        estimate_of(m1) <= estimate_of(m2),
    decreases m2.len(),
{
    if m1.len() == m2.len() {
        assert(m1 =~= m2);
    } else {
        assert(m1.is_prefix_of(m2.drop_last()));
        lemma_estimate_prefix_mono(m1, m2.drop_last());
    }
}

/// The estimate is monotonically non-decreasing as content is appended
/// within messages: growing any content pointwise never lowers it.
pub proof fn lemma_estimate_content_mono(m1: Seq<MessageView>, m2: Seq<MessageView>)
    requires
        m1.len() == m2.len(),
        forall|i: int| 0 <= i < m1.len() ==> #[trigger] m1[i].content.len() <= m2[i].content.len(),
    ensures
        estimate_of(m1) <= estimate_of(m2),
    decreases m1.len(),
{
    if m1.len() > 0 {
        lemma_estimate_content_mono(m1.drop_last(), m2.drop_last());
    }
}

/// Computes the token estimate of `messages`, saturating at `u64::MAX`.
pub fn estimate(messages: &Vec<Message>) -> (r: u64)
    ensures
        r as nat == estimate_sat(msg_views(messages@)),
{
    let mut total: u64 = 0;
    let mut i: usize = 0;
    while i < messages.len()
        invariant
            i <= messages@.len(),
            total as nat == estimate_sat(msg_views(messages@.take(i as int))),
        decreases messages@.len() - i,
    {
        let l: usize = messages[i].content.as_str().unicode_len();
        proof {
            assert(msg_views(messages@.take(i + 1)).drop_last() =~= msg_views(
                messages@.take(i as int),
            ));
            assert(msg_views(messages@.take(i + 1)).last() == messages@[i as int]@);
        }
        if (l as u64) <= u64::MAX - total {
            total = total + (l as u64);
        } else {
            total = u64::MAX;
        }
        i = i + 1;
    }
    proof {
        assert(messages@.take(messages@.len() as int) =~= messages@);
    }
    total
}

/// Rejects a message sequence whose estimate exceeds the model's context
/// limit; this check must run before any request is dispatched.
pub fn within_max_tokens_limit(messages: &Vec<Message>) -> (r: Result<(), ChatError>)
    ensures
        r is Ok <==> estimate_of(msg_views(messages@)) <= MAX_TOKENS,
        r is Err ==> r == Err::<(), ChatError>(ChatError::ExceedsLimit {
            estimated: estimate_sat(msg_views(messages@)) as u64,
            limit: MAX_TOKENS,
        }),
{
    let estimated = estimate(messages);
    if estimated > MAX_TOKENS {
        Err(ChatError::ExceedsLimit { estimated, limit: MAX_TOKENS })
    } else {
        Ok(())
    }
}

} // verus!
