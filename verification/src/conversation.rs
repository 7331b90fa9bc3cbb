use vstd::prelude::*;
use vstd::string::StringExecFns;

use crate::error::ChatError;
use crate::message::{
    estimate, estimate_of, Message, MessageRole, MessageView, msg_views, MAX_TOKENS,
};
use crate::role::{role_prelude, role_usable, Role};

verus! {

/// One recorded input/output pair in a conversation's history.
#[derive(Debug)]
pub struct Exchange {
    pub input: String,
    pub output: String,
}

impl Clone for Exchange {
    fn clone(&self) -> (r: Self)
        ensures
            r == *self,
    {
        Exchange { input: self.input.clone(), output: self.output.clone() }
    }
}

/// Ordered history of exchanges, bound to at most one role that was
/// snapshotted when the conversation started.
#[derive(Debug)]
pub struct Conversation {
    pub role: Option<Role>,
    pub exchanges: Vec<Exchange>,
}

/// The history flattened into user/assistant message pairs, oldest first.
pub open spec fn flatten_exchanges(es: Seq<Exchange>) -> Seq<MessageView>
    decreases es.len(),
{
    if es.len() == 0 {
        Seq::empty()
    } else {
        flatten_exchanges(es.drop_last()) + seq![
            MessageView { role: MessageRole::User, content: es.last().input@ },
            MessageView { role: MessageRole::Assistant, content: es.last().output@ },
        ]
    }
}

/// The wire sequence a conversation produces for a new input:
/// `[system?, ...prior exchanges as user/assistant pairs, current input]`.
pub open spec fn conv_msg_views(
    role: Option<Role>,
    es: Seq<Exchange>,
    input: Seq<char>,
) -> Seq<MessageView> {
    role_prelude(role) + flatten_exchanges(es) + seq![
        MessageView { role: MessageRole::User, content: input },
    ]
}

/// The dry-run echo of the flattened history: inputs and outputs in
/// order, each followed by a line break.
pub open spec fn echo_exchanges(es: Seq<Exchange>) -> Seq<char>
    decreases es.len(),
{
    if es.len() == 0 {
        Seq::empty()
    } else {
        echo_exchanges(es.drop_last()) + es.last().input@ + "\n"@ + es.last().output@ + "\n"@
    }
}

/// The dry-run echo of a whole conversation for a new input.
pub open spec fn conv_echo(role: Option<Role>, es: Seq<Exchange>, input: Seq<char>) -> Seq<char> {
    (match role {
        Some(r) => r.prompt@ + "\n"@,
        None => Seq::<char>::empty(),
    }) + echo_exchanges(es) + input
}

/// With a bound role `R`, one prior exchange `(i1, o1)` and a new input
/// `i2`, the produced sequence is exactly
/// `[System(R.prompt), User(i1), Assistant(o1), User(i2)]`.
pub proof fn lemma_build_messages_round_trip(r: Role, e: Exchange, input: Seq<char>)
    ensures
        conv_msg_views(Some(r), seq![e], input) == seq![
            MessageView { role: MessageRole::System, content: r.prompt@ },
            MessageView { role: MessageRole::User, content: e.input@ },
            MessageView { role: MessageRole::Assistant, content: e.output@ },
            MessageView { role: MessageRole::User, content: input },
        ],
{
    assert(seq![e].drop_last() =~= Seq::<Exchange>::empty());
    assert(flatten_exchanges(Seq::<Exchange>::empty()) == Seq::<MessageView>::empty());
    assert(flatten_exchanges(seq![e]) =~= seq![
        MessageView { role: MessageRole::User, content: e.input@ },
        MessageView { role: MessageRole::Assistant, content: e.output@ },
    ]);
    assert(conv_msg_views(Some(r), seq![e], input) =~= seq![
        MessageView { role: MessageRole::System, content: r.prompt@ },
        MessageView { role: MessageRole::User, content: e.input@ },
        MessageView { role: MessageRole::Assistant, content: e.output@ },
        MessageView { role: MessageRole::User, content: input },
    ]);
}

/// What remains of the model's context limit once the flattened
/// history is accounted for; the role's prelude does not count.
pub open spec fn remaining_tokens_of(es: Seq<Exchange>) -> nat {
    let used = estimate_of(flatten_exchanges(es));
    if used >= MAX_TOKENS {
        0
    } else {
        (MAX_TOKENS - used) as nat
    }
}

impl Conversation {
    /// Starts a conversation bound to a snapshot of the given role.
    pub fn new(role: Option<Role>) -> (r: Conversation)
        ensures
            r.role == role,
            r.exchanges@ == Seq::<Exchange>::empty(),
    {
        Conversation { role, exchanges: Vec::new() }
    }

    /// Appends the flattened history, oldest first, to a sequence
    /// under construction.
    fn push_history(&self, out: &mut Vec<Message>)
        ensures
            msg_views(final(out)@) == msg_views(old(out)@) + flatten_exchanges(self.exchanges@),
    {
        proof {
            assert(msg_views(out@) =~= msg_views(out@) + flatten_exchanges(
                self.exchanges@.take(0),
            ));
        }
        let mut i: usize = 0;
        while i < self.exchanges.len()
            invariant
                i <= self.exchanges@.len(),
                msg_views(out@) == msg_views(old(out)@) + flatten_exchanges(
                    self.exchanges@.take(i as int),
                ),
            decreases self.exchanges@.len() - i,
        {
            let ghost prev = out@;
            let m1 = Message::with_role(MessageRole::User, self.exchanges[i].input.as_str());
            let m2 = Message::with_role(MessageRole::Assistant, self.exchanges[i].output.as_str());
            out.push(m1);
            out.push(m2);
            proof {
                assert(self.exchanges@.take(i + 1).drop_last() =~= self.exchanges@.take(i as int));
                assert(self.exchanges@.take(i + 1).last() == self.exchanges@[i as int]);
                assert(flatten_exchanges(self.exchanges@.take(i + 1)) == flatten_exchanges(
                    self.exchanges@.take(i as int),
                ) + seq![m1@, m2@]);
                assert(msg_views(out@) =~= msg_views(prev).push(m1@).push(m2@));
                assert(msg_views(prev).push(m1@).push(m2@) =~= msg_views(old(out)@)
                    + flatten_exchanges(self.exchanges@.take(i + 1)));
            }
            i = i + 1;
        }
        proof {
            assert(self.exchanges@.take(self.exchanges@.len() as int) =~= self.exchanges@);
        }
    }

    /// The prelude and flattened history, without a new input.
    fn base_messages(&self) -> (r: Vec<Message>)
        ensures
            msg_views(r@) == role_prelude(self.role) + flatten_exchanges(self.exchanges@),
    {
        let mut out: Vec<Message> = Vec::new();
        match &self.role {
            Some(role) => {
                out.push(Message::with_role(MessageRole::System, role.prompt.as_str()));
            },
            None => {},
        }
        proof {
            assert(msg_views(out@) =~= role_prelude(self.role));
        }
        self.push_history(&mut out);
        out
    }

    /// Builds the next request payload's message sequence for `content`.
    /// The token-budget check is the caller's duty, before dispatch.
    pub fn build_messages(&self, content: &str) -> (r: Vec<Message>)
        requires
            self.role matches Some(r) ==> role_usable(r),
        ensures
            msg_views(r@) == conv_msg_views(self.role, self.exchanges@, content@),
    {
        let mut out = self.base_messages();
        out.push(Message::new(content));
        proof {
            assert(msg_views(out@) =~= conv_msg_views(self.role, self.exchanges@, content@));
        }
        out
    }

    /// Records a completed exchange at the end of the history.
    pub fn add_message(&mut self, input: &str, output: &str)
        ensures
            final(self).role == old(self).role,
            final(self).exchanges@.len() == old(self).exchanges@.len() + 1,
            final(self).exchanges@.drop_last() == old(self).exchanges@,
            final(self).exchanges@.last().input@ == input@,
            final(self).exchanges@.last().output@ == output@,
    {
        self.exchanges.push(Exchange { input: input.to_owned(), output: output.to_owned() });
        proof {
            assert(final(self).exchanges@.drop_last() =~= old(self).exchanges@);
        }
    }

    /// Replaces the bound role; switching to a concrete role is always
    /// permitted.
    pub fn update_role(&mut self, role: &Role) -> (r: Result<(), ChatError>)
        ensures
            r is Ok,
            final(self).role == Some(*role),
            final(self).exchanges@ == old(self).exchanges@,
    {
        self.role = Some(role.clone());
        Ok(())
    }

    /// Clearing the role entirely is rejected while remaining budget is
    /// positive: the caller must end the conversation first.
    pub fn can_clear_role(&self) -> (r: Result<(), ChatError>)
        ensures
            r is Ok <==> remaining_tokens_of(self.exchanges@) == 0,
            r is Err ==> r == Err::<(), ChatError>(ChatError::RoleChangeRejected),
    {
        if self.remaining_tokens() > 0 {
            Err(ChatError::RoleChangeRejected)
        } else {
            Ok(())
        }
    }

    /// How much of the model's context limit the flattened history has
    /// not yet consumed; callers use it to decide whether starting a
    /// new conversation needs confirmation. The role's prelude does not
    /// count against it.
    pub fn remaining_tokens(&self) -> (r: u64)
        ensures
            r as nat == remaining_tokens_of(self.exchanges@),
    {
        let mut history: Vec<Message> = Vec::new();
        self.push_history(&mut history);
        proof {
            assert(msg_views(history@) =~= flatten_exchanges(self.exchanges@));
        }
        let used = estimate(&history);
        if used >= MAX_TOKENS {
            0
        } else {
            MAX_TOKENS - used
        }
    }

    /// The dry-run echo for this conversation: prompt, history and the
    /// new input merged into one text.
    pub fn echo_messages(&self, content: &str) -> (r: String)
        ensures
            r@ == conv_echo(self.role, self.exchanges@, content@),
    {
        let mut out: String = match &self.role {
            Some(role) => role.prompt.clone().concat("\n"),
            None => String::new(),
        };
        let mut i: usize = 0;
        while i < self.exchanges.len()
            invariant
                i <= self.exchanges@.len(),
                out@ == (match self.role {
                    Some(r) => r.prompt@ + "\n"@,
                    None => Seq::<char>::empty(),
                }) + echo_exchanges(self.exchanges@.take(i as int)),
            decreases self.exchanges@.len() - i,
        {
            out.append(self.exchanges[i].input.as_str());
            out.append("\n");
            out.append(self.exchanges[i].output.as_str());
            out.append("\n");
            proof {
                assert(self.exchanges@.take(i + 1).drop_last() =~= self.exchanges@.take(i as int));
                assert(self.exchanges@.take(i + 1).last() == self.exchanges@[i as int]);
            }
            i = i + 1;
        }
        proof {
            assert(self.exchanges@.take(self.exchanges@.len() as int) =~= self.exchanges@);
        }
        out.concat(content)
    }
}

} // verus!
