use vstd::prelude::*;

use crate::messages::KotoMessage;

verus! {

/// Whether a message carries printed text rather than a drawing command.
pub open spec fn spec_is_print(m: KotoMessage) -> bool {
    m matches KotoMessage::Print(_)
}

/// The drawing commands of a drained queue: every non-print message, in the
/// order it was enqueued.
pub open spec fn spec_commands(msgs: Seq<KotoMessage>) -> Seq<KotoMessage>
    decreases msgs.len(),
{
    if msgs.len() == 0 {
        Seq::<KotoMessage>::empty()
    } else if spec_is_print(msgs[0]) {
        spec_commands(msgs.drop_first())
    } else {
        seq![msgs[0]] + spec_commands(msgs.drop_first())
    }
}

/// The printed output of a drained queue: the payloads of its print
/// messages, concatenated in order.
pub open spec fn spec_printed(msgs: Seq<KotoMessage>) -> Seq<char>
    decreases msgs.len(),
{
    if msgs.len() == 0 {
        Seq::<char>::empty()
    } else {
        (match msgs[0] {
            KotoMessage::Print(s) => s@,
            _ => Seq::<char>::empty(),
        }) + spec_printed(msgs.drop_first())
    }
}

/// The result of draining the message queue once: the drawing commands to
/// apply in order, and the printed text, accumulated during the drain and
/// flushed to the output surface once at the end.
pub struct RenderPlan {
    pub commands: Vec<KotoMessage>,
    pub output: String,
}

/// Drains one queue's worth of messages. Every non-print message is kept,
/// exactly once and in first-in-first-out order; print payloads accumulate
/// into one output string.
pub fn render_plan(messages: Vec<KotoMessage>) -> (r: RenderPlan)
    ensures
        r.commands@ == spec_commands(messages@),
        r.output@ == spec_printed(messages@),
{
    let ghost orig = messages@;
    let mut rest = messages;
    let mut commands: Vec<KotoMessage> = Vec::new();
    let mut output = String::new();
    while rest.len() > 0
        invariant
            spec_commands(orig) =~= commands@ + spec_commands(rest@),
            spec_printed(orig) =~= output@ + spec_printed(rest@),
        decreases rest.len(),
    {
        let ghost before = rest@;
        let m = rest.remove(0);
        proof {
            assert(before.drop_first() =~= rest@);
        }
        match m {
            KotoMessage::Print(s) => {
                output.append(s.as_str());
            },
            other => {
                commands.push(other);
                proof {
                    assert(commands@ + spec_commands(rest@) =~= commands@.drop_last() + (seq![
                        before[0],
                    ] + spec_commands(rest@)));
                }
            },
        }
    }
    proof {
        assert(spec_commands(rest@) =~= Seq::<KotoMessage>::empty());
        assert(commands@ =~= commands@ + Seq::<KotoMessage>::empty());
        assert(output@ =~= output@ + Seq::<char>::empty());
    }
    RenderPlan { commands, output }
}

/// A queue that holds only drawing commands is applied exactly as it was
/// enqueued: draining neither drops, duplicates, nor reorders messages.
pub proof fn lemma_drain_preserves_fifo(msgs: Seq<KotoMessage>)
    requires
        forall|i: int| 0 <= i < msgs.len() ==> !spec_is_print(#[trigger] msgs[i]),
    ensures
        spec_commands(msgs) == msgs,
    decreases msgs.len(),
{
    if msgs.len() == 0 {
        assert(spec_commands(msgs) =~= msgs);
    } else {
        assert(!spec_is_print(msgs[0]));
        lemma_drain_preserves_fifo(msgs.drop_first());
        assert(spec_commands(msgs) =~= msgs);
    }
}

/// Draining keeps relative order: of two drawing commands in the queue, the
/// earlier one stands earlier in the drained command list.
pub proof fn lemma_drain_orders_commands(msgs: Seq<KotoMessage>, i: int, j: int)
    requires
        0 <= i < j < msgs.len(),
        !spec_is_print(msgs[i]),
        !spec_is_print(msgs[j]),
    ensures
        exists|a: int, b: int|
            0 <= a < b < spec_commands(msgs).len() && spec_commands(msgs)[a] == msgs[i]
                && spec_commands(msgs)[b] == msgs[j],
    decreases msgs.len(),
{
    let cs = spec_commands(msgs);
    if i == 0 {
        lemma_commands_contains_at(msgs.drop_first(), j - 1);
        let b0 = choose|b0: int|
            0 <= b0 < spec_commands(msgs.drop_first()).len() && spec_commands(msgs.drop_first())[b0]
                == msgs.drop_first()[j - 1];
        assert(cs == seq![msgs[0]] + spec_commands(msgs.drop_first()));
        assert(cs[0] == msgs[0]);
        assert(cs[b0 + 1] == msgs[j]);
        assert(0 <= 0 < b0 + 1 < cs.len());
    } else {
        lemma_drain_orders_commands(msgs.drop_first(), i - 1, j - 1);
        let (a0, b0) = choose|a0: int, b0: int|
            0 <= a0 < b0 < spec_commands(msgs.drop_first()).len() && spec_commands(
                msgs.drop_first(),
            )[a0] == msgs.drop_first()[i - 1] && spec_commands(msgs.drop_first())[b0]
                == msgs.drop_first()[j - 1];
        if spec_is_print(msgs[0]) {
            assert(cs == spec_commands(msgs.drop_first()));
            assert(cs[a0] == msgs[i] && cs[b0] == msgs[j]);
        } else {
            assert(cs == seq![msgs[0]] + spec_commands(msgs.drop_first()));
            assert(cs[a0 + 1] == msgs[i] && cs[b0 + 1] == msgs[j]);
        }
    }
}

/// Every drawing command in the queue appears in the drained command list.
pub proof fn lemma_commands_contains_at(msgs: Seq<KotoMessage>, i: int)
    requires
        0 <= i < msgs.len(),
        !spec_is_print(msgs[i]),
    ensures
        exists|a: int|
            0 <= a < spec_commands(msgs).len() && spec_commands(msgs)[a] == msgs[i],
    decreases msgs.len(),
{
    let cs = spec_commands(msgs);
    if i == 0 {
        assert(cs == seq![msgs[0]] + spec_commands(msgs.drop_first()));
        assert(cs[0] == msgs[0]);
    } else {
        lemma_commands_contains_at(msgs.drop_first(), i - 1);
        let a0 = choose|a0: int|
            0 <= a0 < spec_commands(msgs.drop_first()).len() && spec_commands(msgs.drop_first())[a0]
                == msgs.drop_first()[i - 1];
        if spec_is_print(msgs[0]) {
            assert(cs[a0] == msgs[i]);
        } else {
            assert(cs == seq![msgs[0]] + spec_commands(msgs.drop_first()));
            assert(cs[a0 + 1] == msgs[i]);
        }
    }
}

} // verus!
