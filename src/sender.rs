use vstd::prelude::*;

verus! {

/// Number of alternate check-in messages; several variants route around
/// content filtering of any single text.
pub const CANDIDATE_COUNT: usize = 5;

/// The check-in messages, in order of preference.
pub open spec fn candidate_text(i: int) -> Seq<char> {
    if i == 0 {
        "OvO"@
    } else if i == 1 {
        "( •́ .̫ •̀ )"@
    } else if i == 2 {
        "Check"@
    } else if i == 3 {
        "你好"@
    } else {
        "打卡"@
    }
}

/// The `i`-th check-in message.
pub fn message_candidate(i: usize) -> (r: String)
    requires
        i < CANDIDATE_COUNT,
    ensures
        r@ == candidate_text(i as int),
{
    let s: &str = if i == 0 {
        "OvO"
    } else if i == 1 {
        "( •́ .̫ •̀ )"
    } else if i == 2 {
        "Check"
    } else if i == 3 {
        "你好"
    } else {
        "打卡"
    };
    s.to_owned()
}

/// How the service answered one posted message.
#[derive(PartialEq, Eq, Structural, Clone, Copy, Debug)]
pub enum PostReply {
    /// Posted with no rejection.
    Accepted,
    /// Refused because of the text of this message.
    Filtered,
    /// Refused because posting requires a badge of at least this level.
    Gate(u64),
    /// Any other refusal, or a transport failure.
    Other,
}

/// How a pass over the candidate messages ended.
#[derive(PartialEq, Eq, Structural, Clone, Copy, Debug)]
pub enum SendOutcome {
    Accepted,
    GateLevel(u64),
    AllFiltered,
    Failed,
}

/// What the sender does after a reply.
#[derive(PartialEq, Eq, Structural, Clone, Copy, Debug)]
pub enum SendStep {
    /// Post the candidate of this index.
    Post(usize),
    /// Stop with this outcome.
    Done(SendOutcome),
}

/// The sender's decision after the candidate `index` of `count` got `reply`:
/// a content-filter refusal moves on to the next candidate, or ends the pass
/// when none is left; any other reply ends the pass at once.
pub open spec fn send_step_spec(index: usize, count: usize, reply: PostReply) -> SendStep {
    match reply {
        PostReply::Accepted => SendStep::Done(SendOutcome::Accepted),
        PostReply::Filtered => if index + 1 < count {
            SendStep::Post((index + 1) as usize)
        } else {
            SendStep::Done(SendOutcome::AllFiltered)
        },
        PostReply::Gate(n) => SendStep::Done(SendOutcome::GateLevel(n)),
        PostReply::Other => SendStep::Done(SendOutcome::Failed),
    }
}

pub fn send_step(index: usize, count: usize, reply: PostReply) -> (r: SendStep)
    requires
        index < count,
    ensures
        r == send_step_spec(index, count, reply),
{
    match reply {
        PostReply::Accepted => SendStep::Done(SendOutcome::Accepted),
        PostReply::Filtered => if index + 1 < count {
            SendStep::Post(index + 1)
        } else {
            SendStep::Done(SendOutcome::AllFiltered)
        },
        PostReply::Gate(n) => SendStep::Done(SendOutcome::GateLevel(n)),
        PostReply::Other => SendStep::Done(SendOutcome::Failed),
    }
}

/// Where a pass over `count` candidates stands after the service gave
/// `replies`, one per post, starting from the first candidate; replies that
/// come after the pass ended change nothing.
pub open spec fn send_pass(count: usize, replies: Seq<PostReply>) -> SendStep
    decreases replies.len(),
{
    if replies.len() == 0 {
        SendStep::Post(0)
    } else {
        match send_pass(count, replies.drop_last()) {
            SendStep::Post(i) => send_step_spec(i, count, replies.last()),
            SendStep::Done(o) => SendStep::Done(o),
        }
    }
}

/// When the service refuses the first `k` candidates as filtered and accepts
/// the next one, the sender posts candidates 0 to `k` in order, each once, and
/// ends with `Accepted` after exactly `k + 1` posts.
pub proof fn lemma_filtered_then_accepted(count: usize, replies: Seq<PostReply>)
    requires
        1 <= replies.len() <= count,
        forall|i: int| 0 <= i < replies.len() - 1 ==> #[trigger] replies[i] == PostReply::Filtered,
        replies.last() == PostReply::Accepted,
    ensures
        forall|j: int|
            0 <= j < replies.len() ==> #[trigger] send_pass(count, replies.take(j)) == SendStep::Post(
                j as usize,
            ),
        send_pass(count, replies) == SendStep::Done(SendOutcome::Accepted),
{
    let n = replies.len() as int;
    assert forall|j: int| 0 <= j < n implies #[trigger] send_pass(count, replies.take(j))
        == SendStep::Post(j as usize) by {
        lemma_filtered_prefix(count, replies, j);
    }
    lemma_filtered_prefix(count, replies, n - 1);
    assert(replies.drop_last() == replies.take(n - 1));
}

proof fn lemma_filtered_prefix(count: usize, replies: Seq<PostReply>, j: int)
    requires
        0 <= j < replies.len() <= count,
        forall|i: int| 0 <= i < replies.len() - 1 ==> #[trigger] replies[i] == PostReply::Filtered,
    ensures
        send_pass(count, replies.take(j)) == SendStep::Post(j as usize),
    decreases j,
{
    if j > 0 {
        lemma_filtered_prefix(count, replies, j - 1);
        assert(replies.take(j).drop_last() == replies.take(j - 1));
        assert(replies.take(j).last() == replies[j - 1]);
    } else {
        assert(replies.take(0).len() == 0);
    }
}

} // verus!
