use vstd::prelude::*;

use crate::medal::Medal;
use crate::sender::{
    send_step, send_step_spec, PostReply, SendOutcome, SendStep, CANDIDATE_COUNT,
};

verus! {

/// The result of trying to activate one badge.
#[derive(PartialEq, Eq, Structural, Clone, Copy, Debug)]
pub enum Outcome {
    Activated,
    SkippedGateInsufficient,
    FailedTransport,
    FailedExhaustedCandidates,
}

/// Where the activation of one badge stands.
#[derive(PartialEq, Eq, Structural, Clone, Copy, Debug)]
pub enum Stage {
    /// The badge's channel id is being resolved to the canonical one.
    Resolving,
    /// The candidate of this index is being posted; `equipped` tells whether
    /// the badge was already equipped to lift a gate.
    Sending { index: usize, equipped: bool },
    /// The badge is being equipped.
    Equipping,
    Finished(Outcome),
}

/// The next request of an activation to the badge service, or its end.
#[derive(PartialEq, Eq, Structural, Clone, Copy, Debug)]
pub enum Request {
    /// Look up the canonical channel id for this channel id or alias.
    LookUpRoom(u64),
    /// Post the candidate message of this index into this channel.
    Post { room_id: u64, candidate: usize },
    /// Equip the badge of this id.
    Equip(u64),
    Finish(Outcome),
}

/// What the badge service answered to an activation's request.
#[derive(PartialEq, Eq, Structural, Clone, Copy, Debug)]
pub enum Reply {
    /// The canonical channel id, or `None` when the lookup failed.
    Room(Option<u64>),
    Posted(PostReply),
    /// Whether equipping the badge succeeded.
    Equipped(bool),
}

/// Activation of one badge: posts the check-in messages into its channel and,
/// when a gate of a level the badge meets blocks them, equips the badge once
/// and makes one more pass.
#[derive(PartialEq, Eq, Structural, Clone, Copy, Debug)]
pub struct Activation {
    pub medal_id: u64,
    pub level: u64,
    pub room_ref: u64,
    pub room_id: u64,
    pub stage: Stage,
}

pub open spec fn stage_ok(s: Stage) -> bool {
    match s {
        Stage::Sending { index, .. } => index < CANDIDATE_COUNT,
        _ => true,
    }
}

/// A fresh activation of `m`, which first resolves the badge's channel.
pub open spec fn start_spec(m: Medal) -> Activation {
    Activation {
        medal_id: m.medal_id,
        level: m.level,
        room_ref: m.room_id,
        room_id: m.room_id,
        stage: Stage::Resolving,
    }
}

/// The request that an activation in this state makes.
pub open spec fn request_spec(a: Activation) -> Request {
    match a.stage {
        Stage::Resolving => Request::LookUpRoom(a.room_ref),
        Stage::Sending { index, .. } => Request::Post { room_id: a.room_id, candidate: index },
        Stage::Equipping => Request::Equip(a.medal_id),
        Stage::Finished(o) => Request::Finish(o),
    }
}

/// The stage after a pass over the candidates ended with `o`. A gate ends the
/// activation as skipped when the badge's level is below it; when the level
/// meets it, the badge is equipped, unless it already was, which makes the
/// gate a failure.
pub open spec fn after_pass(level: u64, equipped: bool, o: SendOutcome) -> Stage {
    match o {
        SendOutcome::Accepted => Stage::Finished(Outcome::Activated),
        SendOutcome::AllFiltered => Stage::Finished(Outcome::FailedExhaustedCandidates),
        SendOutcome::Failed => Stage::Finished(Outcome::FailedTransport),
        SendOutcome::GateLevel(n) => if equipped {
            Stage::Finished(Outcome::FailedTransport)
        } else if level >= n {
            Stage::Equipping
        } else {
            Stage::Finished(Outcome::SkippedGateInsufficient)
        },
    }
}

/// The state after `reply`; a reply that does not answer the current request
/// changes nothing.
pub open spec fn advance_spec(a: Activation, reply: Reply) -> Activation {
    match (a.stage, reply) {
        (Stage::Resolving, Reply::Room(Some(id))) => Activation {
            room_id: id,
            stage: Stage::Sending { index: 0, equipped: false },
            ..a
        },
        (Stage::Resolving, Reply::Room(None)) => Activation {
            stage: Stage::Finished(Outcome::FailedTransport),
            ..a
        },
        (Stage::Sending { index, equipped }, Reply::Posted(p)) => match send_step_spec(
            index,
            CANDIDATE_COUNT,
            p,
        ) {
            SendStep::Post(j) => Activation { stage: Stage::Sending { index: j, equipped }, ..a },
            SendStep::Done(o) => Activation { stage: after_pass(a.level, equipped, o), ..a },
        },
        (Stage::Equipping, Reply::Equipped(true)) => Activation {
            stage: Stage::Sending { index: 0, equipped: true },
            ..a
        },
        (Stage::Equipping, Reply::Equipped(false)) => Activation {
            stage: Stage::Finished(Outcome::FailedTransport),
            ..a
        },
        _ => a,
    }
}

/// The state after `replies`, one after the other.
pub open spec fn advance_all(a: Activation, replies: Seq<Reply>) -> Activation
    decreases replies.len(),
{
    if replies.len() == 0 {
        a
    } else {
        advance_spec(advance_all(a, replies.drop_last()), replies.last())
    }
}

/// When a gate that the badge's level meets blocks a first pass, the
/// activation's next request is one equip of the badge; once equipped, it
/// posts the first candidate again, and an accepted post activates the badge,
/// while a second gate (of any level `m`) ends it as a failure instead of
/// equipping again.
pub proof fn lemma_gate_met_equips_once(a: Activation, index: usize, n: u64, m: u64)
    requires
        a.stage == (Stage::Sending { index, equipped: false }),
        index < CANDIDATE_COUNT,
        a.level >= n,
    ensures
        request_spec(advance_spec(a, Reply::Posted(PostReply::Gate(n)))) == Request::Equip(
            a.medal_id,
        ),
        request_spec(
            advance_all(a, seq![Reply::Posted(PostReply::Gate(n)), Reply::Equipped(true)]),
        ) == (Request::Post { room_id: a.room_id, candidate: 0 }),
        request_spec(
            advance_all(
                a,
                seq![
                    Reply::Posted(PostReply::Gate(n)),
                    Reply::Equipped(true),
                    Reply::Posted(PostReply::Accepted),
                ],
            ),
        ) == Request::Finish(Outcome::Activated),
        request_spec(
                advance_all(
                    a,
                    seq![
                        Reply::Posted(PostReply::Gate(n)),
                        Reply::Equipped(true),
                        Reply::Posted(PostReply::Gate(m)),
                    ],
                ),
            ) == Request::Finish(Outcome::FailedTransport),
{
    reveal_with_fuel(advance_all, 4);
    let r1 = seq![Reply::Posted(PostReply::Gate(n))];
    let r2 = r1.push(Reply::Equipped(true));
    assert(r1.drop_last() =~= Seq::<Reply>::empty());
    assert(r2.drop_last() =~= r1);
    assert(r2.push(Reply::Posted(PostReply::Gate(m))).drop_last() =~= r2);
    assert(r2.push(Reply::Posted(PostReply::Gate(m))) =~= seq![
        Reply::Posted(PostReply::Gate(n)),
        Reply::Equipped(true),
        Reply::Posted(PostReply::Gate(m)),
    ]);
    assert(r2.push(Reply::Posted(PostReply::Accepted)).drop_last() =~= r2);
    assert(r2 =~= seq![Reply::Posted(PostReply::Gate(n)), Reply::Equipped(true)]);
    assert(r2.push(Reply::Posted(PostReply::Accepted)) =~= seq![
        Reply::Posted(PostReply::Gate(n)),
        Reply::Equipped(true),
        Reply::Posted(PostReply::Accepted),
    ]);
}

/// When a gate above the badge's level blocks a pass, the activation ends as
/// skipped, with no equip request.
pub proof fn lemma_gate_unmet_skips(a: Activation, index: usize, n: u64)
    requires
        a.stage == (Stage::Sending { index, equipped: false }),
        index < CANDIDATE_COUNT,
        a.level < n,
    ensures
        request_spec(advance_spec(a, Reply::Posted(PostReply::Gate(n)))) == Request::Finish(
            Outcome::SkippedGateInsufficient,
        ),
{
}

impl Activation {
    /// Starts the activation of `medal`: its channel is resolved first.
    pub fn new(medal: &Medal) -> (r: Self)
        ensures
            r == start_spec(*medal),
    {
        Activation {
            medal_id: medal.medal_id,
            level: medal.level,
            room_ref: medal.room_id,
            room_id: medal.room_id,
            stage: Stage::Resolving,
        }
    }

    pub fn request(&self) -> (r: Request)
        ensures
            r == request_spec(*self),
    {
        match self.stage {
            Stage::Resolving => Request::LookUpRoom(self.room_ref),
            Stage::Sending { index, .. } => Request::Post { room_id: self.room_id, candidate: index },
            Stage::Equipping => Request::Equip(self.medal_id),
            Stage::Finished(o) => Request::Finish(o),
        }
    }

    pub fn is_finished(&self) -> (r: bool)
        ensures
            r == self.stage is Finished,
    {
        match self.stage {
            Stage::Finished(_) => true,
            _ => false,
        }
    }

    /// Takes the service's reply to the current request.
    pub fn advance(&mut self, reply: Reply)
        requires
            stage_ok(old(self).stage),
        ensures
            *final(self) == advance_spec(*old(self), reply),
            stage_ok(final(self).stage),
    {
        match (self.stage, reply) {
            (Stage::Resolving, Reply::Room(Some(id))) => {
                self.room_id = id;
                self.stage = Stage::Sending { index: 0, equipped: false };
            },
            (Stage::Resolving, Reply::Room(None)) => {
                self.stage = Stage::Finished(Outcome::FailedTransport);
            },
            (Stage::Sending { index, equipped }, Reply::Posted(p)) => {
                match send_step(index, CANDIDATE_COUNT, p) {
                    SendStep::Post(j) => {
                        self.stage = Stage::Sending { index: j, equipped };
                    },
                    SendStep::Done(o) => {
                        self.stage = pass_end(self.level, equipped, o);
                    },
                }
            },
            (Stage::Equipping, Reply::Equipped(ok)) => {
                self.stage = if ok {
                    Stage::Sending { index: 0, equipped: true }
                } else {
                    Stage::Finished(Outcome::FailedTransport)
                };
            },
            _ => {},
        }
    }
}

fn pass_end(level: u64, equipped: bool, o: SendOutcome) -> (r: Stage)
    ensures
        r == after_pass(level, equipped, o),
{
    match o {
        SendOutcome::Accepted => Stage::Finished(Outcome::Activated),
        SendOutcome::AllFiltered => Stage::Finished(Outcome::FailedExhaustedCandidates),
        SendOutcome::Failed => Stage::Finished(Outcome::FailedTransport),
        SendOutcome::GateLevel(n) => if equipped {
            Stage::Finished(Outcome::FailedTransport)
        } else if level >= n {
            Stage::Equipping
        } else {
            Stage::Finished(Outcome::SkippedGateInsufficient)
        },
    }
}

} // verus!
