use bili_check::activation::{Activation, Outcome, Reply, Request, Stage};
use bili_check::enumerate::{Enumeration, PageRequest, MAX_PAGES};
use bili_check::medal::{Medal, PageReply};
use bili_check::run::{Action, Pacing, Phase, Run, DEFAULT_PAUSE_MS};
use bili_check::sender::{
    message_candidate, send_step, PostReply, SendOutcome, SendStep, CANDIDATE_COUNT,
};

fn medal(id: u64, level: u64, lighted: bool) -> Medal {
    Medal {
        medal_id: id,
        medal_name: format!("medal{}", id),
        room_id: id * 10,
        target_name: format!("streamer{}", id),
        level,
        is_lighted: lighted,
    }
}

fn page(items: Vec<Medal>, cur_page: u64, total_pages: u64) -> PageReply {
    PageReply { items, cur_page, total_pages }
}

/// Counts of the requests a simulated service saw.
#[derive(Default, Debug)]
struct Calls {
    pages: Vec<u64>,
    lookups: u64,
    posts: Vec<(u64, usize)>,
    equips: Vec<u64>,
}

/// Drives one activation against scripted post replies (taken in order),
/// canonical room `room_ref + 1`, and the given equip result.
fn drive_activation(m: &Medal, posts: &[PostReply], equip_ok: bool) -> (Outcome, Calls) {
    let mut a = Activation::new(m);
    let mut calls = Calls::default();
    let mut next_post = 0;
    loop {
        match a.request() {
            Request::LookUpRoom(r) => {
                calls.lookups += 1;
                a.advance(Reply::Room(Some(r + 1)));
            }
            Request::Post { room_id, candidate } => {
                calls.posts.push((room_id, candidate));
                let reply = posts[next_post];
                next_post += 1;
                a.advance(Reply::Posted(reply));
            }
            Request::Equip(id) => {
                calls.equips.push(id);
                a.advance(Reply::Equipped(equip_ok));
            }
            Request::Finish(o) => return (o, calls),
        }
    }
}

#[test]
fn sender_accepts_after_two_filtered_candidates() {
    let m = medal(1, 3, false);
    let (o, calls) = drive_activation(
        &m,
        &[PostReply::Filtered, PostReply::Filtered, PostReply::Accepted],
        true,
    );
    assert_eq!(o, Outcome::Activated);
    assert_eq!(calls.posts, vec![(11, 0), (11, 1), (11, 2)]);
    assert!(calls.equips.is_empty());
}

#[test]
fn send_step_decisions() {
    assert_eq!(send_step(0, 3, PostReply::Filtered), SendStep::Post(1));
    assert_eq!(send_step(1, 3, PostReply::Filtered), SendStep::Post(2));
    assert_eq!(send_step(2, 3, PostReply::Accepted), SendStep::Done(SendOutcome::Accepted));
    assert_eq!(send_step(2, 3, PostReply::Filtered), SendStep::Done(SendOutcome::AllFiltered));
    assert_eq!(send_step(0, 3, PostReply::Gate(5)), SendStep::Done(SendOutcome::GateLevel(5)));
    assert_eq!(send_step(0, 3, PostReply::Other), SendStep::Done(SendOutcome::Failed));
}

#[test]
fn gate_met_equips_once_then_retries() {
    let m = medal(7, 5, false);
    let (o, calls) = drive_activation(&m, &[PostReply::Gate(5), PostReply::Accepted], true);
    assert_eq!(o, Outcome::Activated);
    assert_eq!(calls.equips, vec![7]);
    assert_eq!(calls.posts, vec![(71, 0), (71, 0)]);
}

#[test]
fn gate_unmet_skips_without_equip() {
    let m = medal(7, 4, false);
    let (o, calls) = drive_activation(&m, &[PostReply::Gate(5)], true);
    assert_eq!(o, Outcome::SkippedGateInsufficient);
    assert!(calls.equips.is_empty());
    assert_eq!(calls.posts.len(), 1);
}

#[test]
fn second_gate_after_equip_fails() {
    let m = medal(2, 9, false);
    let (o, calls) = drive_activation(&m, &[PostReply::Gate(5), PostReply::Gate(5)], true);
    assert_eq!(o, Outcome::FailedTransport);
    assert_eq!(calls.equips.len(), 1);
    assert_eq!(calls.posts.len(), 2);
}

#[test]
fn equip_failure_stops_without_retry() {
    let m = medal(2, 9, false);
    let (o, calls) = drive_activation(&m, &[PostReply::Gate(5)], false);
    assert_eq!(o, Outcome::FailedTransport);
    assert_eq!(calls.equips.len(), 1);
    assert_eq!(calls.posts.len(), 1);
}

#[test]
fn all_candidates_filtered_exhausts() {
    let m = medal(3, 1, false);
    let (o, calls) = drive_activation(&m, &[PostReply::Filtered; 5], true);
    assert_eq!(o, Outcome::FailedExhaustedCandidates);
    assert_eq!(calls.posts.len(), CANDIDATE_COUNT);
}

#[test]
fn other_rejection_short_circuits() {
    let m = medal(3, 1, false);
    let (o, calls) = drive_activation(&m, &[PostReply::Filtered, PostReply::Other], true);
    assert_eq!(o, Outcome::FailedTransport);
    assert_eq!(calls.posts.len(), 2);
}

#[test]
fn room_lookup_failure_fails_transport() {
    let m = medal(4, 1, false);
    let mut a = Activation::new(&m);
    assert_eq!(a.request(), Request::LookUpRoom(40));
    a.advance(Reply::Room(None));
    assert_eq!(a.stage, Stage::Finished(Outcome::FailedTransport));
    assert!(a.is_finished());
}

#[test]
fn posts_go_to_canonical_room() {
    let m = medal(4, 1, false);
    let mut a = Activation::new(&m);
    a.advance(Reply::Room(Some(123456)));
    assert_eq!(a.request(), Request::Post { room_id: 123456, candidate: 0 });
}

#[test]
fn candidate_texts_in_order() {
    let texts: Vec<String> = (0..CANDIDATE_COUNT).map(message_candidate).collect();
    assert_eq!(texts, vec!["OvO", "( •́ .̫ •̀ )", "Check", "你好", "打卡"]);
}

#[test]
fn enumeration_reads_every_page_once() {
    let mut e = Enumeration::new(false);
    // The announced page count changes between replies.
    let replies = vec![
        page(vec![medal(1, 1, false), medal(2, 1, true)], 1, 2),
        page(vec![medal(3, 1, false)], 2, 3),
        page(vec![medal(4, 1, true), medal(5, 1, false)], 3, 3),
    ];
    let mut fetched = vec![];
    let mut replies = replies.into_iter();
    loop {
        match e.next_request() {
            PageRequest::Fetch(p) => {
                fetched.push(p);
                e.record_page(replies.next().unwrap());
            }
            r => {
                assert_eq!(r, PageRequest::Complete);
                break;
            }
        }
    }
    assert_eq!(fetched, vec![1, 2, 3]);
    let ids: Vec<u64> = e.into_medals().iter().map(|m| m.medal_id).collect();
    assert_eq!(ids, vec![1, 3, 5]);
}

#[test]
fn enumeration_can_keep_every_badge() {
    let mut e = Enumeration::new(true);
    e.record_page(page(vec![medal(1, 1, true), medal(2, 1, false)], 1, 1));
    assert_eq!(e.next_request(), PageRequest::Complete);
    assert_eq!(e.medals.len(), 2);
}

#[test]
fn enumeration_zero_total_pages_stops() {
    let mut e = Enumeration::new(false);
    assert_eq!(e.next_request(), PageRequest::Fetch(1));
    e.record_page(page(vec![], 1, 0));
    assert_eq!(e.next_request(), PageRequest::Complete);
}

#[test]
fn enumeration_stuck_cursor_hits_cap() {
    let mut e = Enumeration::new(false);
    let mut fetches: u64 = 0;
    while let PageRequest::Fetch(_) = e.next_request() {
        fetches += 1;
        e.record_page(page(vec![], 1, 5));
    }
    assert_eq!(e.next_request(), PageRequest::Exceeded);
    assert_eq!(fetches, MAX_PAGES);
}

/// A simulated badge service for whole runs.
struct Service {
    pages: Vec<Option<PageReply>>,
    posts: Vec<(u64, Vec<PostReply>)>,
    calls: Calls,
    pauses: Vec<u64>,
}

impl Service {
    fn post_reply(&mut self, room_id: u64) -> PostReply {
        let script = self.posts.iter_mut().find(|(r, _)| *r == room_id).unwrap();
        script.1.remove(0)
    }
}

fn drive_run(run: &mut Run, svc: &mut Service) {
    loop {
        let cmd = run.next_command();
        svc.pauses.push(cmd.pause_ms);
        match cmd.action {
            Action::FetchPage(p) => {
                svc.calls.pages.push(p);
                let reply = svc.pages[(p - 1) as usize].take();
                run.on_page(reply);
            }
            Action::Badge(Request::LookUpRoom(r)) => {
                svc.calls.lookups += 1;
                run.on_reply(Reply::Room(Some(r + 1)));
            }
            Action::Badge(Request::Post { room_id, candidate }) => {
                svc.calls.posts.push((room_id, candidate));
                let reply = svc.post_reply(room_id);
                run.on_reply(Reply::Posted(reply));
            }
            Action::Badge(Request::Equip(id)) => {
                svc.calls.equips.push(id);
                run.on_reply(Reply::Equipped(true));
            }
            Action::Badge(Request::Finish(_)) => unreachable!(),
            Action::Finished | Action::Aborted => break,
        }
    }
}

#[test]
fn second_page_failure_aborts_run() {
    let mut svc = Service {
        pages: vec![Some(page(vec![medal(1, 1, false), medal(2, 1, false)], 1, 2)), None],
        posts: vec![],
        calls: Calls::default(),
        pauses: vec![],
    };
    let mut run = Run::new(false, Pacing::fixed());
    drive_run(&mut run, &mut svc);
    assert_eq!(run.phase, Phase::Aborted);
    assert!(run.outcomes.is_empty());
    assert_eq!(svc.calls.pages, vec![1, 2]);
    assert_eq!(svc.calls.lookups, 0);
    assert!(svc.calls.posts.is_empty());
}

#[test]
fn end_to_end_two_pages() {
    // Page 1 holds badges 1..=10, page 2 badges 11..=20; badges 4, 12 and 17
    // are inactive.
    let inactive = [4u64, 12, 17];
    let mk = |ids: std::ops::RangeInclusive<u64>| -> Vec<Medal> {
        ids.map(|i| medal(i, if i == 4 { 5 } else { 2 }, !inactive.contains(&i))).collect()
    };
    let mut svc = Service {
        pages: vec![Some(page(mk(1..=10), 1, 2)), Some(page(mk(11..=20), 2, 2))],
        posts: vec![
            // Badge 4 (level 5) is gated at level 5, then accepted once equipped.
            (41, vec![PostReply::Gate(5), PostReply::Accepted]),
            // Badge 12 has every candidate filtered.
            (121, vec![PostReply::Filtered; 5]),
            // Badge 17 is accepted at once.
            (171, vec![PostReply::Accepted]),
        ],
        calls: Calls::default(),
        pauses: vec![],
    };
    let mut run = Run::new(false, Pacing::new(250));
    drive_run(&mut run, &mut svc);
    assert_eq!(run.phase, Phase::Done);
    assert_eq!(
        run.outcomes,
        vec![Outcome::Activated, Outcome::FailedExhaustedCandidates, Outcome::Activated]
    );
    assert_eq!(svc.calls.pages, vec![1, 2]);
    assert_eq!(svc.calls.equips, vec![4]);
    assert_eq!(svc.calls.lookups, 3);
    assert_eq!(svc.calls.posts.len(), 2 + 5 + 1);
    let ids: Vec<u64> = run.enumeration.medals.iter().map(|m| m.medal_id).collect();
    assert_eq!(ids, vec![4, 12, 17]);
    // A pause follows each page and each finished badge.
    assert_eq!(svc.pauses.iter().filter(|p| **p == 250).count(), 2 + 3);
}

#[test]
fn run_with_no_inactive_badges_is_done() {
    let mut svc = Service {
        pages: vec![Some(page(vec![medal(1, 1, true)], 1, 1))],
        posts: vec![],
        calls: Calls::default(),
        pauses: vec![],
    };
    let mut run = Run::new(false, Pacing::fixed());
    assert_eq!(run.next_command().action, Action::FetchPage(1));
    drive_run(&mut run, &mut svc);
    assert_eq!(run.phase, Phase::Done);
    assert!(run.outcomes.is_empty());
    assert_eq!(svc.pauses, vec![0, DEFAULT_PAUSE_MS]);
}
