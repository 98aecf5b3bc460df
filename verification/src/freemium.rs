//! Handling one change notification: find out whether an advertisement plays
//! and, if one does, restart the player and give it back its volume.
//!
//! The handler never talks to the player. [`handle_event`] and
//! [`Orchestrator::resume`] each give a [`Step`]: either the next request to
//! deliver, with the handler that waits for the reply to it, or the outcome.
//! The caller delivers the request and resumes the handler with the reply,
//! until the outcome is there. Nothing is kept from one notification to the
//! next: every one starts at [`handle_event`].

use crate::port::{reply_view, Command, Failure, Reply, ReplyView, Request, RequestView};
use crate::spotify::{
    ad_answer, get_volume, is_playing_ad, mute, open, play, quit, set_volume, volume_answer,
    volume_request, MAX_VOLUME,
};
use vstd::prelude::*;

verus! {

/// How the handling of one notification ended.
#[derive(Clone, Copy, Debug, PartialEq, Eq, Structural)]
pub struct RestartOutcome {
    /// Whether the player was restarted.
    pub restarted: bool,
}

/// The request whose reply a handler waits for.
#[derive(Clone, Copy, Debug, PartialEq, Eq, Structural)]
pub enum Phase {
    /// Asked for the current track's identifier.
    CheckingAd,
    /// Asked for the current volume.
    ReadingVolume,
    /// Asked for silence.
    Muting,
    /// Asked the player to quit.
    Quitting,
    /// Asked the player to start again.
    Opening,
    /// Asked for the volume that was read.
    Restoring,
    /// Asked for playback to resume.
    Resuming,
}

/// A handler in the middle of one notification: it has a request out and
/// waits for the reply.
#[derive(Debug)]
pub struct Orchestrator {
    phase: Phase,
    volume: u8,
}

/// What an [`Orchestrator`] holds: the request it waits on, and the volume to
/// give back to the player.
pub ghost struct Waiting {
    pub phase: Phase,
    pub volume: u8,
}

impl View for Orchestrator {
    type V = Waiting;

    closed spec fn view(&self) -> Waiting {
        Waiting { phase: self.phase, volume: self.volume }
    }
}

/// What the caller is to do next.
#[derive(Debug)]
pub enum Step {
    /// Deliver `request`, then resume `then` with the reply.
    Dispatch { request: Request, then: Orchestrator },
    /// The notification is handled.
    Finished(RestartOutcome),
}

/// What a [`Step`] says.
pub ghost enum StepView {
    Dispatch { request: RequestView, then: Waiting },
    Finished(RestartOutcome),
}

impl View for Step {
    type V = StepView;

    open spec fn view(&self) -> StepView {
        match self {
            Step::Dispatch { request, then } => StepView::Dispatch {
                request: request@,
                then: then@,
            },
            Step::Finished(outcome) => StepView::Finished(*outcome),
        }
    }
}

/// Whether a reply to the first request shows an advertisement: a failure
/// shows none.
pub open spec fn shows_ad(reply: ReplyView) -> bool {
    ad_answer(reply) == Ok::<bool, Failure>(true)
}

/// The volume to give back after the restart: the one that the player
/// reported, or 0 if its report could not be had or read.
pub open spec fn saved_volume(reply: ReplyView) -> u8 {
    match volume_answer(reply) {
        Ok(volume) => volume,
        Err(_) => 0,
    }
}

/// The step that opens the handling of a notification: ask what is playing.
pub open spec fn first_step() -> StepView {
    StepView::Dispatch {
        request: RequestView::plain(Command::GetSongUrl),
        then: Waiting { phase: Phase::CheckingAd, volume: 0 },
    }
}

/// The step that follows when a waiting handler gets its reply.
///
/// Only two replies are read. The one to the first request decides whether
/// anything happens at all: unless it shows an advertisement, failure
/// included, the handling ends without a restart. The one to the second
/// gives the volume to restore. Every other reply, success or failure, leads
/// to the same next request.
pub open spec fn next_step(state: Waiting, reply: ReplyView) -> StepView {
    match state.phase {
        Phase::CheckingAd => if shows_ad(reply) {
            StepView::Dispatch {
                request: RequestView::plain(Command::GetVolume),
                then: Waiting { phase: Phase::ReadingVolume, volume: 0 },
            }
        } else {
            StepView::Finished(RestartOutcome { restarted: false })
        },
        Phase::ReadingVolume => StepView::Dispatch {
            request: volume_request(0),
            then: Waiting { phase: Phase::Muting, volume: saved_volume(reply) },
        },
        Phase::Muting => StepView::Dispatch {
            request: RequestView::plain(Command::Quit),
            then: Waiting { phase: Phase::Quitting, volume: state.volume },
        },
        Phase::Quitting => StepView::Dispatch {
            request: RequestView::plain(Command::Open),
            then: Waiting { phase: Phase::Opening, volume: state.volume },
        },
        Phase::Opening => StepView::Dispatch {
            request: volume_request(state.volume),
            then: Waiting { phase: Phase::Restoring, volume: state.volume },
        },
        Phase::Restoring => StepView::Dispatch {
            request: RequestView::plain(Command::Play),
            then: Waiting { phase: Phase::Resuming, volume: state.volume },
        },
        Phase::Resuming => StepView::Finished(RestartOutcome { restarted: true }),
    }
}

/// Starts handling a notification.
pub fn handle_event() -> (r: Step)
    ensures
        r@ == first_step(),
{
    Step::Dispatch {
        request: Request::plain(Command::GetSongUrl),
        then: Orchestrator { phase: Phase::CheckingAd, volume: 0 },
    }
}

/// The request for silence, which is never refused.
fn silence() -> (r: Request)
    ensures
        r@ == volume_request(0),
{
    match mute() {
        Ok(request) => request,
        Err(_) => vstd::pervasive::unreached(),
    }
}

impl Orchestrator {
    #[verifier::type_invariant]
    spec fn volume_in_range(self) -> bool {
        self.volume <= MAX_VOLUME
    }

    /// The request whose reply the handler waits for.
    pub fn phase(&self) -> (r: Phase)
        ensures
            r == self@.phase,
    {
        self.phase
    }

    /// The request for the saved volume, which is never out of range.
    fn restore_volume(&self) -> (r: Request)
        ensures
            r@ == volume_request(self@.volume),
    {
        proof {
            use_type_invariant(self);
        }
        match set_volume(self.volume) {
            Ok(request) => request,
            Err(_) => vstd::pervasive::unreached(),
        }
    }

    /// Takes the reply to the request that is out and gives the next step.
    pub fn resume(self, reply: Reply) -> (r: Step)
        ensures
            r@ == next_step(self@, reply_view(reply)),
    {
        proof {
            use_type_invariant(&self);
        }
        match self.phase {
            Phase::CheckingAd => match is_playing_ad(reply) {
                Ok(true) => Step::Dispatch {
                    request: Request::plain(Command::GetVolume),
                    then: Orchestrator { phase: Phase::ReadingVolume, volume: 0 },
                },
                _ => Step::Finished(RestartOutcome { restarted: false }),
            },
            Phase::ReadingVolume => {
                let volume: u8 = match get_volume(reply) {
                    Ok(volume) => volume,
                    Err(_) => 0,
                };
                Step::Dispatch {
                    request: silence(),
                    then: Orchestrator { phase: Phase::Muting, volume },
                }
            },
            Phase::Muting => Step::Dispatch {
                request: quit(),
                then: Orchestrator { phase: Phase::Quitting, volume: self.volume },
            },
            Phase::Quitting => Step::Dispatch {
                request: open(),
                then: Orchestrator { phase: Phase::Opening, volume: self.volume },
            },
            Phase::Opening => Step::Dispatch {
                request: self.restore_volume(),
                then: Orchestrator { phase: Phase::Restoring, volume: self.volume },
            },
            Phase::Restoring => Step::Dispatch {
                request: play(),
                then: Orchestrator { phase: Phase::Resuming, volume: self.volume },
            },
            Phase::Resuming => Step::Finished(RestartOutcome { restarted: true }),
        }
    }
}

/// What handling one notification comes to, given the replies that arrive.
pub ghost struct Trace {
    /// The requests handed out for delivery, in order.
    pub requests: Seq<RequestView>,
    /// The outcome, once the handling has ended; `None` while a request is
    /// still out.
    pub outcome: Option<RestartOutcome>,
}

/// The trace from a given step on: each request that is handed out takes
/// the next reply, until the handling ends or the replies run out.
pub open spec fn run_from(step: StepView, replies: Seq<ReplyView>) -> Trace
    decreases replies.len(),
{
    match step {
        StepView::Finished(outcome) => Trace { requests: Seq::empty(), outcome: Some(outcome) },
        StepView::Dispatch { request, then } => if replies.len() == 0 {
            Trace { requests: seq![request], outcome: None }
        } else {
            let rest = run_from(next_step(then, replies[0]), replies.skip(1));
            Trace { requests: seq![request] + rest.requests, outcome: rest.outcome }
        },
    }
}

/// The trace of handling one notification from its start.
pub open spec fn run(replies: Seq<ReplyView>) -> Trace {
    run_from(first_step(), replies)
}

/// What a list of replies says, each as [`reply_view`] gives it.
pub open spec fn replies_view(replies: Seq<Reply>) -> Seq<ReplyView> {
    replies.map_values(|reply: Reply| reply_view(reply))
}

/// What a list of requests says, each by its view.
pub open spec fn requests_view(requests: Seq<Request>) -> Seq<RequestView> {
    requests.map_values(|request: Request| request@)
}

/// Handles one notification against a player whose replies are known
/// beforehand: the first reply answers the first request, and so on.
///
/// Gives the requests that were handed out, in order, and the outcome; the
/// outcome is `None` where the replies ran out while a request was still out.
/// Replies that are left over when the handling ends are not looked at.
pub fn replay(replies: Vec<Reply>) -> (r: (Vec<Request>, Option<RestartOutcome>))
    ensures
        requests_view(r.0@) == run(replies_view(replies@)).requests,
        r.1 == run(replies_view(replies@)).outcome,
{
    let ghost all = replies_view(replies@);
    let mut rest = replies;
    let mut delivered: Vec<Request> = Vec::new();
    let mut step = handle_event();
    loop
        invariant
            all == replies_view(replies@),
            run(all).requests == requests_view(delivered@) + run_from(
                step@,
                replies_view(rest@),
            ).requests,
            run(all).outcome == run_from(step@, replies_view(rest@)).outcome,
        decreases rest@.len(),
    {
        let ghost pending = replies_view(rest@);
        match step {
            Step::Finished(outcome) => {
                return (delivered, Some(outcome));
            },
            Step::Dispatch { request, then } => {
                delivered.push(request);
                if rest.len() == 0 {
                    return (delivered, None);
                }
                let reply = rest.remove(0);
                assert(replies_view(rest@) =~= pending.skip(1));
                step = then.resume(reply);
            },
        }
    }
}

/// The five requests of the recovery, in order: silence, quit, open, the
/// saved volume, play.
pub open spec fn recovery_sequence(volume: u8) -> Seq<RequestView> {
    seq![
        volume_request(0),
        RequestView::plain(Command::Quit),
        RequestView::plain(Command::Open),
        volume_request(volume),
        RequestView::plain(Command::Play),
    ]
}

/// The two requests that come before a recovery: what is playing, and how
/// loud.
pub open spec fn probes() -> Seq<RequestView> {
    seq![RequestView::plain(Command::GetSongUrl), RequestView::plain(Command::GetVolume)]
}

/// Unless the first reply shows an advertisement, the handling asks what is
/// playing and nothing more, and ends without a restart. Whatever replies
/// might follow are never asked for.
pub proof fn lemma_no_ad_no_restart(replies: Seq<ReplyView>)
    requires
        replies.len() >= 1,
        !shows_ad(replies[0]),
    ensures
        run(replies).requests == seq![RequestView::plain(Command::GetSongUrl)],
        run(replies).outcome == Some(RestartOutcome { restarted: false }),
{
    reveal_with_fuel(run_from, 2);
}

/// Once the first reply shows an advertisement, the handling asks for the
/// volume and then hands out the whole recovery, in order, with the volume
/// that was read, or 0 if none could be read. It ends with a restart,
/// whatever the replies to the later requests are, failures included.
pub proof fn lemma_ad_full_recovery(replies: Seq<ReplyView>)
    requires
        replies.len() >= 7,
        shows_ad(replies[0]),
    ensures
        run(replies).requests == probes() + recovery_sequence(saved_volume(replies[1])),
        run(replies).outcome == Some(RestartOutcome { restarted: true }),
{
    reveal_with_fuel(run_from, 8);
}

/// While replies are still missing, a request is out and there is no
/// outcome yet: one request has been handed out for each reply, and one more.
pub proof fn lemma_recovery_in_flight(replies: Seq<ReplyView>)
    requires
        replies.len() < 7,
        replies.len() >= 1 ==> shows_ad(replies[0]),
    ensures
        run(replies).outcome is None,
        run(replies).requests.len() == replies.len() + 1,
        replies.len() >= 2 ==> run(replies).requests == (probes() + recovery_sequence(
            saved_volume(replies[1]),
        )).take(replies.len() as int + 1),
{
    reveal_with_fuel(run_from, 8);
}

/// Two notifications in a row while no advertisement plays are handled
/// alike: each asks what is playing, asks nothing else, and ends without a
/// restart. The first leaves nothing behind for the second.
pub proof fn lemma_quiet_events_repeat(first: Seq<ReplyView>, second: Seq<ReplyView>)
    requires
        first.len() >= 1,
        second.len() >= 1,
        !shows_ad(first[0]),
        !shows_ad(second[0]),
    ensures
        run(first) == run(second),
        run(first).outcome == Some(RestartOutcome { restarted: false }),
        run(first).requests == seq![RequestView::plain(Command::GetSongUrl)],
{
    lemma_no_ad_no_restart(first);
    lemma_no_ad_no_restart(second);
}

/// Every handling ends: seven replies are always enough, and the outcome
/// says whether the first of them showed an advertisement.
pub proof fn lemma_every_event_ends(replies: Seq<ReplyView>)
    requires
        replies.len() >= 7,
    ensures
        run(replies).outcome == Some(RestartOutcome { restarted: shows_ad(replies[0]) }),
        run(replies).requests.len() <= 7,
        forall|i: int|
            0 <= i < run(replies).requests.len() ==> (#[trigger] run(
                replies,
            ).requests[i]).well_formed(),
{
    if shows_ad(replies[0]) {
        lemma_ad_full_recovery(replies);
    } else {
        lemma_no_ad_no_restart(replies);
    }
}

/// Whatever the replies, and however many, every request that the handling
/// hands out carries as many arguments as its command expects, and there are
/// never more than seven.
pub proof fn lemma_requests_well_formed(replies: Seq<ReplyView>)
    ensures
        run(replies).requests.len() <= 7,
        forall|i: int|
            0 <= i < run(replies).requests.len() ==> (#[trigger] run(
                replies,
            ).requests[i]).well_formed(),
{
    if replies.len() >= 7 {
        lemma_every_event_ends(replies);
    } else if replies.len() >= 1 && !shows_ad(replies[0]) {
        lemma_no_ad_no_restart(replies);
    } else {
        lemma_recovery_in_flight(replies);
        reveal_with_fuel(run_from, 3);
    }
}

} // verus!
