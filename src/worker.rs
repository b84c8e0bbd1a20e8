//! One search worker: samples salts, derives addresses, tests them against
//! the patterns, and reports matches and progress over bounded channels.

use vstd::prelude::*;
use crate::budget::WorkSlice;
use crate::oracle::{DeploymentContext, candidate_salt_spec};
use crate::pattern::{PatternSet, first_match_spec};
use crate::progress::ProgressTracker;
use crate::text::{hex_text, prefixed_hex};

verus! {

#[verifier::external_type_specification]
#[verifier::external_body]
#[verifier::reject_recursive_types(T)]
pub struct ExSyncSender<T>(std::sync::mpsc::SyncSender<T>);

/// Relies on `rand::random`: a value drawn from the thread-local generator;
/// nothing is known of it.
pub assume_specification<T>[ rand::random::<T> ]() -> (r: T)
    where
        rand::distributions::Standard: rand::distributions::Distribution<T>,
;

/// Relies on `std::sync::mpsc::SyncSender::send`: blocks while the channel is
/// full and fails once the receiver is gone; whether it fails is not known here.
#[verifier::external_body]
fn send_to<T>(tx: &std::sync::mpsc::SyncSender<T>, value: T) -> (r: bool) {
    tx.send(value).is_ok()
}

/// A salt whose derived address matched a pattern.
pub struct MatchRecord {
    /// The candidate salt as `0x`-prefixed lowercase hex.
    pub salt: String,
    /// The derived address as `0x`-prefixed lowercase hex.
    pub address: String,
    /// The description of the first pattern that matched.
    pub pattern: String,
    /// The trial's index within its worker's slice.
    pub attempt: u64,
}

impl Clone for MatchRecord {
    fn clone(&self) -> (r: Self)
        ensures
            r.salt@ == self.salt@,
            r.address@ == self.address@,
            r.pattern@ == self.pattern@,
            r.attempt == self.attempt,
    {
        MatchRecord {
            salt: self.salt.clone(),
            address: self.address.clone(),
            pattern: self.pattern.clone(),
            attempt: self.attempt,
        }
    }
}

/// The address text that patterns are tested against.
pub open spec fn address_text_spec(ctx: DeploymentContext, salt: Seq<u8>) -> Seq<char> {
    "0x"@ + hex_text(ctx.address_of(salt))
}

/// One trial on the given entropy: builds the guarded salt, derives its
/// address, and returns a record for the first pattern that matches.
pub fn evaluate_candidate(
    ctx: &DeploymentContext,
    patterns: &PatternSet,
    random_part: &[u8; 11],
    attempt: u64,
) -> (r: Option<MatchRecord>)
    ensures
        ({
            let salt = candidate_salt_spec(ctx.deployer@, random_part@);
            let text = address_text_spec(*ctx, salt);
            match first_match_spec(patterns.sources(), text) {
                None => r is None,
                Some(i) => r matches Some(m) && m.salt@ == "0x"@ + hex_text(salt) && m.address@
                    == text && m.pattern@ == patterns.descriptions()[i] && m.attempt == attempt,
            }
        }),
{
    let salt = ctx.generate_guarded_salt(random_part);
    let address = ctx.compute_create2_address(&salt);
    let text = prefixed_hex(address.as_slice());
    let found = patterns.match_first(text.as_str());
    match found {
        Some(i) => {
            let record = MatchRecord {
                salt: prefixed_hex(salt.as_slice()),
                address: text,
                pattern: patterns.description(i),
                attempt,
            };
            Some(record)
        },
        None => None,
    }
}

/// What the worker knows of its sends so far.
#[derive(Clone, Copy, Debug, PartialEq, Eq, Structural)]
pub struct SendState {
    /// Trials covered by progress deltas that reached the coordinator.
    pub delivered: u64,
    /// Whether every match send so far succeeded.
    pub matches_open: bool,
    /// Whether every progress send so far succeeded.
    pub progress_open: bool,
}

impl SendState {
    /// Trials go on only while both channels take what is sent.
    pub open spec fn running(&self) -> bool {
        self.matches_open && self.progress_open
    }

    /// Nothing sent yet.
    pub fn new() -> (r: SendState)
        ensures
            r == (SendState { delivered: 0, matches_open: true, progress_open: true }),
    {
        SendState { delivered: 0, matches_open: true, progress_open: true }
    }

    /// After a match send: a failure closes the match side, which ends the trials.
    pub fn after_match_send(self, sent: bool) -> (r: SendState)
        ensures
            r == (SendState { matches_open: self.matches_open && sent, ..self }),
    {
        SendState { matches_open: self.matches_open && sent, ..self }
    }

    /// After a progress send of `delta`: a success counts the delta as
    /// delivered, a failure closes the progress side.
    pub fn after_progress_send(self, delta: u64, sent: bool) -> (r: SendState)
        requires
            self.delivered + delta <= u64::MAX,
        ensures
            sent ==> r == (SendState { delivered: (self.delivered + delta) as u64, ..self }),
            !sent ==> r == (SendState { progress_open: false, ..self }),
    {
        if sent {
            SendState { delivered: self.delivered + delta, ..self }
        } else {
            SendState { progress_open: false, ..self }
        }
    }
}

/// What a worker did with its slice.
pub struct WorkerReport {
    /// Trials made.
    pub tried: u64,
    /// Sum of the progress deltas handed to the progress channel.
    pub emitted: u64,
    /// Sum of the progress deltas that reached the coordinator.
    pub delivered: u64,
    /// Whether every match send succeeded.
    pub matches_open: bool,
    /// Whether every progress send succeeded.
    pub progress_open: bool,
    /// Whether every trial was made and every send succeeded.
    pub completed: bool,
}

/// Makes one trial for each number in `slice`, sending each match on
/// `matches`, and a progress delta every `batch` trials on `progress`. The
/// first failed send ends the trials; the deltas for the trials made are
/// still emitted while the progress channel takes them, so the emitted
/// deltas always add up to the trials made and the shortfall against the
/// slice is exactly the trials not made.
pub fn run_worker(
    ctx: &DeploymentContext,
    patterns: &PatternSet,
    slice: WorkSlice,
    batch: u64,
    matches: &std::sync::mpsc::SyncSender<MatchRecord>,
    progress: &std::sync::mpsc::SyncSender<u64>,
) -> (r: WorkerReport)
    requires
        slice.start <= slice.end,
        batch > 0,
    ensures
        r.tried <= slice.size(),
        r.emitted == r.tried,
        r.delivered <= r.emitted,
        r.progress_open ==> r.delivered == r.emitted,
        r.completed == (r.matches_open && r.progress_open),
        r.completed ==> r.tried == slice.size() && r.delivered == slice.size(),
        !r.completed ==> r.tried >= 1,
        slice.size() == 0 ==> r.completed && r.tried == 0 && r.delivered == 0,
{
    let mut tracker = ProgressTracker::new(batch);
    let mut state = SendState::new();
    let mut attempt: u64 = slice.start;
    while state.matches_open && state.progress_open && attempt < slice.end
        invariant
            tracker.wf(),
            tracker.batch() == batch,
            slice.start <= attempt <= slice.end,
            tracker.trials() == attempt - slice.start,
            tracker.reported() <= tracker.trials(),
            state.delivered <= tracker.reported(),
            state.progress_open ==> state.delivered == tracker.reported(),
            !state.progress_open ==> tracker.reported() == tracker.trials(),
            !state.running() ==> tracker.trials() >= 1,
        decreases slice.end - attempt,
    {
        let random_part: [u8; 11] = rand::random();
        match evaluate_candidate(ctx, patterns, &random_part, attempt - slice.start) {
            Some(record) => {
                let sent = send_to(matches, record);
                state = state.after_match_send(sent);
            },
            None => {},
        }
        let due = tracker.record_trial();
        proof {
            tracker.lemma_counts();
        }
        match due {
            Some(d) => {
                let sent = send_to(progress, d);
                state = state.after_progress_send(d, sent);
            },
            None => {},
        }
        attempt = attempt + 1;
    }
    if state.progress_open {
        match tracker.finish() {
            Some(d) => {
                let sent = send_to(progress, d);
                state = state.after_progress_send(d, sent);
            },
            None => {},
        }
    }
    proof {
        tracker.lemma_counts();
    }
    WorkerReport {
        tried: attempt - slice.start,
        emitted: tracker.reported_count(),
        delivered: state.delivered,
        matches_open: state.matches_open,
        progress_open: state.progress_open,
        completed: state.matches_open && state.progress_open,
    }
}

} // verus!
