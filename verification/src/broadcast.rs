//! Per-connection broadcast step logic and the console topic's framing.
//!
//! Every accepted subscriber gets two independently scheduled activities: a
//! pusher, which copies the shared state out and sends it on a fixed cadence,
//! and a drainer, which reads inbound frames. The loops themselves run at the
//! network edge; the decisions they take each turn — carry on or terminate —
//! are the functions here, so a dead peer silently ends its own connection's
//! tasks and nothing else. The console topic reuses the same pattern with
//! timestamped text lines as the pushed payload, drained from an outbound
//! queue that an execution handler can fill.

use vstd::prelude::*;

use crate::text::spec_decimal;
use crate::text::u64_to_string;

verus! {

/// What a broadcast activity does after handling one event.
#[derive(Clone, Copy, Debug, PartialEq, Eq, Structural)]
pub enum LoopAction {
    KeepRunning,
    Terminate,
}

/// One inbound event a connection's drainer can observe.
#[derive(Clone, Copy, Debug, PartialEq, Eq, Structural)]
pub enum InboundEvent {
    /// The peer sent a close frame.
    CloseFrame,
    /// The peer sent any other frame; inbound content is accepted but inert.
    OtherFrame,
    /// Reading from the connection failed.
    ReadError,
    /// The inbound stream ended.
    StreamEnded,
}

/// The drainer's decision on one inbound event: a close frame, a read error
/// or the end of the stream terminates it; any other frame is inert.
pub open spec fn spec_drainer_step(event: InboundEvent) -> LoopAction {
    match event {
        InboundEvent::CloseFrame => LoopAction::Terminate,
        InboundEvent::OtherFrame => LoopAction::KeepRunning,
        InboundEvent::ReadError => LoopAction::Terminate,
        InboundEvent::StreamEnded => LoopAction::Terminate,
    }
}

/// Decide the drainer's next step after one inbound event.
pub fn drainer_step(event: InboundEvent) -> (a: LoopAction)
    ensures
        a == spec_drainer_step(event),
{
    match event {
        InboundEvent::CloseFrame => LoopAction::Terminate,
        InboundEvent::OtherFrame => LoopAction::KeepRunning,
        InboundEvent::ReadError => LoopAction::Terminate,
        InboundEvent::StreamEnded => LoopAction::Terminate,
    }
}

/// Decide the pusher's next step after one push attempt: a failed delivery —
/// the peer is gone — terminates this pusher and nothing else.
pub fn pusher_step(delivered: bool) -> (a: LoopAction)
    ensures
        a is Terminate <==> !delivered,
{
    if delivered {
        LoopAction::KeepRunning
    } else {
        LoopAction::Terminate
    }
}

/// The state of one connection's pusher, as far as the broadcast guarantees
/// speak of it: whether it still runs, and how many pushes it has delivered.
pub struct PusherStatus {
    pub alive: bool,
    pub pushes: nat,
}

/// One pusher after one push cycle: a terminated pusher stays unchanged, a
/// delivery counts, a failure terminates.
pub open spec fn spec_pusher_cycle(st: PusherStatus, delivered: bool) -> PusherStatus {
    if !st.alive {
        st
    } else if delivered {
        PusherStatus { alive: true, pushes: st.pushes + 1 }
    } else {
        PusherStatus { alive: false, pushes: st.pushes }
    }
}

/// One push cycle of the whole fan-out: every connection's pusher steps on
/// its own delivery outcome alone.
pub open spec fn spec_fanout_cycle(statuses: Seq<PusherStatus>, outcomes: Seq<bool>) -> Seq<PusherStatus> {
    Seq::new(statuses.len(), |i: int| spec_pusher_cycle(statuses[i], outcomes[i]))
}

/// Law: connections never contend — in a fan-out cycle, each pusher's next
/// state is a function of its own state and its own delivery outcome alone.
pub proof fn lemma_fanout_is_pointwise(statuses: Seq<PusherStatus>, outcomes: Seq<bool>, j: int)
    requires
        0 <= j < statuses.len(),
    ensures
        spec_fanout_cycle(statuses, outcomes)[j] == spec_pusher_cycle(statuses[j], outcomes[j]),
{
}

/// One pusher after a whole sequence of push cycles, first outcome first.
pub open spec fn spec_pusher_run(st: PusherStatus, outcomes: Seq<bool>) -> PusherStatus
    decreases outcomes.len(),
{
    if outcomes.len() == 0 {
        st
    } else {
        spec_pusher_run(spec_pusher_cycle(st, outcomes[0]), outcomes.skip(1))
    }
}

/// Law: termination is final — a terminated pusher is unchanged by any
/// further cycles, so a connection's tasks do not come back once gone.
pub proof fn lemma_terminated_pusher_stays_terminated(st: PusherStatus, outcomes: Seq<bool>)
    requires
        !st.alive,
    ensures
        spec_pusher_run(st, outcomes) == st,
    decreases outcomes.len(),
{
    if outcomes.len() > 0 {
        lemma_terminated_pusher_stays_terminated(st, outcomes.skip(1));
    }
}

/// Law: one failed delivery ends the pusher for good — whatever happens
/// afterwards, it stays terminated and delivers nothing more.
pub proof fn lemma_failed_delivery_ends_the_pusher(st: PusherStatus, outcomes: Seq<bool>)
    requires
        st.alive,
        outcomes.len() >= 1,
        !outcomes[0],
    ensures
        !spec_pusher_run(st, outcomes).alive,
        spec_pusher_run(st, outcomes).pushes == st.pushes,
{
    let dead = spec_pusher_cycle(st, outcomes[0]);
    lemma_terminated_pusher_stays_terminated(dead, outcomes.skip(1));
}

/// Law: a pusher that fails to deliver to a dead connection terminates
/// without affecting any other open connection's delivery — in the same cycle
/// every other live pusher with a successful delivery still counts it.
pub proof fn lemma_failed_push_is_local(
    statuses: Seq<PusherStatus>,
    outcomes: Seq<bool>,
    i: int,
    j: int,
)
    requires
        statuses.len() == outcomes.len(),
        0 <= i < statuses.len(),
        0 <= j < statuses.len(),
        i != j,
        statuses[i].alive,
        !outcomes[i],
        statuses[j].alive,
        outcomes[j],
    ensures
        !spec_fanout_cycle(statuses, outcomes)[i].alive,
        spec_fanout_cycle(statuses, outcomes)[i].pushes == statuses[i].pushes,
        spec_fanout_cycle(statuses, outcomes)[j].alive,
        spec_fanout_cycle(statuses, outcomes)[j].pushes == statuses[j].pushes + 1,
{
}

/// The delivery outcomes one connection sees over a run of fan-out cycles.
pub open spec fn spec_outcome_column(rounds: Seq<Seq<bool>>, j: int) -> Seq<bool> {
    Seq::new(rounds.len(), |r: int| rounds[r][j])
}

/// The whole fan-out after a run of push cycles, first round first.
pub open spec fn spec_fanout_run(statuses: Seq<PusherStatus>, rounds: Seq<Seq<bool>>) -> Seq<
    PusherStatus,
>
    decreases rounds.len(),
{
    if rounds.len() == 0 {
        statuses
    } else {
        spec_fanout_run(spec_fanout_cycle(statuses, rounds[0]), rounds.skip(1))
    }
}

/// Law: over a whole run of cycles, each connection's pusher still evolves
/// on its own delivery outcomes alone.
pub proof fn lemma_fanout_run_is_pointwise(
    statuses: Seq<PusherStatus>,
    rounds: Seq<Seq<bool>>,
    j: int,
)
    requires
        0 <= j < statuses.len(),
    ensures
        spec_fanout_run(statuses, rounds).len() == statuses.len(),
        spec_fanout_run(statuses, rounds)[j] == spec_pusher_run(
            statuses[j],
            spec_outcome_column(rounds, j),
        ),
    decreases rounds.len(),
{
    if rounds.len() > 0 {
        let next = spec_fanout_cycle(statuses, rounds[0]);
        assert(next[j] == spec_pusher_cycle(statuses[j], rounds[0][j]));
        lemma_fanout_run_is_pointwise(next, rounds.skip(1), j);
        assert(spec_outcome_column(rounds.skip(1), j) =~= spec_outcome_column(rounds, j).skip(1));
        assert(spec_outcome_column(rounds, j)[0] == rounds[0][j]);
    }
}

/// Law: a pusher whose peer stays up counts every delivery — after a run of
/// all-successful cycles it is still running and has pushed once per cycle.
pub proof fn lemma_live_pusher_counts_every_delivery(st: PusherStatus, outcomes: Seq<bool>)
    requires
        st.alive,
        forall|k: int| 0 <= k < outcomes.len() ==> outcomes[k],
    ensures
        spec_pusher_run(st, outcomes).alive,
        spec_pusher_run(st, outcomes).pushes == st.pushes + outcomes.len(),
    decreases outcomes.len(),
{
    if outcomes.len() > 0 {
        lemma_live_pusher_counts_every_delivery(
            spec_pusher_cycle(st, outcomes[0]),
            outcomes.skip(1),
        );
    }
}

/// Law: a dead peer is local to its connection over whole runs — when one
/// connection's delivery fails in the first round, its pusher terminates
/// with its push count frozen, while any connection whose deliveries all
/// succeed keeps its pusher running and delivers once per round, at its own
/// cadence. A fan-out run takes no shared state at all: the sampler and the
/// shared snapshot are untouched by any connection's failure.
pub proof fn lemma_dead_peer_is_local_to_its_connection(
    statuses: Seq<PusherStatus>,
    rounds: Seq<Seq<bool>>,
    i: int,
    j: int,
)
    requires
        0 <= i < statuses.len(),
        0 <= j < statuses.len(),
        i != j,
        rounds.len() >= 1,
        forall|r: int| 0 <= r < rounds.len() ==> (#[trigger] rounds[r]).len() == statuses.len(),
        statuses[i].alive,
        !rounds[0][i],
        statuses[j].alive,
        forall|r: int| 0 <= r < rounds.len() ==> (#[trigger] rounds[r])[j],
    ensures
        !spec_fanout_run(statuses, rounds)[i].alive,
        spec_fanout_run(statuses, rounds)[i].pushes == statuses[i].pushes,
        spec_fanout_run(statuses, rounds)[j].alive,
        spec_fanout_run(statuses, rounds)[j].pushes == statuses[j].pushes + rounds.len(),
{
    lemma_fanout_run_is_pointwise(statuses, rounds, i);
    lemma_fanout_run_is_pointwise(statuses, rounds, j);
    let column_i = spec_outcome_column(rounds, i);
    let column_j = spec_outcome_column(rounds, j);
    assert(!column_i[0]);
    assert(forall|k: int| 0 <= k < column_j.len() ==> column_j[k]);
    lemma_failed_delivery_ends_the_pusher(statuses[i], column_i);
    lemma_live_pusher_counts_every_delivery(statuses[j], column_j);
}

/// The outbound queue of the console topic: timestamped text lines an
/// execution handler enqueues and the connection's pusher drains, in order.
pub struct ConsoleQueue {
    pub lines: Vec<String>,
}

impl ConsoleQueue {
    /// An empty queue.
    pub fn new() -> (q: ConsoleQueue)
        ensures
            q.lines.deep_view() == Seq::<Seq<char>>::empty(),
    {
        let q = ConsoleQueue { lines: Vec::new() };
        proof {
            assert(q.lines.deep_view() =~= Seq::<Seq<char>>::empty());
        }
        q
    }

    /// Append one line at the back.
    pub fn enqueue(&mut self, line: String)
        ensures
            final(self).lines.deep_view() == old(self).lines.deep_view().push(line@),
    {
        self.lines.push(line);
        proof {
            assert(self.lines.deep_view() =~= old(self).lines.deep_view().push(line@));
        }
    }

    /// Take the oldest line, if any: the queue is drained first in, first
    /// out, and an empty queue is left unchanged.
    pub fn dequeue(&mut self) -> (r: Option<String>)
        ensures
            (match r {
                Some(line) => old(self).lines.deep_view().len() > 0
                    && line@ == old(self).lines.deep_view()[0]
                    && final(self).lines.deep_view() == old(self).lines.deep_view().skip(1),
                None => old(self).lines.deep_view().len() == 0
                    && *final(self) == *old(self),
            }),
    {
        if self.lines.len() == 0 {
            None
        } else {
            let line = self.lines.remove(0);
            proof {
                assert(self.lines.deep_view() =~= old(self).lines.deep_view().skip(1));
            }
            Some(line)
        }
    }
}

/// The console topic's line framing: a bracketed timestamp, the fixed
/// heartbeat text, the cycle number in decimal, and a line break.
pub open spec fn spec_console_line(timestamp: Seq<char>, i: nat) -> Seq<char> {
    "["@ + timestamp + "] alg console test "@ + spec_decimal(i) + "\n"@
}

/// Frame one console heartbeat line from a timestamp and a cycle number.
pub fn console_line(timestamp: &str, i: u64) -> (r: String)
    ensures
        r@ == spec_console_line(timestamp@, i as nat),
{
    let digits = u64_to_string(i);
    let r = String::from_str("[").concat(timestamp).concat("] alg console test ").concat(
        digits.as_str(),
    ).concat("\n");
    proof {
        assert(r@ =~= spec_console_line(timestamp@, i as nat));
    }
    r
}

/// The timestamp text chrono renders for a count of seconds since the Unix
/// epoch; a function of that count alone.
pub uninterp spec fn utc_timestamp_text(secs: u64) -> Seq<char>;

/// Relies on `std::time::SystemTime` for the seconds since the Unix epoch:
/// `now` followed by `duration_since` the epoch, `None` when the clock
/// reports an earlier time. Queried this way — not through a library that
/// panics on a pre-epoch clock — so no clock value can panic here.
#[verifier::external_body]
fn epoch_seconds() -> Option<u64> {
    match std::time::SystemTime::now().duration_since(std::time::UNIX_EPOCH) {
        Ok(d) => Some(d.as_secs()),
        Err(_) => None,
    }
}

/// Relies on `chrono::DateTime::from_timestamp` and chrono's formatter: the
/// UTC timestamp text of a second count, `None` when the count is outside
/// chrono's calendar range. The UTC path is taken deliberately: chrono's
/// local-zone lookup panics when the time-zone data cannot be read.
#[verifier::external_body]
fn format_utc_timestamp(secs: u64) -> (r: Option<String>)
    ensures
        r matches Some(t) ==> t@ == utc_timestamp_text(secs),
{
    let secs_signed = i64::try_from(secs).ok()?;
    let utc = chrono::DateTime::from_timestamp(secs_signed, 0)?;
    Some(format!("{}", utc.format("%Y-%m-%d %H:%M:%S")))
}

/// The wall-clock timestamp of a console line, or a fixed placeholder when
/// the clock or the calendar cannot supply one.
fn now_timestamp() -> String {
    match epoch_seconds() {
        Some(secs) => {
            match format_utc_timestamp(secs) {
                Some(t) => t,
                None => String::from_str("unknown time"),
            }
        },
        None => String::from_str("unknown time"),
    }
}

/// Frame the synthetic heartbeat line the console pusher sends when no
/// execution output is queued: the current wall-clock time, whatever the
/// clock reports, in the console framing.
pub fn heartbeat_line(i: u64) -> (r: String)
    ensures
        exists|timestamp: Seq<char>| r@ == spec_console_line(timestamp, i as nat),
{
    let timestamp = now_timestamp();
    let r = console_line(timestamp.as_str(), i);
    proof {
        let t = timestamp@;
        assert(r@ == spec_console_line(t, i as nat));
    }
    r
}

/// One cycle of the console pusher's source: drain the oldest queued line if
/// any, else frame the heartbeat for this cycle; either way the next cycle
/// number is exactly one more, so successive heartbeat frames carry
/// consecutive numbers.
pub fn console_pusher_next(queue: &mut ConsoleQueue, i: u64) -> (r: (String, u64))
    requires
        i < u64::MAX,
    ensures
        r.1 == i + 1,
        old(queue).lines.deep_view().len() > 0 ==> r.0@ == old(queue).lines.deep_view()[0]
            && final(queue).lines.deep_view() == old(queue).lines.deep_view().skip(1),
        old(queue).lines.deep_view().len() == 0 ==> *final(queue) == *old(queue) && (exists|
            timestamp: Seq<char>,
        |
            r.0@ == spec_console_line(timestamp, i as nat)),
{
    match queue.dequeue() {
        Some(line) => (line, i + 1),
        None => (heartbeat_line(i), i + 1),
    }
}

} // verus!
