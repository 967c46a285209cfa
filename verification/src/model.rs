//! Runs of the handshake and of the dispatch loop over whole reply and event
//! sequences, with the guarantees proved about them.
//!
//! The executable step functions ([`crate::register::register_step`],
//! [`crate::dispatch::loop_iteration`]) state what they do with one reply or
//! one receive outcome; the runs here fold those per-step meanings over a
//! sequence, assuming the transport and the event channel accept what the
//! loop hands them (an exec-level send failure ends a run earlier, with the
//! error the step functions state). The lemmas then pin down the behaviors
//! that span a whole run: the backoff schedule, the order of delivered
//! updates, the liveness replies, and how the loop ends.

use vstd::math::min;
use vstd::prelude::*;

use crate::dispatch::{disconnect_diagnostic, translate_spec, Translation};
use crate::engine::Update;
use crate::messages::{Message, MessageType};
use crate::register::{
    next_delay_spec, reply_accepts, reply_carries_state, reply_retries, INITIAL_RETRY_DELAY_MS,
    MAX_RETRY_DELAY_MS,
};

verus! {

// ---------------------------------------------------------------------------
// The registration handshake, run over a sequence of replies.
// ---------------------------------------------------------------------------

/// Two to the `n`-th power.
pub open spec fn pow2(n: nat) -> int
    decreases n,
{
    if n == 0 {
        1
    } else {
        2 * pow2((n - 1) as nat)
    }
}

/// The backoff delay the handshake sleeps for before its `i`-th resend,
/// in milliseconds.
pub open spec fn delay_at(i: nat) -> int
    decreases i,
{
    if i == 0 {
        INITIAL_RETRY_DELAY_MS as int
    } else {
        next_delay_spec(delay_at((i - 1) as nat))
    }
}

/// How many registration requests the handshake has sent, given the replies
/// it receives in order: the initial request, plus one resend (under a fresh
/// correlation id) per NOT_READY reply; any other reply ends the exchange.
pub open spec fn handshake_sends(replies: Seq<Message>) -> nat
    decreases replies.len(),
{
    if replies.len() == 0 {
        1
    } else if reply_retries(replies[0]) {
        1 + handshake_sends(replies.drop_first())
    } else {
        1
    }
}

/// The sleeps the handshake performs, given the replies it receives in
/// order and its current backoff delay: one sleep per NOT_READY reply, and
/// none once any other reply arrives.
pub open spec fn handshake_sleeps(replies: Seq<Message>, delay: int) -> Seq<int>
    decreases replies.len(),
{
    if replies.len() == 0 {
        Seq::empty()
    } else if reply_retries(replies[0]) {
        seq![delay] + handshake_sleeps(replies.drop_first(), next_delay_spec(delay))
    } else {
        Seq::empty()
    }
}

/// How the handshake ends on a sequence of replies.
pub enum HandshakeEnd {
    /// Every reply said NOT_READY; the handshake is still waiting.
    Pending,
    /// A reply accepted the registration; the flag says whether it carried
    /// the startup state.
    Accepted(bool),
    /// A reply failed the registration: a bad status, the wrong message
    /// type, or undecodable content.
    Rejected,
}

/// The handshake's result on a sequence of replies: it retries past every
/// NOT_READY reply and stops at the first reply of any other kind.
pub open spec fn handshake_result(replies: Seq<Message>) -> HandshakeEnd
    decreases replies.len(),
{
    if replies.len() == 0 {
        HandshakeEnd::Pending
    } else if reply_retries(replies[0]) {
        handshake_result(replies.drop_first())
    } else if reply_accepts(replies[0]) {
        HandshakeEnd::Accepted(reply_carries_state(replies[0]))
    } else {
        HandshakeEnd::Rejected
    }
}

/// `pow2` is positive.
proof fn lemma_pow2_pos(n: nat)
    ensures
        pow2(n) >= 1,
    decreases n,
{
    if n > 0 {
        lemma_pow2_pos((n - 1) as nat);
    }
}

/// The backoff delay before the `i`-th resend is the initial delay doubled
/// `i` times, capped at the maximum.
pub proof fn lemma_delay_closed_form(i: nat)
    ensures
        delay_at(i) == min(INITIAL_RETRY_DELAY_MS * pow2(i), MAX_RETRY_DELAY_MS as int),
    decreases i,
{
    if i == 0 {
        lemma_pow2_pos(0);
    } else {
        lemma_delay_closed_form((i - 1) as nat);
        lemma_pow2_pos((i - 1) as nat);
        assert(pow2(i) == 2 * pow2((i - 1) as nat));
    }
}

/// The backoff delay never decreases within one handshake, and once at or
/// under the cap it stays at or under the cap.
pub proof fn lemma_backoff_monotone(delay: int)
    requires
        0 <= delay,
    ensures
        next_delay_spec(delay) >= delay,
        delay <= MAX_RETRY_DELAY_MS ==> next_delay_spec(delay) <= MAX_RETRY_DELAY_MS,
{
}

/// Folding the handshake over `n` NOT_READY replies and one decisive reply,
/// starting from the `k`-th delay of the backoff sequence: one sleep per
/// NOT_READY reply, each taking the next delay of the sequence, and the
/// result judged by the decisive reply alone.
proof fn lemma_handshake_run_general(replies: Seq<Message>, n: nat, k: nat)
    requires
        replies.len() == n + 1,
        forall|i: int| 0 <= i < n ==> reply_retries(#[trigger] replies[i]),
        !reply_retries(replies[n as int]),
    ensures
        handshake_sleeps(replies, delay_at(k)).len() == n,
        forall|i: int|
            0 <= i < n ==> #[trigger] handshake_sleeps(replies, delay_at(k))[i] == delay_at(
                (k + i) as nat,
            ),
        handshake_sends(replies) == n + 1,
        handshake_result(replies) == (if reply_accepts(replies[n as int]) {
            HandshakeEnd::Accepted(reply_carries_state(replies[n as int]))
        } else {
            HandshakeEnd::Rejected
        }),
    decreases n,
{
    if n == 0 {
        assert(!reply_retries(replies[0]));
    } else {
        let rest = replies.drop_first();
        assert(reply_retries(replies[0]));
        assert(rest.len() == (n - 1) + 1);
        assert(forall|i: int| 0 <= i < n - 1 ==> reply_retries(#[trigger] rest[i])) by {
            assert(forall|i: int| 0 <= i < n - 1 ==> rest[i] == replies[i + 1]);
        }
        assert(rest[(n - 1) as int] == replies[n as int]);
        assert(next_delay_spec(delay_at(k)) == delay_at((k + 1) as nat));
        lemma_handshake_run_general(rest, (n - 1) as nat, (k + 1) as nat);
        let sleeps = handshake_sleeps(replies, delay_at(k));
        let rest_sleeps = handshake_sleeps(rest, delay_at((k + 1) as nat));
        assert(sleeps == seq![delay_at(k)] + rest_sleeps);
        assert forall|i: int| 0 <= i < n implies #[trigger] sleeps[i] == delay_at(
            (k + i) as nat,
        ) by {
            if i > 0 {
                assert(sleeps[i] == rest_sleeps[i - 1]);
                assert(rest_sleeps[i - 1] == delay_at((k + 1 + (i - 1)) as nat));
            }
        }
    }
}

/// For any sequence of NOT_READY replies followed by one decisive reply, the
/// handshake retries exactly once per NOT_READY: it sends the initial
/// request plus one resend per NOT_READY, each resend under a fresh
/// correlation id (see [`crate::register::build_register_message`]); its
/// sleeps form the sequence 100, 200, 400, ... milliseconds, doubling and
/// capped at 3000; and it is accepted with startup state exactly when the
/// decisive reply is an OK response carrying both the chain head and the
/// local peer info, accepted without state on any other OK response, and
/// rejected otherwise.
pub proof fn lemma_registration_backoff(replies: Seq<Message>, n: nat)
    requires
        replies.len() == n + 1,
        forall|i: int| 0 <= i < n ==> reply_retries(#[trigger] replies[i]),
        !reply_retries(replies[n as int]),
    ensures
        handshake_sleeps(replies, INITIAL_RETRY_DELAY_MS as int).len() == n,
        forall|i: int|
            0 <= i < n ==> #[trigger] handshake_sleeps(replies, INITIAL_RETRY_DELAY_MS as int)[i]
                == min(INITIAL_RETRY_DELAY_MS * pow2(i as nat), MAX_RETRY_DELAY_MS as int),
        handshake_sends(replies) == n + 1,
        handshake_result(replies) == (if reply_accepts(replies[n as int]) {
            HandshakeEnd::Accepted(reply_carries_state(replies[n as int]))
        } else {
            HandshakeEnd::Rejected
        }),
{
    assert(delay_at(0) == INITIAL_RETRY_DELAY_MS as int);
    lemma_handshake_run_general(replies, n, 0);
    assert forall|i: int|
        0 <= i < n implies #[trigger] handshake_sleeps(replies, INITIAL_RETRY_DELAY_MS as int)[i]
        == min(INITIAL_RETRY_DELAY_MS * pow2(i as nat), MAX_RETRY_DELAY_MS as int) by {
        lemma_delay_closed_form(i as nat);
    }
}

// ---------------------------------------------------------------------------
// The dispatch loop, run over a sequence of receive outcomes.
// ---------------------------------------------------------------------------

/// One iteration's worth of input to the dispatch loop: what the bounded
/// receive produced and, where the iteration consults the stop signal,
/// whether a stop request is pending at that moment.
pub enum LoopEvent {
    /// A message arrived; the flag gives the stop signal's state at this
    /// iteration's stop check (ignored for liveness probes, which check no
    /// stop signal).
    Delivered(Message, bool),
    /// Nothing arrived within the polling interval; the flag as above.
    TimedOut(bool),
    /// The transport's sending side is gone.
    Dropped,
    /// The transport reported a receive failure, with its diagnostic.
    Faulted(Seq<char>),
}

/// How a run of the dispatch loop ends.
pub enum LoopEnd {
    /// The events ran out with the loop still going.
    Running,
    /// The loop observed the stop signal, emitted the terminal `Shutdown`,
    /// and returned successfully.
    Stopped,
    /// The loop terminated with a fatal receive error carrying this
    /// diagnostic.
    FailedReceive(Seq<char>),
    /// The loop terminated because a payload did not decode.
    FailedEncoding,
}

/// Everything observable about one run of the dispatch loop.
pub struct LoopTrace {
    /// The updates emitted on the event channel, in order.
    pub updates: Seq<Update>,
    /// The correlation ids acknowledged after their update was queued, in
    /// order: one per forwarded message, none for a skipped or undecodable
    /// one.
    pub acks: Seq<Seq<char>>,
    /// The correlation ids answered with a liveness reply, in order.
    pub ping_replies: Seq<Seq<char>>,
    /// How the run ended.
    pub outcome: LoopEnd,
}

/// The dispatch loop folded over a sequence of events, assuming the channel
/// and the transport accept what the loop hands them. A timeout consults the
/// stop signal; a liveness probe is answered on its own correlation id,
/// emits nothing, and consults no stop signal; any other message is
/// translated by [`translate_spec`], its update emitted, and only then the
/// message acknowledged under its own correlation id, all before the stop
/// signal is consulted; observing the stop signal emits `Shutdown` and ends
/// the run, and `Shutdown` is always the last update of a stopped run.
pub open spec fn loop_run(events: Seq<LoopEvent>) -> LoopTrace
    decreases events.len(),
{
    if events.len() == 0 {
        LoopTrace {
            updates: Seq::empty(),
            acks: Seq::empty(),
            ping_replies: Seq::empty(),
            outcome: LoopEnd::Running,
        }
    } else {
        let rest = events.drop_first();
        match events[0] {
            LoopEvent::TimedOut(stop) => if stop {
                LoopTrace {
                    updates: seq![Update::Shutdown],
                    acks: Seq::empty(),
                    ping_replies: Seq::empty(),
                    outcome: LoopEnd::Stopped,
                }
            } else {
                loop_run(rest)
            },
            LoopEvent::Dropped => LoopTrace {
                updates: Seq::empty(),
                acks: Seq::empty(),
                ping_replies: Seq::empty(),
                outcome: LoopEnd::FailedReceive(disconnect_diagnostic()),
            },
            LoopEvent::Faulted(diagnostic) => LoopTrace {
                updates: Seq::empty(),
                acks: Seq::empty(),
                ping_replies: Seq::empty(),
                outcome: LoopEnd::FailedReceive(diagnostic),
            },
            LoopEvent::Delivered(m, stop) => if m.message_type == MessageType::PingRequest {
                let t = loop_run(rest);
                LoopTrace {
                    updates: t.updates,
                    acks: t.acks,
                    ping_replies: seq![m.correlation_id@] + t.ping_replies,
                    outcome: t.outcome,
                }
            } else {
                match translate_spec(m.message_type, m.content) {
                    Translation::Unparsable => LoopTrace {
                        updates: Seq::empty(),
                        acks: Seq::empty(),
                        ping_replies: Seq::empty(),
                        outcome: LoopEnd::FailedEncoding,
                    },
                    Translation::Ignore => if stop {
                        LoopTrace {
                            updates: seq![Update::Shutdown],
                            acks: Seq::empty(),
                            ping_replies: Seq::empty(),
                            outcome: LoopEnd::Stopped,
                        }
                    } else {
                        loop_run(rest)
                    },
                    Translation::Emit(u) => if stop {
                        LoopTrace {
                            updates: seq![u, Update::Shutdown],
                            acks: seq![m.correlation_id@],
                            ping_replies: Seq::empty(),
                            outcome: LoopEnd::Stopped,
                        }
                    } else {
                        let t = loop_run(rest);
                        LoopTrace {
                            updates: seq![u] + t.updates,
                            acks: seq![m.correlation_id@] + t.acks,
                            ping_replies: t.ping_replies,
                            outcome: t.outcome,
                        }
                    },
                }
            },
        }
    }
}

/// The update a notification message translates to.
pub open spec fn update_of(m: Message) -> Update {
    match translate_spec(m.message_type, m.content) {
        Translation::Emit(u) => u,
        _ => Update::Shutdown,
    }
}

/// Whether a message is a notification the loop forwards: not a liveness
/// probe, and translating to an update.
pub open spec fn forwards(m: Message) -> bool {
    &&& m.message_type != MessageType::PingRequest
    &&& translate_spec(m.message_type, m.content) matches Translation::Emit(_)
}

/// Running the loop over forwarded notifications followed by anything else
/// emits exactly their updates, in receipt order, acknowledges exactly those
/// messages under their own correlation ids, and then behaves as the
/// remaining events alone dictate.
pub proof fn lemma_run_prefix(msgs: Seq<Message>, tail: Seq<LoopEvent>)
    requires
        forall|i: int| 0 <= i < msgs.len() ==> forwards(#[trigger] msgs[i]),
    ensures
        loop_run(msgs.map_values(|m: Message| LoopEvent::Delivered(m, false)) + tail).updates
            == msgs.map_values(|m: Message| update_of(m)) + loop_run(tail).updates,
        loop_run(msgs.map_values(|m: Message| LoopEvent::Delivered(m, false)) + tail).acks
            == msgs.map_values(|m: Message| m.correlation_id@) + loop_run(tail).acks,
        loop_run(msgs.map_values(|m: Message| LoopEvent::Delivered(m, false)) + tail).ping_replies
            == loop_run(tail).ping_replies,
        loop_run(msgs.map_values(|m: Message| LoopEvent::Delivered(m, false)) + tail).outcome
            == loop_run(tail).outcome,
    decreases msgs.len(),
{
    let events = msgs.map_values(|m: Message| LoopEvent::Delivered(m, false)) + tail;
    if msgs.len() == 0 {
        assert(events =~= tail);
        assert(msgs.map_values(|m: Message| update_of(m)) + loop_run(tail).updates =~= loop_run(
            tail,
        ).updates);
        assert(msgs.map_values(|m: Message| m.correlation_id@) + loop_run(tail).acks =~= loop_run(
            tail,
        ).acks);
    } else {
        let m = msgs[0];
        assert(forwards(m));
        assert(events[0] == LoopEvent::Delivered(m, false));
        let rest_msgs = msgs.drop_first();
        assert(forall|i: int| 0 <= i < rest_msgs.len() ==> forwards(#[trigger] rest_msgs[i])) by {
            assert(forall|i: int| 0 <= i < rest_msgs.len() ==> rest_msgs[i] == msgs[i + 1]);
        }
        assert(events.drop_first() =~= rest_msgs.map_values(
            |mm: Message| LoopEvent::Delivered(mm, false),
        ) + tail);
        lemma_run_prefix(rest_msgs, tail);
        assert(loop_run(events).updates =~= msgs.map_values(|mm: Message| update_of(mm))
            + loop_run(tail).updates) by {
            assert(loop_run(events).updates == seq![update_of(m)] + loop_run(
                events.drop_first(),
            ).updates);
        }
        assert(loop_run(events).acks =~= msgs.map_values(|mm: Message| mm.correlation_id@)
            + loop_run(tail).acks) by {
            assert(loop_run(events).acks == seq![m.correlation_id@] + loop_run(
                events.drop_first(),
            ).acks);
        }
    }
}

/// For any interleaving of notification messages followed by a stop signal,
/// the loop emits exactly one translated update per message, in receipt
/// order, then exactly one `Shutdown` as the last update, acknowledges
/// exactly those messages under their own correlation ids, answers no pings,
/// and returns successfully. No update follows the `Shutdown`.
pub proof fn lemma_dispatch_ordering(msgs: Seq<Message>)
    requires
        forall|i: int| 0 <= i < msgs.len() ==> forwards(#[trigger] msgs[i]),
    ensures
        loop_run(
            msgs.map_values(|m: Message| LoopEvent::Delivered(m, false)) + seq![
                LoopEvent::TimedOut(true),
            ],
        ).updates == msgs.map_values(|m: Message| update_of(m)) + seq![Update::Shutdown],
        loop_run(
            msgs.map_values(|m: Message| LoopEvent::Delivered(m, false)) + seq![
                LoopEvent::TimedOut(true),
            ],
        ).outcome == LoopEnd::Stopped,
        loop_run(
            msgs.map_values(|m: Message| LoopEvent::Delivered(m, false)) + seq![
                LoopEvent::TimedOut(true),
            ],
        ).acks == msgs.map_values(|m: Message| m.correlation_id@),
        loop_run(
            msgs.map_values(|m: Message| LoopEvent::Delivered(m, false)) + seq![
                LoopEvent::TimedOut(true),
            ],
        ).ping_replies == Seq::<Seq<char>>::empty(),
{
    let tail = seq![LoopEvent::TimedOut(true)];
    assert(tail.drop_first() =~= Seq::<LoopEvent>::empty());
    assert(loop_run(tail).updates == seq![Update::Shutdown]);
    lemma_run_prefix(msgs, tail);
    assert(msgs.map_values(|m: Message| m.correlation_id@) + loop_run(tail).acks =~= msgs.map_values(
        |m: Message| m.correlation_id@,
    ));
}

/// A liveness probe received at any point produces exactly one liveness
/// reply on the probe's own correlation id and no update, and does not
/// advance shutdown: the rest of the run is untouched whatever the stop
/// signal's state during the probe's iteration.
pub proof fn lemma_ping_probe(ping: Message, stop: bool, rest: Seq<LoopEvent>)
    requires
        ping.message_type == MessageType::PingRequest,
    ensures
        loop_run(seq![LoopEvent::Delivered(ping, stop)] + rest).updates == loop_run(rest).updates,
        loop_run(seq![LoopEvent::Delivered(ping, stop)] + rest).ping_replies == seq![
            ping.correlation_id@,
        ] + loop_run(rest).ping_replies,
        loop_run(seq![LoopEvent::Delivered(ping, stop)] + rest).acks == loop_run(rest).acks,
        loop_run(seq![LoopEvent::Delivered(ping, stop)] + rest).outcome == loop_run(rest).outcome,
{
    let events = seq![LoopEvent::Delivered(ping, stop)] + rest;
    assert(events[0] == LoopEvent::Delivered(ping, stop));
    assert(events.drop_first() =~= rest);
}

/// A receiver disconnection at any point during steady-state dispatch ends
/// the run with a fatal receive error: the updates forwarded so far stay
/// delivered, nothing else is emitted, and the run never reports success.
pub proof fn lemma_disconnect_fails(msgs: Seq<Message>)
    requires
        forall|i: int| 0 <= i < msgs.len() ==> forwards(#[trigger] msgs[i]),
    ensures
        loop_run(
            msgs.map_values(|m: Message| LoopEvent::Delivered(m, false)) + seq![LoopEvent::Dropped],
        ).outcome == LoopEnd::FailedReceive(disconnect_diagnostic()),
        loop_run(
            msgs.map_values(|m: Message| LoopEvent::Delivered(m, false)) + seq![LoopEvent::Dropped],
        ).updates == msgs.map_values(|m: Message| update_of(m)),
        loop_run(
            msgs.map_values(|m: Message| LoopEvent::Delivered(m, false)) + seq![LoopEvent::Dropped],
        ).acks == msgs.map_values(|m: Message| m.correlation_id@),
{
    let tail = seq![LoopEvent::Dropped];
    lemma_run_prefix(msgs, tail);
    assert(msgs.map_values(|m: Message| update_of(m)) + loop_run(tail).updates =~= msgs.map_values(
        |m: Message| update_of(m),
    ));
    assert(msgs.map_values(|m: Message| m.correlation_id@) + loop_run(tail).acks =~= msgs.map_values(
        |m: Message| m.correlation_id@,
    ));
}

} // verus!
