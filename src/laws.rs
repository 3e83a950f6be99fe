//! Properties of whole runs of the controller, proved over its transition.

use vstd::prelude::*;

use crate::count::{decimal_count_round_trip, decimal_text, parse_count};
use crate::session::{
    initial, next, offline_payload, online_payload, phase_connection, model_wf,
    SettingsModel, ActionModel, ControllerModel, EventModel, Phase,
    QOS_AT_LEAST_ONCE,
};

verus! {

/// Feeds the events in order, starting from `c`: the final controller and
/// the action answered to each event.
pub open spec fn run(c: ControllerModel, es: Seq<EventModel>) -> (ControllerModel, Seq<ActionModel>)
    decreases es.len(),
{
    if es.len() == 0 {
        (c, Seq::empty())
    } else {
        let prev = run(c, es.drop_last());
        let step = next(prev.0, es.last());
        (step.0, prev.1.push(step.1))
    }
}

pub open spec fn is_online_announce(a: ActionModel) -> bool {
    match a {
        ActionModel::Announce { payload, .. } => payload == online_payload(),
        _ => false,
    }
}

pub open spec fn is_offline_announce(a: ActionModel) -> bool {
    match a {
        ActionModel::Announce { payload, .. } => payload == offline_payload(),
        _ => false,
    }
}

/// How many `offline` beacons the actions publish.
pub open spec fn offline_announces(acts: Seq<ActionModel>) -> nat
    decreases acts.len(),
{
    if acts.len() == 0 {
        0
    } else {
        offline_announces(acts.drop_last()) + if is_offline_announce(acts.last()) {
            1nat
        } else {
            0nat
        }
    }
}

/// How many broker disconnects the actions ask for.
pub open spec fn disconnects(acts: Seq<ActionModel>) -> nat
    decreases acts.len(),
{
    if acts.len() == 0 {
        0
    } else {
        disconnects(acts.drop_last()) + if acts.last() is Disconnect {
            1nat
        } else {
            0nat
        }
    }
}

/// How many reconnect attempts the actions ask for.
pub open spec fn reconnects(acts: Seq<ActionModel>) -> nat
    decreases acts.len(),
{
    if acts.len() == 0 {
        0
    } else {
        reconnects(acts.drop_last()) + if acts.last() is Reconnect {
            1nat
        } else {
            0nat
        }
    }
}

/// Phases after the initial connect succeeded and before the run stopped.
pub open spec fn in_session(p: Phase) -> bool {
    !(p is Idle || p is Connecting || p is Stopped)
}

/// Phases from which no beacon is published any more.
pub open spec fn closing(p: Phase) -> bool {
    p is GoingOffline || p is Disconnecting || p is Stopped
}

/// Some event before position `i` reports a successful initial connect.
pub open spec fn connected_before(es: Seq<EventModel>, i: int) -> bool {
    exists|j: int| 0 <= j < i && (#[trigger] es[j]) is Connected
}

/// A message on the transmit topic, while listening, is written to the
/// serial device exactly as it came, and listening resumes afterwards.
pub proof fn transmit_written_verbatim(c: ControllerModel, topic: Seq<char>, b: Seq<u8>)
    requires
        c.phase is Listening,
        topic == c.settings.transmit,
    ensures
        run(c, seq![EventModel::Message { topic, payload: b }, EventModel::Written]).1 == seq![
            ActionModel::Write { data: b },
            ActionModel::Receive,
        ],
        run(c, seq![EventModel::Message { topic, payload: b }, EventModel::Written]).0 == c,
{
    let es = seq![EventModel::Message { topic, payload: b }, EventModel::Written];
    assert(es.drop_last() =~= seq![EventModel::Message { topic, payload: b }]);
    assert(es.drop_last().drop_last() =~= Seq::<EventModel>::empty());
    reveal_with_fuel(run, 3);
    assert(run(c, es).1 =~= seq![ActionModel::Write { data: b }, ActionModel::Receive]);
}

/// A read request for `n` bytes on the control topic leads to exactly one
/// serial read of at most `n` bytes, and the `k` bytes obtained (none
/// included) are published unchanged on the receive topic.
pub proof fn read_request_answered(
    c: ControllerModel,
    topic: Seq<char>,
    payload: Seq<u8>,
    n: nat,
    buffer: Seq<u8>,
    k: nat,
)
    requires
        c.phase is Listening,
        topic == c.settings.receive_control,
        topic != c.settings.transmit,
        parse_count(payload) == Some(n),
        n <= c.settings.max_read,
        k <= n,
        k <= buffer.len(),
    ensures
        run(
            c,
            seq![
                EventModel::Message { topic, payload },
                EventModel::ReadDone { buffer, count: k },
                EventModel::Published,
            ],
        ).1 == seq![
            ActionModel::Read { max: n },
            ActionModel::Forward {
                topic: c.settings.receive,
                payload: buffer.subrange(0, k as int),
                qos: QOS_AT_LEAST_ONCE,
            },
            ActionModel::Receive,
        ],
        run(
            c,
            seq![
                EventModel::Message { topic, payload },
                EventModel::ReadDone { buffer, count: k },
                EventModel::Published,
            ],
        ).0 == c,
{
    let e0 = EventModel::Message { topic, payload };
    let e1 = EventModel::ReadDone { buffer, count: k };
    let es = seq![e0, e1, EventModel::Published];
    assert(es.drop_last() =~= seq![e0, e1]);
    assert(es.drop_last().drop_last() =~= seq![e0]);
    assert(es.drop_last().drop_last().drop_last() =~= Seq::<EventModel>::empty());
    reveal_with_fuel(run, 4);
    assert(run(c, es).1 =~= seq![
        ActionModel::Read { max: n },
        ActionModel::Forward {
            topic: c.settings.receive,
            payload: buffer.subrange(0, k as int),
            qos: QOS_AT_LEAST_ONCE,
        },
        ActionModel::Receive,
    ]);
}

/// The same for a request written as the decimal text of `n`.
pub proof fn decimal_read_request_answered(c: ControllerModel, n: nat, buffer: Seq<u8>, k: nat)
    requires
        model_wf(c),
        c.phase is Listening,
        c.settings.receive_control != c.settings.transmit,
        n <= c.settings.max_read,
        k <= n,
        k <= buffer.len(),
    ensures
        run(
            c,
            seq![
                EventModel::Message { topic: c.settings.receive_control, payload: decimal_text(n) },
                EventModel::ReadDone { buffer, count: k },
                EventModel::Published,
            ],
        ).1 == seq![
            ActionModel::Read { max: n },
            ActionModel::Forward {
                topic: c.settings.receive,
                payload: buffer.subrange(0, k as int),
                qos: QOS_AT_LEAST_ONCE,
            },
            ActionModel::Receive,
        ],
{
    decimal_count_round_trip(n);
    read_request_answered(c, c.settings.receive_control, decimal_text(n), n, buffer, k);
}

/// A control payload that is no byte count is dropped: no read, no publish,
/// and the controller goes on listening unchanged.
pub proof fn bad_request_dropped(c: ControllerModel, topic: Seq<char>, payload: Seq<u8>)
    requires
        c.phase is Listening,
        topic == c.settings.receive_control,
        topic != c.settings.transmit,
        parse_count(payload) is None,
    ensures
        next(c, EventModel::Message { topic, payload }) == (c, ActionModel::Receive),
{
}

/// One step never enters a session phase but from a session phase or on a
/// successful initial connect; and the `online` beacon comes only when the
/// subscriptions of a session are done.
pub proof fn step_session_entry(c: ControllerModel, e: EventModel)
    ensures
        in_session(next(c, e).0.phase) ==> in_session(c.phase) || e is Connected,
        is_online_announce(next(c, e).1) ==> c.phase is Subscribing,
{
    assert(online_payload() != offline_payload()) by {
        assert(online_payload().len() != offline_payload().len());
    }
}

/// From the start, the `online` beacon is never published before the
/// initial connect has succeeded.
pub proof fn online_after_connect(s: SettingsModel, es: Seq<EventModel>)
    ensures
        forall|i: int|
            0 <= i < es.len() && is_online_announce(#[trigger] run(initial(s), es).1[i])
                ==> connected_before(es, i),
        in_session(run(initial(s), es).0.phase) ==> connected_before(es, es.len() as int),
        run(initial(s), es).1.len() == es.len(),
    decreases es.len(),
{
    if es.len() > 0 {
        let pre = es.drop_last();
        let n = es.len() - 1;
        online_after_connect(s, pre);
        let prev = run(initial(s), pre);
        step_session_entry(prev.0, es.last());
        assert forall|j: int| 0 <= j < n implies #[trigger] pre[j] == es[j] by {}
        assert forall|i: int|
            0 <= i < es.len() && is_online_announce(#[trigger] run(initial(s), es).1[i])
            implies connected_before(es, i) by {
            if i < n {
                assert(run(initial(s), es).1[i] == prev.1[i]);
                let j = choose|j: int| 0 <= j < i && (#[trigger] pre[j]) is Connected;
                assert(es[j] is Connected);
            } else {
                let j = choose|j: int| 0 <= j < n && (#[trigger] pre[j]) is Connected;
                assert(es[j] is Connected);
            }
        }
        if in_session(run(initial(s), es).0.phase) {
            if in_session(prev.0.phase) {
                let j = choose|j: int| 0 <= j < n && (#[trigger] pre[j]) is Connected;
                assert(es[j] is Connected);
            } else {
                assert(es[n as int] is Connected);
            }
        }
    }
}

/// The connect registers `offline` on the availability topic as last will.
pub proof fn last_will_registered(s: SettingsModel)
    ensures
        next(initial(s), EventModel::Start) == (
            ControllerModel { phase: Phase::Connecting, ..initial(s) },
            ActionModel::Connect {
                will_topic: s.availability,
                will_payload: offline_payload(),
                will_qos: QOS_AT_LEAST_ONCE,
                clean_session: true,
            },
        ),
{
}

/// The `offline` beacon is published only while the connection is up: it
/// answers a closed stream only when the transport still reports a
/// connection, and never comes from a phase without one.
pub proof fn offline_only_while_connected(c: ControllerModel, e: EventModel)
    ensures
        is_offline_announce(next(c, e).1) ==> phase_connection(c.phase) is Connected,
        is_offline_announce(next(c, e).1) ==> e is Shutdown || e == (EventModel::StreamClosed {
            connected: true,
        }),
        c.phase is Listening && e == (EventModel::StreamClosed { connected: false }) ==> next(
            c,
            e,
        ) == (ControllerModel { phase: Phase::Stopped { success: true }, ..c }, ActionModel::Exit {
            success: true,
        }),
{
    assert(online_payload() != offline_payload()) by {
        assert(online_payload().len() != offline_payload().len());
    }
}

/// One step never leaves the closing phases, and the `offline` beacon and
/// the disconnect each come only on the way into them.
pub proof fn step_closing(c: ControllerModel, e: EventModel)
    ensures
        is_offline_announce(next(c, e).1) ==> !closing(c.phase) && next(c, e).0.phase is GoingOffline,
        next(c, e).1 is Disconnect ==> c.phase is GoingOffline && next(c, e).0.phase is Disconnecting,
        closing(c.phase) ==> closing(next(c, e).0.phase),
        (c.phase is Disconnecting || c.phase is Stopped) ==> (next(c, e).0.phase is Disconnecting
            || next(c, e).0.phase is Stopped),
{
    assert(online_payload() != offline_payload()) by {
        assert(online_payload().len() != offline_payload().len());
    }
}

/// Whatever events come, and however many shutdown requests among them,
/// a run from the start publishes `offline` at most once and disconnects
/// at most once.
pub proof fn single_offline_and_disconnect(s: SettingsModel, es: Seq<EventModel>)
    ensures
        offline_announces(run(initial(s), es).1) <= 1,
        disconnects(run(initial(s), es).1) <= 1,
        !closing(run(initial(s), es).0.phase) ==> offline_announces(run(initial(s), es).1) == 0,
        !(run(initial(s), es).0.phase is Disconnecting || run(initial(s), es).0.phase is Stopped)
            ==> disconnects(run(initial(s), es).1) == 0,
    decreases es.len(),
{
    if es.len() > 0 {
        let pre = es.drop_last();
        single_offline_and_disconnect(s, pre);
        let prev = run(initial(s), pre);
        step_closing(prev.0, es.last());
        let acts = run(initial(s), es).1;
        assert(acts.drop_last() =~= prev.1);
    }
}

/// `k` reconnect failures in a row.
pub open spec fn failures(k: nat) -> Seq<EventModel> {
    Seq::new(k, |i: int| EventModel::ReconnectFailed)
}

/// The connection is lost while listening, then `k` reconnect attempts fail.
pub open spec fn loss_then_failures(k: nat) -> Seq<EventModel> {
    seq![EventModel::NoMessage] + failures(k)
}

/// A reconnect action waits `d`; any other action holds trivially.
pub open spec fn waits(a: ActionModel, d: nat) -> bool {
    match a {
        ActionModel::Reconnect { delay_ms } => delay_ms == d,
        _ => true,
    }
}

/// After a connection loss, at most the configured number of reconnect
/// attempts are made, each after the configured interval; once that many
/// have failed the run stops as a failure.
pub proof fn reconnect_bounded(c: ControllerModel, k: nat)
    requires
        model_wf(c),
        c.phase is Listening,
    ensures
        run(c, loss_then_failures(k)).0.settings == c.settings,
        reconnects(run(c, loss_then_failures(k)).1) == if k + 1 <= c.settings.max_attempts {
            k + 1
        } else {
            c.settings.max_attempts
        },
        forall|i: int|
            0 <= i < run(c, loss_then_failures(k)).1.len() ==> waits(
                #[trigger] run(c, loss_then_failures(k)).1[i],
                c.settings.retry_interval_ms,
            ),
        k < c.settings.max_attempts ==> run(c, loss_then_failures(k)).0.phase is Reconnecting
            && run(c, loss_then_failures(k)).0.attempts == k,
        k >= c.settings.max_attempts ==> run(c, loss_then_failures(k)).0.phase == (Phase::Stopped {
            success: false,
        }) && run(c, loss_then_failures(k)).1.last() == (ActionModel::Exit { success: false }),
        run(c, loss_then_failures(k)).1.len() == k + 1,
    decreases k,
{
    let es = loss_then_failures(k);
    if k == 0 {
        assert(es =~= seq![EventModel::NoMessage]);
        assert(es.drop_last() =~= Seq::<EventModel>::empty());
        reveal_with_fuel(run, 2);
        assert(run(c, es).1.drop_last() =~= Seq::<ActionModel>::empty());
        reveal_with_fuel(reconnects, 2);
    } else {
        let km = (k - 1) as nat;
        reconnect_bounded(c, km);
        assert(es.drop_last() =~= loss_then_failures(km));
        assert(es.last() == EventModel::ReconnectFailed);
        let prev = run(c, loss_then_failures(km));
        let acts = run(c, es).1;
        assert(acts.drop_last() =~= prev.1);
        assert forall|i: int| 0 <= i < acts.len() implies waits(
            #[trigger] acts[i],
            c.settings.retry_interval_ms,
        ) by {
            if i < prev.1.len() {
                assert(acts[i] == prev.1[i]);
            }
        }
    }
}

} // verus!
