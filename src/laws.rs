//! Laws of merging telemetry into the tree.
//!
//! Each kind of message owns a disjoint part of the tree, so the order in
//! which different kinds arrive does not matter; within one kind the last
//! message wins, because merges overwrite rather than accumulate.
use vstd::prelude::*;
use crate::messages::{BatteryData, MessageKind, TelemetryMessage, Tires, VehicleMessage, tire_from};
use crate::tree::{VehicleView, row_tire};
use crate::vehicle_state::{axle_of, tires_observed};

verus! {

/// The tree after merging `ms` into `v`, first message first.
pub open spec fn apply_all(v: VehicleView, ms: Seq<TelemetryMessage>) -> VehicleView
    decreases ms.len(),
{
    if ms.len() == 0 {
        v
    } else {
        ms.last().merged_into(apply_all(v, ms.drop_last()))
    }
}

/// The messages of kind `k` in `ms`, in their order.
pub open spec fn of_kind(ms: Seq<TelemetryMessage>, k: MessageKind) -> Seq<TelemetryMessage>
    decreases ms.len(),
{
    if ms.len() == 0 {
        Seq::empty()
    } else {
        let rest = of_kind(ms.drop_last(), k);
        if ms.last().kind() == k {
            rest.push(ms.last())
        } else {
            rest
        }
    }
}

/// Whether two trees hold the same values in the part that kind `k` owns.
pub open spec fn agree_on(a: VehicleView, b: VehicleView, k: MessageKind) -> bool {
    match k {
        MessageKind::Battery => a.powertrain == b.powertrain,
        MessageKind::Tires => a.chassis == b.chassis,
        MessageKind::Exterior => a.exterior == b.exterior,
        MessageKind::CurrentLocation => a.current_location == b.current_location,
        MessageKind::Speed => a.speed == b.speed,
        MessageKind::TripData => {
            &&& a.start_time == b.start_time
            &&& a.traveled_distance == b.traveled_distance
            &&& a.traveled_distance_since_start == b.traveled_distance_since_start
            &&& a.trip_duration == b.trip_duration
            &&& a.trip_meter_reading == b.trip_meter_reading
            &&& a.average_speed == b.average_speed
        },
        MessageKind::LockState => a.low_voltage_system_state == b.low_voltage_system_state,
    }
}

/// A message leaves the parts of other kinds as they were.
proof fn lemma_other_kinds_untouched(w: VehicleView, m: TelemetryMessage, k: MessageKind)
    requires
        m.kind() != k,
    ensures
        agree_on(m.merged_into(w), w, k),
{
}

/// What a message writes depends only on the part of its own kind.
proof fn lemma_own_kind_depends_on_own_part(w1: VehicleView, w2: VehicleView, m: TelemetryMessage)
    requires
        agree_on(w1, w2, m.kind()),
    ensures
        agree_on(m.merged_into(w1), m.merged_into(w2), m.kind()),
{
}

/// Trees that agree on the parts of every kind are equal: the parts cover
/// the whole tree.
proof fn lemma_parts_cover_tree(a: VehicleView, b: VehicleView)
    requires
        forall|k: MessageKind| agree_on(a, b, k),
    ensures
        a == b,
{
    assert(agree_on(a, b, MessageKind::Battery));
    assert(agree_on(a, b, MessageKind::Tires));
    assert(agree_on(a, b, MessageKind::Exterior));
    assert(agree_on(a, b, MessageKind::CurrentLocation));
    assert(agree_on(a, b, MessageKind::Speed));
    assert(agree_on(a, b, MessageKind::TripData));
    assert(agree_on(a, b, MessageKind::LockState));
}

/// The part of kind `k` after a sequence is what the messages of kind `k`
/// alone make of it.
proof fn lemma_part_follows_own_kind(v: VehicleView, ms: Seq<TelemetryMessage>, k: MessageKind)
    ensures
        agree_on(apply_all(v, ms), apply_all(v, of_kind(ms, k)), k),
    decreases ms.len(),
{
    if ms.len() > 0 {
        let prefix = ms.drop_last();
        let m = ms.last();
        lemma_part_follows_own_kind(v, prefix, k);
        if m.kind() == k {
            let own = of_kind(prefix, k);
            assert(of_kind(ms, k).drop_last() =~= own);
            lemma_own_kind_depends_on_own_part(apply_all(v, prefix), apply_all(v, own), m);
        } else {
            lemma_other_kinds_untouched(apply_all(v, prefix), m, k);
        }
    }
}

/// Merge locality: two interleavings of the same per-kind message streams
/// give the same tree. Only the order within each kind matters.
pub proof fn lemma_interleaving_irrelevant(
    v: VehicleView,
    s1: Seq<TelemetryMessage>,
    s2: Seq<TelemetryMessage>,
)
    requires
        forall|k: MessageKind| #[trigger] of_kind(s1, k) == of_kind(s2, k),
    ensures
        apply_all(v, s1) == apply_all(v, s2),
{
    assert forall|k: MessageKind| agree_on(apply_all(v, s1), apply_all(v, s2), k) by {
        lemma_part_follows_own_kind(v, s1, k);
        lemma_part_follows_own_kind(v, s2, k);
        assert(of_kind(s1, k) == of_kind(s2, k));
    }
    lemma_parts_cover_tree(apply_all(v, s1), apply_all(v, s2));
}

/// Merge locality for two messages: messages of different kinds commute.
pub proof fn lemma_different_kinds_commute(v: VehicleView, a: TelemetryMessage, b: TelemetryMessage)
    requires
        a.kind() != b.kind(),
    ensures
        b.merged_into(a.merged_into(v)) == a.merged_into(b.merged_into(v)),
{
    let x = b.merged_into(a.merged_into(v));
    let y = a.merged_into(b.merged_into(v));
    assert forall|k: MessageKind| agree_on(x, y, k) by {
        if k == a.kind() {
            lemma_other_kinds_untouched(a.merged_into(v), b, k);
            lemma_other_kinds_untouched(v, b, k);
            lemma_own_kind_depends_on_own_part(b.merged_into(v), v, a);
        } else if k == b.kind() {
            lemma_other_kinds_untouched(b.merged_into(v), a, k);
            lemma_other_kinds_untouched(v, a, k);
            lemma_own_kind_depends_on_own_part(a.merged_into(v), v, b);
        } else {
            lemma_other_kinds_untouched(a.merged_into(v), b, k);
            lemma_other_kinds_untouched(v, a, k);
            lemma_other_kinds_untouched(b.merged_into(v), a, k);
            lemma_other_kinds_untouched(v, b, k);
        }
    }
    lemma_parts_cover_tree(x, y);
}

/// Battery data overwrites: the second of two battery messages decides the
/// tree, and the same message applied twice gives what it gives once.
pub proof fn lemma_battery_overwrites(v: VehicleView, a: BatteryData, b: BatteryData)
    ensures
        b.merged_into(a.merged_into(v)) == b.merged_into(v),
        a.merged_into(a.merged_into(v)) == a.merged_into(v),
{
}

/// Whether a message writes every value of its kind's part. Only a tire
/// message that lacks one of its two readings leaves something as it was.
pub open spec fn writes_whole_part(m: TelemetryMessage) -> bool {
    match m {
        TelemetryMessage::Tires(t) => t.front_tire is Some && t.rear_tire is Some,
        _ => true,
    }
}

/// Last write wins within a kind: after a message that writes its whole
/// part, an earlier message of the same kind leaves no trace.
pub proof fn lemma_last_write_wins(v: VehicleView, a: TelemetryMessage, b: TelemetryMessage)
    requires
        a.kind() == b.kind(),
        writes_whole_part(b),
    ensures
        b.merged_into(a.merged_into(v)) == b.merged_into(v),
{
}

/// A tire message with both readings makes the tire branches complete,
/// holding exactly those readings, whatever was known before.
pub proof fn lemma_tires_message_completes(v: VehicleView, t: Tires)
    requires
        t.front_tire is Some,
        t.rear_tire is Some,
    ensures
        tires_observed(t.merged_into(v)),
        row_tire(axle_of(t.merged_into(v))->0.row1) == Some(tire_from(t.front_tire->0)),
        row_tire(axle_of(t.merged_into(v))->0.row2) == Some(tire_from(t.rear_tire->0)),
{
}

} // verus!
