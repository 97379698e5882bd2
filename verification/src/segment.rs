//! A segmented sexagesimal value: three bounded cells with carries.
//!
//! A `SegmentedValue` owns a signed high cell (degrees or hours) and two
//! `[0, 60)` cells. Each update cycle applies every cell's own pending
//! adjustments first, then drains overflow/underflow carries into a step
//! request on the next-higher cell, recomputes the aggregate validity, and,
//! while valid, recomputes the resolved triple, emitting one event exactly
//! when that triple changed. Because a cell reads its requests at the start
//! of its own pass and carries are posted after all passes, a carry posted
//! in one cycle is applied only in the next: a full low-to-high ripple takes
//! three cycles. The spec function `segment_step` is that transition;
//! `update` is proved to realise it.

use vstd::prelude::*;

use crate::data::Angle;
use crate::events::AngleEvent;
use crate::field::BoundedField;
use crate::field::FieldModel;
use crate::field::field_apply;
use crate::field::field_new;
use crate::field::field_set_text;
use crate::field::lemma_apply_quiescent;

verus! {

/// The semantic meaning of a segmented value; it selects the emitted event
/// variant and never the arithmetic.
#[derive(Copy, Clone, Debug, PartialEq, Eq, Structural)]
pub enum AngleKind {
    Ascension,
    Declination,
    Longitude,
    Latitude,
    Generic,
}

/// The unit of the high segment, fixing its exclusive bound and its suffix.
#[derive(Copy, Clone, Debug, PartialEq, Eq, Structural)]
pub enum FirstUnit {
    Degree,
    Hour,
}

/// Which of the three cells an inbound edit or step addresses.
#[derive(Copy, Clone, Debug, PartialEq, Eq, Structural)]
pub enum FieldId {
    High,
    Mid,
    Low,
}

/// The exclusive bound of the high segment: 360 degrees or 24 hours.
pub open spec fn first_bound(u: FirstUnit) -> int {
    match u {
        FirstUnit::Degree => 360,
        FirstUnit::Hour => 24,
    }
}

/// The display suffix of the high segment.
pub open spec fn first_symbol_of(u: FirstUnit) -> Seq<char> {
    match u {
        FirstUnit::Degree => "\u{b0}"@,
        FirstUnit::Hour => "h"@,
    }
}

/// The exclusive bound of the high segment, 360 for degrees and 24 for
/// hours.
pub fn first_max_value(u: FirstUnit) -> (r: i32)
    ensures
        r == first_bound(u),
{
    match u {
        FirstUnit::Degree => 360,
        FirstUnit::Hour => 24,
    }
}

/// The display suffix of the high segment: a degree sign or an hour mark.
pub fn first_symbol(u: FirstUnit) -> (r: &'static str)
    ensures
        r@ == first_symbol_of(u),
{
    match u {
        FirstUnit::Degree => "\u{b0}",
        FirstUnit::Hour => "h",
    }
}

/// The event variant a kind tags its resolved triple with.
pub open spec fn event_for(kind: AngleKind, a: Angle) -> AngleEvent {
    match kind {
        AngleKind::Ascension => AngleEvent::Ascension(a),
        AngleKind::Declination => AngleEvent::Declination(a),
        AngleKind::Longitude => AngleEvent::Longitude(a),
        AngleKind::Latitude => AngleEvent::Latitude(a),
        AngleKind::Generic => AngleEvent::Generic(a),
    }
}

fn event_for_kind(kind: AngleKind, a: Angle) -> (e: AngleEvent)
    ensures
        e == event_for(kind, a),
{
    match kind {
        AngleKind::Ascension => AngleEvent::Ascension(a),
        AngleKind::Declination => AngleEvent::Declination(a),
        AngleKind::Longitude => AngleEvent::Longitude(a),
        AngleKind::Latitude => AngleEvent::Latitude(a),
        AngleKind::Generic => AngleEvent::Generic(a),
    }
}

/// A triple lies within a segmented value's ranges: the high segment within
/// the symmetric range under `bound`, the others within `[0, 60)`.
pub open spec fn angle_wf(a: Angle, bound: int) -> bool {
    &&& -(bound - 1) <= a.0 as int
    &&& (a.0 as int) < bound
    &&& a.1 < 60
    &&& a.2 < 60
}

/// The mathematical state of a segmented value.
#[verifier::ext_equal]
pub struct SegmentModel {
    pub kind: AngleKind,
    pub first_unit: FirstUnit,
    pub high: FieldModel,
    pub mid: FieldModel,
    pub low: FieldModel,
    pub aggregate_valid: bool,
    pub resolved: Angle,
}

impl SegmentModel {
    /// Well-formedness: every cell is well-formed, the high cell's range is
    /// the symmetric one under the unit's bound, the sub-cells' ranges are
    /// `[0, 60)`, and the resolved triple lies within those ranges.
    pub open spec fn inv(self) -> bool {
        &&& self.high.inv()
        &&& self.mid.inv()
        &&& self.low.inv()
        &&& self.high.max_value == first_bound(self.first_unit)
        &&& self.high.min_value == -(self.high.max_value - 1)
        &&& self.mid.min_value == 0 && self.mid.max_value == 60
        &&& self.low.min_value == 0 && self.low.max_value == 60
        &&& angle_wf(self.resolved, first_bound(self.first_unit))
    }

    /// No cell has a pending request or carry.
    pub open spec fn quiescent(self) -> bool {
        &&& self.high.quiescent()
        &&& self.mid.quiescent()
        &&& self.low.quiescent()
    }
}

/// Draining a child's carries into the parent: an underflow becomes a
/// decrement request, an overflow an increment request; each consumed flag
/// is cleared.
pub open spec fn carry_from(child: FieldModel, parent: FieldModel) -> (FieldModel, FieldModel) {
    let step1 = if child.underflow_pending {
        (
            FieldModel { underflow_pending: false, ..child },
            FieldModel { decrement_requested: true, ..parent },
        )
    } else {
        (child, parent)
    };
    if step1.0.overflow_pending {
        (
            FieldModel { overflow_pending: false, ..step1.0 },
            FieldModel { increment_requested: true, ..step1.1 },
        )
    } else {
        step1
    }
}

/// The freshly constructed segmented value: every cell at zero and valid,
/// resolved triple zero, no flags.
pub open spec fn segment_new(kind: AngleKind, first_unit: FirstUnit) -> SegmentModel {
    SegmentModel {
        kind: kind,
        first_unit: first_unit,
        high: field_new(true, first_bound(first_unit)),
        mid: field_new(false, 60),
        low: field_new(false, 60),
        aggregate_valid: true,
        resolved: Angle(0i16, 0u8, 0u8),
    }
}

/// One update cycle: every cell applies its own pending adjustments, then
/// the low cell's carries drain into the mid cell and the mid cell's into
/// the high cell, then aggregate validity is recomputed; while valid the
/// resolved triple is recomputed, and an event tagged by the kind is emitted
/// exactly when it changed.
pub open spec fn segment_step(s: SegmentModel) -> (SegmentModel, Option<AngleEvent>) {
    let high0 = field_apply(s.high);
    let mid0 = field_apply(s.mid);
    let low0 = field_apply(s.low);
    let low_mid = carry_from(low0, mid0);
    let mid_high = carry_from(low_mid.1, high0);
    let valid = mid_high.1.valid && mid_high.0.valid && low_mid.0.valid;
    if valid {
        let new_resolved = Angle(
            mid_high.1.value as i16,
            mid_high.0.value as u8,
            low_mid.0.value as u8,
        );
        (
            SegmentModel {
                high: mid_high.1,
                mid: mid_high.0,
                low: low_mid.0,
                aggregate_valid: valid,
                resolved: new_resolved,
                ..s
            },
            if new_resolved != s.resolved {
                Some(event_for(s.kind, new_resolved))
            } else {
                None
            },
        )
    } else {
        (
            SegmentModel {
                high: mid_high.1,
                mid: mid_high.0,
                low: low_mid.0,
                aggregate_valid: valid,
                ..s
            },
            None,
        )
    }
}

/// A trio of bounded cells forming one signed sexagesimal value.
pub struct SegmentedValue {
    pub kind: AngleKind,
    pub first_unit: FirstUnit,
    pub high: BoundedField,
    pub mid: BoundedField,
    pub low: BoundedField,
    pub aggregate_valid: bool,
    pub resolved: Angle,
}

impl View for SegmentedValue {
    type V = SegmentModel;

    open spec fn view(&self) -> SegmentModel {
        SegmentModel {
            kind: self.kind,
            first_unit: self.first_unit,
            high: self.high@,
            mid: self.mid@,
            low: self.low@,
            aggregate_valid: self.aggregate_valid,
            resolved: self.resolved,
        }
    }
}

impl SegmentedValue {
    /// A fresh segmented value of the given kind and unit, holding zero in
    /// every cell.
    pub fn new(kind: AngleKind, first_unit: FirstUnit) -> (r: Self)
        ensures
            r@ == segment_new(kind, first_unit),
            r@.inv(),
            r@.quiescent(),
    {
        SegmentedValue {
            kind: kind,
            first_unit: first_unit,
            high: BoundedField::new(true, first_max_value(first_unit)),
            mid: BoundedField::new(false, 60),
            low: BoundedField::new(false, 60),
            aggregate_valid: true,
            resolved: Angle(0, 0, 0),
        }
    }

    /// Hands a text edit to the addressed cell; only that cell changes, as
    /// `field_set_text` says.
    pub fn set_field_text(&mut self, id: FieldId, new_text: String)
        requires
            old(self)@.inv(),
        ensures
            final(self)@ == (match id {
                FieldId::High => SegmentModel {
                    high: field_set_text(old(self)@.high, new_text@),
                    ..old(self)@
                },
                FieldId::Mid => SegmentModel {
                    mid: field_set_text(old(self)@.mid, new_text@),
                    ..old(self)@
                },
                FieldId::Low => SegmentModel {
                    low: field_set_text(old(self)@.low, new_text@),
                    ..old(self)@
                },
            }),
            final(self)@.inv(),
    {
        match id {
            FieldId::High => self.high.set_text(new_text),
            FieldId::Mid => self.mid.set_text(new_text),
            FieldId::Low => self.low.set_text(new_text),
        }
    }

    /// Posts a step request on the addressed cell, upward or downward; only
    /// that request flag changes.
    pub fn request_step(&mut self, id: FieldId, upward: bool)
        requires
            old(self)@.inv(),
        ensures
            final(self)@ == (match id {
                FieldId::High => SegmentModel {
                    high: step_requested(old(self)@.high, upward),
                    ..old(self)@
                },
                FieldId::Mid => SegmentModel {
                    mid: step_requested(old(self)@.mid, upward),
                    ..old(self)@
                },
                FieldId::Low => SegmentModel {
                    low: step_requested(old(self)@.low, upward),
                    ..old(self)@
                },
            }),
            final(self)@.inv(),
    {
        match id {
            FieldId::High => {
                if upward {
                    self.high.request_increment();
                } else {
                    self.high.request_decrement();
                }
            },
            FieldId::Mid => {
                if upward {
                    self.mid.request_increment();
                } else {
                    self.mid.request_decrement();
                }
            },
            FieldId::Low => {
                if upward {
                    self.low.request_increment();
                } else {
                    self.low.request_decrement();
                }
            },
        }
    }

    /// Runs one update cycle, exactly `segment_step`, and returns the event
    /// it emits, if any.
    #[verifier::rlimit(60)]
    pub fn update(&mut self) -> (evt: Option<AngleEvent>)
        requires
            old(self)@.inv(),
        ensures
            final(self)@ == segment_step(old(self)@).0,
            evt == segment_step(old(self)@).1,
            final(self)@.inv(),
    {
        let ghost s0 = old(self)@;
        self.high.apply_pending_adjustments();
        self.mid.apply_pending_adjustments();
        self.low.apply_pending_adjustments();
        drain_carries(&mut self.low, &mut self.mid);
        drain_carries(&mut self.mid, &mut self.high);
        proof {
            let low_mid = carry_from(field_apply(s0.low), field_apply(s0.mid));
            let mid_high = carry_from(low_mid.1, field_apply(s0.high));
            assert(self.low@ == low_mid.0);
            assert(self.mid@ == mid_high.0);
            assert(self.high@ == mid_high.1);
        }
        self.aggregate_valid = self.high.valid && self.mid.valid && self.low.valid;
        if self.aggregate_valid {
            let new_resolved = Angle(
                self.high.value as i16,
                self.mid.value as u8,
                self.low.value as u8,
            );
            let changed = new_resolved != self.resolved;
            self.resolved = new_resolved;
            if changed {
                Some(event_for_kind(self.kind, new_resolved))
            } else {
                None
            }
        } else {
            None
        }
    }
}

/// Drains the child cell's overflow/underflow carries into step requests on
/// the parent cell, exactly as `carry_from` says.
fn drain_carries(child: &mut BoundedField, parent: &mut BoundedField)
    ensures
        final(child)@ == carry_from(old(child)@, old(parent)@).0,
        final(parent)@ == carry_from(old(child)@, old(parent)@).1,
        final(child)@.inv() == old(child)@.inv(),
        final(parent)@.inv() == old(parent)@.inv(),
{
    if child.underflow_pending {
        child.underflow_pending = false;
        parent.decrement_requested = true;
    }
    if child.overflow_pending {
        child.overflow_pending = false;
        parent.increment_requested = true;
    }
}

/// A request posted on a cell, upward or downward.
pub open spec fn step_requested(f: FieldModel, upward: bool) -> FieldModel {
    if upward {
        FieldModel { increment_requested: true, ..f }
    } else {
        FieldModel { decrement_requested: true, ..f }
    }
}

/// Aggregate validity is exactly the conjunction of the three cells'
/// validity; a single invalid cell invalidates the whole segmented value.
pub proof fn lemma_aggregate_validity(s: SegmentModel)
    requires
        s.inv(),
    ensures
        segment_step(s).0.aggregate_valid <==> (s.high.valid && s.mid.valid && s.low.valid),
{
}

/// Event emission is edge-triggered, not level-triggered: once a cycle has
/// run with no pending request or carry, running further cycles without new
/// input changes nothing and emits no event.
pub proof fn lemma_update_idempotent(s: SegmentModel)
    requires
        s.inv(),
        s.quiescent(),
    ensures
        segment_step(s).0.quiescent(),
        segment_step(segment_step(s).0).0 == segment_step(s).0,
        segment_step(segment_step(s).0).1 is None,
{
    lemma_apply_quiescent(s.high);
    lemma_apply_quiescent(s.mid);
    lemma_apply_quiescent(s.low);
    let s1 = segment_step(s).0;
    assert(s1.high == field_apply(s.high));
    assert(s1.mid == field_apply(s.mid));
    assert(s1.low == field_apply(s.low));
    lemma_apply_quiescent(s1.high);
    lemma_apply_quiescent(s1.mid);
    lemma_apply_quiescent(s1.low);
    assert(segment_step(s1).0 =~= s1);
}

} // verus!
