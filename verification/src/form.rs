//! A form combining two segmented values behind one submit control.
//!
//! A `CompositeForm` owns two `SegmentedValue`s (a rotation form pairs a
//! right ascension with a declination, a position form a longitude with a
//! latitude). Each update cycle first updates both children, then recomputes
//! the second-level aggregate validity, drives the submit control's enabled
//! flag and label from it, and, if a submit was requested, clears the
//! request and emits one composite event carrying both resolved triples —
//! only while everything is valid; an invalid submit is silently dropped.
//! The spec function `form_step` is that transition; `update` is proved to
//! realise it.

use vstd::prelude::*;

use crate::data::Angle;
use crate::events::AngleEvent;
use crate::events::UserEvent;
use crate::segment::AngleKind;
use crate::segment::FirstUnit;
use crate::segment::SegmentModel;
use crate::segment::SegmentedValue;
use crate::segment::lemma_update_idempotent;
use crate::segment::segment_new;
use crate::segment::segment_step;

verus! {

/// What a form submits: a telescope rotation or a telescope position.
#[derive(Copy, Clone, Debug, PartialEq, Eq, Structural)]
pub enum FormKind {
    Rotation,
    Position,
}

/// The kind of a form's first segmented value: the right ascension of a
/// rotation (in hours), the longitude of a position.
pub open spec fn first_kind(k: FormKind) -> AngleKind {
    match k {
        FormKind::Rotation => AngleKind::Ascension,
        FormKind::Position => AngleKind::Longitude,
    }
}

/// The unit of a form's first segmented value.
pub open spec fn first_unit(k: FormKind) -> FirstUnit {
    match k {
        FormKind::Rotation => FirstUnit::Hour,
        FormKind::Position => FirstUnit::Degree,
    }
}

/// The kind of a form's second segmented value: the declination of a
/// rotation, the latitude of a position; both in degrees.
pub open spec fn second_kind(k: FormKind) -> AngleKind {
    match k {
        FormKind::Rotation => AngleKind::Declination,
        FormKind::Position => AngleKind::Latitude,
    }
}

/// The submit control's label while the form is valid.
pub open spec fn valid_label(k: FormKind) -> Seq<char> {
    match k {
        FormKind::Rotation => "Tourner le t\u{e9}l\u{e9}scope"@,
        FormKind::Position => "Valider la position du t\u{e9}l\u{e9}scope"@,
    }
}

/// The submit control's label while the form is invalid.
pub open spec fn invalid_label(k: FormKind) -> Seq<char> {
    match k {
        FormKind::Rotation => "Angles de rotation invalides"@,
        FormKind::Position => "Coordonn\u{e9}es invalides"@,
    }
}

/// The composite event a form emits on a valid submit: both resolved
/// triples, tagged by what the form is for.
pub open spec fn composite_event(k: FormKind, first: Angle, second: Angle) -> UserEvent {
    match k {
        FormKind::Rotation => UserEvent::Rotate(first, second),
        FormKind::Position => UserEvent::UpdatePos(first, second),
    }
}

fn composite_event_for(k: FormKind, first: Angle, second: Angle) -> (e: UserEvent)
    ensures
        e == composite_event(k, first, second),
{
    match k {
        FormKind::Rotation => UserEvent::Rotate(first, second),
        FormKind::Position => UserEvent::UpdatePos(first, second),
    }
}

/// The submit control's label for a validity state.
pub fn submit_label_text(k: FormKind, valid: bool) -> (r: String)
    ensures
        r@ == if valid {
            valid_label(k)
        } else {
            invalid_label(k)
        },
{
    match k {
        FormKind::Rotation => {
            if valid {
                String::from_str("Tourner le t\u{e9}l\u{e9}scope")
            } else {
                String::from_str("Angles de rotation invalides")
            }
        },
        FormKind::Position => {
            if valid {
                String::from_str("Valider la position du t\u{e9}l\u{e9}scope")
            } else {
                String::from_str("Coordonn\u{e9}es invalides")
            }
        },
    }
}

/// The mathematical state of a composite form.
#[verifier::ext_equal]
pub struct FormModel {
    pub kind: FormKind,
    pub first: SegmentModel,
    pub second: SegmentModel,
    pub aggregate_valid: bool,
    pub submit_requested: bool,
    pub submit_enabled: bool,
    pub submit_label: Seq<char>,
}

impl FormModel {
    /// Well-formedness: both segmented values are well-formed and configured
    /// as the form kind demands.
    pub open spec fn inv(self) -> bool {
        &&& self.first.inv()
        &&& self.second.inv()
        &&& self.first.kind == first_kind(self.kind)
        &&& self.first.first_unit == first_unit(self.kind)
        &&& self.second.kind == second_kind(self.kind)
        &&& self.second.first_unit == FirstUnit::Degree
    }

    /// No cell of either segmented value has a pending request or carry.
    pub open spec fn quiescent(self) -> bool {
        &&& self.first.quiescent()
        &&& self.second.quiescent()
    }
}

/// What one update cycle hands back: each child's event, if it emitted one,
/// and the composite event of a valid submit.
pub struct FormUpdate {
    pub first_event: Option<AngleEvent>,
    pub second_event: Option<AngleEvent>,
    pub submitted: Option<UserEvent>,
}

/// The freshly constructed form: both segmented values at zero and valid,
/// submit enabled under the valid-state label, nothing requested.
pub open spec fn form_new(k: FormKind) -> FormModel {
    FormModel {
        kind: k,
        first: segment_new(first_kind(k), first_unit(k)),
        second: segment_new(second_kind(k), FirstUnit::Degree),
        aggregate_valid: true,
        submit_requested: false,
        submit_enabled: true,
        submit_label: valid_label(k),
    }
}

/// One update cycle: both children run their own cycle first, then the
/// aggregate validity is their conjunction, the submit control follows it,
/// and a pending submit is consumed — emitting the composite event exactly
/// when everything is valid.
pub open spec fn form_step(m: FormModel) -> (FormModel, FormUpdate) {
    let first_stepped = segment_step(m.first);
    let second_stepped = segment_step(m.second);
    let valid = first_stepped.0.aggregate_valid && second_stepped.0.aggregate_valid;
    (
        FormModel {
            first: first_stepped.0,
            second: second_stepped.0,
            aggregate_valid: valid,
            submit_requested: false,
            submit_enabled: valid,
            submit_label: if valid {
                valid_label(m.kind)
            } else {
                invalid_label(m.kind)
            },
            ..m
        },
        FormUpdate {
            first_event: first_stepped.1,
            second_event: second_stepped.1,
            submitted: if m.submit_requested && valid {
                Some(composite_event(m.kind, first_stepped.0.resolved, second_stepped.0.resolved))
            } else {
                None
            },
        },
    )
}

/// Two segmented values gated by one submit control.
pub struct CompositeForm {
    pub kind: FormKind,
    pub first: SegmentedValue,
    pub second: SegmentedValue,
    pub aggregate_valid: bool,
    pub submit_requested: bool,
    pub submit_enabled: bool,
    pub submit_label: String,
}

impl View for CompositeForm {
    type V = FormModel;

    open spec fn view(&self) -> FormModel {
        FormModel {
            kind: self.kind,
            first: self.first@,
            second: self.second@,
            aggregate_valid: self.aggregate_valid,
            submit_requested: self.submit_requested,
            submit_enabled: self.submit_enabled,
            submit_label: self.submit_label@,
        }
    }
}

impl CompositeForm {
    /// A fresh form of the given kind, both segmented values at zero.
    pub fn new(kind: FormKind) -> (r: Self)
        ensures
            r@ == form_new(kind),
            r@.inv(),
            r@.quiescent(),
    {
        let (fk, fu, sk) = match kind {
            FormKind::Rotation => (AngleKind::Ascension, FirstUnit::Hour, AngleKind::Declination),
            FormKind::Position => (AngleKind::Longitude, FirstUnit::Degree, AngleKind::Latitude),
        };
        CompositeForm {
            kind: kind,
            first: SegmentedValue::new(fk, fu),
            second: SegmentedValue::new(sk, FirstUnit::Degree),
            aggregate_valid: true,
            submit_requested: false,
            submit_enabled: true,
            submit_label: submit_label_text(kind, true),
        }
    }

    /// Posts a submit request, consumed by the next update cycle.
    pub fn request_submit(&mut self)
        requires
            old(self)@.inv(),
        ensures
            final(self)@ == (FormModel { submit_requested: true, ..old(self)@ }),
            final(self)@.inv(),
    {
        self.submit_requested = true;
    }

    /// Runs one update cycle, exactly `form_step`, and returns whatever it
    /// emitted.
    pub fn update(&mut self) -> (r: FormUpdate)
        requires
            old(self)@.inv(),
        ensures
            final(self)@ == form_step(old(self)@).0,
            r == form_step(old(self)@).1,
            final(self)@.inv(),
    {
        let first_event = self.first.update();
        let second_event = self.second.update();
        self.aggregate_valid = self.first.aggregate_valid && self.second.aggregate_valid;
        self.submit_enabled = self.aggregate_valid;
        self.submit_label = submit_label_text(self.kind, self.aggregate_valid);
        let submitted = if self.submit_requested && self.aggregate_valid {
            Some(composite_event_for(self.kind, self.first.resolved, self.second.resolved))
        } else {
            None
        };
        self.submit_requested = false;
        FormUpdate { first_event: first_event, second_event: second_event, submitted: submitted }
    }
}

/// Submit gating: a consumed submit emits the one composite event carrying
/// both resolved triples exactly when both segmented values are valid, and
/// is dropped without any event otherwise; the request is cleared either
/// way.
pub proof fn lemma_submit_gating(m: FormModel)
    requires
        m.inv(),
        m.submit_requested,
    ensures
        !form_step(m).0.submit_requested,
        form_step(m).0.aggregate_valid ==> form_step(m).1.submitted == Some(
            composite_event(m.kind, form_step(m).0.first.resolved, form_step(m).0.second.resolved),
        ),
        !form_step(m).0.aggregate_valid ==> form_step(m).1.submitted is None,
{
}

/// A submit is consumed by one cycle: whatever the first cycle emitted, a
/// second cycle without a new request submits nothing.
pub proof fn lemma_submit_consumed(m: FormModel)
    requires
        m.inv(),
    ensures
        form_step(form_step(m).0).1.submitted is None,
{
}

/// The form's whole cycle is edge-triggered too: on a quiescent form with no
/// pending submit, running further cycles changes nothing and emits nothing.
pub proof fn lemma_form_idempotent(m: FormModel)
    requires
        m.inv(),
        m.quiescent(),
        !m.submit_requested,
    ensures
        form_step(m).0.quiescent(),
        form_step(form_step(m).0).0 == form_step(m).0,
        form_step(form_step(m).0).1.first_event is None,
        form_step(form_step(m).0).1.second_event is None,
        form_step(form_step(m).0).1.submitted is None,
{
    lemma_update_idempotent(m.first);
    lemma_update_idempotent(m.second);
    assert(form_step(form_step(m).0).0 =~= form_step(m).0);
}

/// The submit control follows the aggregate validity: enabled exactly while
/// both segmented values are valid, under the matching one of the two fixed
/// labels.
pub proof fn lemma_submit_control(m: FormModel)
    requires
        m.inv(),
    ensures
        form_step(m).0.submit_enabled == form_step(m).0.aggregate_valid,
        form_step(m).0.aggregate_valid == (segment_step(m.first).0.aggregate_valid
            && segment_step(m.second).0.aggregate_valid),
        form_step(m).0.submit_label == if form_step(m).0.aggregate_valid {
            valid_label(m.kind)
        } else {
            invalid_label(m.kind)
        },
{
}

} // verus!
