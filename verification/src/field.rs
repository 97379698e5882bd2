//! One bounded integer cell of a segmented editor.
//!
//! A `BoundedField` holds a numeric value inside a configured half-open
//! range, the free text a user last typed, a validity flag that is true
//! exactly when that text parses as an `i32`, and edge-triggered flags for
//! step requests and for the overflow/underflow carries they produce. The
//! spec functions `field_set_text`, `field_step_to` and `field_apply` are the
//! mathematical transitions; every executable method is proved to realise
//! one of them.

use vstd::prelude::*;

use crate::numeral::int_text;
use crate::numeral::int_to_text;
use crate::numeral::lemma_int_text_parses;
use crate::numeral::parse_i32;
use crate::numeral::parse_int_text;

verus! {

/// The mathematical state of a bounded cell.
#[verifier::ext_equal]
pub struct FieldModel {
    pub value: int,
    pub min_value: int,
    pub max_value: int,
    pub text: Seq<char>,
    pub valid: bool,
    pub overflow_pending: bool,
    pub underflow_pending: bool,
    pub increment_requested: bool,
    pub decrement_requested: bool,
}

impl FieldModel {
    /// Well-formedness: the range is nonempty and either starts at zero or
    /// is symmetric around it (one fewer on the negative side), the value
    /// lies in the range, and the validity flag tracks exactly whether the
    /// text parses.
    pub open spec fn inv(self) -> bool {
        &&& 1 <= self.max_value <= i32::MAX
        &&& (self.min_value == 0 || self.min_value == -(self.max_value - 1))
        &&& self.min_value <= self.value < self.max_value
        &&& (self.valid <==> parse_i32(self.text) is Some)
    }

    /// No step request and no carry is pending.
    pub open spec fn quiescent(self) -> bool {
        &&& !self.overflow_pending
        &&& !self.underflow_pending
        &&& !self.increment_requested
        &&& !self.decrement_requested
    }
}

/// `v` forced into `[lo, hi]`.
pub open spec fn clamp(v: int, lo: int, hi: int) -> int {
    if v < lo {
        lo
    } else if v > hi {
        hi
    } else {
        v
    }
}

/// The freshly constructed cell: value zero, text `"0"`, valid, no flags.
pub open spec fn field_new(allow_negative: bool, max_value: int) -> FieldModel {
    FieldModel {
        value: 0,
        min_value: if allow_negative {
            -(max_value - 1)
        } else {
            0
        },
        max_value: max_value,
        text: int_text(0),
        valid: true,
        overflow_pending: false,
        underflow_pending: false,
        increment_requested: false,
        decrement_requested: false,
    }
}

/// What entering `t` does: on a parse the value is the parsed integer
/// clamped into the range and the cell is valid; otherwise the cell is
/// invalid and keeps its last value. The displayed text becomes `t` either
/// way and no other state is touched.
pub open spec fn field_set_text(f: FieldModel, t: Seq<char>) -> FieldModel {
    match parse_i32(t) {
        Some(v) => FieldModel {
            text: t,
            valid: true,
            value: clamp(v as int, f.min_value, f.max_value - 1),
            ..f
        },
        None => FieldModel { text: t, valid: false, ..f },
    }
}

/// Moving to `candidate`: below the range wraps to the top and raises the
/// underflow carry, at or above the exclusive bound wraps to the bottom and
/// raises the overflow carry, otherwise the value is just `candidate`.
pub open spec fn field_step_to(f: FieldModel, candidate: int) -> FieldModel {
    if candidate < f.min_value {
        FieldModel { underflow_pending: true, value: f.max_value - 1, ..f }
    } else if candidate >= f.max_value {
        FieldModel { overflow_pending: true, value: f.min_value, ..f }
    } else {
        FieldModel { value: candidate, ..f }
    }
}

/// One per-cycle adjustment pass: while valid, consume a pending increment
/// then a pending decrement, each through `field_step_to`, and refresh the
/// text from the value; while invalid, do nothing (requests stay pending).
pub open spec fn field_apply(f: FieldModel) -> FieldModel {
    if !f.valid {
        f
    } else {
        let f1 = if f.increment_requested {
            FieldModel { increment_requested: false, ..field_step_to(f, f.value + 1) }
        } else {
            f
        };
        let f2 = if f1.decrement_requested {
            FieldModel { decrement_requested: false, ..field_step_to(f1, f1.value - 1) }
        } else {
            f1
        };
        FieldModel { text: int_text(f2.value), ..f2 }
    }
}

/// One editable cell bounded to a half-open integer range.
pub struct BoundedField {
    pub value: i32,
    pub min_value: i32,
    pub max_value: i32,
    pub text: String,
    pub valid: bool,
    pub overflow_pending: bool,
    pub underflow_pending: bool,
    pub increment_requested: bool,
    pub decrement_requested: bool,
}

impl View for BoundedField {
    type V = FieldModel;

    open spec fn view(&self) -> FieldModel {
        FieldModel {
            value: self.value as int,
            min_value: self.min_value as int,
            max_value: self.max_value as int,
            text: self.text@,
            valid: self.valid,
            overflow_pending: self.overflow_pending,
            underflow_pending: self.underflow_pending,
            increment_requested: self.increment_requested,
            decrement_requested: self.decrement_requested,
        }
    }
}

impl BoundedField {
    /// A fresh cell over `[0, max_value)`, or over `[-(max_value-1),
    /// max_value)` when negative values are allowed, holding zero.
    pub fn new(allow_negative: bool, max_value: i32) -> (r: Self)
        requires
            max_value >= 1,
        ensures
            r@ == field_new(allow_negative, max_value as int),
            r@.inv(),
            r@.quiescent(),
    {
        proof {
            lemma_int_text_parses(0);
        }
        BoundedField {
            value: 0,
            min_value: if allow_negative {
                0i32 - (max_value - 1)
            } else {
                0
            },
            max_value: max_value,
            text: int_to_text(0),
            valid: true,
            overflow_pending: false,
            underflow_pending: false,
            increment_requested: false,
            decrement_requested: false,
        }
    }

    /// Accepts the text a user typed, as `field_set_text` says: validity
    /// becomes whether it parses, and on a parse the value follows it.
    pub fn set_text(&mut self, new_text: String)
        requires
            old(self)@.inv(),
        ensures
            final(self)@ == field_set_text(old(self)@, new_text@),
            final(self)@.inv(),
    {
        match parse_int_text(new_text.as_str()) {
            Some(v) => {
                self.valid = true;
                self.value = if v < self.min_value {
                    self.min_value
                } else if v > self.max_value - 1 {
                    self.max_value - 1
                } else {
                    v
                };
            },
            None => {
                self.valid = false;
            },
        }
        self.text = new_text;
    }

    /// Posts an increment request, consumed by the next adjustment pass.
    pub fn request_increment(&mut self)
        requires
            old(self)@.inv(),
        ensures
            final(self)@ == (FieldModel { increment_requested: true, ..old(self)@ }),
            final(self)@.inv(),
    {
        self.increment_requested = true;
    }

    /// Posts a decrement request, consumed by the next adjustment pass.
    pub fn request_decrement(&mut self)
        requires
            old(self)@.inv(),
        ensures
            final(self)@ == (FieldModel { decrement_requested: true, ..old(self)@ }),
            final(self)@.inv(),
    {
        self.decrement_requested = true;
    }

    /// Runs one adjustment pass, exactly `field_apply`: pending steps are
    /// applied with wrap-around and carry flags while the cell is valid, and
    /// the text is refreshed from the value.
    pub fn apply_pending_adjustments(&mut self)
        requires
            old(self)@.inv(),
        ensures
            final(self)@ == field_apply(old(self)@),
            final(self)@.inv(),
    {
        if !self.valid {
            return ;
        }
        if self.increment_requested {
            self.step_to(self.value + 1);
            self.increment_requested = false;
        }
        if self.decrement_requested {
            self.step_to(self.value - 1);
            self.decrement_requested = false;
        }
        proof {
            lemma_int_text_parses(self.value);
        }
        self.text = int_to_text(self.value);
    }

    /// Moves the value to `candidate`, wrapping at the bounds and raising
    /// the matching carry flag, as `field_step_to` says.
    fn step_to(&mut self, candidate: i32)
        requires
            old(self)@.inv(),
            old(self)@.value - 1 <= candidate as int <= old(self)@.value + 1,
        ensures
            final(self)@ == field_step_to(old(self)@, candidate as int),
            final(self)@.inv(),
    {
        if candidate < self.min_value {
            self.underflow_pending = true;
            self.value = self.max_value - 1;
        } else if candidate >= self.max_value {
            self.overflow_pending = true;
            self.value = self.min_value;
        } else {
            self.value = candidate;
        }
    }
}

/// For every integer-parsable text whose value lies within the cell's
/// bounds, entering it validates the cell and stores exactly the parsed
/// value.
pub proof fn lemma_set_text_parsable_in_range(f: FieldModel, t: Seq<char>, v: i32)
    requires
        f.inv(),
        parse_i32(t) == Some(v),
        f.min_value <= v as int && (v as int) < f.max_value,
    ensures
        field_set_text(f, t).valid,
        field_set_text(f, t).value == v as int,
{
}

/// For every non-integer text, entering it invalidates the cell and leaves
/// the value unchanged.
pub proof fn lemma_set_text_unparsable(f: FieldModel, t: Seq<char>)
    requires
        f.inv(),
        parse_i32(t) is None,
    ensures
        !field_set_text(f, t).valid,
        field_set_text(f, t).value == f.value,
{
}

/// On a quiescent cell an adjustment pass at most rewrites the text to the
/// canonical form of the value; a second pass then changes nothing at all.
pub proof fn lemma_apply_quiescent(f: FieldModel)
    requires
        f.inv(),
        f.quiescent(),
    ensures
        field_apply(f).quiescent(),
        field_apply(f).inv(),
        field_apply(f).value == f.value,
        field_apply(f).valid == f.valid,
        field_apply(field_apply(f)) == field_apply(f),
{
    if f.valid {
        lemma_int_text_parses(f.value as i32);
        assert(field_apply(f) =~= (FieldModel { text: int_text(f.value), ..f }));
        assert(field_apply(field_apply(f)) =~= field_apply(f));
    }
}

/// Stepping up from the topmost value wraps to the bottom of the range and
/// raises the overflow carry.
pub proof fn lemma_increment_at_top_wraps(f: FieldModel)
    requires
        f.inv(),
        f.valid,
        f.value == f.max_value - 1,
        f.increment_requested,
        !f.decrement_requested,
    ensures
        field_apply(f).value == f.min_value,
        field_apply(f).overflow_pending,
{
}

/// Stepping down from the bottom value wraps to the top of the range and
/// raises the underflow carry.
pub proof fn lemma_decrement_at_bottom_wraps(f: FieldModel)
    requires
        f.inv(),
        f.valid,
        f.value == f.min_value,
        f.decrement_requested,
        !f.increment_requested,
    ensures
        field_apply(f).value == f.max_value - 1,
        field_apply(f).underflow_pending,
{
}

} // verus!
