//! The tunable parameters and a snapshot of their values.

use vstd::prelude::*;
use crate::fixed::{in_limit, LIMIT, ONE};

verus! {

/// A parameter that the user can edit.
#[derive(Clone, Copy, Debug, PartialEq, Eq, Structural)]
pub enum Param {
    SensMult,
    Accel,
    Offset,
    OutputCap,
}

impl Param {
    /// The name shown above the parameter's input field.
    pub open spec fn display_name_spec(self) -> Seq<char> {
        match self {
            Param::SensMult => "Sens-Multiplier"@,
            Param::Accel => "Accel"@,
            Param::Offset => "Offset"@,
            Param::OutputCap => "Output-Cap"@,
        }
    }

    /// The name under which the kernel module knows the parameter.
    pub open spec fn kernel_name_spec(self) -> Seq<char> {
        match self {
            Param::SensMult => "SENS_MULT"@,
            Param::Accel => "ACCEL"@,
            Param::Offset => "OFFSET"@,
            Param::OutputCap => "OUTPUT_CAP"@,
        }
    }

    /// The name shown above the parameter's input field.
    pub fn display_name(&self) -> (name: &'static str)
        ensures
            name@ == self.display_name_spec(),
    {
        match self {
            Param::SensMult => "Sens-Multiplier",
            Param::Accel => "Accel",
            Param::Offset => "Offset",
            Param::OutputCap => "Output-Cap",
        }
    }

    /// The name under which the kernel module knows the parameter.
    pub fn kernel_name(&self) -> (name: &'static str)
        ensures
            name@ == self.kernel_name_spec(),
    {
        match self {
            Param::SensMult => "SENS_MULT",
            Param::Accel => "ACCEL",
            Param::Offset => "OFFSET",
            Param::OutputCap => "OUTPUT_CAP",
        }
    }
}

/// One snapshot of the parameter values, each a fixed-point raw value.
///
/// `output_cap` at or below zero means that the ramp has no cap; a cap in
/// `(0, 1]` switches acceleration off; a cap above one flattens the ramp at
/// `sens_mult * output_cap`.
#[derive(Clone, Copy, Debug, PartialEq, Eq, Structural)]
pub struct Params {
    /// Baseline output multiplier.
    pub sens_mult: i64,
    /// Slope of the ramp.
    pub accel: i64,
    /// Input magnitude at which the curve starts to rise.
    pub offset: i64,
    /// Output multiplier, relative to the baseline, at which the ramp flattens.
    pub output_cap: i64,
    /// Ratio by which the secondary channel scales the primary one.
    pub yx_ratio: i64,
    /// Decay rate of the natural curve.
    pub decay_rate: i64,
    /// Multiplier, relative to the baseline, that the natural curve approaches.
    pub limit: i64,
}

impl Params {
    /// The value of one editable parameter.
    pub open spec fn value(self, param: Param) -> i64 {
        match param {
            Param::SensMult => self.sens_mult,
            Param::Accel => self.accel,
            Param::Offset => self.offset,
            Param::OutputCap => self.output_cap,
        }
    }

    /// The snapshot with one editable parameter replaced.
    pub open spec fn with_value(self, param: Param, value: i64) -> Params {
        match param {
            Param::SensMult => Params { sens_mult: value, ..self },
            Param::Accel => Params { accel: value, ..self },
            Param::Offset => Params { offset: value, ..self },
            Param::OutputCap => Params { output_cap: value, ..self },
        }
    }

    /// Every value is within the magnitude that the arithmetic supports.
    pub open spec fn bounded(self) -> bool {
        &&& in_limit(self.sens_mult as int)
        &&& in_limit(self.accel as int)
        &&& in_limit(self.offset as int)
        &&& in_limit(self.output_cap as int)
        &&& in_limit(self.yx_ratio as int)
        &&& in_limit(self.decay_rate as int)
        &&& in_limit(self.limit as int)
    }

    /// The invariant of a snapshot: bounded values, a positive baseline and
    /// an offset that is not negative.
    pub open spec fn valid(self) -> bool {
        &&& self.bounded()
        &&& self.sens_mult > 0
        &&& self.offset >= 0
    }

    /// The cap asks for a ramp: there is none, or it lies above the baseline.
    pub open spec fn ramp_requested(self) -> bool {
        self.output_cap <= 0 || self.output_cap > ONE
    }

    /// The cap lies in `(0, 1]` and switches acceleration off.
    pub open spec fn degenerate_cap(self) -> bool {
        0 < self.output_cap <= ONE
    }

    /// Valid for the linear curve: a requested ramp has a slope other than zero.
    pub open spec fn valid_linear(self) -> bool {
        &&& self.valid()
        &&& (self.ramp_requested() ==> self.accel != 0)
    }

    /// The baseline snapshot: multiplier and ratio one, everything else zero.
    pub fn new() -> (params: Params)
        ensures
            params == (Params {
                sens_mult: ONE,
                accel: 0,
                offset: 0,
                output_cap: 0,
                yx_ratio: ONE,
                decay_rate: 0,
                limit: 0,
            }),
            params.valid(),
    {
        Params {
            sens_mult: ONE,
            accel: 0,
            offset: 0,
            output_cap: 0,
            yx_ratio: ONE,
            decay_rate: 0,
            limit: 0,
        }
    }

    /// Replaces one editable parameter and leaves the others as they were.
    pub fn set(&mut self, param: Param, value: i64)
        ensures
            *final(self) == old(self).with_value(param, value),
    {
        match param {
            Param::SensMult => { self.sens_mult = value; },
            Param::Accel => { self.accel = value; },
            Param::Offset => { self.offset = value; },
            Param::OutputCap => { self.output_cap = value; },
        }
    }

    /// Tests the snapshot's invariant.
    pub fn is_valid(&self) -> (ok: bool)
        ensures
            ok == self.valid(),
    {
        within_limit(self.sens_mult) && within_limit(self.accel) && within_limit(self.offset)
            && within_limit(self.output_cap) && within_limit(self.yx_ratio)
            && within_limit(self.decay_rate) && within_limit(self.limit) && self.sens_mult > 0
            && self.offset >= 0
    }

    /// Tests validity for the linear curve.
    pub fn is_valid_linear(&self) -> (ok: bool)
        ensures
            ok == self.valid_linear(),
    {
        self.is_valid() && ((0 < self.output_cap && self.output_cap <= ONE) || self.accel != 0)
    }
}

impl std::ops::Index<Param> for Params {
    type Output = i64;

    /// Reads one editable parameter.
    fn index(&self, param: Param) -> (value: &i64)
        ensures
            *value == self.value(param),
    {
        match param {
            Param::SensMult => &self.sens_mult,
            Param::Accel => &self.accel,
            Param::Offset => &self.offset,
            Param::OutputCap => &self.output_cap,
        }
    }
}

impl vstd::std_specs::core::IndexSpecImpl<Param> for Params {
    open spec fn index_req(&self, index: &Param) -> bool {
        true
    }
}

impl std::ops::IndexMut<Param> for Params {
    /// Gives one editable parameter to be replaced.
    fn index_mut(&mut self, param: Param) -> (value: &mut i64)
        ensures
            *value == old(self).value(param),
            *final(self) == old(self).with_value(param, *final(value)),
    {
        match param {
            Param::SensMult => &mut self.sens_mult,
            Param::Accel => &mut self.accel,
            Param::Offset => &mut self.offset,
            Param::OutputCap => &mut self.output_cap,
        }
    }
}

impl Default for Params {
    /// The baseline snapshot.
    fn default() -> (params: Params)
        ensures
            params == (Params {
                sens_mult: ONE,
                accel: 0,
                offset: 0,
                output_cap: 0,
                yx_ratio: ONE,
                decay_rate: 0,
                limit: 0,
            }),
    {
        Params::new()
    }
}

/// Tests that a raw value is within `[-LIMIT, LIMIT]`.
pub fn within_limit(v: i64) -> (ok: bool)
    ensures
        ok == in_limit(v as int),
{
    -LIMIT <= v && v <= LIMIT
}

} // verus!
