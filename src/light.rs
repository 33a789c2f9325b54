//! One light's target state and the bounded moves of a fade.
use vstd::prelude::*;

verus! {

/// The bounds that a device gives for its brightness and its color
/// temperature.
#[derive(Clone, Copy, Debug, PartialEq, Eq, Structural)]
pub struct LightRange {
    pub bri_min: u16,
    pub bri_max: u16,
    pub ct_min: u16,
    pub ct_max: u16,
}

impl LightRange {
    /// Each lower bound is at most its upper bound.
    pub open spec fn wf(self) -> bool {
        self.bri_min <= self.bri_max && self.ct_min <= self.ct_max
    }

    /// The range with these bounds, or `None` where a lower bound exceeds its
    /// upper bound.
    pub fn new(bri_min: u16, bri_max: u16, ct_min: u16, ct_max: u16) -> (r: Option<LightRange>)
        ensures
            r == (if bri_min <= bri_max && ct_min <= ct_max {
                Some(LightRange { bri_min, bri_max, ct_min, ct_max })
            } else {
                None::<LightRange>
            }),
    {
        if bri_min <= bri_max && ct_min <= ct_max {
            Some(LightRange { bri_min, bri_max, ct_min, ct_max })
        } else {
            None
        }
    }
}

/// The state that is sent to one light.
#[derive(Clone, Copy, Debug, PartialEq, Eq, Structural)]
pub struct LightState {
    pub on: bool,
    pub brightness: u16,
    pub color_temperature: u16,
}

/// A light during a fade: its bounds and its current target state.
#[derive(Clone, Copy, Debug, PartialEq, Eq, Structural)]
pub struct Light {
    pub range: LightRange,
    pub state: LightState,
}

/// `v + step`, held at `max`.
pub open spec fn raised(v: u16, step: u16, max: u16) -> u16 {
    if v as int + step as int >= max as int {
        max
    } else {
        (v + step) as u16
    }
}

/// `v - step`, held at `min`.
pub open spec fn lowered(v: u16, step: u16, min: u16) -> u16 {
    if v as int - step as int <= min as int {
        min
    } else {
        (v - step) as u16
    }
}

impl Light {
    /// The state lies within the bounds.
    pub open spec fn wf(self) -> bool {
        &&& self.range.wf()
        &&& self.range.bri_min <= self.state.brightness <= self.range.bri_max
        &&& self.range.ct_min <= self.state.color_temperature <= self.range.ct_max
    }

    /// The state from which a fade starts: switched on, dimmest and warmest.
    pub open spec fn baseline_of(range: LightRange) -> Light {
        Light {
            range,
            state: LightState {
                on: true,
                brightness: range.bri_min,
                color_temperature: range.ct_max,
            },
        }
    }

    /// One step of a fade: brightness up by `bri_step` and color temperature
    /// down by `ct_step`, each held at its bound.
    pub open spec fn advanced(self, bri_step: u16, ct_step: u16) -> Light {
        Light {
            range: self.range,
            state: LightState {
                on: self.state.on,
                brightness: raised(self.state.brightness, bri_step, self.range.bri_max),
                color_temperature: lowered(
                    self.state.color_temperature,
                    ct_step,
                    self.range.ct_min,
                ),
            },
        }
    }

    /// A light of `range` at the start of a fade.
    pub fn baseline(range: LightRange) -> (r: Light)
        requires
            range.wf(),
        ensures
            r == Light::baseline_of(range),
            r.wf(),
    {
        Light {
            range,
            state: LightState { on: true, brightness: range.bri_min, color_temperature: range.ct_max },
        }
    }

    /// Moves the light one step along the fade.
    pub fn advance(&mut self, bri_step: u16, ct_step: u16)
        requires
            old(self).wf(),
        ensures
            *final(self) == old(self).advanced(bri_step, ct_step),
            final(self).wf(),
            old(self).state.brightness <= final(self).state.brightness,
            final(self).state.color_temperature <= old(self).state.color_temperature,
    {
        let bri = self.state.brightness;
        let max = self.range.bri_max;
        self.state.brightness = if bri as u32 + bri_step as u32 >= max as u32 {
            max
        } else {
            bri + bri_step
        };
        let ct = self.state.color_temperature;
        let min = self.range.ct_min;
        self.state.color_temperature = if ct as i32 - ct_step as i32 <= min as i32 {
            min
        } else {
            ct - ct_step
        };
    }
}

/// However many steps of whatever size a light takes, its brightness never
/// falls, its color temperature never rises, and both stay within bounds.
pub proof fn lemma_step_monotonic_bounded(l: Light, bri_step: u16, ct_step: u16)
    requires
        l.wf(),
    ensures
        l.advanced(bri_step, ct_step).wf(),
        l.state.brightness <= l.advanced(bri_step, ct_step).state.brightness,
        l.advanced(bri_step, ct_step).state.color_temperature <= l.state.color_temperature,
        l.advanced(bri_step, ct_step).range == l.range,
{
}

/// A light of `range` after `k` steps of sizes `db` and `dc` from its
/// baseline: brightness `min(bri_max, bri_min + k * db)` and color
/// temperature `max(ct_min, ct_max - k * dc)`.
pub open spec fn level_after(range: LightRange, db: u16, dc: u16, k: nat) -> Light {
    Light {
        range,
        state: LightState {
            on: true,
            brightness: if range.bri_min + k * db >= range.bri_max {
                range.bri_max
            } else {
                (range.bri_min + k * db) as u16
            },
            color_temperature: if range.ct_max - k * dc <= range.ct_min {
                range.ct_min
            } else {
                (range.ct_max - k * dc) as u16
            },
        },
    }
}

/// The baseline is the level after no step, every level lies within bounds,
/// and one more step from the level after `k` steps gives the level after
/// `k + 1`.
pub proof fn lemma_level_after_step(range: LightRange, db: u16, dc: u16, k: nat)
    requires
        range.wf(),
    ensures
        level_after(range, db, dc, 0) == Light::baseline_of(range),
        level_after(range, db, dc, k).wf(),
        level_after(range, db, dc, k).advanced(db, dc) == level_after(range, db, dc, k + 1),
{
    assert((k + 1) * db == k * db + db) by (nonlinear_arith);
    assert((k + 1) * dc == k * dc + dc) by (nonlinear_arith);
    assert(k * db >= 0) by (nonlinear_arith);
    assert(k * dc >= 0) by (nonlinear_arith);
    assert(0 * db == 0 && 0 * dc == 0) by (nonlinear_arith);
}

} // verus!
