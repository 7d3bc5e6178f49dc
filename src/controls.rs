use vstd::prelude::*;

verus! {

/// Largest throttle setting, counted in steps of one twentieth (0.05).
pub const THROTTLE_STEPS_MAX: u32 = 20;

/// Angle of attack, in whole degrees, below which an "up" signal still raises it.
pub const ALPHA_MAX_DEG: i32 = 20;

/// Angle of attack, in whole degrees, above which a "down" signal still lowers it.
pub const ALPHA_MIN_DEG: i32 = -16;

/// Flap deflection: one of the three settings the aircraft offers.
#[derive(Clone, Copy, Debug, PartialEq, Eq, Structural)]
pub enum Flap {
    Retracted,
    Twenty,
    Forty,
}

impl Flap {
    /// Extra lift coefficient of this setting, in quarters (0.25 each).
    pub open spec fn bonus_quarters(self) -> nat {
        match self {
            Flap::Retracted => 0,
            Flap::Twenty => 1,
            Flap::Forty => 2,
        }
    }

    /// The flap setting for a deflection in degrees, if the aircraft has one.
    pub fn from_degrees(deg: u32) -> (r: Option<Flap>)
        ensures
            deg == 0 <==> r == Some(Flap::Retracted),
            deg == 20 <==> r == Some(Flap::Twenty),
            deg == 40 <==> r == Some(Flap::Forty),
            r.is_none() <==> (deg != 0 && deg != 20 && deg != 40),
    {
        if deg == 0 {
            Some(Flap::Retracted)
        } else if deg == 20 {
            Some(Flap::Twenty)
        } else if deg == 40 {
            Some(Flap::Forty)
        } else {
            None
        }
    }

    /// Deflection of this setting in degrees.
    pub fn degrees(&self) -> (r: u32)
        ensures
            r == 20 * self.bonus_quarters(),
    {
        match self {
            Flap::Retracted => 0,
            Flap::Twenty => 20,
            Flap::Forty => 40,
        }
    }

    /// Extra lift coefficient that the flaps add, in quarters (0.25 each).
    pub fn lift_bonus_quarters(&self) -> (r: u32)
        ensures
            r == self.bonus_quarters(),
    {
        match self {
            Flap::Retracted => 0,
            Flap::Twenty => 1,
            Flap::Forty => 2,
        }
    }
}

/// The pilot's inputs to the force model.
#[derive(Clone, Copy, Debug, PartialEq, Eq, Structural)]
pub struct ControlInputs {
    /// Bank angle in whole degrees.
    pub bank_deg: i32,
    /// Angle of attack in whole degrees.
    pub alpha_deg: i32,
    /// Throttle in twentieths of full power (0 is idle, 20 is full).
    pub throttle_steps: u32,
    pub flap: Flap,
}

/// The four control signals of one tick, already latched.
#[derive(Clone, Copy, Debug, PartialEq, Eq, Structural)]
pub struct ControlSignals {
    pub thrust_up: bool,
    pub thrust_down: bool,
    pub aoa_up: bool,
    pub aoa_down: bool,
}

/// Control inputs after one tick of the given signals: the first applicable
/// adjustment in the order throttle up, throttle down, alpha up, alpha down
/// is made, and only that one.
pub open spec fn next_controls(c: ControlInputs, s: ControlSignals) -> ControlInputs {
    if c.throttle_steps < THROTTLE_STEPS_MAX && s.thrust_up {
        ControlInputs { throttle_steps: (c.throttle_steps + 1) as u32, ..c }
    } else if c.throttle_steps > 0 && s.thrust_down {
        ControlInputs { throttle_steps: (c.throttle_steps - 1) as u32, ..c }
    } else if c.alpha_deg < ALPHA_MAX_DEG && s.aoa_up {
        ControlInputs { alpha_deg: (c.alpha_deg + 1) as i32, ..c }
    } else if c.alpha_deg > ALPHA_MIN_DEG && s.aoa_down {
        ControlInputs { alpha_deg: (c.alpha_deg - 1) as i32, ..c }
    } else {
        c
    }
}

/// The signals of a tick whose only key event was the character `c`.
pub open spec fn signals_of_char(c: char) -> ControlSignals {
    ControlSignals {
        thrust_up: c == 't',
        thrust_down: c == 'g',
        aoa_up: c == 'y',
        aoa_down: c == 'h',
    }
}

impl ControlInputs {
    /// Throttle within idle to full, angle of attack within its limits.
    pub open spec fn wf(self) -> bool {
        self.throttle_steps <= THROTTLE_STEPS_MAX && ALPHA_MIN_DEG <= self.alpha_deg
            <= ALPHA_MAX_DEG
    }

    /// Controls at start-up: level wings, zero angle of attack, idle, flaps up.
    pub fn initial() -> (r: ControlInputs)
        ensures
            r.bank_deg == 0,
            r.alpha_deg == 0,
            r.throttle_steps == 0,
            r.flap == Flap::Retracted,
            r.wf(),
    {
        ControlInputs { bank_deg: 0, alpha_deg: 0, throttle_steps: 0, flap: Flap::Retracted }
    }

    /// Applies one tick of control signals.
    pub fn apply_signals(&mut self, s: &ControlSignals)
        ensures
            *final(self) == next_controls(*old(self), *s),
            old(self).wf() ==> final(self).wf(),
    {
        if self.throttle_steps < THROTTLE_STEPS_MAX && s.thrust_up {
            self.throttle_steps = self.throttle_steps + 1;
        } else if self.throttle_steps > 0 && s.thrust_down {
            self.throttle_steps = self.throttle_steps - 1;
        } else if self.alpha_deg < ALPHA_MAX_DEG && s.aoa_up {
            self.alpha_deg = self.alpha_deg + 1;
        } else if self.alpha_deg > ALPHA_MIN_DEG && s.aoa_down {
            self.alpha_deg = self.alpha_deg - 1;
        }
    }
}

/// A tick changes at most one control, by one step, and never bank or
/// flaps; controls that start within their limits stay within them.
pub proof fn lemma_one_adjustment_per_tick(c: ControlInputs, s: ControlSignals)
    ensures
        next_controls(c, s).bank_deg == c.bank_deg,
        next_controls(c, s).flap == c.flap,
        next_controls(c, s).throttle_steps == c.throttle_steps || next_controls(c, s).alpha_deg
            == c.alpha_deg,
        next_controls(c, s).throttle_steps - c.throttle_steps == 1 || next_controls(
            c,
            s,
        ).throttle_steps - c.throttle_steps == -1 || next_controls(c, s).throttle_steps
            == c.throttle_steps,
        next_controls(c, s).alpha_deg - c.alpha_deg == 1 || next_controls(c, s).alpha_deg
            - c.alpha_deg == -1 || next_controls(c, s).alpha_deg == c.alpha_deg,
        c.wf() ==> next_controls(c, s).wf(),
{
}

/// A throttle signal in a tick where the throttle can move takes the
/// tick: the angle-of-attack signals of that tick are dropped.
pub proof fn lemma_throttle_takes_precedence(c: ControlInputs, s: ControlSignals)
    requires
        (s.thrust_up && c.throttle_steps < THROTTLE_STEPS_MAX) || (s.thrust_down
            && c.throttle_steps > 0),
    ensures
        next_controls(c, s).alpha_deg == c.alpha_deg,
        next_controls(c, s).throttle_steps != c.throttle_steps,
{
}

impl ControlSignals {
    /// No signal raised.
    pub fn none() -> (r: ControlSignals)
        ensures
            !r.thrust_up && !r.thrust_down && !r.aoa_up && !r.aoa_down,
    {
        ControlSignals { thrust_up: false, thrust_down: false, aoa_up: false, aoa_down: false }
    }

    /// The signals raised by one key press: 't' throttle up, 'g' throttle
    /// down, 'y' alpha up, 'h' alpha down; any other key raises none.
    pub fn from_key_char(c: char) -> (r: ControlSignals)
        ensures
            r == signals_of_char(c),
    {
        ControlSignals {
            thrust_up: c == 't',
            thrust_down: c == 'g',
            aoa_up: c == 'y',
            aoa_down: c == 'h',
        }
    }
}

} // verus!
