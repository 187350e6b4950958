//! The volume dial: a level between 0 and 11 that saturates at both ends and
//! remembers the last audible level, so that a mute can be undone.

use vstd::prelude::*;

verus! {

/// Lowest dial level; the player is silent at this level.
pub const SPINAL_TAP_MIN: u8 = 0;

/// Highest dial level.
pub const SPINAL_TAP_MAX: u8 = 11;

/// Dial level at power-up.
pub const SPINAL_TAP_INIT: u8 = 5;

/// Step that raises the dial by one.
pub const SPINAL_TAP_DELTA_UP: i8 = 1;

/// Step that lowers the dial by one.
pub const SPINAL_TAP_DELTA_DOWN: i8 = -1;

/// The level one step above `level`, held at the top of the dial.
pub open spec fn level_up(level: nat) -> nat {
    if level < SPINAL_TAP_MAX {
        level + 1
    } else {
        SPINAL_TAP_MAX as nat
    }
}

/// The level one step below `level`, held at the bottom of the dial.
pub open spec fn level_down(level: nat) -> nat {
    if level > SPINAL_TAP_MIN {
        (level - 1) as nat
    } else {
        SPINAL_TAP_MIN as nat
    }
}

/// Moves a dial level one step up or down, saturating at the ends of the dial.
pub fn apply_spinal_tap_delta(spinal_tap_level: u8, delta: i8) -> (moved: u8)
    requires
        delta == SPINAL_TAP_DELTA_DOWN || delta == SPINAL_TAP_DELTA_UP,
        spinal_tap_level <= SPINAL_TAP_MAX,
    ensures
        delta == SPINAL_TAP_DELTA_UP ==> moved == level_up(spinal_tap_level as nat),
        delta == SPINAL_TAP_DELTA_DOWN ==> moved == level_down(spinal_tap_level as nat),
{
    if delta == SPINAL_TAP_DELTA_UP {
        if spinal_tap_level < SPINAL_TAP_MAX {
            spinal_tap_level + 1
        } else {
            SPINAL_TAP_MAX
        }
    } else if spinal_tap_level > SPINAL_TAP_MIN {
        spinal_tap_level - 1
    } else {
        SPINAL_TAP_MIN
    }
}

/// What a dial is, as two numbers.
pub struct DialState {
    /// The current level; `SPINAL_TAP_MIN` is mute.
    pub level: nat,
    /// The level the dial goes back to when it is unmuted.
    pub last_audible: nat,
}

impl DialState {
    /// The states a dial can be in: the level is on the dial, the remembered
    /// level is audible, and while the dial is audible the remembered level is
    /// the current one.
    pub open spec fn valid(self) -> bool {
        &&& self.level <= SPINAL_TAP_MAX
        &&& SPINAL_TAP_MIN < self.last_audible <= SPINAL_TAP_MAX
        &&& self.level > SPINAL_TAP_MIN ==> self.last_audible == self.level
    }

    /// The state of a dial that starts at `level`. A dial that starts muted
    /// remembers the top of the dial.
    pub open spec fn initial(level: nat) -> DialState {
        DialState {
            level,
            last_audible: if level == SPINAL_TAP_MIN {
                SPINAL_TAP_MAX as nat
            } else {
                level
            },
        }
    }

    /// The state after the level has moved to `level`: an audible level is
    /// remembered, a move to mute leaves the memory alone.
    pub open spec fn moved_to(self, level: nat) -> DialState {
        DialState {
            level,
            last_audible: if level > SPINAL_TAP_MIN {
                level
            } else {
                self.last_audible
            },
        }
    }

    /// One step up.
    pub open spec fn increment(self) -> DialState {
        self.moved_to(level_up(self.level))
    }

    /// One step down.
    pub open spec fn decrement(self) -> DialState {
        self.moved_to(level_down(self.level))
    }

    /// Mute an audible dial, remembering its level; bring a muted dial back to
    /// the remembered level.
    pub open spec fn toggle_mute(self) -> DialState {
        if self.level == SPINAL_TAP_MIN {
            DialState { level: self.last_audible, last_audible: self.last_audible }
        } else {
            DialState { level: SPINAL_TAP_MIN as nat, last_audible: self.level }
        }
    }
}

impl DialState {
    /// The state after `times` presses of mute in a row.
    pub open spec fn toggle_mute_times(self, times: nat) -> DialState
        decreases times,
    {
        if times == 0 {
            self
        } else {
            self.toggle_mute_times((times - 1) as nat).toggle_mute()
        }
    }
}

/// A volume dial.
#[derive(Clone, Copy, Debug, PartialEq, Eq)]
pub struct Dial {
    level: u8,
    last_audible: u8,
}

impl View for Dial {
    type V = DialState;

    closed spec fn view(&self) -> DialState {
        DialState { level: self.level as nat, last_audible: self.last_audible as nat }
    }
}

impl Dial {
    /// Every dial is in a valid state.
    #[verifier::type_invariant]
    pub open spec fn wf(self) -> bool {
        self@.valid()
    }

    /// A dial that starts at `init_level`.
    pub fn new(init_level: u8) -> (dial: Dial)
        requires
            init_level <= SPINAL_TAP_MAX,
        ensures
            dial@ == DialState::initial(init_level as nat),
            dial@.valid(),
    {
        let last_audible: u8 = if init_level == SPINAL_TAP_MIN {
            SPINAL_TAP_MAX
        } else {
            init_level
        };
        Dial { level: init_level, last_audible }
    }

    /// The current level.
    pub fn level(&self) -> (level: u8)
        ensures
            level == self@.level,
            self@.valid(),
    {
        proof {
            use_type_invariant(self);
        }
        self.level
    }

    /// The level that unmuting goes back to.
    pub fn last_audible(&self) -> (level: u8)
        ensures
            level == self@.last_audible,
            self@.valid(),
    {
        proof {
            use_type_invariant(self);
        }
        self.last_audible
    }

    /// Raises the dial by one step; at the top it stays where it is.
    pub fn increment(&mut self)
        ensures
            final(self)@ == old(self)@.increment(),
            final(self)@.valid(),
    {
        proof {
            use_type_invariant(&*self);
        }
        let level: u8 = apply_spinal_tap_delta(self.level, SPINAL_TAP_DELTA_UP);
        self.settle(level);
    }

    /// Lowers the dial by one step; at the bottom it stays where it is.
    pub fn decrement(&mut self)
        ensures
            final(self)@ == old(self)@.decrement(),
            final(self)@.valid(),
    {
        proof {
            use_type_invariant(&*self);
        }
        let level: u8 = apply_spinal_tap_delta(self.level, SPINAL_TAP_DELTA_DOWN);
        self.settle(level);
    }

    /// Mutes an audible dial and unmutes a muted one.
    pub fn toggle_mute(&mut self)
        ensures
            final(self)@ == old(self)@.toggle_mute(),
            final(self)@.valid(),
    {
        proof {
            use_type_invariant(&*self);
        }
        if self.level == SPINAL_TAP_MIN {
            *self = Dial { level: self.last_audible, last_audible: self.last_audible };
        } else {
            *self = Dial { level: SPINAL_TAP_MIN, last_audible: self.level };
        }
    }

    /// Takes the level that a step arrived at.
    fn settle(&mut self, level: u8)
        requires
            level <= SPINAL_TAP_MAX,
        ensures
            final(self)@ == old(self)@.moved_to(level as nat),
            final(self)@.valid(),
    {
        proof {
            use_type_invariant(&*self);
        }
        if level > SPINAL_TAP_MIN {
            *self = Dial { level, last_audible: level };
        } else {
            *self = Dial { level, last_audible: self.last_audible };
        }
    }
}

} // verus!
