//! The control loop's decisions: what each button press does to the dial and
//! which command goes to the audio player.
//!
//! The loop itself waits for the infrared receiver and drives the player, so
//! it lives with the hardware. It owns one [`Annunciator`], hands it each
//! press and performs the [`Action`] that comes back.

use crate::clips::{clip_for, ClipTable};
use crate::dial::{Dial, DialState, SPINAL_TAP_MAX};
use crate::volume::spinal_tap_volume;
use device_envoy_core::audio_player::Volume;
use vstd::prelude::*;

verus! {

/// A press on the remote, as the receiver classifies it.
#[derive(Clone, Copy, Debug, PartialEq, Eq)]
pub enum Button {
    /// A number key.
    Digit(u8),
    /// The mute key.
    Mute,
    /// The key that raises the volume.
    VolumeUp,
    /// The key that lowers the volume.
    VolumeDown,
    /// Any other key.
    Other,
}

/// A command for the audio player.
#[derive(Debug, PartialEq, Eq)]
pub enum Action<H> {
    /// Play this one clip and stop at its end, in place of whatever is playing.
    PlayOnce(H),
    /// Set the player's volume.
    SetVolume(Volume),
    /// Leave the player alone.
    Nothing,
}

/// The dial after a press: the three volume keys move it, no other key does.
pub open spec fn dial_after(dial: DialState, button: Button) -> DialState {
    match button {
        Button::Mute => dial.toggle_mute(),
        Button::VolumeUp => dial.increment(),
        Button::VolumeDown => dial.decrement(),
        Button::Digit(_) => dial,
        Button::Other => dial,
    }
}

/// The dial after the presses `presses`, handled from first to last.
pub open spec fn dial_after_all(dial: DialState, presses: Seq<Button>) -> DialState
    decreases presses.len(),
{
    if presses.len() == 0 {
        dial
    } else {
        dial_after(dial_after_all(dial, presses.drop_last()), presses.last())
    }
}

/// The command that sets the player to the level of `dial`.
pub open spec fn volume_command<H>(dial: DialState) -> Action<H> {
    Action::SetVolume(spinal_tap_volume(dial.level as u8))
}

/// The command that plays the clip for `n`, or none where `n` has no clip.
pub open spec fn play_command<H>(clips: Seq<H>, n: nat) -> Action<H> {
    match clip_for(clips, n) {
        Some(clip) => Action::PlayOnce(clip),
        None => Action::Nothing,
    }
}

/// The command that answers a press: a number key plays its clip, a volume
/// key sets the player to the dial's new level, any other key does nothing.
pub open spec fn action_for<H>(clips: Seq<H>, dial: DialState, button: Button) -> Action<H> {
    match button {
        Button::Digit(n) => play_command(clips, n as nat),
        Button::Mute => volume_command(dial_after(dial, button)),
        Button::VolumeUp => volume_command(dial_after(dial, button)),
        Button::VolumeDown => volume_command(dial_after(dial, button)),
        Button::Other => Action::Nothing,
    }
}

/// The commands of the power-up self-test: set the initial volume, then speak
/// the digit 0 once.
pub open spec fn startup_commands<H>(clips: Seq<H>, dial: DialState) -> Seq<Action<H>> {
    seq![volume_command(dial), Action::PlayOnce(clips[0])]
}

/// What an annunciator is: its clips and the state of its dial.
pub struct AnnunciatorState<H> {
    /// The clip of each digit, in digit order.
    pub clips: Seq<H>,
    /// The volume dial.
    pub dial: DialState,
}

/// The state that the control loop keeps between presses.
pub struct Annunciator<H> {
    clips: ClipTable<H>,
    dial: Dial,
}

impl<H> View for Annunciator<H> {
    type V = AnnunciatorState<H>;

    closed spec fn view(&self) -> AnnunciatorState<H> {
        AnnunciatorState { clips: self.clips@, dial: self.dial@ }
    }
}

impl<H: Copy> Annunciator<H> {
    /// Powers up: the annunciator with its dial at `init_level`, and the two
    /// commands of the self-test, to be performed in order before the first
    /// press is handled.
    pub fn start(clips: ClipTable<H>, init_level: u8) -> (started: (Self, [Action<H>; 2]))
        requires
            init_level <= SPINAL_TAP_MAX,
        ensures
            started.0@.clips == clips@,
            started.0@.dial == DialState::initial(init_level as nat),
            started.0@.dial.valid(),
            started.1@ == startup_commands(clips@, started.0@.dial),
    {
        let dial = Dial::new(init_level);
        let volume = Action::SetVolume(Volume::spinal_tap(dial.level()));
        let self_test = Action::PlayOnce(clips.lookup(0).unwrap());
        (Annunciator { clips, dial }, [volume, self_test])
    }

    /// Handles one press: moves the dial if the key is a volume key, and
    /// returns the command for the player.
    pub fn handle(&mut self, button: Button) -> (action: Action<H>)
        ensures
            final(self)@.clips == old(self)@.clips,
            final(self)@.dial == dial_after(old(self)@.dial, button),
            final(self)@.dial.valid(),
            action == action_for(old(self)@.clips, old(self)@.dial, button),
    {
        proof {
            use_type_invariant(&self.dial);
        }
        match button {
            Button::Digit(n) => {
                match self.clips.lookup(n) {
                    Some(clip) => Action::PlayOnce(clip),
                    None => Action::Nothing,
                }
            },
            Button::Mute => {
                self.dial.toggle_mute();
                Action::SetVolume(Volume::spinal_tap(self.dial.level()))
            },
            Button::VolumeUp => {
                self.dial.increment();
                Action::SetVolume(Volume::spinal_tap(self.dial.level()))
            },
            Button::VolumeDown => {
                self.dial.decrement();
                Action::SetVolume(Volume::spinal_tap(self.dial.level()))
            },
            Button::Other => Action::Nothing,
        }
    }

    /// The volume dial.
    pub fn dial(&self) -> (dial: &Dial)
        ensures
            dial@ == self@.dial,
            dial@.valid(),
    {
        proof {
            use_type_invariant(&self.dial);
        }
        &self.dial
    }
}

} // verus!
