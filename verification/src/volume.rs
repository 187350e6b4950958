//! The player's volume unit, as far as the control logic needs it.

use device_envoy_core::audio_player::Volume;
use vstd::prelude::*;

verus! {

/// `device_envoy_core::audio_player::Volume`, the loudness setting that the
/// audio player takes. Nothing is known here of what a value holds.
#[verifier::external_type_specification]
#[verifier::external_body]
pub struct ExVolume(Volume);

/// The volume that `Volume::spinal_tap` gives for a dial level.
pub uninterp spec fn spinal_tap_volume(level: u8) -> Volume;

/// `Volume::spinal_tap` maps a level on the "goes to 11" scale to a volume. It
/// clamps levels above 11 and never fails; the volume it returns depends on
/// the level alone, and this contract gives that volume its name.
pub assume_specification[ Volume::spinal_tap ](spinal_tap: u8) -> (volume: Volume)
    ensures
        volume == spinal_tap_volume(spinal_tap),
;

} // verus!
