//! The clip table: one prepared audio clip for each digit from 0 to 9.

use vstd::prelude::*;

verus! {

/// How many digits have a clip.
pub const DIGIT_COUNT: usize = 10;

/// The clip that a table with the entries `clips` holds for `n`: the entry at
/// `n` for a digit, nothing for any other number.
pub open spec fn clip_for<H>(clips: Seq<H>, n: nat) -> Option<H> {
    if n < DIGIT_COUNT {
        Some(clips[n as int])
    } else {
        None
    }
}

/// Ten clip handles in digit order. The table is filled once and never
/// changes. A handle `H` is whatever the audio player takes as a clip.
pub struct ClipTable<H> {
    clips: [H; DIGIT_COUNT],
}

impl<H> View for ClipTable<H> {
    type V = Seq<H>;

    closed spec fn view(&self) -> Seq<H> {
        self.clips@
    }
}

impl<H: Copy> ClipTable<H> {
    /// The table that holds `clips[d]` for each digit `d`.
    pub fn new(clips: [H; DIGIT_COUNT]) -> (table: Self)
        ensures
            table@ == clips@,
            table@.len() == DIGIT_COUNT,
    {
        ClipTable { clips }
    }

    /// The clip for `n`, if `n` is a digit.
    pub fn lookup(&self, n: u8) -> (found: Option<H>)
        ensures
            found == clip_for(self@, n as nat),
            found is Some <==> n < DIGIT_COUNT,
            self@.len() == DIGIT_COUNT,
    {
        let index: usize = n as usize;
        if index < DIGIT_COUNT {
            Some(self.clips[index])
        } else {
            None
        }
    }
}

} // verus!
