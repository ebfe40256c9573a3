use vstd::prelude::*;
use crate::text::owned;

verus! {

/// The stamp that replaces `last` at time `now`: `now` when the clock has
/// moved on, else one past `last`, so that every earlier stamp goes stale
/// (short of the largest value, which stays).
pub open spec fn next_stamp(last: u64, now: u64) -> u64 {
    if now > last {
        now
    } else if last < u64::MAX {
        (last + 1) as u64
    } else {
        last
    }
}

/// The stamp that replaces `last` at time `now`.
pub fn stamp_after(last: u64, now: u64) -> (r: u64)
    ensures
        r == next_stamp(last, now),
        last < u64::MAX ==> r > last,
{
    if now > last {
        now
    } else if last < u64::MAX {
        last + 1
    } else {
        last
    }
}

/// The preview player. `last_update_playing` is the time of the last start,
/// pause or resume; a completion signal carries the time of the start it
/// belongs to and counts only while that time is still the latest.
#[derive(Clone, Debug, PartialEq, Eq)]
pub struct Player {
    pub is_playing: bool,
    pub name: String,
    pub last_update_playing: u64,
}

impl Player {
    /// An idle player, stamped at `now`.
    pub fn new(now: u64) -> (r: Self)
        ensures
            !r.is_playing,
            r.name@ == "None"@,
            r.last_update_playing == now,
    {
        Player { is_playing: false, name: owned("None"), last_update_playing: now }
    }

    /// Playback of a new preview began at `now`; returns the new stamp,
    /// which the preview's completion signal is to carry.
    pub fn started(&mut self, now: u64) -> (stamp: u64)
        ensures
            stamp == next_stamp(old(self).last_update_playing, now),
            *final(self) == (Player {
                is_playing: true,
                last_update_playing: stamp,
                ..*old(self)
            }),
    {
        let stamp = stamp_after(self.last_update_playing, now);
        self.is_playing = true;
        self.last_update_playing = stamp;
        stamp
    }

    /// Pause or resume at `now`.
    pub fn toggled(&mut self, now: u64)
        ensures
            *final(self) == (Player {
                is_playing: !old(self).is_playing,
                last_update_playing: next_stamp(old(self).last_update_playing, now),
                ..*old(self)
            }),
    {
        self.is_playing = !self.is_playing;
        self.last_update_playing = stamp_after(self.last_update_playing, now);
    }

    /// The completion signal of the playback started at `token` arrived:
    /// it ends playback only when nothing happened to the player since.
    pub fn finished(&mut self, token: u64)
        ensures
            token == old(self).last_update_playing ==> {
                &&& !final(self).is_playing
                &&& final(self).name@ == "None"@
                &&& final(self).last_update_playing == old(self).last_update_playing
            },
            token != old(self).last_update_playing ==> *final(self) == *old(self),
    {
        if token == self.last_update_playing {
            self.is_playing = false;
            self.name = owned("None");
        }
    }
}

} // verus!
