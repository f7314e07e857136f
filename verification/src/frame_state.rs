//! Frames-per-second bookkeeping of a scene.
use vstd::prelude::*;

verus! {

/// Nanoseconds in a second.
pub const NANOS_PER_SECOND: u128 = 1_000_000_000;

/// Counts frames and, once a second has passed since the last save, saves
/// the count as the frame rate. Times are nanoseconds on the system clock.
#[derive(Clone, Copy, Debug, PartialEq, Eq)]
pub struct SceneFrameState {
    last_fps_save_time: u128,
    count_since_fps_save: usize,
    pub fps: usize,
}

impl SceneFrameState {
    pub closed spec fn last_save(self) -> u128 {
        self.last_fps_save_time
    }

    pub closed spec fn frame_rate(self) -> usize {
        self.fps
    }

    pub closed spec fn count(self) -> usize {
        self.count_since_fps_save
    }

    /// No frames counted yet, started at `now`.
    pub fn new(now: u128) -> (s: Self)
        ensures
            s.last_save() == now,
            s.count() == 0,
            s.frame_rate() == 0,
    {
        SceneFrameState { last_fps_save_time: now, count_since_fps_save: 0, fps: 0 }
    }

    /// The frame rate saved last.
    pub fn fps(&self) -> (r: usize)
        ensures
            r == self.frame_rate(),
    {
        self.fps
    }

    /// When the frame rate was last saved.
    pub fn last_save_time(&self) -> (r: u128)
        ensures
            r == self.last_save(),
    {
        self.last_fps_save_time
    }

    /// Frames counted since the last save.
    pub fn frames_since_save(&self) -> (r: usize)
        ensures
            r == self.count(),
    {
        self.count_since_fps_save
    }

    /// Counts a frame rendered at `now`. If a second or more has passed since
    /// the last save, the count becomes the frame rate and counting starts
    /// again from `saved_at` (the clock read once more).
    pub fn record_frame(&mut self, now: u128, saved_at: u128)
        requires
            now >= old(self).last_save(),
            old(self).count() < usize::MAX,
        ensures
            if now - old(self).last_save() >= NANOS_PER_SECOND {
                &&& final(self).frame_rate() == old(self).count() + 1
                &&& final(self).count() == 0
                &&& final(self).last_save() == saved_at
            } else {
                &&& final(self).frame_rate() == old(self).frame_rate()
                &&& final(self).count() == old(self).count() + 1
                &&& final(self).last_save() == old(self).last_save()
            },
    {
        self.count_since_fps_save = self.count_since_fps_save + 1;
        if now - self.last_fps_save_time >= NANOS_PER_SECOND {
            self.fps = self.count_since_fps_save;
            self.count_since_fps_save = 0;
            self.last_fps_save_time = saved_at;
        }
    }
}

} // verus!
