use vstd::prelude::*;

verus! {

/// How an interactive viewer advances the simulation from frame to frame.
#[derive(Clone, Copy, Debug, PartialEq, Eq, Structural)]
pub enum SimState {
    /// No updates.
    Paused,
    /// As many updates per frame as the frame's time allows.
    Running,
    /// One update this frame, then paused.
    RunOneFrame,
}

impl SimState {
    /// The state after this frame's keys: the pause key toggles between
    /// paused and running (a single step counts as running), and the step
    /// key asks for one update while paused.
    pub open spec fn spec_on_keys(self, toggle_pause: bool, step: bool) -> SimState {
        let s = if toggle_pause {
            if self == SimState::Paused {
                SimState::Running
            } else {
                SimState::Paused
            }
        } else {
            self
        };
        if step && s == SimState::Paused {
            SimState::RunOneFrame
        } else {
            s
        }
    }

    pub fn on_keys(self, toggle_pause: bool, step: bool) -> (r: SimState)
        ensures
            r == self.spec_on_keys(toggle_pause, step),
    {
        let mut s = self;
        if toggle_pause {
            s = match s {
                SimState::Paused => SimState::Running,
                _ => SimState::Paused,
            };
        }
        if step {
            if let SimState::Paused = s {
                s = SimState::RunOneFrame;
            }
        }
        s
    }

    /// The state for the next frame once this one has been shown: a single
    /// step falls back to paused.
    pub fn after_frame(self) -> (r: SimState)
        ensures
            r == (if self == SimState::RunOneFrame {
                SimState::Paused
            } else {
                self
            }),
    {
        match self {
            SimState::RunOneFrame => SimState::Paused,
            _ => self,
        }
    }
}

/// The palette to draw with: the one picked this frame, if any, else the
/// current one; an index past the last palette falls back to the first.
pub fn pick_palette(current: usize, picked: Option<usize>, count: usize) -> (r: usize)
    ensures
        r == ({
            let want = match picked {
                Some(p) => p,
                None => current,
            };
            if want < count {
                want
            } else {
                0
            }
        }),
{
    let want = match picked {
        Some(p) => p,
        None => current,
    };
    if want < count {
        want
    } else {
        0
    }
}

/// The time left in a frame for updates, and the longest update seen so
/// far, in nanoseconds.
#[derive(Clone, Copy, Debug, PartialEq, Eq, Structural)]
pub struct UpdateBudget {
    pub left: u64,
    pub estimate: u64,
}

impl UpdateBudget {
    /// A frame of `frame_time` whose first update took `first`.
    pub fn new(frame_time: u64, first: u64) -> (r: Self)
        ensures
            r == (UpdateBudget { left: frame_time, estimate: first }),
    {
        UpdateBudget { left: frame_time, estimate: first }
    }

    /// Whether another update is expected to fit in what is left.
    pub fn wants_another(&self) -> (r: bool)
        ensures
            r == (self.left > self.estimate),
    {
        self.left > self.estimate
    }

    /// Accounts for an update that took `took`. Returns whether time is left:
    /// if so, `took` comes off the time left; if not, the budget is spent and
    /// the time left stays as it was.
    pub fn record(&mut self, took: u64) -> (r: bool)
        ensures
            final(self).estimate == if took > old(self).estimate {
                took
            } else {
                old(self).estimate
            },
            r == (old(self).left > took),
            r ==> final(self).left == old(self).left - took,
            !r ==> final(self).left == old(self).left,
    {
        if took > self.estimate {
            self.estimate = took;
        }
        if self.left > took {
            self.left = self.left - took;
            true
        } else {
            false
        }
    }
}

} // verus!
