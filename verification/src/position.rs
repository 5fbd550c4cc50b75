use vstd::prelude::*;

verus! {

/// Which frame of an animation a conversion picks.
#[derive(Debug, Copy, Clone, PartialEq, Eq, Structural)]
pub enum AwebpFramePosition {
    /// The frame that is decoded first.
    First,
    /// The frame at a one-based place; zero counts as one.
    Specific(usize),
    /// The frame that is decoded last.
    Last,
}

impl AwebpFramePosition {
    /// The one-based place of the frame that this position names in an
    /// animation of `len` frames. `Specific` never names a place before the
    /// first, and `Last` names place zero in an empty animation, where there
    /// is no frame to name.
    pub open spec fn place(self, len: nat) -> nat {
        match self {
            AwebpFramePosition::First => 1,
            AwebpFramePosition::Specific(n) => if n < 1 {
                1
            } else {
                n as nat
            },
            AwebpFramePosition::Last => len,
        }
    }

    /// The zero-based index of the frame that this position names in an
    /// animation of `len` frames, or `None` where the animation has no frame
    /// at that place.
    pub open spec fn index_in(self, len: nat) -> Option<int> {
        if 1 <= self.place(len) <= len {
            Some(self.place(len) - 1)
        } else {
            None
        }
    }

    /// The frame that this position names among `frames`, if there is one.
    pub open spec fn pick<T>(self, frames: Seq<T>) -> Option<T> {
        match self.index_in(frames.len()) {
            Some(index) => Some(frames[index]),
            None => None,
        }
    }

    /// The number of frames that are decoded to settle this position in an
    /// animation of `len` frames: those up to the place that it names, and
    /// all of them where the animation ends before that place.
    pub open spec fn reads(self, len: nat) -> nat {
        if self.place(len) <= len {
            self.place(len)
        } else {
            len
        }
    }

    /// The position that a caller's optional choice stands for.
    pub open spec fn or_first(choice: Option<AwebpFramePosition>) -> AwebpFramePosition {
        match choice {
            Some(position) => position,
            None => AwebpFramePosition::First,
        }
    }
}

impl Default for AwebpFramePosition {
    fn default() -> (position: Self)
        ensures
            position == AwebpFramePosition::First,
    {
        AwebpFramePosition::First
    }
}

} // verus!
