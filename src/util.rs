//! Frame-based time and the small pieces of per-frame state.
use vstd::prelude::*;

verus! {

/// Frames per second of the fixed-rate tick loop.
pub const FRAMES_PER_SECOND: u32 = 60;

/// A length of time counted in frames.
#[derive(Clone, Copy, Debug, PartialEq, Eq, Structural, PartialOrd, Ord)]
pub struct Duration(pub u32);

impl Duration {
    pub fn from_frames(frames: u32) -> (r: Duration)
        ensures
            r.0 == frames,
    {
        Duration(frames)
    }

    pub fn as_frames(&self) -> (r: u32)
        ensures
            r == self.0,
    {
        self.0
    }
}

/// The frame counter: the only notion of time, advanced once per tick.
#[derive(Clone, Copy, Debug, PartialEq, Eq, Structural)]
pub struct FrameCounter {
    pub frames: u32,
}

impl FrameCounter {
    pub fn new() -> (r: FrameCounter)
        ensures
            r.frames == 0,
    {
        FrameCounter { frames: 0 }
    }

    pub fn get(&self) -> (r: u32)
        ensures
            r == self.frames,
    {
        self.frames
    }

    /// Advances one frame; the count wraps around after `u32::MAX`.
    pub fn increment(&mut self)
        ensures
            final(self).frames == (if old(self).frames == u32::MAX { 0 } else { old(self).frames + 1 }),
    {
        self.frames = if self.frames == u32::MAX { 0 } else { self.frames + 1 };
    }
}

/// Sixteen bytes gathered from the mouse, one slot per frame in turn.
#[derive(Clone, Copy, Debug)]
pub struct Entropy {
    pub bytes: [u8; 16],
}

/// The byte that a mouse position contributes: `x * 10 + y`, truncated to 8 bits.
pub open spec fn mouse_byte(x: i16, y: i16) -> u8 {
    #[verifier::truncate]
    ((x as int * 10 + y as int) as u8)
}

impl Entropy {
    pub fn new() -> (r: Entropy)
        ensures
            forall|i: int| 0 <= i < 16 ==> r.bytes[i] == 0,
    {
        Entropy { bytes: [0u8; 16] }
    }

    pub fn get(&self) -> (r: [u8; 16])
        ensures
            r == self.bytes,
    {
        self.bytes
    }

    /// Stores the mouse's byte in slot `frame % 16`.
    pub fn update(&mut self, frame: u32, x: i16, y: i16)
        ensures
            final(self).bytes@ == old(self).bytes@.update((frame % 16) as int, mouse_byte(x, y)),
    {
        let v: i32 = x as i32 * 10 + y as i32;
        let idx: usize = (frame % 16) as usize;
        self.bytes[idx] = #[verifier::truncate] (v as u8);
    }
}

/// The mouse as read at one frame: position and the left button.
#[derive(Clone, Copy, Debug, PartialEq, Eq, Structural)]
pub struct MouseState {
    pub x: i16,
    pub y: i16,
    pub left: bool,
}

/// The mouse at this frame and at the one before.
#[derive(Clone, Copy, Debug, PartialEq, Eq, Structural)]
pub struct MouseCompound {
    pub current: MouseState,
    pub previous: MouseState,
}

impl MouseCompound {
    pub fn new(current: MouseState, previous: MouseState) -> (r: MouseCompound)
        ensures
            r.current == current,
            r.previous == previous,
    {
        MouseCompound { current, previous }
    }

    pub fn state(&self) -> (r: MouseState)
        ensures
            r == self.current,
    {
        self.current
    }

    pub fn prev(&self) -> (r: MouseState)
        ensures
            r == self.previous,
    {
        self.previous
    }

    /// The left button went down at this frame.
    pub open spec fn clicked(&self) -> bool {
        self.current.left && !self.previous.left
    }
}

} // verus!
