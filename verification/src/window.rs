//! How the full-screen saver window answers its messages: a key press or a
//! mouse click ends it, so does moving the pointer more than five pixels
//! away from where it was first seen, and a change of size resizes the
//! renderer.
use vstd::prelude::*;

verus! {

/// The messages the saver window tells apart; `lparam` is the message's
/// packed argument.
#[derive(Clone, Copy, PartialEq, Eq, Debug)]
pub enum SaverMessage {
    Destroy,
    Close,
    /// A key press, or a press of the left, right or middle button.
    KeyOrButton,
    MouseMove(isize),
    Size(isize),
    Other,
}

/// What the window does about a message.
#[derive(Clone, Copy, PartialEq, Eq, Debug)]
pub enum SaverReaction {
    /// Stop rendering and leave the message loop.
    StopAndQuit,
    /// Stop rendering and destroy the window.
    StopAndClose,
    /// Resize the renderer to the given width and height.
    Resize(u32, u32),
    /// Handled, nothing to do.
    Ignore,
    /// Leave it to the default window procedure.
    Default,
}

/// Pixels the pointer may stray, along either axis, before the saver ends.
pub const POINTER_SLACK: i32 = 5;

/// The low 16 bits of a packed argument, as an unsigned number.
pub open spec fn low_word(lparam: isize) -> int {
    (lparam as u32) as int % 0x10000
}

/// The next 16 bits of a packed argument, as an unsigned number.
pub open spec fn high_word(lparam: isize) -> int {
    ((lparam as u32) as int / 0x10000) % 0x10000
}

/// A 16-bit word read as a signed number.
pub open spec fn signed_word(word: int) -> int {
    if word >= 0x8000 {
        word - 0x10000
    } else {
        word
    }
}

/// The pointer position that a mouse message carries.
pub open spec fn pointer_position(lparam: isize) -> (int, int) {
    (signed_word(low_word(lparam)), signed_word(high_word(lparam)))
}

fn words(lparam: isize) -> (w: (u32, u32))
    ensures
        w.0 as int == low_word(lparam),
        w.1 as int == high_word(lparam),
{
    let bits = lparam as u32;
    let low = bits & 0xffff;
    let high = (bits >> 16) & 0xffff;
    assert(low == bits % 0x10000) by (bit_vector)
        requires
            low == bits & 0xffff,
    ;
    assert(high == (bits / 0x10000) % 0x10000) by (bit_vector)
        requires
            high == (bits >> 16) & 0xffff,
    ;
    (low, high)
}

fn signed(word: u32) -> (value: i32)
    requires
        word < 0x10000,
    ensures
        value as int == signed_word(word as int),
{
    if word >= 0x8000 {
        word as i32 - 0x10000
    } else {
        word as i32
    }
}

/// Whether a pointer at `now` has strayed too far from `origin`.
pub open spec fn strayed(origin: (int, int), now: (int, int)) -> bool {
    now.0 - origin.0 > POINTER_SLACK || origin.0 - now.0 > POINTER_SLACK || now.1 - origin.1
        > POINTER_SLACK || origin.1 - now.1 > POINTER_SLACK
}

/// The reaction to a message, given where the pointer was first seen.
pub open spec fn spec_reaction(origin: Option<(i32, i32)>, message: SaverMessage) -> SaverReaction {
    match message {
        SaverMessage::Destroy => SaverReaction::StopAndQuit,
        SaverMessage::Close => SaverReaction::StopAndClose,
        SaverMessage::KeyOrButton => SaverReaction::StopAndClose,
        SaverMessage::MouseMove(lparam) => match origin {
            None => SaverReaction::Ignore,
            Some(o) => if strayed((o.0 as int, o.1 as int), pointer_position(lparam)) {
                SaverReaction::StopAndClose
            } else {
                SaverReaction::Ignore
            },
        },
        SaverMessage::Size(lparam) => SaverReaction::Resize(
            (if low_word(lparam) < 1 {
                1
            } else {
                low_word(lparam)
            }) as u32,
            (if high_word(lparam) < 1 {
                1
            } else {
                high_word(lparam)
            }) as u32,
        ),
        SaverMessage::Other => SaverReaction::Default,
    }
}

/// Where the pointer was first seen; the saver ends when it strays.
#[derive(Clone, Copy, PartialEq, Eq, Debug)]
pub struct PointerWatch {
    pub origin: Option<(i32, i32)>,
}

impl PointerWatch {
    pub fn new() -> (watch: Self)
        ensures
            watch.origin is None,
    {
        PointerWatch { origin: None }
    }

    /// Reacts to a message. The first pointer position seen is kept as the
    /// origin; nothing else changes the watch.
    pub fn react(&mut self, message: SaverMessage) -> (reaction: SaverReaction)
        ensures
            reaction == spec_reaction(old(self).origin, message),
            final(self).origin == (match (old(self).origin, message) {
                (None, SaverMessage::MouseMove(lparam)) => Some(
                    (pointer_position(lparam).0 as i32, pointer_position(lparam).1 as i32),
                ),
                _ => old(self).origin,
            }),
    {
        match message {
            SaverMessage::Destroy => SaverReaction::StopAndQuit,
            SaverMessage::Close => SaverReaction::StopAndClose,
            SaverMessage::KeyOrButton => SaverReaction::StopAndClose,
            SaverMessage::MouseMove(lparam) => {
                let (low, high) = words(lparam);
                let x = signed(low);
                let y = signed(high);
                match self.origin {
                    None => {
                        self.origin = Some((x, y));
                        SaverReaction::Ignore
                    },
                    Some((px, py)) => {
                        let dx = x as i64 - px as i64;
                        let dy = y as i64 - py as i64;
                        if dx > 5 || -dx > 5 || dy > 5 || -dy > 5 {
                            SaverReaction::StopAndClose
                        } else {
                            SaverReaction::Ignore
                        }
                    },
                }
            },
            SaverMessage::Size(lparam) => {
                let (w, h) = words(lparam);
                SaverReaction::Resize(if w < 1 { 1 } else { w }, if h < 1 { 1 } else { h })
            },
            SaverMessage::Other => SaverReaction::Default,
        }
    }
}

/// A key press or a click always ends the saver, and so does moving the
/// pointer more than five pixels from where it was first seen; the first
/// position seen, and moves within five pixels of it, never do.
pub proof fn lemma_dismissal(origin: Option<(i32, i32)>, lparam: isize)
    ensures
        spec_reaction(origin, SaverMessage::KeyOrButton) == SaverReaction::StopAndClose,
        origin is None ==> spec_reaction(origin, SaverMessage::MouseMove(lparam))
            == SaverReaction::Ignore,
        origin matches Some(o) ==> (spec_reaction(origin, SaverMessage::MouseMove(lparam))
            == SaverReaction::StopAndClose <==> strayed(
            (o.0 as int, o.1 as int),
            pointer_position(lparam),
        )),
{
}

/// The size of a window's client area from its rectangle: each side the
/// difference of its edges, at least one pixel.
pub fn client_extent(left: i32, top: i32, right: i32, bottom: i32) -> (extent: [u32; 2])
    ensures
        extent[0] as int == (if right - left < 1 {
            1
        } else {
            right - left
        }),
        extent[1] as int == (if bottom - top < 1 {
            1
        } else {
            bottom - top
        }),
{
    let width = right as i64 - left as i64;
    let height = bottom as i64 - top as i64;
    [if width < 1 {
        1
    } else {
        width as u32
    }, if height < 1 {
        1
    } else {
        height as u32
    }]
}

/// One turn of the saver's message loop.
#[derive(Clone, Copy, PartialEq, Eq, Debug)]
pub enum LoopStep {
    /// The saver was dismissed: leave the loop.
    Stop,
    /// Hand the waiting message to the window.
    Dispatch,
    /// Draw a frame.
    Render,
    /// No renderer yet: wait a moment rather than spin.
    Wait,
}

/// The next turn of the message loop: messages first, then frames.
pub open spec fn spec_loop_step(running: bool, message_waiting: bool, has_renderer: bool) -> LoopStep {
    if !running {
        LoopStep::Stop
    } else if message_waiting {
        LoopStep::Dispatch
    } else if has_renderer {
        LoopStep::Render
    } else {
        LoopStep::Wait
    }
}

/// The next turn of the message loop.
pub fn loop_step(running: bool, message_waiting: bool, has_renderer: bool) -> (step: LoopStep)
    ensures
        step == spec_loop_step(running, message_waiting, has_renderer),
{
    if !running {
        LoopStep::Stop
    } else if message_waiting {
        LoopStep::Dispatch
    } else if has_renderer {
        LoopStep::Render
    } else {
        LoopStep::Wait
    }
}

} // verus!
