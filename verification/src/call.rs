//! What a handler asks of the engine, and what the script is told.
//!
//! The engine has four resources: the clock, the raster surface, the input
//! state and the audio mixer. A handler never works on one itself. It answers
//! with an [`Outcome`]: either the call is over and the script gets a value,
//! or one operation is to be performed on one resource, named by the handle
//! under which the engine registered it.

use vstd::prelude::*;
use crate::number::Number;
use crate::value::{Value, ValueView};

verus! {

/// The four engine resources.
#[derive(Clone, Copy, Debug, PartialEq, Eq, Structural)]
pub enum Resource {
    Info,
    Screen,
    Players,
    Sound,
}

/// A question to the clock.
#[derive(Clone, Copy, Debug, PartialEq, Eq, Structural)]
pub enum InfoOp {
    /// The time that has passed since the engine started.
    Time,
}

/// A question to the input state.
#[derive(Clone, Copy, Debug, PartialEq, Eq, Structural)]
pub enum PlayersOp {
    /// Whether `player` has just pressed `button`.
    Btnp { player: u8, button: u8 },
}

/// An operation on the raster surface.
#[derive(Debug, PartialEq)]
pub enum ScreenOp {
    Cls { value: i8 },
    Pset { x: i32, y: i32, color: i32 },
    Print { text: String, x: i32, y: i32, color: i32 },
    Spr { n: u32, x: i32, y: i32, w: u32, h: u32, flip_x: bool, flip_y: bool },
    Sspr {
        sx: u32,
        sy: u32,
        sw: u32,
        sh: u32,
        dx: i32,
        dy: i32,
        dw: u32,
        dh: u32,
        flip_x: bool,
        flip_y: bool,
    },
    Sspr2 {
        sx: u32,
        sy: u32,
        sw: u32,
        sh: u32,
        dx: i32,
        dy: i32,
        angle: Number,
        zoom: Number,
        flip_x: bool,
        flip_y: bool,
    },
    Pal { c0: i32, c1: i32 },
    Circ { x: i32, y: i32, r: i32, color: i32 },
    Circfill { x: i32, y: i32, r: i32, color: i32 },
    Line { x1: i32, y1: i32, x2: i32, y2: i32, color: i32 },
}

/// A [`ScreenOp`] as contracts see it.
pub enum ScreenOpView {
    Cls { value: i8 },
    Pset { x: i32, y: i32, color: i32 },
    Print { text: Seq<char>, x: i32, y: i32, color: i32 },
    Spr { n: u32, x: i32, y: i32, w: u32, h: u32, flip_x: bool, flip_y: bool },
    Sspr {
        sx: u32,
        sy: u32,
        sw: u32,
        sh: u32,
        dx: i32,
        dy: i32,
        dw: u32,
        dh: u32,
        flip_x: bool,
        flip_y: bool,
    },
    Sspr2 {
        sx: u32,
        sy: u32,
        sw: u32,
        sh: u32,
        dx: i32,
        dy: i32,
        angle: Number,
        zoom: Number,
        flip_x: bool,
        flip_y: bool,
    },
    Pal { c0: i32, c1: i32 },
    Circ { x: i32, y: i32, r: i32, color: i32 },
    Circfill { x: i32, y: i32, r: i32, color: i32 },
    Line { x1: i32, y1: i32, x2: i32, y2: i32, color: i32 },
}

impl View for ScreenOp {
    type V = ScreenOpView;

    open spec fn view(&self) -> ScreenOpView {
        match *self {
            ScreenOp::Cls { value } => ScreenOpView::Cls { value },
            ScreenOp::Pset { x, y, color } => ScreenOpView::Pset { x, y, color },
            ScreenOp::Print { text, x, y, color } => ScreenOpView::Print { text: text@, x, y, color },
            ScreenOp::Spr { n, x, y, w, h, flip_x, flip_y } => ScreenOpView::Spr {
                n,
                x,
                y,
                w,
                h,
                flip_x,
                flip_y,
            },
            ScreenOp::Sspr { sx, sy, sw, sh, dx, dy, dw, dh, flip_x, flip_y } => ScreenOpView::Sspr {
                sx,
                sy,
                sw,
                sh,
                dx,
                dy,
                dw,
                dh,
                flip_x,
                flip_y,
            },
            ScreenOp::Sspr2 {
                sx,
                sy,
                sw,
                sh,
                dx,
                dy,
                angle,
                zoom,
                flip_x,
                flip_y,
            } => ScreenOpView::Sspr2 { sx, sy, sw, sh, dx, dy, angle, zoom, flip_x, flip_y },
            ScreenOp::Pal { c0, c1 } => ScreenOpView::Pal { c0, c1 },
            ScreenOp::Circ { x, y, r, color } => ScreenOpView::Circ { x, y, r, color },
            ScreenOp::Circfill { x, y, r, color } => ScreenOpView::Circfill { x, y, r, color },
            ScreenOp::Line { x1, y1, x2, y2, color } => ScreenOpView::Line { x1, y1, x2, y2, color },
        }
    }
}

impl Clone for ScreenOp {
    fn clone(&self) -> (copy: Self)
        ensures
            copy == *self,
    {
        match self {
            ScreenOp::Cls { value } => ScreenOp::Cls { value: *value },
            ScreenOp::Pset { x, y, color } => ScreenOp::Pset { x: *x, y: *y, color: *color },
            ScreenOp::Print { text, x, y, color } => ScreenOp::Print {
                text: text.clone(),
                x: *x,
                y: *y,
                color: *color,
            },
            ScreenOp::Spr { n, x, y, w, h, flip_x, flip_y } => ScreenOp::Spr {
                n: *n,
                x: *x,
                y: *y,
                w: *w,
                h: *h,
                flip_x: *flip_x,
                flip_y: *flip_y,
            },
            ScreenOp::Sspr { sx, sy, sw, sh, dx, dy, dw, dh, flip_x, flip_y } => ScreenOp::Sspr {
                sx: *sx,
                sy: *sy,
                sw: *sw,
                sh: *sh,
                dx: *dx,
                dy: *dy,
                dw: *dw,
                dh: *dh,
                flip_x: *flip_x,
                flip_y: *flip_y,
            },
            ScreenOp::Sspr2 {
                sx,
                sy,
                sw,
                sh,
                dx,
                dy,
                angle,
                zoom,
                flip_x,
                flip_y,
            } => ScreenOp::Sspr2 {
                sx: *sx,
                sy: *sy,
                sw: *sw,
                sh: *sh,
                dx: *dx,
                dy: *dy,
                angle: *angle,
                zoom: *zoom,
                flip_x: *flip_x,
                flip_y: *flip_y,
            },
            ScreenOp::Pal { c0, c1 } => ScreenOp::Pal { c0: *c0, c1: *c1 },
            ScreenOp::Circ { x, y, r, color } => ScreenOp::Circ {
                x: *x,
                y: *y,
                r: *r,
                color: *color,
            },
            ScreenOp::Circfill { x, y, r, color } => ScreenOp::Circfill {
                x: *x,
                y: *y,
                r: *r,
                color: *color,
            },
            ScreenOp::Line { x1, y1, x2, y2, color } => ScreenOp::Line {
                x1: *x1,
                y1: *y1,
                x2: *x2,
                y2: *y2,
                color: *color,
            },
        }
    }
}

/// An operation on the audio mixer.
#[derive(Debug, PartialEq)]
pub enum SoundOp {
    Music { id: i32, filename: String, channel: i32, loops: i32, start_position: i32 },
    Sfx {
        id: i32,
        filename: String,
        channel: i32,
        note: u16,
        panning: i32,
        rate: i32,
        loops: i32,
    },
}

/// A [`SoundOp`] as contracts see it.
pub enum SoundOpView {
    Music { id: i32, filename: Seq<char>, channel: i32, loops: i32, start_position: i32 },
    Sfx {
        id: i32,
        filename: Seq<char>,
        channel: i32,
        note: u16,
        panning: i32,
        rate: i32,
        loops: i32,
    },
}

impl View for SoundOp {
    type V = SoundOpView;

    open spec fn view(&self) -> SoundOpView {
        match *self {
            SoundOp::Music { id, filename, channel, loops, start_position } => SoundOpView::Music {
                id,
                filename: filename@,
                channel,
                loops,
                start_position,
            },
            SoundOp::Sfx { id, filename, channel, note, panning, rate, loops } => SoundOpView::Sfx {
                id,
                filename: filename@,
                channel,
                note,
                panning,
                rate,
                loops,
            },
        }
    }
}

impl Clone for SoundOp {
    fn clone(&self) -> (copy: Self)
        ensures
            copy == *self,
    {
        match self {
            SoundOp::Music { id, filename, channel, loops, start_position } => SoundOp::Music {
                id: *id,
                filename: filename.clone(),
                channel: *channel,
                loops: *loops,
                start_position: *start_position,
            },
            SoundOp::Sfx { id, filename, channel, note, panning, rate, loops } => SoundOp::Sfx {
                id: *id,
                filename: filename.clone(),
                channel: *channel,
                note: *note,
                panning: *panning,
                rate: *rate,
                loops: *loops,
            },
        }
    }
}

/// What became of one host call.
///
/// `I`, `S`, `P` and `A` are the types of the handles under which the engine
/// registered its clock, raster surface, input state and audio mixer. Every
/// variant but `Done` lends out exactly one handle, so whoever performs the
/// operation has one resource to lock and no other.
#[derive(Debug, PartialEq)]
pub enum Outcome<'a, I, S, P, A> {
    /// The call is over and touched no resource; the script gets this value.
    Done(Value),
    /// Ask the clock; the script gets [`InfoOp::reply`].
    Info(&'a I, InfoOp),
    /// Perform the operation on the raster surface; the script gets
    /// [`ScreenOp::reply`].
    Screen(&'a S, ScreenOp),
    /// Ask the input state; the script gets [`PlayersOp::reply`].
    Players(&'a P, PlayersOp),
    /// Perform the operation on the audio mixer; the script gets
    /// [`SoundOp::reply`].
    Sound(&'a A, SoundOp),
}

/// An [`Outcome`] as contracts see it.
pub enum OutcomeView<I, S, P, A> {
    Done(ValueView),
    Info(I, InfoOp),
    Screen(S, ScreenOpView),
    Players(P, PlayersOp),
    Sound(A, SoundOpView),
}

impl<'a, I, S, P, A> View for Outcome<'a, I, S, P, A> {
    type V = OutcomeView<I, S, P, A>;

    open spec fn view(&self) -> OutcomeView<I, S, P, A> {
        match *self {
            Outcome::Done(value) => OutcomeView::Done(value@),
            Outcome::Info(handle, op) => OutcomeView::Info(*handle, op),
            Outcome::Screen(handle, op) => OutcomeView::Screen(*handle, op@),
            Outcome::Players(handle, op) => OutcomeView::Players(*handle, op),
            Outcome::Sound(handle, op) => OutcomeView::Sound(*handle, op@),
        }
    }
}

impl<I, S, P, A> OutcomeView<I, S, P, A> {
    /// The resource that the outcome lends out, if any.
    pub open spec fn resource(self) -> Option<Resource> {
        match self {
            OutcomeView::Done(_) => None,
            OutcomeView::Info(_, _) => Some(Resource::Info),
            OutcomeView::Screen(_, _) => Some(Resource::Screen),
            OutcomeView::Players(_, _) => Some(Resource::Players),
            OutcomeView::Sound(_, _) => Some(Resource::Sound),
        }
    }
}

impl<'a, I, S, P, A> Outcome<'a, I, S, P, A> {
    /// The resource to lock before the operation is performed; none where the
    /// call is over.
    pub fn resource(&self) -> (r: Option<Resource>)
        ensures
            r == self@.resource(),
    {
        match self {
            Outcome::Done(_) => None,
            Outcome::Info(_, _) => Some(Resource::Info),
            Outcome::Screen(_, _) => Some(Resource::Screen),
            Outcome::Players(_, _) => Some(Resource::Players),
            Outcome::Sound(_, _) => Some(Resource::Sound),
        }
    }
}

impl InfoOp {
    /// The value for the script once the clock has answered: the elapsed
    /// time itself.
    pub fn reply(&self, elapsed: Number) -> (v: Value)
        ensures
            v@ == ValueView::Number(elapsed),
    {
        Value::Number(elapsed)
    }
}

impl PlayersOp {
    /// The value for the script once the input state has answered: the state
    /// of the button.
    pub fn reply(&self, pressed: bool) -> (v: Value)
        ensures
            v@ == ValueView::Bool(pressed),
    {
        Value::Bool(pressed)
    }
}

impl ScreenOp {
    /// The value for the script once the operation has been performed.
    pub fn reply(&self) -> (v: Value)
        ensures
            v@ == Value::spec_neutral(),
    {
        Value::neutral()
    }
}

impl SoundOp {
    /// The value for the script once the operation has been performed.
    pub fn reply(&self) -> (v: Value)
        ensures
            v@ == Value::spec_neutral(),
    {
        Value::neutral()
    }
}

} // verus!
