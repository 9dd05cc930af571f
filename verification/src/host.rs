//! The host object: the handlers and the dispatcher.
//!
//! Every host call of a script arrives at [`JavascriptPluginRust::dispatch`]
//! as one list of values, the opcode first. The dispatcher looks the opcode
//! up in the registry and hands the rest of the list to the handler bound to
//! it. The handler marshals its parameters and answers with the one
//! operation to perform, on the first handle registered for its resource.

use vstd::prelude::*;
use vstd::slice::slice_subrange;
use crate::call::{
    InfoOp, Outcome, OutcomeView, PlayersOp, Resource, ScreenOp, ScreenOpView, SoundOp,
    SoundOpView,
};
use crate::marshal::{
    bool_at, get_bool, get_i32, get_i8, get_number, get_real, get_text, get_u16, get_u32, get_u8,
    i32_at, i8_at, number_at, real_at, text_at, u16_at, u32_at, u8_at,
};
use crate::number::Number;
use crate::registry::{table_of, BindingView, Handler, Registry};
use crate::value::Value;

verus! {

/// The value of a coordinate, a color, a piece or a channel that the script
/// did not give: the engine takes what is current, or picks one itself.
pub const UNSET: i32 = -1;

/// The value with which the surface is cleared when the script gives none.
pub const CLEAR_UNSET: i8 = -1;

/// The note that a sound effect plays when the script names none.
pub const DEFAULT_NOTE: u16 = 13312;

/// The panning of a sound effect when the script names none: the middle.
pub const DEFAULT_PANNING: i32 = 64;

/// The rate of a sound effect when the script names none.
pub const DEFAULT_RATE: i32 = 50;

/// `cls(value)`: clears the surface. `value` is -1 unless given.
pub open spec fn cls_op(args: Seq<Value>) -> ScreenOpView {
    ScreenOpView::Cls { value: i8_at(args, 0, CLEAR_UNSET) }
}

/// `pset(x, y, color)`: sets one pixel. Each parameter is -1 unless given.
pub open spec fn pset_op(args: Seq<Value>) -> ScreenOpView {
    ScreenOpView::Pset { x: i32_at(args, 0, UNSET), y: i32_at(args, 1, UNSET), color: i32_at(args, 2, UNSET) }
}

/// `print(text, x, y, color)`: writes a text. The text is empty, the position
/// the origin and the color -1 unless given.
pub open spec fn print_op(args: Seq<Value>) -> ScreenOpView {
    ScreenOpView::Print {
        text: text_at(args, 0),
        x: i32_at(args, 1, 0),
        y: i32_at(args, 2, 0),
        color: i32_at(args, 3, UNSET),
    }
}

/// `spr(n, x, y, w, h, flip_x, flip_y)`: blits sprite `n`. The sprite is the
/// first and the position the origin unless given; the blit is one sprite
/// wide and one high and is not flipped unless the script says so.
pub open spec fn spr_op(args: Seq<Value>) -> ScreenOpView {
    ScreenOpView::Spr {
        n: u32_at(args, 0, 0),
        x: i32_at(args, 1, 0),
        y: i32_at(args, 2, 0),
        w: u32_at(args, 3, 1),
        h: u32_at(args, 4, 1),
        flip_x: bool_at(args, 5, false),
        flip_y: bool_at(args, 6, false),
    }
}

/// `sspr(sx, sy, sw, sh, dx, dy, dw, dh, flip_x, flip_y)`: blits a region of
/// the sprite sheet, stretched. Where the script gives no width or height of
/// the destination, that of the source is taken.
pub open spec fn sspr_op(args: Seq<Value>) -> ScreenOpView {
    let sw = u32_at(args, 2, 0);
    let sh = u32_at(args, 3, 0);
    ScreenOpView::Sspr {
        sx: u32_at(args, 0, 0),
        sy: u32_at(args, 1, 0),
        sw,
        sh,
        dx: i32_at(args, 4, 0),
        dy: i32_at(args, 5, 0),
        dw: u32_at(args, 6, sw),
        dh: u32_at(args, 7, sh),
        flip_x: bool_at(args, 8, false),
        flip_y: bool_at(args, 9, false),
    }
}

/// `sspr2(sx, sy, sw, sh, dx, dy, angle, zoom, flip_x, flip_y)`: blits a
/// region of the sprite sheet, rotated and scaled. The angle is zero and the
/// zoom one unless given; both reach the surface as the script wrote them.
pub open spec fn sspr2_op(args: Seq<Value>) -> ScreenOpView {
    ScreenOpView::Sspr2 {
        sx: u32_at(args, 0, 0),
        sy: u32_at(args, 1, 0),
        sw: u32_at(args, 2, 0),
        sh: u32_at(args, 3, 0),
        dx: i32_at(args, 4, 0),
        dy: i32_at(args, 5, 0),
        angle: real_at(args, 6, Number { bits: 0 }),
        zoom: real_at(args, 7, Number { bits: 0x3FF0_0000_0000_0000 }),
        flip_x: bool_at(args, 8, false),
        flip_y: bool_at(args, 9, false),
    }
}

/// `pal(c0, c1)`: swaps two palette entries. Each is -1 unless given.
pub open spec fn pal_op(args: Seq<Value>) -> ScreenOpView {
    ScreenOpView::Pal { c0: i32_at(args, 0, UNSET), c1: i32_at(args, 1, UNSET) }
}

/// `circ(x, y, r, color)`: draws a circle. Each parameter is -1 unless given.
pub open spec fn circ_op(args: Seq<Value>) -> ScreenOpView {
    ScreenOpView::Circ {
        x: i32_at(args, 0, UNSET),
        y: i32_at(args, 1, UNSET),
        r: i32_at(args, 2, UNSET),
        color: i32_at(args, 3, UNSET),
    }
}

/// `circfill(x, y, r, color)`: draws a disc. Each parameter is -1 unless
/// given.
pub open spec fn circfill_op(args: Seq<Value>) -> ScreenOpView {
    ScreenOpView::Circfill {
        x: i32_at(args, 0, UNSET),
        y: i32_at(args, 1, UNSET),
        r: i32_at(args, 2, UNSET),
        color: i32_at(args, 3, UNSET),
    }
}

/// `line(x1, y1, x2, y2, color)`: draws a line. Each parameter is -1 unless
/// given.
pub open spec fn line_op(args: Seq<Value>) -> ScreenOpView {
    ScreenOpView::Line {
        x1: i32_at(args, 0, UNSET),
        y1: i32_at(args, 1, UNSET),
        x2: i32_at(args, 2, UNSET),
        y2: i32_at(args, 3, UNSET),
        color: i32_at(args, 4, UNSET),
    }
}

/// `music(id, filename, loops, start_position, channel)`: plays a piece of
/// music. The mixer picks the piece and the channel where they are -1; the
/// piece plays once from its start unless the script says otherwise.
pub open spec fn music_op(args: Seq<Value>) -> SoundOpView {
    SoundOpView::Music {
        id: i32_at(args, 0, UNSET),
        filename: text_at(args, 1),
        channel: i32_at(args, 4, UNSET),
        loops: i32_at(args, 2, 0),
        start_position: i32_at(args, 3, 0),
    }
}

/// `sfx(id, filename, note, panning, rate, loops, channel)`: plays a sound
/// effect.
pub open spec fn sfx_op(args: Seq<Value>) -> SoundOpView {
    SoundOpView::Sfx {
        id: i32_at(args, 0, UNSET),
        filename: text_at(args, 1),
        channel: i32_at(args, 6, UNSET),
        note: u16_at(args, 2, DEFAULT_NOTE),
        panning: i32_at(args, 3, DEFAULT_PANNING),
        rate: i32_at(args, 4, DEFAULT_RATE),
        loops: i32_at(args, 5, 0),
    }
}

/// `btnp(button, player)`: asks whether a button was just pressed. Button and
/// player are the first unless given.
pub open spec fn btnp_op(args: Seq<Value>) -> PlayersOp {
    PlayersOp::Btnp { player: u8_at(args, 1, 0), button: u8_at(args, 0, 0) }
}

/// The host object. It keeps the handles of the engine's resources in the
/// order in which they were registered, and the function registry.
///
/// `I`, `S`, `P` and `A` are the types of the handles of the clock, the
/// raster surface, the input state and the audio mixer. The host object
/// never looks into a handle: it lends it out with the operation to perform.
pub struct JavascriptPluginRust<I, S, P, A> {
    info: Vec<I>,
    screen: Vec<S>,
    players: Vec<P>,
    sound: Vec<A>,
    registry: Registry,
}

impl<I, S, P, A> JavascriptPluginRust<I, S, P, A> {
    /// The handles registered for the clock, oldest first.
    pub closed spec fn infos(&self) -> Seq<I> {
        self.info@
    }

    /// The handles registered for the raster surface, oldest first.
    pub closed spec fn screens(&self) -> Seq<S> {
        self.screen@
    }

    /// The handles registered for the input state, oldest first.
    pub closed spec fn inputs(&self) -> Seq<P> {
        self.players@
    }

    /// The handles registered for the audio mixer, oldest first.
    pub closed spec fn sounds(&self) -> Seq<A> {
        self.sound@
    }

    /// The registrations made so far, oldest first.
    pub closed spec fn log(&self) -> Seq<BindingView> {
        self.registry.log()
    }

    /// The table in force: each opcode with the last binding registered for
    /// it.
    pub open spec fn table(&self) -> Map<i32, BindingView> {
        table_of(self.log())
    }

    /// A handle is registered for the resource.
    pub open spec fn has(&self, resource: Resource) -> bool {
        match resource {
            Resource::Info => self.infos().len() > 0,
            Resource::Screen => self.screens().len() > 0,
            Resource::Players => self.inputs().len() > 0,
            Resource::Sound => self.sounds().len() > 0,
        }
    }

    /// The resource that `handler` works on is there.
    pub open spec fn serves(&self, handler: Handler) -> bool {
        self.has(handler.spec_resource())
    }

    /// All four resources have a handle.
    pub open spec fn wired(&self) -> bool {
        &&& self.has(Resource::Info)
        &&& self.has(Resource::Screen)
        &&& self.has(Resource::Players)
        &&& self.has(Resource::Sound)
    }

    /// An operation on the raster surface, by the first handle registered.
    pub open spec fn on_screen(&self, op: ScreenOpView) -> OutcomeView<I, S, P, A> {
        OutcomeView::Screen(self.screens()[0], op)
    }

    /// An operation on the audio mixer, by the first handle registered.
    pub open spec fn on_sound(&self, op: SoundOpView) -> OutcomeView<I, S, P, A> {
        OutcomeView::Sound(self.sounds()[0], op)
    }

    /// The end of a call that has nothing to tell.
    pub open spec fn nothing() -> OutcomeView<I, S, P, A> {
        OutcomeView::Done(Value::spec_neutral())
    }

    /// What `print` answers: a call with fewer than three arguments is
    /// refused and touches nothing.
    pub open spec fn spec_print(&self, args: Seq<Value>) -> OutcomeView<I, S, P, A> {
        if args.len() < 3 {
            OutcomeView::Done(Value::spec_refused())
        } else {
            self.on_screen(print_op(args))
        }
    }

    /// What the handler answers to the arguments.
    pub open spec fn spec_call(&self, handler: Handler, args: Seq<Value>) -> OutcomeView<
        I,
        S,
        P,
        A,
    > {
        match handler {
            Handler::Pset => self.on_screen(pset_op(args)),
            Handler::Cls => self.on_screen(cls_op(args)),
            Handler::UnicornTime => OutcomeView::Info(self.infos()[0], InfoOp::Time),
            Handler::Print => self.spec_print(args),
            Handler::Spr => self.on_screen(spr_op(args)),
            Handler::Btnp => OutcomeView::Players(self.inputs()[0], btnp_op(args)),
            Handler::Sspr => self.on_screen(sspr_op(args)),
            Handler::Pal => self.on_screen(pal_op(args)),
            Handler::Sfx => self.on_sound(sfx_op(args)),
            Handler::Music => self.on_sound(music_op(args)),
            Handler::Circ => self.on_screen(circ_op(args)),
            Handler::Circfill => self.on_screen(circfill_op(args)),
            Handler::Line => self.on_screen(line_op(args)),
            Handler::Sspr2 => self.on_screen(sspr2_op(args)),
        }
    }

    /// The handler that a raw argument list reaches. The first value names
    /// the opcode: where it is a number and the opcode is bound, the handler
    /// is the one bound to it; any other list reaches no handler.
    pub open spec fn spec_route(&self, raw_args: Seq<Value>) -> Option<Handler> {
        match number_at(raw_args, 0) {
            Some(n) => {
                if self.table().contains_key(n.spec_i32()) {
                    Some(self.table()[n.spec_i32()].handler)
                } else {
                    None
                }
            },
            None => None,
        }
    }

    /// The handler finds its resource, if it reaches for it on these
    /// arguments.
    pub open spec fn can_call(&self, handler: Handler, args: Seq<Value>) -> bool {
        handler.spec_lends(args.len()) ==> self.serves(handler)
    }

    /// The handler that the raw argument list reaches, if it reaches one,
    /// finds its resource, if it reaches for it.
    pub open spec fn can_dispatch(&self, raw_args: Seq<Value>) -> bool {
        match self.spec_route(raw_args) {
            Some(handler) => self.can_call(
                handler,
                raw_args.subrange(1, raw_args.len() as int),
            ),
            None => true,
        }
    }

    /// What the dispatcher answers to a raw argument list: what the handler
    /// that the list reaches answers to the values after the first, and the
    /// neutral reply where the list reaches no handler.
    pub open spec fn spec_dispatch(&self, raw_args: Seq<Value>) -> OutcomeView<I, S, P, A> {
        match self.spec_route(raw_args) {
            Some(handler) => self.spec_call(handler, raw_args.subrange(1, raw_args.len() as int)),
            None => Self::nothing(),
        }
    }

    /// A host object without handles and without bindings.
    pub fn new() -> (host: Self)
        ensures
            host.infos().len() == 0,
            host.screens().len() == 0,
            host.inputs().len() == 0,
            host.sounds().len() == 0,
            host.log() == Seq::<BindingView>::empty(),
    {
        JavascriptPluginRust {
            info: Vec::new(),
            screen: Vec::new(),
            players: Vec::new(),
            sound: Vec::new(),
            registry: Registry::new(),
        }
    }

    /// Registers a handle of the clock. The first one registered is the one
    /// that handlers lend out.
    pub fn set_info(&mut self, info: I)
        ensures
            final(self).infos() == old(self).infos().push(info),
            final(self).screens() == old(self).screens(),
            final(self).inputs() == old(self).inputs(),
            final(self).sounds() == old(self).sounds(),
            final(self).log() == old(self).log(),
    {
        self.info.push(info);
    }

    /// Registers a handle of the raster surface.
    pub fn set_screen(&mut self, screen: S)
        ensures
            final(self).infos() == old(self).infos(),
            final(self).screens() == old(self).screens().push(screen),
            final(self).inputs() == old(self).inputs(),
            final(self).sounds() == old(self).sounds(),
            final(self).log() == old(self).log(),
    {
        self.screen.push(screen);
    }

    /// Registers a handle of the input state.
    pub fn set_players(&mut self, players: P)
        ensures
            final(self).infos() == old(self).infos(),
            final(self).screens() == old(self).screens(),
            final(self).inputs() == old(self).inputs().push(players),
            final(self).sounds() == old(self).sounds(),
            final(self).log() == old(self).log(),
    {
        self.players.push(players);
    }

    /// Registers a handle of the audio mixer.
    pub fn set_sound(&mut self, sound: A)
        ensures
            final(self).infos() == old(self).infos(),
            final(self).screens() == old(self).screens(),
            final(self).inputs() == old(self).inputs(),
            final(self).sounds() == old(self).sounds().push(sound),
            final(self).log() == old(self).log(),
    {
        self.sound.push(sound);
    }

    /// Binds `opcode` to `handler` under `name`. An earlier binding of the
    /// same opcode gives way; every other opcode keeps its binding. Nothing
    /// is asked of the handler here: its resource may be wired later, as
    /// long as it is there when the first call arrives.
    pub fn register(&mut self, opcode: i32, name: &str, handler: Handler, arity: Option<u16>)
        ensures
            final(self).infos() == old(self).infos(),
            final(self).screens() == old(self).screens(),
            final(self).inputs() == old(self).inputs(),
            final(self).sounds() == old(self).sounds(),
            final(self).log() == old(self).log().push(
                BindingView { opcode, name: name@, arity, handler },
            ),
            final(self).table() == old(self).table().insert(
                opcode,
                BindingView { opcode, name: name@, arity, handler },
            ),
    {
        self.registry.register(opcode, name, handler, arity);
    }

    /// The registry, for whoever publishes the names to the interpreter.
    pub fn registry(&self) -> (registry: &Registry)
        ensures
            registry.log() == self.log(),
    {
        &self.registry
    }

    /// Whether a handle is registered for the resource.
    pub fn is_wired(&self, resource: Resource) -> (wired: bool)
        ensures
            wired == self.has(resource),
    {
        match resource {
            Resource::Info => self.info.len() > 0,
            Resource::Screen => self.screen.len() > 0,
            Resource::Players => self.players.len() > 0,
            Resource::Sound => self.sound.len() > 0,
        }
    }

    /// Handler of `cls`.
    pub fn cls(&self, args: &[Value]) -> (out: Outcome<'_, I, S, P, A>)
        requires
            self.has(Resource::Screen),
        ensures
            out@ == self.on_screen(cls_op(args@)),
    {
        Outcome::Screen(&self.screen[0], ScreenOp::Cls { value: get_i8(args, 0, CLEAR_UNSET) })
    }

    /// Handler of `music`.
    pub fn music(&self, args: &[Value]) -> (out: Outcome<'_, I, S, P, A>)
        requires
            self.has(Resource::Sound),
        ensures
            out@ == self.on_sound(music_op(args@)),
    {
        let id: i32 = get_i32(args, 0, UNSET);
        let filename = get_text(args, 1);
        let loops: i32 = get_i32(args, 2, 0);
        let start_position: i32 = get_i32(args, 3, 0);
        let channel: i32 = get_i32(args, 4, UNSET);
        Outcome::Sound(
            &self.sound[0],
            SoundOp::Music { id, filename, channel, loops, start_position },
        )
    }

    /// Handler of `sfx`.
    pub fn sfx(&self, args: &[Value]) -> (out: Outcome<'_, I, S, P, A>)
        requires
            self.has(Resource::Sound),
        ensures
            out@ == self.on_sound(sfx_op(args@)),
    {
        let id: i32 = get_i32(args, 0, UNSET);
        let filename = get_text(args, 1);
        let note: u16 = get_u16(args, 2, DEFAULT_NOTE);
        let panning: i32 = get_i32(args, 3, DEFAULT_PANNING);
        let rate: i32 = get_i32(args, 4, DEFAULT_RATE);
        let loops: i32 = get_i32(args, 5, 0);
        let channel: i32 = get_i32(args, 6, UNSET);
        Outcome::Sound(
            &self.sound[0],
            SoundOp::Sfx { id, filename, channel, note, panning, rate, loops },
        )
    }

    /// Handler of `btnp`.
    pub fn btnp(&self, args: &[Value]) -> (out: Outcome<'_, I, S, P, A>)
        requires
            self.has(Resource::Players),
        ensures
            out@ == OutcomeView::<I, S, P, A>::Players(self.inputs()[0], btnp_op(args@)),
    {
        let button: u8 = get_u8(args, 0, 0);
        let player: u8 = get_u8(args, 1, 0);
        Outcome::Players(&self.players[0], PlayersOp::Btnp { player, button })
    }

    /// Handler of `unicorn_time`. It takes no argument and ignores any.
    pub fn unicorn_time(&self, args: &[Value]) -> (out: Outcome<'_, I, S, P, A>)
        requires
            self.has(Resource::Info),
        ensures
            out@ == OutcomeView::<I, S, P, A>::Info(self.infos()[0], InfoOp::Time),
    {
        Outcome::Info(&self.info[0], InfoOp::Time)
    }

    /// Handler of `print`. Unlike every other handler it refuses a call that
    /// is too short: with fewer than three arguments the script gets minus
    /// one and the surface is left alone.
    pub fn print(&self, args: &[Value]) -> (out: Outcome<'_, I, S, P, A>)
        requires
            args@.len() >= 3 ==> self.has(Resource::Screen),
        ensures
            out@ == self.spec_print(args@),
    {
        if args.len() < 3 {
            return Outcome::Done(Value::refused());
        }
        let text = get_text(args, 0);
        let x: i32 = get_i32(args, 1, 0);
        let y: i32 = get_i32(args, 2, 0);
        let color: i32 = get_i32(args, 3, UNSET);
        Outcome::Screen(&self.screen[0], ScreenOp::Print { text, x, y, color })
    }

    /// Handler of `pset`.
    pub fn pset(&self, args: &[Value]) -> (out: Outcome<'_, I, S, P, A>)
        requires
            self.has(Resource::Screen),
        ensures
            out@ == self.on_screen(pset_op(args@)),
    {
        let x: i32 = get_i32(args, 0, UNSET);
        let y: i32 = get_i32(args, 1, UNSET);
        let color: i32 = get_i32(args, 2, UNSET);
        Outcome::Screen(&self.screen[0], ScreenOp::Pset { x, y, color })
    }

    /// Handler of `spr`.
    pub fn spr(&self, args: &[Value]) -> (out: Outcome<'_, I, S, P, A>)
        requires
            self.has(Resource::Screen),
        ensures
            out@ == self.on_screen(spr_op(args@)),
    {
        let n: u32 = get_u32(args, 0, 0);
        let x: i32 = get_i32(args, 1, 0);
        let y: i32 = get_i32(args, 2, 0);
        let w: u32 = get_u32(args, 3, 1);
        let h: u32 = get_u32(args, 4, 1);
        let flip_x: bool = get_bool(args, 5, false);
        let flip_y: bool = get_bool(args, 6, false);
        Outcome::Screen(&self.screen[0], ScreenOp::Spr { n, x, y, w, h, flip_x, flip_y })
    }

    /// Handler of `sspr`.
    pub fn sspr(&self, args: &[Value]) -> (out: Outcome<'_, I, S, P, A>)
        requires
            self.has(Resource::Screen),
        ensures
            out@ == self.on_screen(sspr_op(args@)),
    {
        let sx: u32 = get_u32(args, 0, 0);
        let sy: u32 = get_u32(args, 1, 0);
        let sw: u32 = get_u32(args, 2, 0);
        let sh: u32 = get_u32(args, 3, 0);
        let dx: i32 = get_i32(args, 4, 0);
        let dy: i32 = get_i32(args, 5, 0);
        let dw: u32 = get_u32(args, 6, sw);
        let dh: u32 = get_u32(args, 7, sh);
        let flip_x: bool = get_bool(args, 8, false);
        let flip_y: bool = get_bool(args, 9, false);
        Outcome::Screen(
            &self.screen[0],
            ScreenOp::Sspr { sx, sy, sw, sh, dx, dy, dw, dh, flip_x, flip_y },
        )
    }

    /// Handler of `sspr2`.
    pub fn sspr2(&self, args: &[Value]) -> (out: Outcome<'_, I, S, P, A>)
        requires
            self.has(Resource::Screen),
        ensures
            out@ == self.on_screen(sspr2_op(args@)),
    {
        let sx: u32 = get_u32(args, 0, 0);
        let sy: u32 = get_u32(args, 1, 0);
        let sw: u32 = get_u32(args, 2, 0);
        let sh: u32 = get_u32(args, 3, 0);
        let dx: i32 = get_i32(args, 4, 0);
        let dy: i32 = get_i32(args, 5, 0);
        let angle: Number = get_real(args, 6, Number::zero());
        let zoom: Number = get_real(args, 7, Number::one());
        let flip_x: bool = get_bool(args, 8, false);
        let flip_y: bool = get_bool(args, 9, false);
        Outcome::Screen(
            &self.screen[0],
            ScreenOp::Sspr2 { sx, sy, sw, sh, dx, dy, angle, zoom, flip_x, flip_y },
        )
    }

    /// Handler of `pal`.
    pub fn pal(&self, args: &[Value]) -> (out: Outcome<'_, I, S, P, A>)
        requires
            self.has(Resource::Screen),
        ensures
            out@ == self.on_screen(pal_op(args@)),
    {
        let c0: i32 = get_i32(args, 0, UNSET);
        let c1: i32 = get_i32(args, 1, UNSET);
        Outcome::Screen(&self.screen[0], ScreenOp::Pal { c0, c1 })
    }

    /// Handler of `circ`.
    pub fn circ(&self, args: &[Value]) -> (out: Outcome<'_, I, S, P, A>)
        requires
            self.has(Resource::Screen),
        ensures
            out@ == self.on_screen(circ_op(args@)),
    {
        let x: i32 = get_i32(args, 0, UNSET);
        let y: i32 = get_i32(args, 1, UNSET);
        let r: i32 = get_i32(args, 2, UNSET);
        let color: i32 = get_i32(args, 3, UNSET);
        Outcome::Screen(&self.screen[0], ScreenOp::Circ { x, y, r, color })
    }

    /// Handler of `circfill`.
    pub fn circfill(&self, args: &[Value]) -> (out: Outcome<'_, I, S, P, A>)
        requires
            self.has(Resource::Screen),
        ensures
            out@ == self.on_screen(circfill_op(args@)),
    {
        let x: i32 = get_i32(args, 0, UNSET);
        let y: i32 = get_i32(args, 1, UNSET);
        let r: i32 = get_i32(args, 2, UNSET);
        let color: i32 = get_i32(args, 3, UNSET);
        Outcome::Screen(&self.screen[0], ScreenOp::Circfill { x, y, r, color })
    }

    /// Handler of `line`.
    pub fn line(&self, args: &[Value]) -> (out: Outcome<'_, I, S, P, A>)
        requires
            self.has(Resource::Screen),
        ensures
            out@ == self.on_screen(line_op(args@)),
    {
        let x1: i32 = get_i32(args, 0, UNSET);
        let y1: i32 = get_i32(args, 1, UNSET);
        let x2: i32 = get_i32(args, 2, UNSET);
        let y2: i32 = get_i32(args, 3, UNSET);
        let color: i32 = get_i32(args, 4, UNSET);
        Outcome::Screen(&self.screen[0], ScreenOp::Line { x1, y1, x2, y2, color })
    }

    /// Hands the arguments to the handler.
    pub fn call(&self, handler: Handler, args: &[Value]) -> (out: Outcome<'_, I, S, P, A>)
        requires
            self.can_call(handler, args@),
        ensures
            out@ == self.spec_call(handler, args@),
    {
        match handler {
            Handler::Pset => self.pset(args),
            Handler::Cls => self.cls(args),
            Handler::UnicornTime => self.unicorn_time(args),
            Handler::Print => self.print(args),
            Handler::Spr => self.spr(args),
            Handler::Btnp => self.btnp(args),
            Handler::Sspr => self.sspr(args),
            Handler::Pal => self.pal(args),
            Handler::Sfx => self.sfx(args),
            Handler::Music => self.music(args),
            Handler::Circ => self.circ(args),
            Handler::Circfill => self.circfill(args),
            Handler::Line => self.line(args),
            Handler::Sspr2 => self.sspr2(args),
        }
    }

    /// Finds the handler that a raw argument list reaches.
    pub fn route(&self, raw_args: &[Value]) -> (handler: Option<Handler>)
        ensures
            handler == self.spec_route(raw_args@),
    {
        match get_number(raw_args, 0) {
            None => None,
            Some(n) => {
                match self.registry.lookup(n.to_i32()) {
                    None => None,
                    Some(binding) => Some(binding.handler),
                }
            },
        }
    }

    /// The one entry point for the interpreter. `raw_args` is the opcode
    /// followed by the arguments that the script wrote. A list that does not
    /// start with a number, or whose opcode is not bound, ends the call with
    /// the neutral reply: a malformed call never stops a script.
    pub fn dispatch(&self, raw_args: &[Value]) -> (out: Outcome<'_, I, S, P, A>)
        requires
            self.can_dispatch(raw_args@),
        ensures
            out@ == self.spec_dispatch(raw_args@),
    {
        match self.route(raw_args) {
            None => Outcome::Done(Value::neutral()),
            Some(handler) => self.call(handler, slice_subrange(raw_args, 1, raw_args.len())),
        }
    }

    /// The dispatcher for a caller that cannot tell whether the resources
    /// are wired: it answers `None`, and does nothing, where the handler that
    /// the call reaches does not find its resource.
    pub fn try_dispatch(&self, raw_args: &[Value]) -> (out: Option<Outcome<'_, I, S, P, A>>)
        ensures
            match out {
                Some(outcome) => self.can_dispatch(raw_args@) && outcome@ == self.spec_dispatch(
                    raw_args@,
                ),
                None => !self.can_dispatch(raw_args@),
            },
    {
        match self.route(raw_args) {
            None => Some(Outcome::Done(Value::neutral())),
            Some(handler) => {
                let args = slice_subrange(raw_args, 1, raw_args.len());
                if !handler.lends(args.len()) || self.is_wired(handler.resource()) {
                    Some(self.call(handler, args))
                } else {
                    None
                }
            },
        }
    }
}

} // verus!
