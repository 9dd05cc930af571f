//! The script runtime bridge: the life of a script in the engine.
//!
//! The engine wires the bridge once, loads a script, and afterwards calls
//! the script's hooks: `_init` once, `_update` and `_draw` every frame. The
//! bridge decides whether a hook may run. Evaluating is the interpreter's
//! work: the bridge names the script to evaluate and is told how it went.

use vstd::prelude::*;
use crate::host::JavascriptPluginRust;
use crate::registry::{BindingView, Handler};

verus! {

/// The hooks that a script may define.
#[derive(Clone, Copy, Debug, PartialEq, Eq, Structural)]
pub enum Hook {
    Init,
    Update,
    Draw,
}

impl Hook {
    /// The script text that calls the hook.
    pub open spec fn spec_script(self) -> Seq<char> {
        match self {
            Hook::Init => "_init();"@,
            Hook::Update => "_update();"@,
            Hook::Draw => "_draw();"@,
        }
    }

    /// The script text that calls the hook.
    pub fn script(self) -> (text: &'static str)
        ensures
            text@ == self.spec_script(),
    {
        match self {
            Hook::Init => "_init();",
            Hook::Update => "_update();",
            Hook::Draw => "_draw();",
        }
    }
}

/// What the bridge asks of the interpreter for one lifecycle call.
#[derive(Clone, Copy, Debug, PartialEq, Eq, Structural)]
pub enum Step {
    /// Nothing: no script is loaded.
    Idle,
    /// Evaluate the call of this hook. Whether the evaluation succeeds is of
    /// no consequence to the bridge: the hook runs again next time.
    Evaluate(Hook),
}

impl Step {
    /// Whether a hook is run.
    pub open spec fn spec_attempted(self) -> bool {
        self is Evaluate
    }

    /// Whether a hook is run.
    pub fn attempted(self) -> (attempted: bool)
        ensures
            attempted == self.spec_attempted(),
    {
        match self {
            Step::Idle => false,
            Step::Evaluate(_) => true,
        }
    }
}

/// A binding of the host interface.
pub open spec fn standard(opcode: i32, name: &str, arity: u16, handler: Handler) -> BindingView {
    BindingView { opcode, name: name@, arity: Some(arity), handler }
}

/// The host interface: the functions that every script finds, with the
/// opcode and the arity under which each is registered.
pub open spec fn standard_bindings() -> Seq<BindingView> {
    seq![
        standard(0x1, "pset", 3, Handler::Pset),
        standard(0x2, "cls", 1, Handler::Cls),
        standard(0x3, "unicorn_time", 0, Handler::UnicornTime),
        standard(0x4, "print", 4, Handler::Print),
        standard(0x5, "spr", 7, Handler::Spr),
        standard(0x6, "btnp", 2, Handler::Btnp),
        standard(0x7, "sspr", 10, Handler::Sspr),
        standard(0x8, "pal", 2, Handler::Pal),
        standard(0x9, "sfx", 7, Handler::Sfx),
        standard(0x10, "music", 5, Handler::Music),
        standard(0x11, "circ", 4, Handler::Circ),
        standard(0x12, "circfill", 4, Handler::Circfill),
        standard(0x13, "line", 5, Handler::Line),
        standard(0x14, "sspr2", 10, Handler::Sspr2),
    ]
}

/// The bridge: the host object, and whether a script is loaded.
pub struct JavascriptPlugin<I, S, P, A> {
    javascript: JavascriptPluginRust<I, S, P, A>,
    loaded_code: bool,
}

impl<I, S, P, A> JavascriptPlugin<I, S, P, A> {
    /// The host object.
    pub closed spec fn host(&self) -> JavascriptPluginRust<I, S, P, A> {
        self.javascript
    }

    /// A script is loaded: the last evaluation of a source succeeded.
    pub closed spec fn loaded(&self) -> bool {
        self.loaded_code
    }

    /// What a lifecycle call asks of the interpreter.
    pub open spec fn spec_step(&self, hook: Hook) -> Step {
        if self.loaded() {
            Step::Evaluate(hook)
        } else {
            Step::Idle
        }
    }

    /// `after` is the bridge that `load_code` leaves behind when it is told
    /// `evaluated` on the bridge `self`.
    pub open spec fn loads_to(&self, evaluated: bool, after: &Self) -> bool {
        after.loaded() == evaluated && after.host() == self.host()
    }

    /// A bridge with nothing wired and no script loaded.
    pub fn new() -> (bridge: Self)
        ensures
            !bridge.loaded(),
            bridge.host().infos().len() == 0,
            bridge.host().screens().len() == 0,
            bridge.host().inputs().len() == 0,
            bridge.host().sounds().len() == 0,
            bridge.host().log() == Seq::<BindingView>::empty(),
    {
        JavascriptPlugin { javascript: JavascriptPluginRust::new(), loaded_code: false }
    }

    /// Wires the bridge: registers the four handles, and binds the host
    /// interface on top of whatever was bound before. The noise generator is
    /// taken for the engine's convenience and not used.
    pub fn load<N>(&mut self, players: P, info: I, screen: S, noise: N, sound: A)
        ensures
            final(self).host().wired(),
            final(self).host().infos() == old(self).host().infos().push(info),
            final(self).host().screens() == old(self).host().screens().push(screen),
            final(self).host().inputs() == old(self).host().inputs().push(players),
            final(self).host().sounds() == old(self).host().sounds().push(sound),
            final(self).host().log() == old(self).host().log() + standard_bindings(),
            final(self).loaded() == old(self).loaded(),
    {
        self.javascript.set_info(info);
        self.javascript.set_screen(screen);
        self.javascript.set_players(players);
        self.javascript.set_sound(sound);

        self.javascript.register(0x1, "pset", Handler::Pset, Some(3));
        self.javascript.register(0x2, "cls", Handler::Cls, Some(1));
        self.javascript.register(0x3, "unicorn_time", Handler::UnicornTime, Some(0));
        self.javascript.register(0x4, "print", Handler::Print, Some(4));
        self.javascript.register(0x5, "spr", Handler::Spr, Some(7));
        self.javascript.register(0x6, "btnp", Handler::Btnp, Some(2));
        self.javascript.register(0x7, "sspr", Handler::Sspr, Some(10));
        self.javascript.register(0x8, "pal", Handler::Pal, Some(2));
        self.javascript.register(0x9, "sfx", Handler::Sfx, Some(7));
        self.javascript.register(0x10, "music", Handler::Music, Some(5));
        self.javascript.register(0x11, "circ", Handler::Circ, Some(4));
        self.javascript.register(0x12, "circfill", Handler::Circfill, Some(4));
        self.javascript.register(0x13, "line", Handler::Line, Some(5));
        self.javascript.register(0x14, "sspr2", Handler::Sspr2, Some(10));
        proof {
            assert(self.host().log() =~= old(self).host().log() + standard_bindings());
        }
    }

    /// Takes note of how the evaluation of a script source ended. A script
    /// is loaded from a success on and until the next failure: a source that
    /// fails unloads whatever was loaded before it.
    pub fn load_code(&mut self, evaluated: bool) -> (loaded: bool)
        ensures
            loaded == evaluated,
            old(self).loads_to(evaluated, final(self)),
    {
        self.loaded_code = evaluated;
        self.loaded_code
    }

    /// The start of the script: its `_init` hook, if a script is loaded.
    pub fn init(&mut self) -> (step: Step)
        ensures
            step == old(self).spec_step(Hook::Init),
            *final(self) == *old(self),
    {
        if !self.loaded_code {
            return Step::Idle;
        }
        Step::Evaluate(Hook::Init)
    }

    /// The drawing of one frame: the `_draw` hook, if a script is loaded.
    pub fn draw(&mut self) -> (step: Step)
        ensures
            step == old(self).spec_step(Hook::Draw),
            *final(self) == *old(self),
    {
        if !self.loaded_code {
            return Step::Idle;
        }
        Step::Evaluate(Hook::Draw)
    }

    /// The update of one frame: the `_update` hook, if a script is loaded.
    pub fn update(&mut self) -> (step: Step)
        ensures
            step == old(self).spec_step(Hook::Update),
            *final(self) == *old(self),
    {
        if !self.loaded_code {
            return Step::Idle;
        }
        Step::Evaluate(Hook::Update)
    }

    /// Whether a script is loaded.
    pub fn is_loaded(&self) -> (loaded: bool)
        ensures
            loaded == self.loaded(),
    {
        self.loaded_code
    }

    /// The host object, to which the interpreter hands every host call.
    pub fn javascript(&self) -> (host: &JavascriptPluginRust<I, S, P, A>)
        ensures
            *host == self.host(),
    {
        &self.javascript
    }
}

} // verus!
