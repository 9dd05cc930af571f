use unicorn_script::call::{InfoOp, Outcome, PlayersOp, Resource, ScreenOp, SoundOp};
use unicorn_script::host::JavascriptPluginRust;
use unicorn_script::number::Number;
use unicorn_script::registry::Handler;
use unicorn_script::value::Value;

#[derive(Debug, PartialEq)]
struct Clock(u8);

#[derive(Debug, PartialEq)]
struct Surface(u8);

#[derive(Debug, PartialEq)]
struct Pads(u8);

#[derive(Debug, PartialEq)]
struct Mixer(u8);

type Host = JavascriptPluginRust<Clock, Surface, Pads, Mixer>;

fn host() -> Host {
    let mut host = Host::new();
    host.set_info(Clock(1));
    host.set_screen(Surface(2));
    host.set_players(Pads(3));
    host.set_sound(Mixer(4));
    host
}

fn num(x: f64) -> Value {
    Value::Number(Number::from_bits(x.to_bits()))
}

fn nums(xs: &[f64]) -> Vec<Value> {
    xs.iter().map(|x| num(*x)).collect()
}

fn text(s: &str) -> Value {
    Value::String(s.to_string())
}

#[test]
fn cls_takes_its_value() {
    let host = host();
    assert_eq!(host.cls(&nums(&[3.0])), Outcome::Screen(&Surface(2), ScreenOp::Cls { value: 3 }));
    assert_eq!(host.cls(&nums(&[300.0])), Outcome::Screen(&Surface(2), ScreenOp::Cls { value: 127 }));
}

#[test]
fn cls_without_a_value_clears_with_minus_one() {
    let host = host();
    assert_eq!(host.cls(&[]), Outcome::Screen(&Surface(2), ScreenOp::Cls { value: -1 }));
    assert_eq!(host.cls(&[text("7")]), Outcome::Screen(&Surface(2), ScreenOp::Cls { value: -1 }));
}

#[test]
fn pset_with_three_arguments() {
    let host = host();
    assert_eq!(
        host.pset(&nums(&[10.0, 20.0, 7.0])),
        Outcome::Screen(&Surface(2), ScreenOp::Pset { x: 10, y: 20, color: 7 })
    );
}

#[test]
fn pset_with_two_arguments_leaves_the_color_unset() {
    let host = host();
    assert_eq!(
        host.pset(&nums(&[10.0, 20.0])),
        Outcome::Screen(&Surface(2), ScreenOp::Pset { x: 10, y: 20, color: -1 })
    );
}

#[test]
fn pset_defaults_every_parameter_to_minus_one() {
    let host = host();
    assert_eq!(
        host.pset(&[]),
        Outcome::Screen(&Surface(2), ScreenOp::Pset { x: -1, y: -1, color: -1 })
    );
    assert_eq!(
        host.pset(&[num(4.0)]),
        Outcome::Screen(&Surface(2), ScreenOp::Pset { x: 4, y: -1, color: -1 })
    );
    assert_eq!(
        host.pset(&[text("x"), num(5.0), Value::Bool(true)]),
        Outcome::Screen(&Surface(2), ScreenOp::Pset { x: -1, y: 5, color: -1 })
    );
}

#[test]
fn print_with_four_arguments() {
    let host = host();
    assert_eq!(
        host.print(&[text("hello"), num(1.0), num(2.0), num(8.0)]),
        Outcome::Screen(
            &Surface(2),
            ScreenOp::Print { text: "hello".to_string(), x: 1, y: 2, color: 8 }
        )
    );
}

#[test]
fn print_with_three_arguments_leaves_the_color_unset() {
    let host = host();
    assert_eq!(
        host.print(&[text("hello"), num(1.0), num(2.0)]),
        Outcome::Screen(
            &Surface(2),
            ScreenOp::Print { text: "hello".to_string(), x: 1, y: 2, color: -1 }
        )
    );
}

#[test]
fn print_with_two_arguments_is_refused() {
    let host = host();
    let out = host.print(&[text("hello"), num(1.0)]);
    assert_eq!(out, Outcome::Done(num(-1.0)));
    assert_eq!(out.resource(), None);
    assert_eq!(host.print(&[text("hello")]), Outcome::Done(num(-1.0)));
    assert_eq!(host.print(&[]), Outcome::Done(num(-1.0)));
}

#[test]
fn print_defaults_mistyped_parameters() {
    let host = host();
    assert_eq!(
        host.print(&[num(1.0), text("a"), Value::Undefined, Value::Bool(false)]),
        Outcome::Screen(&Surface(2), ScreenOp::Print { text: String::new(), x: 0, y: 0, color: -1 })
    );
}

#[test]
fn spr_with_every_argument() {
    let host = host();
    assert_eq!(
        host.spr(&[
            num(5.0),
            num(-8.0),
            num(16.0),
            num(2.0),
            num(3.0),
            Value::Bool(true),
            Value::Bool(true)
        ]),
        Outcome::Screen(
            &Surface(2),
            ScreenOp::Spr { n: 5, x: -8, y: 16, w: 2, h: 3, flip_x: true, flip_y: true }
        )
    );
}

#[test]
fn spr_defaults() {
    let host = host();
    assert_eq!(
        host.spr(&nums(&[5.0, 8.0, 16.0])),
        Outcome::Screen(
            &Surface(2),
            ScreenOp::Spr { n: 5, x: 8, y: 16, w: 1, h: 1, flip_x: false, flip_y: false }
        )
    );
    assert_eq!(
        host.spr(&[]),
        Outcome::Screen(
            &Surface(2),
            ScreenOp::Spr { n: 0, x: 0, y: 0, w: 1, h: 1, flip_x: false, flip_y: false }
        )
    );
    // A number is no flag.
    assert_eq!(
        host.spr(&nums(&[5.0, 8.0, 16.0, 2.0, 2.0, 1.0, 1.0])),
        Outcome::Screen(
            &Surface(2),
            ScreenOp::Spr { n: 5, x: 8, y: 16, w: 2, h: 2, flip_x: false, flip_y: false }
        )
    );
}

#[test]
fn sspr_with_every_argument() {
    let host = host();
    assert_eq!(
        host.sspr(&[
            num(1.0),
            num(2.0),
            num(3.0),
            num(4.0),
            num(-5.0),
            num(-6.0),
            num(7.0),
            num(8.0),
            Value::Bool(true),
            Value::Bool(false)
        ]),
        Outcome::Screen(
            &Surface(2),
            ScreenOp::Sspr {
                sx: 1,
                sy: 2,
                sw: 3,
                sh: 4,
                dx: -5,
                dy: -6,
                dw: 7,
                dh: 8,
                flip_x: true,
                flip_y: false
            }
        )
    );
}

#[test]
fn sspr_without_destination_size_takes_the_source_size() {
    let host = host();
    assert_eq!(
        host.sspr(&nums(&[8.0, 16.0, 24.0, 32.0, 40.0, 48.0])),
        Outcome::Screen(
            &Surface(2),
            ScreenOp::Sspr {
                sx: 8,
                sy: 16,
                sw: 24,
                sh: 32,
                dx: 40,
                dy: 48,
                dw: 24,
                dh: 32,
                flip_x: false,
                flip_y: false
            }
        )
    );
}

#[test]
fn sspr_with_one_destination_size_takes_the_other_from_the_source() {
    let host = host();
    assert_eq!(
        host.sspr(&nums(&[8.0, 16.0, 24.0, 32.0, 40.0, 48.0, 100.0])),
        Outcome::Screen(
            &Surface(2),
            ScreenOp::Sspr {
                sx: 8,
                sy: 16,
                sw: 24,
                sh: 32,
                dx: 40,
                dy: 48,
                dw: 100,
                dh: 32,
                flip_x: false,
                flip_y: false
            }
        )
    );
    assert_eq!(
        host.sspr(&[
            num(8.0),
            num(16.0),
            num(24.0),
            num(32.0),
            num(40.0),
            num(48.0),
            Value::Undefined,
            num(64.0)
        ]),
        Outcome::Screen(
            &Surface(2),
            ScreenOp::Sspr {
                sx: 8,
                sy: 16,
                sw: 24,
                sh: 32,
                dx: 40,
                dy: 48,
                dw: 24,
                dh: 64,
                flip_x: false,
                flip_y: false
            }
        )
    );
}

#[test]
fn sspr_without_arguments() {
    let host = host();
    assert_eq!(
        host.sspr(&[]),
        Outcome::Screen(
            &Surface(2),
            ScreenOp::Sspr {
                sx: 0,
                sy: 0,
                sw: 0,
                sh: 0,
                dx: 0,
                dy: 0,
                dw: 0,
                dh: 0,
                flip_x: false,
                flip_y: false
            }
        )
    );
}

#[test]
fn sspr2_with_every_argument() {
    let host = host();
    assert_eq!(
        host.sspr2(&[
            num(1.0),
            num(2.0),
            num(3.0),
            num(4.0),
            num(5.0),
            num(6.0),
            num(0.5),
            num(2.25),
            Value::Bool(false),
            Value::Bool(true)
        ]),
        Outcome::Screen(
            &Surface(2),
            ScreenOp::Sspr2 {
                sx: 1,
                sy: 2,
                sw: 3,
                sh: 4,
                dx: 5,
                dy: 6,
                angle: Number::from_bits(0.5f64.to_bits()),
                zoom: Number::from_bits(2.25f64.to_bits()),
                flip_x: false,
                flip_y: true
            }
        )
    );
}

#[test]
fn sspr2_defaults_to_no_rotation_and_unit_zoom() {
    let host = host();
    let out = host.sspr2(&nums(&[1.0, 2.0, 3.0, 4.0, 5.0, 6.0]));
    assert_eq!(
        out,
        Outcome::Screen(
            &Surface(2),
            ScreenOp::Sspr2 {
                sx: 1,
                sy: 2,
                sw: 3,
                sh: 4,
                dx: 5,
                dy: 6,
                angle: Number::from_bits(0.0f64.to_bits()),
                zoom: Number::from_bits(1.0f64.to_bits()),
                flip_x: false,
                flip_y: false
            }
        )
    );
}

#[test]
fn pal_swaps_what_it_is_given() {
    let host = host();
    assert_eq!(host.pal(&nums(&[3.0, 9.0])), Outcome::Screen(&Surface(2), ScreenOp::Pal { c0: 3, c1: 9 }));
    assert_eq!(host.pal(&nums(&[3.0])), Outcome::Screen(&Surface(2), ScreenOp::Pal { c0: 3, c1: -1 }));
    assert_eq!(host.pal(&[]), Outcome::Screen(&Surface(2), ScreenOp::Pal { c0: -1, c1: -1 }));
}

#[test]
fn circ_binds_all_four_parameters() {
    let host = host();
    assert_eq!(
        host.circ(&nums(&[10.0, 11.0, 12.0, 13.0])),
        Outcome::Screen(&Surface(2), ScreenOp::Circ { x: 10, y: 11, r: 12, color: 13 })
    );
    assert_eq!(
        host.circ(&nums(&[10.0, 11.0])),
        Outcome::Screen(&Surface(2), ScreenOp::Circ { x: 10, y: 11, r: -1, color: -1 })
    );
}

#[test]
fn circfill_binds_all_four_parameters() {
    let host = host();
    assert_eq!(
        host.circfill(&nums(&[10.0, 11.0, 12.0, 13.0])),
        Outcome::Screen(&Surface(2), ScreenOp::Circfill { x: 10, y: 11, r: 12, color: 13 })
    );
    assert_eq!(
        host.circfill(&[]),
        Outcome::Screen(&Surface(2), ScreenOp::Circfill { x: -1, y: -1, r: -1, color: -1 })
    );
}

#[test]
fn line_binds_all_five_parameters() {
    let host = host();
    assert_eq!(
        host.line(&nums(&[1.0, 2.0, 3.0, 4.0, 5.0])),
        Outcome::Screen(&Surface(2), ScreenOp::Line { x1: 1, y1: 2, x2: 3, y2: 4, color: 5 })
    );
    assert_eq!(
        host.line(&nums(&[1.0, 2.0, 3.0])),
        Outcome::Screen(&Surface(2), ScreenOp::Line { x1: 1, y1: 2, x2: 3, y2: -1, color: -1 })
    );
}

#[test]
fn music_reads_loops_start_and_channel_in_that_order() {
    let host = host();
    assert_eq!(
        host.music(&[num(2.0), text("tune.xm"), num(3.0), num(40.0), num(1.0)]),
        Outcome::Sound(
            &Mixer(4),
            SoundOp::Music {
                id: 2,
                filename: "tune.xm".to_string(),
                channel: 1,
                loops: 3,
                start_position: 40
            }
        )
    );
}

#[test]
fn music_defaults() {
    let host = host();
    assert_eq!(
        host.music(&[]),
        Outcome::Sound(
            &Mixer(4),
            SoundOp::Music {
                id: -1,
                filename: String::new(),
                channel: -1,
                loops: 0,
                start_position: 0
            }
        )
    );
}

#[test]
fn sfx_binds_all_seven_parameters() {
    let host = host();
    assert_eq!(
        host.sfx(&[num(1.0), text("hit.wav"), num(440.0), num(32.0), num(60.0), num(2.0), num(5.0)]),
        Outcome::Sound(
            &Mixer(4),
            SoundOp::Sfx {
                id: 1,
                filename: "hit.wav".to_string(),
                channel: 5,
                note: 440,
                panning: 32,
                rate: 60,
                loops: 2
            }
        )
    );
}

#[test]
fn sfx_defaults() {
    let host = host();
    assert_eq!(
        host.sfx(&[num(1.0)]),
        Outcome::Sound(
            &Mixer(4),
            SoundOp::Sfx {
                id: 1,
                filename: String::new(),
                channel: -1,
                note: 13312,
                panning: 64,
                rate: 50,
                loops: 0
            }
        )
    );
}

#[test]
fn btnp_reads_the_button_before_the_player() {
    let host = host();
    assert_eq!(
        host.btnp(&nums(&[4.0, 1.0])),
        Outcome::Players(&Pads(3), PlayersOp::Btnp { player: 1, button: 4 })
    );
    assert_eq!(
        host.btnp(&nums(&[4.0])),
        Outcome::Players(&Pads(3), PlayersOp::Btnp { player: 0, button: 4 })
    );
    assert_eq!(host.btnp(&[]), Outcome::Players(&Pads(3), PlayersOp::Btnp { player: 0, button: 0 }));
    assert_eq!(
        host.btnp(&[text("a"), Value::Bool(true)]),
        Outcome::Players(&Pads(3), PlayersOp::Btnp { player: 0, button: 0 })
    );
}

#[test]
fn unicorn_time_asks_the_clock() {
    let host = host();
    assert_eq!(host.unicorn_time(&[]), Outcome::Info(&Clock(1), InfoOp::Time));
    assert_eq!(host.unicorn_time(&nums(&[1.0, 2.0])), Outcome::Info(&Clock(1), InfoOp::Time));
}

#[test]
fn the_first_handle_registered_is_the_one_lent_out() {
    let mut host = host();
    host.set_screen(Surface(20));
    host.set_sound(Mixer(40));
    host.set_info(Clock(10));
    host.set_players(Pads(30));
    assert_eq!(host.cls(&[]), Outcome::Screen(&Surface(2), ScreenOp::Cls { value: -1 }));
    assert_eq!(host.unicorn_time(&[]), Outcome::Info(&Clock(1), InfoOp::Time));
    assert_eq!(host.btnp(&[]), Outcome::Players(&Pads(3), PlayersOp::Btnp { player: 0, button: 0 }));
    assert!(matches!(host.music(&[]), Outcome::Sound(&Mixer(4), _)));
}

#[test]
fn every_handler_lends_out_its_own_resource() {
    let host = host();
    let args = nums(&[1.0, 2.0, 3.0, 4.0]);
    let handlers = [
        Handler::Pset,
        Handler::Cls,
        Handler::UnicornTime,
        Handler::Print,
        Handler::Spr,
        Handler::Btnp,
        Handler::Sspr,
        Handler::Pal,
        Handler::Sfx,
        Handler::Music,
        Handler::Circ,
        Handler::Circfill,
        Handler::Line,
        Handler::Sspr2,
    ];
    for handler in handlers {
        assert_eq!(host.call(handler, &args).resource(), Some(handler.resource()));
    }
    assert_eq!(Handler::Pset.resource(), Resource::Screen);
    assert_eq!(Handler::Print.resource(), Resource::Screen);
    assert_eq!(Handler::Sspr2.resource(), Resource::Screen);
    assert_eq!(Handler::Music.resource(), Resource::Sound);
    assert_eq!(Handler::Sfx.resource(), Resource::Sound);
    assert_eq!(Handler::Btnp.resource(), Resource::Players);
    assert_eq!(Handler::UnicornTime.resource(), Resource::Info);
}

#[test]
fn call_hands_the_arguments_to_the_handler() {
    let host = host();
    let args = nums(&[9.0, 8.0, 7.0, 6.0, 5.0]);
    assert_eq!(host.call(Handler::Pset, &args), host.pset(&args));
    assert_eq!(host.call(Handler::Cls, &args), host.cls(&args));
    assert_eq!(host.call(Handler::UnicornTime, &args), host.unicorn_time(&args));
    assert_eq!(host.call(Handler::Print, &args), host.print(&args));
    assert_eq!(host.call(Handler::Spr, &args), host.spr(&args));
    assert_eq!(host.call(Handler::Btnp, &args), host.btnp(&args));
    assert_eq!(host.call(Handler::Sspr, &args), host.sspr(&args));
    assert_eq!(host.call(Handler::Pal, &args), host.pal(&args));
    assert_eq!(host.call(Handler::Sfx, &args), host.sfx(&args));
    assert_eq!(host.call(Handler::Music, &args), host.music(&args));
    assert_eq!(host.call(Handler::Circ, &args), host.circ(&args));
    assert_eq!(host.call(Handler::Circfill, &args), host.circfill(&args));
    assert_eq!(host.call(Handler::Line, &args), host.line(&args));
    assert_eq!(host.call(Handler::Sspr2, &args), host.sspr2(&args));
}

#[test]
fn replies() {
    assert_eq!(ScreenOp::Cls { value: 0 }.reply(), num(0.0));
    assert_eq!(ScreenOp::Pal { c0: 1, c1: 2 }.reply(), num(0.0));
    assert_eq!(
        SoundOp::Music { id: 0, filename: String::new(), channel: 0, loops: 0, start_position: 0 }
            .reply(),
        num(0.0)
    );
    assert_eq!(PlayersOp::Btnp { player: 0, button: 1 }.reply(true), Value::Bool(true));
    assert_eq!(PlayersOp::Btnp { player: 0, button: 1 }.reply(false), Value::Bool(false));
    assert_eq!(InfoOp::Time.reply(Number::from_bits(12.5f64.to_bits())), num(12.5));
    assert_eq!(Value::neutral(), num(0.0));
    assert_eq!(Value::refused(), num(-1.0));
}

#[test]
fn wiring_is_reported() {
    let mut host = Host::new();
    assert!(!host.is_wired(Resource::Info));
    assert!(!host.is_wired(Resource::Screen));
    assert!(!host.is_wired(Resource::Players));
    assert!(!host.is_wired(Resource::Sound));
    host.set_screen(Surface(2));
    assert!(host.is_wired(Resource::Screen));
    assert!(!host.is_wired(Resource::Sound));
    host.set_sound(Mixer(4));
    host.set_info(Clock(1));
    host.set_players(Pads(3));
    assert!(host.is_wired(Resource::Info));
    assert!(host.is_wired(Resource::Players));
    assert!(host.is_wired(Resource::Sound));
}

#[test]
fn copies_are_equal() {
    let value = text("abc");
    assert_eq!(value.clone(), value);
    assert_eq!(num(2.5).clone(), num(2.5));
    assert_eq!(Value::Undefined.clone(), Value::Undefined);
    assert_eq!(Value::Bool(true).clone(), Value::Bool(true));
    let op = ScreenOp::Print { text: "abc".to_string(), x: 1, y: 2, color: 3 };
    assert_eq!(op.clone(), op);
    let op = ScreenOp::Sspr2 {
        sx: 1,
        sy: 2,
        sw: 3,
        sh: 4,
        dx: 5,
        dy: 6,
        angle: Number::zero(),
        zoom: Number::one(),
        flip_x: true,
        flip_y: false,
    };
    assert_eq!(op.clone(), op);
    let op = SoundOp::Sfx {
        id: 1,
        filename: "a".to_string(),
        channel: 2,
        note: 3,
        panning: 4,
        rate: 5,
        loops: 6,
    };
    assert_eq!(op.clone(), op);
}
