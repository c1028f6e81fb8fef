use touch_engine::device::contact::{Contact, State};
use touch_engine::device::controllers::{Controller, DPad, Endless, HSlider, VSlider};
use touch_engine::device::message::{ArgType, Endpoint, Message};
use touch_engine::device::scalar::{advance, movement, Scalar};

fn units(whole: i64) -> Scalar {
    Scalar { micros: whole * 1_000_000 }
}

fn at(state: State, x: i64, y: i64) -> Contact {
    Contact { id: 0, x: units(x), y: units(y), total_force: units(50), state }
}

fn slider(initial: i32) -> VSlider {
    VSlider::new(
        "/fader".to_string(),
        vec![ArgType::IType(4)],
        None,
        None,
        Some(ArgType::IType(initial)),
        Some(ArgType::FType(units(1))),
    )
}

#[test]
fn vertical_slider_follows_upward_move() {
    let mut s = slider(10);
    let mut sink: Vec<Message> = Vec::new();
    s.touch_start(&at(State::Start, 0, 50), 0, &mut sink).unwrap();
    assert!(sink.is_empty());
    assert_eq!(s.last_y, units(50));
    s.touch_start(&at(State::Move, 0, 45), 0, &mut sink).unwrap();
    assert_eq!(s.value, units(15));
    assert_eq!(s.last_y, units(45));
    assert_eq!(sink.len(), 1);
    assert_eq!(sink[0].address, "/fader");
    assert_eq!(sink[0].args, vec![ArgType::IType(4), ArgType::FType(units(15))]);
    assert_eq!(sink[0].destination, None);
    s.touch_start(&at(State::Move, 0, 45), 0, &mut sink).unwrap();
    assert_eq!(sink.len(), 1);
    assert_eq!(s.value, units(15));
}

#[test]
fn vertical_slider_is_kept_within_bounds() {
    let mut s = slider(125);
    let mut sink: Vec<Message> = Vec::new();
    s.touch_start(&at(State::Start, 0, 50), 0, &mut sink).unwrap();
    s.touch_start(&at(State::Move, 0, 45), 0, &mut sink).unwrap();
    assert_eq!(s.value, units(127));
    s.touch_start(&at(State::Move, 0, 200), 0, &mut sink).unwrap();
    assert_eq!(s.value, units(0));
    assert_eq!(sink.len(), 2);
    assert_eq!(sink[1].args, vec![ArgType::IType(4), ArgType::FType(units(0))]);
}

#[test]
fn vertical_slider_follows_a_move_of_half_a_line() {
    let mut s = VSlider::new("/v".to_string(), vec![], None, None, None, None);
    let mut sink: Vec<Message> = Vec::new();
    let moved = Contact { y: Scalar { micros: 49_500_000 }, ..at(State::Move, 0, 0) };
    s.touch_start(&at(State::Start, 0, 50), 0, &mut sink).unwrap();
    s.touch_start(&moved, 0, &mut sink).unwrap();
    assert_eq!(s.value, Scalar { micros: 500_000 });
    assert_eq!(s.last_y, Scalar { micros: 49_500_000 });
    assert_eq!(sink.len(), 1);
    assert_eq!(sink[0].address, "/v");
    assert_eq!(sink[0].args, vec![ArgType::FType(Scalar { micros: 500_000 })]);
    assert_eq!(sink[0].destination, None);
}

#[test]
fn vertical_slider_with_step_zero_is_silent() {
    let mut s = VSlider::new(
        "/fader".to_string(),
        vec![],
        None,
        None,
        None,
        Some(ArgType::IType(0)),
    );
    let mut sink: Vec<Message> = Vec::new();
    s.touch_start(&at(State::Start, 0, 50), 0, &mut sink).unwrap();
    s.touch_start(&at(State::Move, 0, 40), 0, &mut sink).unwrap();
    assert!(sink.is_empty());
    assert_eq!(s.last_y, units(40));
}

#[test]
fn vertical_slider_ignores_end_and_invalid() {
    let mut s = slider(10);
    let mut sink: Vec<Message> = Vec::new();
    s.touch_start(&at(State::End, 0, 50), 0, &mut sink).unwrap();
    s.touch_start(&at(State::Invalid, 0, 60), 0, &mut sink).unwrap();
    assert!(s.touch_end(&at(State::End, 0, 80), 0, &mut sink));
    assert!(s.touch_end(&at(State::Move, 0, 80), 0, &mut sink));
    assert!(sink.is_empty());
    assert_eq!(s.last_y, units(0));
    assert_eq!(s.value, units(10));
    assert_eq!(s.name(), "vslider");
}

#[test]
fn slider_move_handler_takes_any_contact_as_a_move() {
    let mut s = slider(10);
    let mut sink: Vec<Message> = Vec::new();
    s.touch_start(&at(State::Start, 0, 50), 0, &mut sink).unwrap();
    assert!(s.touch_move(&at(State::Move, 0, 48), 0, &mut sink));
    assert_eq!(s.value, units(12));
    assert!(s.touch_move(&at(State::End, 0, 47), 0, &mut sink));
    assert_eq!(s.value, units(13));
    assert_eq!(s.last_y, units(47));
    assert_eq!(sink.len(), 2);
    assert_eq!(sink[1].args, vec![ArgType::IType(4), ArgType::FType(units(13))]);

    let mut h = HSlider::new("/h".to_string(), vec![], None, None, None, None);
    assert!(h.touch_move(&at(State::Start, -3, 9), 0, &mut sink));
    assert_eq!(h.value, units(3));
    assert_eq!(h.last_x, units(-3));
    assert!(h.touch_end(&at(State::End, 5, 5), 0, &mut sink));
    assert_eq!(h.value, units(3));
    assert_eq!(sink.len(), 3);
}

#[test]
fn vertical_slider_with_fractional_step() {
    let mut s = VSlider::new(
        "/fader".to_string(),
        vec![],
        Some(ArgType::IType(-1)),
        Some(ArgType::IType(1)),
        None,
        Some(ArgType::FType(Scalar { micros: 250_000 })),
    );
    let mut sink: Vec<Message> = Vec::new();
    s.touch_start(&at(State::Start, 0, 10), 0, &mut sink).unwrap();
    s.touch_start(&at(State::Move, 0, 7), 0, &mut sink).unwrap();
    assert_eq!(s.value, Scalar { micros: 750_000 });
    s.touch_start(&at(State::Move, 0, 17), 0, &mut sink).unwrap();
    assert_eq!(s.value, units(-1));
}

#[test]
fn horizontal_slider_starts_from_the_row() {
    let mut s = HSlider::new("/h".to_string(), vec![], None, None, None, None);
    let mut sink: Vec<Message> = Vec::new();
    s.touch_start(&at(State::Start, 3, 20), 0, &mut sink).unwrap();
    assert_eq!(s.last_x, units(20));
    s.touch_start(&at(State::Move, 12, 99), 0, &mut sink).unwrap();
    assert_eq!(s.last_x, units(12));
    assert_eq!(s.value, units(8));
    assert_eq!(sink.len(), 1);
    assert_eq!(sink[0].args, vec![ArgType::FType(units(8))]);
    assert_eq!(s.name(), "hslider");
}

#[test]
fn slider_bounds_out_of_order() {
    let low = units(10);
    let high = units(5);
    assert_eq!(advance(units(0), low, high, 3_000_000), low);
    assert_eq!(advance(units(20), low, high, 3_000_000), high);
}

#[test]
fn slider_advance_is_clamped() {
    assert_eq!(advance(units(120), units(0), units(127), 5_000_000), units(125));
    assert_eq!(advance(units(120), units(0), units(127), 50_000_000), units(127));
    assert_eq!(advance(units(3), units(0), units(127), -50_000_000), units(0));
    let huge = Scalar { micros: i64::MAX };
    let least = Scalar { micros: i64::MIN };
    let limit: i128 = 0x4000_0000_0000_0000_0000_0000_0000_0000;
    assert_eq!(advance(huge, least, huge, limit), huge);
    assert_eq!(advance(least, least, huge, -limit), least);
    assert_eq!(advance(units(1), least, huge, -1), Scalar { micros: 999_999 });
}

#[test]
fn slider_movement_is_distance_times_step() {
    let half = Scalar { micros: 500_000 };
    assert_eq!(movement(units(50), units(45), units(1)), 5_000_000);
    assert_eq!(movement(units(50), Scalar { micros: 49_500_000 }, units(1)), 500_000);
    assert_eq!(movement(units(45), units(50), units(1)), -5_000_000);
    assert_eq!(movement(units(50), units(45), half), 2_500_000);
    assert_eq!(movement(units(50), units(45), units(-2)), -10_000_000);
    assert_eq!(movement(units(50), units(50), units(1)), 0);
    assert_eq!(movement(units(50), units(45), units(0)), 0);
}

#[test]
fn slider_movement_rounds_toward_zero() {
    let tiny = Scalar { micros: 1 };
    let third = Scalar { micros: 333_333 };
    assert_eq!(movement(Scalar { micros: 999_999 }, units(0), tiny), 0);
    assert_eq!(movement(units(0), Scalar { micros: 999_999 }, tiny), 0);
    assert_eq!(movement(units(5), units(0), third), 1_666_665);
    assert_eq!(movement(units(0), units(5), third), -1_666_665);
    let huge = Scalar { micros: i64::MAX };
    let least = Scalar { micros: i64::MIN };
    assert_eq!(
        movement(huge, least, least),
        -170_141_183_460_469_231_722_463_931_679_029
    );
}

#[test]
fn directional_pad_press_then_release() {
    let mut pad = DPad::new(
        "/button".to_string(),
        ArgType::IType(127),
        ArgType::IType(0),
        vec![ArgType::IType(60)],
        0,
    );
    let local = Some(Endpoint { a: 127, b: 0, c: 0, d: 1, port: 4000 });
    let mut sink: Vec<Message> = Vec::new();
    pad.touch_start(&at(State::Start, 0, 0), 25_000, &mut sink).unwrap();
    assert_eq!(sink.len(), 1);
    assert_eq!(sink[0].address, "/button");
    assert_eq!(sink[0].args, vec![ArgType::IType(60), ArgType::IType(127)]);
    assert_eq!(sink[0].destination, local);
    assert!(pad.touch_end(&at(State::End, 0, 0), 26_000, &mut sink));
    assert_eq!(sink.len(), 2);
    assert_eq!(sink[1].args, vec![ArgType::IType(60), ArgType::IType(0)]);
    assert_eq!(sink[1].destination, local);
    assert_eq!(pad.previous_time, 26_000);
}

#[test]
fn directional_pad_release_ignores_debounce() {
    let mut pad = DPad::new("/b".to_string(), ArgType::IType(1), ArgType::IType(2), vec![], 0);
    let mut sink: Vec<Message> = Vec::new();
    pad.touch_start(&at(State::Start, 0, 0), 5_000, &mut sink).unwrap();
    assert!(sink.is_empty());
    assert_eq!(pad.previous_time, 0);
    assert!(pad.touch_end(&at(State::End, 0, 0), 6_000, &mut sink));
    assert_eq!(sink.len(), 1);
    assert_eq!(sink[0].args, vec![ArgType::IType(2)]);
    pad.touch_start(&at(State::Start, 0, 0), 20_000, &mut sink).unwrap();
    assert_eq!(sink.len(), 1);
    assert!(pad.touch_move(&at(State::Move, 0, 0), 90_000, &mut sink));
    assert_eq!(sink.len(), 1);
    assert_eq!(pad.name(), "dpad");
}

#[test]
fn endless_encoder_sends_nothing() {
    let mut knob = Endless::new("/knob".to_string(), vec![ArgType::IType(1)]);
    let mut sink: Vec<Message> = Vec::new();
    knob.touch_start(&at(State::Start, 1, 1), 0, &mut sink).unwrap();
    knob.touch_start(&at(State::Move, 2, 2), 0, &mut sink).unwrap();
    assert!(knob.touch_move(&at(State::Move, 2, 2), 0, &mut sink));
    assert!(knob.touch_end(&at(State::End, 2, 2), 0, &mut sink));
    assert!(sink.is_empty());
    assert_eq!(knob.name(), "endless");
}
