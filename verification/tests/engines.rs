use touch_engine::device::contact::{Contact, State};
use touch_engine::device::controllers::{DPad, Pad, VSlider};
use touch_engine::device::interface::{frame_period, Interface};
use touch_engine::device::interface_direct::InterfaceDirect;
use touch_engine::device::message::{ArgType, Message};
use touch_engine::device::scalar::Scalar;
use touch_engine::device::state::ControllerState;

fn units(whole: i64) -> Scalar {
    Scalar { micros: whole * 1_000_000 }
}

fn contact(id: u8, state: State, x: i64, y: i64) -> Contact {
    Contact { id, x: units(x), y: units(y), total_force: units(50), state }
}

fn grid() -> Vec<Vec<u32>> {
    vec![vec![0, 1, 1], vec![2, 2, 3], vec![0, 0, 0]]
}

fn controls() -> Vec<ControllerState> {
    vec![
        ControllerState::Pad(Pad::new("/pad".to_string(), vec![], false, false, false, false, 0)),
        ControllerState::DirectionalPad(DPad::new(
            "/button".to_string(),
            ArgType::IType(1),
            ArgType::IType(0),
            vec![],
            0,
        )),
        ControllerState::VerticalSlider(VSlider::new(
            "/fader".to_string(),
            vec![],
            None,
            None,
            None,
            None,
        )),
    ]
}

fn pad_clock(engine_controls: &[ControllerState]) -> u64 {
    match &engine_controls[0] {
        ControllerState::Pad(pad) => pad.previous_time,
        other => panic!("not a pad: {:?}", other),
    }
}

#[test]
fn direct_start_reaches_the_control_under_it() {
    let mut engine = InterfaceDirect::new(grid(), controls());
    let mut sink: Vec<Message> = Vec::new();
    let touch = contact(3, State::Start, 0, 1);
    assert!(engine.can_handle(&touch));
    engine.handleContact(&touch, 100_000, &mut sink);
    assert_eq!(sink.len(), 1);
    assert_eq!(sink[0].address, "/pad");
    assert_eq!(sink[0].args, vec![ArgType::IType(0)]);
    assert_eq!(engine.move_end[3], Some(1));
    assert_eq!(pad_clock(&engine.controls), 100_000);
}

#[test]
fn direct_unrouted_start_changes_nothing() {
    let mut engine = InterfaceDirect::new(grid(), controls());
    let mut sink: Vec<Message> = Vec::new();
    engine.handleContact(&contact(3, State::Start, 0, 0), 100_000, &mut sink);
    engine.handleContact(&contact(4, State::Start, 2, 2), 100_000, &mut sink);
    assert!(sink.is_empty());
    assert_eq!(engine.move_end, vec![None; 16]);
    assert_eq!(pad_clock(&engine.controls), 0);
}

#[test]
fn direct_release_reaches_the_control_that_began() {
    let mut engine = InterfaceDirect::new(grid(), controls());
    let mut sink: Vec<Message> = Vec::new();
    engine.handleContact(&contact(5, State::Start, 1, 0), 100_000, &mut sink);
    assert_eq!(sink.len(), 1);
    assert_eq!(sink[0].address, "/button");
    assert_eq!(sink[0].args, vec![ArgType::IType(1)]);
    engine.handleContact(&contact(5, State::Move, 0, 1), 101_000, &mut sink);
    assert_eq!(sink.len(), 1);
    engine.handleContact(&contact(5, State::End, 2, 2), 102_000, &mut sink);
    assert_eq!(sink.len(), 2);
    assert_eq!(sink[1].address, "/button");
    assert_eq!(sink[1].args, vec![ArgType::IType(0)]);
    assert_eq!(engine.move_end[5], None);
    assert_eq!(pad_clock(&engine.controls), 0);
}

#[test]
fn direct_release_without_start_is_ignored() {
    let mut engine = InterfaceDirect::new(grid(), controls());
    let mut sink: Vec<Message> = Vec::new();
    engine.handleContact(&contact(5, State::End, 1, 0), 100_000, &mut sink);
    engine.handleContact(&contact(5, State::Invalid, 1, 0), 100_000, &mut sink);
    assert!(sink.is_empty());
}

#[test]
fn direct_follows_fingers_apart() {
    let mut engine = InterfaceDirect::new(grid(), controls());
    let mut sink: Vec<Message> = Vec::new();
    engine.handleContact(&contact(0, State::Start, 1, 1), 100_000, &mut sink);
    engine.handleContact(&contact(15, State::Start, 1, 2), 100_000, &mut sink);
    assert_eq!(engine.move_end[0], Some(2));
    assert_eq!(engine.move_end[15], Some(3));
    engine.handleContact(&contact(15, State::End, 1, 2), 100_000, &mut sink);
    assert_eq!(engine.move_end[0], Some(2));
    assert_eq!(engine.move_end[15], None);
}

#[test]
fn direct_tells_what_it_cannot_handle() {
    let engine = InterfaceDirect::new(grid(), controls());
    assert!(!engine.can_handle(&contact(0, State::Start, 3, 0)));
    assert!(!engine.can_handle(&contact(0, State::Start, 0, 3)));
    assert!(!engine.can_handle(&contact(16, State::Start, 0, 1)));
    assert!(engine.can_handle(&contact(16, State::Start, 0, 0)));
    assert!(!engine.can_handle(&contact(16, State::End, 0, 0)));
    assert!(engine.can_handle(&contact(16, State::Move, 9, 9)));
    let negative = Contact { x: units(-4), ..contact(0, State::Start, 0, 1) };
    assert!(engine.can_handle(&negative));
}

#[test]
fn polling_dispatch_reaches_the_control_under_it() {
    let mut engine = Interface::new(grid(), controls(), true);
    let mut sink: Vec<Message> = Vec::new();
    let touch = contact(0, State::Start, 0, 2);
    assert!(engine.can_handle(&touch));
    engine.dispatch(&touch, 100_000, &mut sink);
    assert_eq!(sink.len(), 1);
    assert_eq!(sink[0].address, "/pad");
    assert_eq!(pad_clock(&engine.controls), 100_000);
}

#[test]
fn polling_miss_is_reported_when_asked() {
    let mut engine = Interface::new(grid(), controls(), true);
    let mut sink: Vec<Message> = Vec::new();
    engine.dispatch(&contact(0, State::Start, 0, 0), 100_000, &mut sink);
    assert_eq!(sink.len(), 1);
    assert_eq!(sink[0].address, "/not/a/msg");
    assert!(sink[0].args.is_empty());
    assert_eq!(sink[0].destination, None);
    assert_eq!(pad_clock(&engine.controls), 0);

    let mut silent = Interface::new(grid(), controls(), false);
    let mut none: Vec<Message> = Vec::new();
    silent.dispatch(&contact(0, State::Start, 0, 0), 100_000, &mut none);
    assert!(none.is_empty());
    assert_eq!(pad_clock(&silent.controls), 0);
}

#[test]
fn polling_run_handles_a_frame_in_order() {
    let mut engine = Interface::new(grid(), controls(), true);
    let mut sink: Vec<Message> = Vec::new();
    let frame = vec![
        contact(0, State::Start, 1, 2),
        contact(1, State::Start, 2, 0),
        contact(0, State::Move, 1, 2),
        contact(2, State::Start, 0, 1),
    ];
    engine.run(&frame, 100_000, &mut sink);
    let addresses: Vec<&str> = sink.iter().map(|m| m.address.as_str()).collect();
    assert_eq!(addresses, vec!["/not/a/msg", "/pad"]);
    engine.run(&vec![contact(0, State::Move, 1, 2)], 100_000, &mut sink);
    assert_eq!(sink.len(), 2);
}

#[test]
fn polling_run_drags_a_slider() {
    let mut engine = Interface::new(vec![vec![3, 3, 3]], controls(), false);
    let mut sink: Vec<Message> = Vec::new();
    let frame = vec![
        contact(0, State::Start, 0, 2),
        contact(0, State::Move, 0, 0),
        contact(0, State::Move, 0, 1),
        contact(0, State::End, 0, 1),
    ];
    engine.run(&frame, 100_000, &mut sink);
    assert_eq!(sink.len(), 2);
    assert_eq!(sink[0].address, "/fader");
    assert_eq!(sink[0].args, vec![ArgType::FType(units(2))]);
    assert_eq!(sink[1].args, vec![ArgType::FType(units(1))]);
}

#[test]
fn polling_run_of_an_empty_frame() {
    let mut engine = Interface::new(grid(), controls(), true);
    let mut sink: Vec<Message> = Vec::new();
    engine.run(&Vec::new(), 100_000, &mut sink);
    assert!(sink.is_empty());
}

#[test]
fn frame_period_in_milliseconds() {
    assert_eq!(frame_period(125), 8);
    assert_eq!(frame_period(60), 16);
    assert_eq!(frame_period(1), 1000);
    assert_eq!(frame_period(1001), 0);
    assert_eq!(frame_period(0), u64::MAX);
}

#[test]
fn builder_picks_the_first_sensor() {
    let builder = touch_engine::device::interface::InterfaceBuilder::new(String::new());
    assert_eq!(builder.sensel_info(0), Err("no Sensel device found"));
    assert_eq!(builder.sensel_info(1), Ok(0));
    assert_eq!(builder.connect(3), Ok(0));
    assert_eq!(builder.connect(0), Err("no Sensel device found"));
}

#[test]
fn direct_pad_reports_its_release() {
    let mut engine = InterfaceDirect::new(grid(), controls());
    let mut sink: Vec<Message> = Vec::new();
    engine.handleContact(&contact(2, State::Start, 0, 1), 100_000, &mut sink);
    assert_eq!(sink.len(), 1);
    assert_eq!(sink[0].args, vec![ArgType::IType(0)]);
    engine.handleContact(&contact(2, State::End, 2, 2), 130_000, &mut sink);
    assert_eq!(sink.len(), 2);
    assert_eq!(sink[1].address, "/pad");
    assert_eq!(sink[1].args, vec![ArgType::IType(2)]);
    assert_eq!(engine.move_end[2], None);
    assert_eq!(pad_clock(&engine.controls), 130_000);
}

#[test]
fn direct_pad_release_within_window_is_held_back() {
    let mut engine = InterfaceDirect::new(grid(), controls());
    let mut sink: Vec<Message> = Vec::new();
    engine.handleContact(&contact(2, State::Start, 0, 1), 100_000, &mut sink);
    engine.handleContact(&contact(2, State::End, 0, 1), 105_000, &mut sink);
    assert_eq!(sink.len(), 1);
    assert_eq!(engine.move_end[2], None);
    assert_eq!(pad_clock(&engine.controls), 100_000);
}

#[test]
fn polling_routes_a_directional_pad_by_phase() {
    let mut engine = Interface::new(grid(), controls(), true);
    let mut sink: Vec<Message> = Vec::new();
    engine.dispatch(&contact(0, State::Start, 1, 0), 100_000, &mut sink);
    assert_eq!(sink.len(), 1);
    assert_eq!(sink[0].address, "/button");
    assert_eq!(sink[0].args, vec![ArgType::IType(1)]);
    engine.dispatch(&contact(0, State::Move, 1, 1), 200_000, &mut sink);
    engine.dispatch(&contact(0, State::Invalid, 1, 1), 300_000, &mut sink);
    assert_eq!(sink.len(), 1);
    engine.dispatch(&contact(0, State::End, 1, 1), 400_000, &mut sink);
    assert_eq!(sink.len(), 2);
    assert_eq!(sink[1].address, "/button");
    assert_eq!(sink[1].args, vec![ArgType::IType(0)]);
    engine.dispatch(&contact(0, State::End, 1, 1), 401_000, &mut sink);
    assert_eq!(sink.len(), 3);
    assert_eq!(sink[2].args, vec![ArgType::IType(0)]);
}

#[test]
fn polling_routes_a_pad_by_phase() {
    let mut engine = Interface::new(grid(), controls(), false);
    let mut sink: Vec<Message> = Vec::new();
    engine.run(
        &vec![contact(0, State::Start, 0, 1), contact(0, State::Move, 0, 2)],
        100_000,
        &mut sink,
    );
    engine.run(&vec![contact(0, State::End, 0, 2)], 130_000, &mut sink);
    engine.run(&vec![contact(0, State::Invalid, 0, 2)], 160_000, &mut sink);
    assert_eq!(sink.len(), 2);
    assert_eq!(sink[0].args, vec![ArgType::IType(0)]);
    assert_eq!(sink[1].args, vec![ArgType::IType(2)]);
    assert_eq!(pad_clock(&engine.controls), 130_000);
}

#[test]
fn control_handles_a_contact_by_its_phase() {
    let mut button = controls().remove(1);
    let mut sink: Vec<Message> = Vec::new();
    button.handle(&contact(0, State::Invalid, 0, 0), 100_000, &mut sink);
    button.handle(&contact(0, State::Move, 0, 0), 100_000, &mut sink);
    assert!(sink.is_empty());
    button.handle(&contact(0, State::End, 0, 0), 100_000, &mut sink);
    assert_eq!(sink.len(), 1);
    assert_eq!(sink[0].args, vec![ArgType::IType(0)]);
    button.handle(&contact(0, State::Start, 0, 0), 130_000, &mut sink);
    assert_eq!(sink.len(), 2);
    assert_eq!(sink[1].args, vec![ArgType::IType(1)]);
}
