use touch_engine::device::controllers::Controller;
use touch_engine::device::interface::Interface;
use touch_engine::device::interface_direct::InterfaceDirect;
use touch_engine::device::layout::{
    compile, find_repeat, instantiate, kind, sort_by_id, BuildError, Control, ControlKind,
};
use touch_engine::device::message::ArgType;
use touch_engine::device::schema::Layout;
use touch_engine::device::state::ControllerState;

fn record(id: usize, type_id: &str) -> Control {
    Control {
        address: format!("/{}", id),
        args: vec![ArgType::IType(id as i32)],
        id,
        rgb: None,
        pressure: None,
        generate_move: None,
        generate_end: None,
        generate_coords: None,
        on: None,
        off: None,
        type_id: type_id.to_string(),
        min: None,
        max: None,
        initial: None,
        incr: None,
    }
}

fn addresses(records: &[Control]) -> Vec<&str> {
    records.iter().map(|r| r.address.as_str()).collect()
}

#[test]
fn sort_puts_ids_in_ascending_order() {
    let sorted = sort_by_id(vec![record(3, "pad"), record(1, "pad"), record(2, "pad")]);
    assert_eq!(addresses(&sorted), vec!["/1", "/2", "/3"]);
    assert!(sort_by_id(Vec::new()).is_empty());
}

#[test]
fn sort_keeps_the_order_of_equal_ids() {
    let mut first = record(5, "pad");
    first.address = "/first".to_string();
    let mut second = record(5, "pad");
    second.address = "/second".to_string();
    let sorted = sort_by_id(vec![record(9, "pad"), first, record(0, "pad"), second]);
    assert_eq!(addresses(&sorted), vec!["/0", "/first", "/second", "/9"]);
}

#[test]
fn repeat_is_found_among_neighbours() {
    assert_eq!(find_repeat(&vec![record(1, "pad"), record(2, "pad")]), None);
    assert_eq!(find_repeat(&vec![record(1, "pad"), record(2, "pad"), record(2, "pad")]), Some(2));
    assert_eq!(
        find_repeat(&vec![record(4, "pad"), record(4, "pad"), record(7, "pad"), record(7, "pad")]),
        Some(4)
    );
    assert_eq!(find_repeat(&vec![record(1, "pad")]), None);
    assert_eq!(find_repeat(&Vec::new()), None);
}

#[test]
fn kinds_by_name() {
    assert_eq!(kind(&"pad".to_string()), Some(ControlKind::Pad));
    assert_eq!(kind(&"dpad".to_string()), Some(ControlKind::DirectionalPad));
    assert_eq!(kind(&"vert_slider".to_string()), Some(ControlKind::VerticalSlider));
    assert_eq!(kind(&"horz_slider".to_string()), Some(ControlKind::HorizontalSlider));
    assert_eq!(kind(&"endless".to_string()), Some(ControlKind::EndlessEncoder));
    assert_eq!(kind(&"Pad".to_string()), None);
    assert_eq!(kind(&"".to_string()), None);
}

#[test]
fn instantiate_by_kind() {
    let mut pad = record(1, "pad");
    pad.generate_move = Some(true);
    pad.generate_end = Some(false);
    match instantiate(&pad, 42) {
        Some(ControllerState::Pad(p)) => {
            assert_eq!(p.address, "/1");
            assert_eq!(p.args, vec![ArgType::IType(1)]);
            assert!(p.generate_move);
            assert!(!p.pressure && !p.generate_end && !p.generate_coords);
            assert_eq!(p.previous_time, 42);
        }
        other => panic!("not a pad: {:?}", other),
    }
    let mut button = record(2, "dpad");
    button.off = Some(ArgType::IType(64));
    match instantiate(&button, 42) {
        Some(ControllerState::DirectionalPad(d)) => {
            assert_eq!(d.args_on, vec![ArgType::IType(2), ArgType::IType(0)]);
            assert_eq!(d.args_off, vec![ArgType::IType(2), ArgType::IType(64)]);
            assert_eq!(d.previous_time, 42);
        }
        other => panic!("not a directional pad: {:?}", other),
    }
    assert!(instantiate(&record(3, "wheel"), 42).is_none());
}

#[test]
fn compile_orders_and_validates() {
    let records = vec![record(20, "endless"), record(10, "pad"), record(15, "wheel")];
    let (table, controls) = compile(vec![vec![2, 0], vec![1]], records, 0).unwrap();
    assert_eq!(table.cells, vec![vec![2, 0], vec![1]]);
    let names: Vec<&str> = controls.iter().map(|c| c.name()).collect();
    assert_eq!(names, vec!["pad", "endless"]);

    let shared = vec![record(2, "pad"), record(1, "pad"), record(2, "endless")];
    assert_eq!(compile(vec![vec![9]], shared, 0).unwrap_err(), BuildError::DuplicateId(2));

    let short = vec![record(1, "pad"), record(2, "wheel")];
    assert_eq!(compile(vec![vec![2]], short, 0).unwrap_err(), BuildError::UnresolvedSlot);
}

#[test]
fn engines_from_a_layout() {
    let layout = Layout {
        buffer: vec![vec![1, 2]],
        controllers: vec![record(8, "vert_slider"), record(4, "horz_slider")],
    };
    let direct = InterfaceDirect::from_layout(layout.clone(), 0).unwrap();
    let names: Vec<&str> = direct.controls.iter().map(|c| c.name()).collect();
    assert_eq!(names, vec!["hslider", "vslider"]);
    assert_eq!(direct.move_end, vec![None; 16]);
    let polling = Interface::from_layout(layout, 0, false).unwrap();
    assert_eq!(polling.buffer.cells, vec![vec![1, 2]]);
    assert!(!polling.report_misses);

    let empty = Layout { buffer: vec![vec![1]], controllers: vec![] };
    assert_eq!(
        InterfaceDirect::from_layout(empty, 0).unwrap_err(),
        BuildError::UnresolvedSlot
    );
}

#[test]
fn failures_in_words() {
    assert_eq!(BuildError::MalformedBuffer.message(), "buffer is not a grid of slots");
    assert_eq!(
        BuildError::MalformedControl(3).message(),
        "unexpected format error with controller"
    );
    assert_eq!(BuildError::DuplicateId(1).message(), "two controllers share an id");
    assert_eq!(
        BuildError::UnresolvedSlot.message(),
        "buffer names a slot that no controller fills"
    );
}
