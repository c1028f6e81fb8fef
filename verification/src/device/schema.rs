//! The schema of a layout document: what a JSON value must hold to describe
//! a routing table and controls, and how it is read.

use vstd::prelude::*;
use vstd::string::*;
use crate::device::json::{
    elements, is_null, is_object, json_bool, json_elements, json_i64, json_is_null,
    json_is_object, json_member, json_numeral, json_of, json_text, json_u64, member, numeral,
    parse, signed, text, truth, unsigned,
};
use crate::device::layout::{build_failure, records_of, BuildError, Control, ControlView};
use crate::device::message::ArgType;
use crate::device::numeral::{denoted, read_numeral};
use crate::device::routing::grid_of;

verus! {

/// The member of `v` under `key`, where `v` has one that is not `null`.
pub open spec fn given(v: serde_json::Value, key: Seq<char>) -> Option<serde_json::Value> {
    match json_member(v, key) {
        Some(m) => if json_is_null(m) {
            None
        } else {
            Some(m)
        },
        None => None,
    }
}

/// The argument that `v` describes: a whole number where `v` is an integer
/// that fits 32 bits, and a real quantity where it is any other number.
pub open spec fn arg_of(v: serde_json::Value) -> Option<ArgType> {
    match json_i64(v) {
        Some(i) if i32::MIN <= i <= i32::MAX => Some(ArgType::IType(i as i32)),
        _ => match json_numeral(v) {
            Some(t) => match denoted(t) {
                Some(quantity) => Some(ArgType::FType(quantity)),
                None => None,
            },
            None => None,
        },
    }
}

/// The argument under `key`, which `v` need not give. The outer `None`
/// stands for a member that describes no argument.
pub open spec fn optional_arg(v: serde_json::Value, key: Seq<char>) -> Option<Option<ArgType>> {
    match given(v, key) {
        None => Some(None),
        Some(m) => match arg_of(m) {
            Some(a) => Some(Some(a)),
            None => None,
        },
    }
}

/// The truth value under `key`, which `v` need not give. The outer `None`
/// stands for a member that is no truth value.
pub open spec fn optional_flag(v: serde_json::Value, key: Seq<char>) -> Option<Option<bool>> {
    match given(v, key) {
        None => Some(None),
        Some(m) => match json_bool(m) {
            Some(b) => Some(Some(b)),
            None => None,
        },
    }
}

/// The string under `key`, which `v` need not give. The outer `None` stands
/// for a member that is no string.
pub open spec fn optional_text(v: serde_json::Value, key: Seq<char>) -> Option<
    Option<Seq<char>>,
> {
    match given(v, key) {
        None => Some(None),
        Some(m) => match json_text(m) {
            Some(s) => Some(Some(s)),
            None => None,
        },
    }
}

/// The string under `key`, which `v` must give.
pub open spec fn required_text(v: serde_json::Value, key: Seq<char>) -> Option<Seq<char>> {
    match json_member(v, key) {
        Some(m) => json_text(m),
        None => None,
    }
}

/// The arguments that the array `v` lists.
pub open spec fn args_of(v: serde_json::Value) -> Option<Seq<ArgType>> {
    match json_elements(v) {
        Some(items) => if forall|i: int| 0 <= i < items.len() ==> arg_of(#[trigger] items[i]) is Some {
            Some(Seq::new(items.len(), |i: int| arg_of(items[i]).unwrap()))
        } else {
            None
        },
        None => None,
    }
}

/// The id that `v` gives: an unsigned integer that fits an index.
pub open spec fn id_of(v: serde_json::Value) -> Option<usize> {
    match json_u64(v) {
        Some(u) if u <= usize::MAX => Some(u as usize),
        _ => None,
    }
}

pub fn read_arg(v: &serde_json::Value) -> (r: Option<ArgType>)
    ensures
        r == arg_of(*v),
{
    match signed(v) {
        Some(i) => {
            if i >= i32::MIN as i64 && i <= i32::MAX as i64 {
                return Some(ArgType::IType(i as i32));
            }
        },
        None => {},
    }
    match numeral(v) {
        Some(t) => match read_numeral(t.as_str()) {
            Some(quantity) => Some(ArgType::FType(quantity)),
            None => None,
        },
        None => None,
    }
}

pub fn read_optional_arg(v: &serde_json::Value, key: &str) -> (r: Option<Option<ArgType>>)
    ensures
        r == optional_arg(*v, key@),
{
    match member(v, key) {
        Some(m) => {
            if is_null(m) {
                Some(None)
            } else {
                match read_arg(m) {
                    Some(a) => Some(Some(a)),
                    None => None,
                }
            }
        },
        None => Some(None),
    }
}

pub fn read_optional_flag(v: &serde_json::Value, key: &str) -> (r: Option<Option<bool>>)
    ensures
        r == optional_flag(*v, key@),
{
    match member(v, key) {
        Some(m) => {
            if is_null(m) {
                Some(None)
            } else {
                match truth(m) {
                    Some(b) => Some(Some(b)),
                    None => None,
                }
            }
        },
        None => Some(None),
    }
}

pub fn read_optional_text(v: &serde_json::Value, key: &str) -> (r: Option<Option<String>>)
    ensures
        match r {
            Some(Some(s)) => optional_text(*v, key@) == Some(Some(s@)),
            Some(None) => optional_text(*v, key@) == Some(None::<Seq<char>>),
            None => optional_text(*v, key@) is None,
        },
{
    match member(v, key) {
        Some(m) => {
            if is_null(m) {
                Some(None)
            } else {
                match text(m) {
                    Some(s) => Some(Some(String::from_str(s))),
                    None => None,
                }
            }
        },
        None => Some(None),
    }
}

pub fn read_required_text(v: &serde_json::Value, key: &str) -> (r: Option<String>)
    ensures
        match r {
            Some(s) => required_text(*v, key@) == Some(s@),
            None => required_text(*v, key@) is None,
        },
{
    match member(v, key) {
        Some(m) => match text(m) {
            Some(s) => Some(String::from_str(s)),
            None => None,
        },
        None => None,
    }
}

pub fn read_args(v: &serde_json::Value) -> (r: Option<Vec<ArgType>>)
    ensures
        match r {
            Some(args) => args_of(*v) == Some(args@),
            None => args_of(*v) is None,
        },
{
    match elements(v) {
        None => None,
        Some(items) => {
            let mut out: Vec<ArgType> = Vec::new();
            let mut i: usize = 0;
            while i < items.len()
                invariant
                    i <= items@.len(),
                    json_elements(*v) == Some(items@),
                    out@.len() == i,
                    forall|j: int| 0 <= j < i ==> arg_of(#[trigger] items@[j]) == Some(out@[j]),
                decreases items@.len() - i,
            {
                match read_arg(&items[i]) {
                    Some(a) => {
                        out.push(a);
                    },
                    None => {
                        return None;
                    },
                }
                i += 1;
            }
            assert(out@ =~= Seq::new(items@.len(), |i: int| arg_of(items@[i]).unwrap()));
            Some(out)
        },
    }
}

pub fn read_id(v: &serde_json::Value) -> (r: Option<usize>)
    ensures
        r == id_of(*v),
{
    match unsigned(v) {
        Some(u) => {
            if u <= usize::MAX as u64 {
                Some(u as usize)
            } else {
                None
            }
        },
        None => None,
    }
}

/// `v` describes a control: it is an object that gives an address, a list
/// of arguments, an id and a kind, and whatever else it gives is of the
/// type that the schema asks for. Members that the schema does not name are
/// of no account.
pub open spec fn is_record(v: serde_json::Value) -> bool {
    &&& json_is_object(v)
    &&& required_text(v, "address"@) is Some
    &&& json_member(v, "args"@) is Some
    &&& args_of(json_member(v, "args"@).unwrap()) is Some
    &&& json_member(v, "id"@) is Some
    &&& id_of(json_member(v, "id"@).unwrap()) is Some
    &&& required_text(v, "type_id"@) is Some
    &&& optional_text(v, "rgb"@) is Some
    &&& optional_flag(v, "pressure"@) is Some
    &&& optional_flag(v, "generate_move"@) is Some
    &&& optional_flag(v, "generate_end"@) is Some
    &&& optional_flag(v, "generate_coords"@) is Some
    &&& optional_arg(v, "on"@) is Some
    &&& optional_arg(v, "off"@) is Some
    &&& optional_arg(v, "min"@) is Some
    &&& optional_arg(v, "max"@) is Some
    &&& optional_arg(v, "initial"@) is Some
    &&& optional_arg(v, "incr"@) is Some
}

/// What the record `v` says.
pub open spec fn record_view(v: serde_json::Value) -> ControlView {
    ControlView {
        address: required_text(v, "address"@).unwrap(),
        args: args_of(json_member(v, "args"@).unwrap()).unwrap(),
        id: id_of(json_member(v, "id"@).unwrap()).unwrap(),
        rgb: optional_text(v, "rgb"@).unwrap(),
        pressure: optional_flag(v, "pressure"@).unwrap(),
        generate_move: optional_flag(v, "generate_move"@).unwrap(),
        generate_end: optional_flag(v, "generate_end"@).unwrap(),
        generate_coords: optional_flag(v, "generate_coords"@).unwrap(),
        on: optional_arg(v, "on"@).unwrap(),
        off: optional_arg(v, "off"@).unwrap(),
        type_id: required_text(v, "type_id"@).unwrap(),
        min: optional_arg(v, "min"@).unwrap(),
        max: optional_arg(v, "max"@).unwrap(),
        initial: optional_arg(v, "initial"@).unwrap(),
        incr: optional_arg(v, "incr"@).unwrap(),
    }
}

/// The control that `v` describes, if it describes one.
pub open spec fn control_of(v: serde_json::Value) -> Option<ControlView> {
    if is_record(v) {
        Some(record_view(v))
    } else {
        None
    }
}

/// Reads the record of one control.
pub fn read_control(v: &serde_json::Value) -> (r: Option<Control>)
    ensures
        match r {
            Some(record) => control_of(*v) == Some(record@),
            None => control_of(*v) is None,
        },
{
    if !is_object(v) {
        return None;
    }
    let address = match read_required_text(v, "address") {
        Some(s) => s,
        None => {
            return None;
        },
    };
    let args = match member(v, "args") {
        Some(m) => match read_args(m) {
            Some(a) => a,
            None => {
                return None;
            },
        },
        None => {
            return None;
        },
    };
    let id = match member(v, "id") {
        Some(m) => match read_id(m) {
            Some(i) => i,
            None => {
                return None;
            },
        },
        None => {
            return None;
        },
    };
    let type_id = match read_required_text(v, "type_id") {
        Some(s) => s,
        None => {
            return None;
        },
    };
    let rgb = match read_optional_text(v, "rgb") {
        Some(x) => x,
        None => {
            return None;
        },
    };
    let pressure = match read_optional_flag(v, "pressure") {
        Some(x) => x,
        None => {
            return None;
        },
    };
    let generate_move = match read_optional_flag(v, "generate_move") {
        Some(x) => x,
        None => {
            return None;
        },
    };
    let generate_end = match read_optional_flag(v, "generate_end") {
        Some(x) => x,
        None => {
            return None;
        },
    };
    let generate_coords = match read_optional_flag(v, "generate_coords") {
        Some(x) => x,
        None => {
            return None;
        },
    };
    let on = match read_optional_arg(v, "on") {
        Some(x) => x,
        None => {
            return None;
        },
    };
    let off = match read_optional_arg(v, "off") {
        Some(x) => x,
        None => {
            return None;
        },
    };
    let min = match read_optional_arg(v, "min") {
        Some(x) => x,
        None => {
            return None;
        },
    };
    let max = match read_optional_arg(v, "max") {
        Some(x) => x,
        None => {
            return None;
        },
    };
    let initial = match read_optional_arg(v, "initial") {
        Some(x) => x,
        None => {
            return None;
        },
    };
    let incr = match read_optional_arg(v, "incr") {
        Some(x) => x,
        None => {
            return None;
        },
    };
    let record = Control {
        address,
        args,
        id,
        rgb,
        pressure,
        generate_move,
        generate_end,
        generate_coords,
        on,
        off,
        type_id,
        min,
        max,
        initial,
        incr,
    };
    assert(record@ == record_view(*v));
    Some(record)
}

/// The slot that `v` gives: an unsigned integer of at most 32 bits.
pub open spec fn cell_of(v: serde_json::Value) -> Option<u32> {
    match json_u64(v) {
        Some(u) if u <= u32::MAX => Some(u as u32),
        _ => None,
    }
}

/// The cells that the array `v` lists.
pub open spec fn column_of(v: serde_json::Value) -> Option<Seq<u32>> {
    match json_elements(v) {
        Some(items) => if forall|i: int|
            0 <= i < items.len() ==> cell_of(#[trigger] items[i]) is Some {
            Some(Seq::new(items.len(), |i: int| cell_of(items[i]).unwrap()))
        } else {
            None
        },
        None => None,
    }
}

/// The grid that the array of arrays `v` lists.
pub open spec fn buffer_of(v: serde_json::Value) -> Option<Seq<Seq<u32>>> {
    match json_elements(v) {
        Some(items) => if forall|i: int|
            0 <= i < items.len() ==> column_of(#[trigger] items[i]) is Some {
            Some(Seq::new(items.len(), |i: int| column_of(items[i]).unwrap()))
        } else {
            None
        },
        None => None,
    }
}

/// The first position at or after `from` whose value describes no control,
/// or the length of `items` if there is none.
pub open spec fn first_unreadable(items: Seq<serde_json::Value>, from: int) -> int
    decreases items.len() - from,
{
    if from < 0 || from >= items.len() || control_of(items[from]) is None {
        from
    } else {
        first_unreadable(items, from + 1)
    }
}

/// The controls that `items` describe, or the position of the first value
/// among them that describes none.
pub open spec fn controls_of(items: Seq<serde_json::Value>) -> Result<
    Seq<ControlView>,
    BuildError,
> {
    let bad = first_unreadable(items, 0);
    if bad < items.len() {
        Err(BuildError::MalformedControl(bad as usize))
    } else {
        Ok(Seq::new(items.len(), |i: int| control_of(items[i]).unwrap()))
    }
}

/// A layout: the routing table and the records of the controls.
#[derive(Debug, Clone)]
pub struct Layout {
    pub buffer: Vec<Vec<u32>>,
    pub controllers: Vec<Control>,
}

/// What a [`Layout`] says, as mathematical values.
pub ghost struct LayoutView {
    pub buffer: Seq<Seq<u32>>,
    pub controllers: Seq<ControlView>,
}

impl View for Layout {
    type V = LayoutView;

    open spec fn view(&self) -> LayoutView {
        LayoutView { buffer: grid_of(self.buffer@), controllers: records_of(self.controllers@) }
    }
}

/// The layout that the document `doc` describes, or why it describes none.
///
/// The document must be an object. Its member `buffer` is the routing
/// table, an array of arrays of slots. Its member `controllers` is an array
/// of records, one for each control.
pub open spec fn layout_of(doc: serde_json::Value) -> Result<LayoutView, BuildError> {
    if !json_is_object(doc) {
        Err(BuildError::NotAnObject)
    } else {
        match json_member(doc, "buffer"@) {
            None => Err(BuildError::MissingBuffer),
            Some(table) => match buffer_of(table) {
                None => Err(BuildError::MalformedBuffer),
                Some(buffer) => match json_member(doc, "controllers"@) {
                    None => Err(BuildError::MissingControllers),
                    Some(list) => match json_elements(list) {
                        None => Err(BuildError::MissingControllers),
                        Some(items) => match controls_of(items) {
                            Ok(controllers) => Ok(LayoutView { buffer, controllers }),
                            Err(e) => Err(e),
                        },
                    },
                },
            },
        }
    }
}

pub fn read_column(v: &serde_json::Value) -> (r: Option<Vec<u32>>)
    ensures
        match r {
            Some(column) => column_of(*v) == Some(column@),
            None => column_of(*v) is None,
        },
{
    match elements(v) {
        None => None,
        Some(items) => {
            let mut out: Vec<u32> = Vec::new();
            let mut i: usize = 0;
            while i < items.len()
                invariant
                    i <= items@.len(),
                    json_elements(*v) == Some(items@),
                    out@.len() == i,
                    forall|j: int| 0 <= j < i ==> cell_of(#[trigger] items@[j]) == Some(out@[j]),
                decreases items@.len() - i,
            {
                match unsigned(&items[i]) {
                    Some(u) => {
                        if u > u32::MAX as u64 {
                            return None;
                        }
                        out.push(u as u32);
                    },
                    None => {
                        return None;
                    },
                }
                i += 1;
            }
            assert(out@ =~= Seq::new(items@.len(), |i: int| cell_of(items@[i]).unwrap()));
            Some(out)
        },
    }
}

pub fn read_buffer(v: &serde_json::Value) -> (r: Option<Vec<Vec<u32>>>)
    ensures
        match r {
            Some(buffer) => buffer_of(*v) == Some(grid_of(buffer@)),
            None => buffer_of(*v) is None,
        },
{
    match elements(v) {
        None => None,
        Some(items) => {
            let mut out: Vec<Vec<u32>> = Vec::new();
            let mut i: usize = 0;
            while i < items.len()
                invariant
                    i <= items@.len(),
                    json_elements(*v) == Some(items@),
                    out@.len() == i,
                    forall|j: int|
                        0 <= j < i ==> column_of(#[trigger] items@[j]) == Some(out@[j]@),
                decreases items@.len() - i,
            {
                match read_column(&items[i]) {
                    Some(column) => {
                        out.push(column);
                    },
                    None => {
                        return None;
                    },
                }
                i += 1;
            }
            assert(grid_of(out@) =~= Seq::new(
                items@.len(),
                |i: int| column_of(items@[i]).unwrap(),
            ));
            Some(out)
        },
    }
}

pub fn read_controls(items: &Vec<serde_json::Value>) -> (r: Result<Vec<Control>, BuildError>)
    ensures
        match r {
            Ok(records) => controls_of(items@) == Ok::<Seq<ControlView>, BuildError>(
                records_of(records@),
            ),
            Err(e) => controls_of(items@) == Err::<Seq<ControlView>, BuildError>(e),
        },
{
    let mut out: Vec<Control> = Vec::new();
    let mut i: usize = 0;
    while i < items.len()
        invariant
            i <= items@.len(),
            out@.len() == i,
            first_unreadable(items@, 0) == first_unreadable(items@, i as int),
            forall|j: int| 0 <= j < i ==> control_of(#[trigger] items@[j]) == Some(out@[j]@),
        decreases items@.len() - i,
    {
        match read_control(&items[i]) {
            Some(record) => {
                out.push(record);
            },
            None => {
                return Err(BuildError::MalformedControl(i));
            },
        }
        i += 1;
    }
    assert(records_of(out@) =~= Seq::new(items@.len(), |i: int| control_of(items@[i]).unwrap()));
    Ok(out)
}

/// Reads a layout from a document.
pub fn read_layout(doc: &serde_json::Value) -> (r: Result<Layout, BuildError>)
    ensures
        match r {
            Ok(layout) => layout_of(*doc) == Ok::<LayoutView, BuildError>(layout@),
            Err(e) => layout_of(*doc) == Err::<LayoutView, BuildError>(e),
        },
{
    if !is_object(doc) {
        return Err(BuildError::NotAnObject);
    }
    let buffer = match member(doc, "buffer") {
        None => {
            return Err(BuildError::MissingBuffer);
        },
        Some(table) => match read_buffer(table) {
            None => {
                return Err(BuildError::MalformedBuffer);
            },
            Some(b) => b,
        },
    };
    let items = match member(doc, "controllers") {
        None => {
            return Err(BuildError::MissingControllers);
        },
        Some(list) => match elements(list) {
            None => {
                return Err(BuildError::MissingControllers);
            },
            Some(items) => items,
        },
    };
    match read_controls(items) {
        Ok(controllers) => Ok(Layout { buffer, controllers }),
        Err(e) => Err(e),
    }
}

/// The layout that `text` spells and from which an engine can be built, or
/// why there is none: the text spells no JSON object, the object describes
/// no layout, or the layout is one that no engine can be built from.
pub open spec fn plan_of(text: Seq<char>) -> Result<LayoutView, BuildError> {
    match json_of(text) {
        None => Err(BuildError::NotAnObject),
        Some(doc) => match layout_of(doc) {
            Err(e) => Err(e),
            Ok(layout) => match build_failure(layout.buffer, layout.controllers) {
                Some(e) => Err(e),
                None => Ok(layout),
            },
        },
    }
}

/// Reads the layout that `text` spells.
pub fn parse_layout(text: &str) -> (r: Result<Layout, BuildError>)
    ensures
        match r {
            Ok(layout) => json_of(text@) is Some && layout_of(json_of(text@).unwrap()) == Ok::<
                LayoutView,
                BuildError,
            >(layout@),
            Err(e) => match json_of(text@) {
                None => e == BuildError::NotAnObject,
                Some(doc) => layout_of(doc) == Err::<LayoutView, BuildError>(e),
            },
        },
{
    match parse(text) {
        Ok(doc) => read_layout(&doc),
        Err(_) => Err(BuildError::NotAnObject),
    }
}

} // verus!
