//! Layouts: the records that describe controls, their order, and the engines
//! assembled from them.

use vstd::prelude::*;
use vstd::string::*;
use crate::device::controllers::{
    followed_by, quantity_or, DPad, Endless, HSlider, Pad, VSlider, SLIDER_INCR, SLIDER_INITIAL,
    SLIDER_MAX, SLIDER_MIN,
};
use crate::device::message::ArgType;
use crate::device::routing::{bounded, grid_of, RoutingTable};
use crate::device::scalar::Scalar;
use crate::device::state::ControllerState;

verus! {

/// One control as a layout describes it.
#[derive(Debug, Clone)]
pub struct Control {
    /// Address of the control's messages.
    pub address: String,
    /// Fixed arguments of the control's messages.
    pub args: Vec<ArgType>,
    /// Identifier of the control, distinct from every other in the layout.
    pub id: usize,
    /// Colour of the control, of no concern to the engine.
    pub rgb: Option<String>,
    /// Asks a pad to report the force of a touch.
    pub pressure: Option<bool>,
    /// Asks a pad to report the moves of a touch.
    pub generate_move: Option<bool>,
    /// Asks a pad to report the end of a touch.
    pub generate_end: Option<bool>,
    /// Asks a pad to report the place of a touch.
    pub generate_coords: Option<bool>,
    /// What a directional pad sends when pressed.
    pub on: Option<ArgType>,
    /// What a directional pad sends when released.
    pub off: Option<ArgType>,
    /// Kind of the control.
    pub type_id: String,
    /// Least value of a slider.
    pub min: Option<ArgType>,
    /// Greatest value of a slider.
    pub max: Option<ArgType>,
    /// Starting value of a slider.
    pub initial: Option<ArgType>,
    /// Step of a slider.
    pub incr: Option<ArgType>,
}

/// What a [`Control`] says, as mathematical values.
pub ghost struct ControlView {
    pub address: Seq<char>,
    pub args: Seq<ArgType>,
    pub id: usize,
    pub rgb: Option<Seq<char>>,
    pub pressure: Option<bool>,
    pub generate_move: Option<bool>,
    pub generate_end: Option<bool>,
    pub generate_coords: Option<bool>,
    pub on: Option<ArgType>,
    pub off: Option<ArgType>,
    pub type_id: Seq<char>,
    pub min: Option<ArgType>,
    pub max: Option<ArgType>,
    pub initial: Option<ArgType>,
    pub incr: Option<ArgType>,
}

impl View for Control {
    type V = ControlView;

    open spec fn view(&self) -> ControlView {
        ControlView {
            address: self.address@,
            args: self.args@,
            id: self.id,
            rgb: match self.rgb {
                Some(colour) => Some(colour@),
                None => None,
            },
            pressure: self.pressure,
            generate_move: self.generate_move,
            generate_end: self.generate_end,
            generate_coords: self.generate_coords,
            on: self.on,
            off: self.off,
            type_id: self.type_id@,
            min: self.min,
            max: self.max,
            initial: self.initial,
            incr: self.incr,
        }
    }
}

/// The records of `records`, each by its view.
pub open spec fn records_of(records: Seq<Control>) -> Seq<ControlView> {
    records.map_values(|record: Control| record@)
}

/// Why no engine could be built from a layout.
#[derive(Clone, Copy, Debug, PartialEq, Eq, Structural)]
pub enum BuildError {
    /// The text is no JSON object.
    NotAnObject,
    /// The layout has no routing table.
    MissingBuffer,
    /// The layout has no list of controls.
    MissingControllers,
    /// The routing table is no grid of slots.
    MalformedBuffer,
    /// The record at this position of the list describes no control.
    MalformedControl(usize),
    /// Two controls share this identifier.
    DuplicateId(usize),
    /// A cell of the routing table holds a slot that no control fills.
    UnresolvedSlot,
}

/// The ids of `records` never decrease from one record to the next.
pub open spec fn ascending(records: Seq<ControlView>) -> bool {
    forall|i: int, j: int| 0 <= i < j < records.len() ==> records[i].id <= records[j].id
}

/// The ids of `records` grow from each record to the next.
pub open spec fn strictly_ascending(records: Seq<ControlView>) -> bool {
    forall|i: int, j: int| 0 <= i < j < records.len() ==> records[i].id < records[j].id
}

/// No two of `records` share an id.
pub open spec fn distinct_ids(records: Seq<ControlView>) -> bool {
    forall|i: int, j: int|
        0 <= i < records.len() && 0 <= j < records.len() && i != j ==> records[i].id
            != records[j].id
}

/// The first position at or after `from` whose record has an id of at least
/// `id`, or the length of `records` if there is none.
pub open spec fn first_at_least(records: Seq<ControlView>, id: usize, from: int) -> int
    decreases records.len() - from,
{
    if from < 0 || from >= records.len() || records[from].id >= id {
        from
    } else {
        first_at_least(records, id, from + 1)
    }
}

/// `records` with `record` put in before the first record whose id is at
/// least its own.
pub open spec fn placed(records: Seq<ControlView>, record: ControlView) -> Seq<ControlView> {
    records.insert(first_at_least(records, record.id, 0), record)
}

/// `records` in ascending order of id; records that share an id keep the
/// order they came in.
pub open spec fn sorted_by_id(records: Seq<ControlView>) -> Seq<ControlView>
    decreases records.len(),
{
    if records.len() == 0 {
        records
    } else {
        placed(sorted_by_id(records.drop_first()), records.first())
    }
}

/// `first_at_least` lies within the sequence and splits it: ids below `id`
/// before it, and an id of at least `id` at it.
pub proof fn lemma_first_at_least(records: Seq<ControlView>, id: usize, from: int)
    requires
        0 <= from <= records.len(),
    ensures
        from <= first_at_least(records, id, from) <= records.len(),
        forall|k: int| from <= k < first_at_least(records, id, from) ==> records[k].id < id,
        first_at_least(records, id, from) < records.len() ==> records[first_at_least(
            records,
            id,
            from,
        )].id >= id,
    decreases records.len() - from,
{
    if from < records.len() && records[from].id < id {
        lemma_first_at_least(records, id, from + 1);
    }
}

/// Putting a record in place keeps ascending records ascending.
pub proof fn lemma_placed_ascending(records: Seq<ControlView>, record: ControlView)
    requires
        ascending(records),
    ensures
        ascending(placed(records, record)),
        placed(records, record).len() == records.len() + 1,
{
    let at = first_at_least(records, record.id, 0);
    lemma_first_at_least(records, record.id, 0);
    let out = placed(records, record);
    assert forall|i: int, j: int| 0 <= i < j < out.len() implies out[i].id <= out[j].id by {
        if j < at {
            assert(out[i] == records[i] && out[j] == records[j]);
        } else if j == at {
            assert(out[i] == records[i]);
        } else if i < at {
            assert(out[i] == records[i] && out[j] == records[j - 1]);
        } else if i == at {
            assert(out[j] == records[j - 1]);
            assert(records[at].id <= records[j - 1].id);
        } else {
            assert(out[i] == records[i - 1] && out[j] == records[j - 1]);
        }
    }
}

/// Sorting puts the records in ascending order of id.
pub proof fn lemma_sorted_is_ascending(records: Seq<ControlView>)
    ensures
        ascending(sorted_by_id(records)),
        sorted_by_id(records).len() == records.len(),
    decreases records.len(),
{
    if records.len() > 0 {
        lemma_sorted_is_ascending(records.drop_first());
        lemma_placed_ascending(sorted_by_id(records.drop_first()), records.first());
    }
}

/// Sequences that hold the same records as often are as long and have the
/// same members.
pub proof fn lemma_same_members(first: Seq<ControlView>, second: Seq<ControlView>)
    requires
        first.to_multiset() == second.to_multiset(),
    ensures
        first.len() == second.len(),
        forall|record: ControlView| first.contains(record) <==> second.contains(record),
{
    vstd::seq_lib::to_multiset_len(first);
    vstd::seq_lib::to_multiset_len(second);
    assert forall|record: ControlView| first.contains(record) <==> second.contains(record) by {
        vstd::seq_lib::to_multiset_contains(first, record);
        vstd::seq_lib::to_multiset_contains(second, record);
    }
}

/// Sequences that hold the same records as often have both distinct ids or
/// neither.
pub proof fn lemma_same_members_distinct(first: Seq<ControlView>, second: Seq<ControlView>)
    requires
        first.to_multiset() == second.to_multiset(),
        distinct_ids(first),
    ensures
        distinct_ids(second),
{
    lemma_same_members(first, second);
    assert(first.no_duplicates());
    first.lemma_multiset_has_no_duplicates();
    second.lemma_multiset_has_no_duplicates_conv();
    assert forall|i: int, j: int|
        0 <= i < second.len() && 0 <= j < second.len() && i != j implies second[i].id
        != second[j].id by {
        assert(second.contains(second[i]));
        assert(second.contains(second[j]));
        assert(first.contains(second[i]));
        assert(first.contains(second[j]));
        let a = choose|a: int| 0 <= a < first.len() && first[a] == second[i];
        let b = choose|b: int| 0 <= b < first.len() && first[b] == second[j];
        assert(second[i] != second[j]);
        assert(a != b);
    }
}

/// Sorting neither drops a record nor adds one.
pub proof fn lemma_sorted_keeps_records(records: Seq<ControlView>)
    ensures
        sorted_by_id(records).to_multiset() == records.to_multiset(),
        sorted_by_id(records).len() == records.len(),
        forall|record: ControlView|
            sorted_by_id(records).contains(record) <==> records.contains(record),
    decreases records.len(),
{
    if records.len() > 0 {
        let rest = records.drop_first();
        let sorted = sorted_by_id(rest);
        lemma_sorted_keeps_records(rest);
        let at = first_at_least(sorted, records.first().id, 0);
        lemma_first_at_least(sorted, records.first().id, 0);
        vstd::seq_lib::to_multiset_insert(sorted, at, records.first());
        vstd::seq_lib::to_multiset_insert(rest, 0, records.first());
        assert(records =~= rest.insert(0, records.first()));
    }
    lemma_same_members(sorted_by_id(records), records);
}

/// Records with distinct ids stand after sorting in strictly ascending
/// order.
pub proof fn lemma_sorted_is_strict(records: Seq<ControlView>)
    requires
        distinct_ids(records),
    ensures
        strictly_ascending(sorted_by_id(records)),
{
    let sorted = sorted_by_id(records);
    lemma_sorted_is_ascending(records);
    lemma_sorted_keeps_records(records);
    lemma_same_members_distinct(records, sorted);
    assert forall|i: int, j: int| 0 <= i < j < sorted.len() implies sorted[i].id
        < sorted[j].id by {
        assert(sorted[i].id <= sorted[j].id);
    }
}

/// Two strictly ascending sequences that hold the same records agree up to
/// every position.
pub proof fn lemma_same_records_same_order(
    first: Seq<ControlView>,
    second: Seq<ControlView>,
    upto: int,
)
    requires
        strictly_ascending(first),
        strictly_ascending(second),
        first.len() == second.len(),
        forall|record: ControlView| first.contains(record) <==> second.contains(record),
        0 <= upto <= first.len(),
    ensures
        forall|k: int| 0 <= k < upto ==> first[k] == second[k],
    decreases upto,
{
    if upto > 0 {
        lemma_same_records_same_order(first, second, upto - 1);
        let i = upto - 1;
        assert(first.contains(first[i]));
        assert(second.contains(second[i]));
        let j = choose|j: int| 0 <= j < second.len() && second[j] == first[i];
        let k = choose|k: int| 0 <= k < first.len() && first[k] == second[i];
        if j < i {
            assert(first[j] == second[j]);
            assert(first[j].id < first[i].id);
        }
        if k < i {
            assert(first[k] == second[k]);
            assert(second[k].id < second[i].id);
        }
        if j > i {
            assert(second[i].id < second[j].id);
        }
        if k > i {
            assert(first[i].id < first[k].id);
        }
    }
}

/// The order in which a layout lists its records is of no account: two
/// lists of the same records, no two of them with one id, are sorted into the
/// same order.
pub proof fn lemma_order_is_of_no_account(first: Seq<ControlView>, second: Seq<ControlView>)
    requires
        first.to_multiset() == second.to_multiset(),
        distinct_ids(first),
    ensures
        sorted_by_id(first) == sorted_by_id(second),
{
    lemma_same_members(first, second);
    lemma_same_members_distinct(first, second);
    lemma_sorted_is_strict(first);
    lemma_sorted_is_strict(second);
    lemma_sorted_keeps_records(first);
    lemma_sorted_keeps_records(second);
    lemma_sorted_is_ascending(first);
    lemma_sorted_is_ascending(second);
    let a = sorted_by_id(first);
    let b = sorted_by_id(second);
    assert forall|record: ControlView| a.contains(record) <==> b.contains(record) by {
        assert(first.contains(record) <==> second.contains(record));
    }
    lemma_same_records_same_order(a, b, a.len() as int);
    assert(a =~= b);
}

/// In a strictly ascending sequence the id at a position exceeds the id at
/// an earlier position by at least the distance between them.
pub proof fn lemma_strict_gap(records: Seq<ControlView>, i: int, j: int)
    requires
        strictly_ascending(records),
        0 <= i <= j < records.len(),
    ensures
        records[j].id - records[i].id >= j - i,
    decreases j - i,
{
    if i < j {
        lemma_strict_gap(records, i, j - 1);
        assert(records[j - 1].id < records[j].id);
    }
}

/// Where the ids of the records are the numbers from one to their count,
/// in whatever order, sorting puts the record with id `k` at position
/// `k - 1`: the position that slot `k` of a routing table names.
pub proof fn lemma_ids_fill_slots(records: Seq<ControlView>)
    requires
        distinct_ids(records),
        forall|i: int| 0 <= i < records.len() ==> 1 <= (#[trigger] records[i]).id <= records.len(),
    ensures
        forall|i: int|
            0 <= i < records.len() ==> (#[trigger] sorted_by_id(records)[i]).id == i + 1,
{
    let sorted = sorted_by_id(records);
    lemma_sorted_is_strict(records);
    lemma_sorted_keeps_records(records);
    lemma_sorted_is_ascending(records);
    assert forall|i: int| 0 <= i < sorted.len() implies 1 <= (#[trigger] sorted[i]).id
        <= records.len() by {
        assert(sorted.contains(sorted[i]));
        assert(records.contains(sorted[i]));
        let a = choose|a: int| 0 <= a < records.len() && records[a] == sorted[i];
        assert(1 <= records[a].id <= records.len());
    }
    assert forall|i: int| 0 <= i < records.len() implies (#[trigger] sorted[i]).id == i + 1 by {
        lemma_strict_gap(sorted, 0, i);
        lemma_strict_gap(sorted, i, sorted.len() - 1);
        assert(1 <= sorted[0].id);
        assert(sorted[sorted.len() - 1].id <= records.len());
    }
}

/// Sorts the records of a layout by id, keeping the order of records that
/// share one.
pub fn sort_by_id(records: Vec<Control>) -> (r: Vec<Control>)
    ensures
        records_of(r@) == sorted_by_id(records_of(records@)),
{
    let ghost given = records@;
    let mut rest = records;
    let mut out: Vec<Control> = Vec::new();
    assert(records_of(given).skip(given.len() as int) =~= Seq::<ControlView>::empty());
    assert(records_of(out@) =~= Seq::<ControlView>::empty());
    while rest.len() > 0
        invariant
            rest@ == given.take(rest@.len() as int),
            rest@.len() <= given.len(),
            records_of(out@) == sorted_by_id(records_of(given).skip(rest@.len() as int)),
        decreases rest@.len(),
    {
        let ghost k = rest@.len() as int;
        let record = rest.pop().unwrap();
        assert(record == given[k - 1]);
        assert(rest@ =~= given.take(k - 1));
        let mut at: usize = 0;
        while at < out.len() && out[at].id < record.id
            invariant
                at <= out@.len(),
                first_at_least(records_of(out@), record.id, 0) == first_at_least(
                    records_of(out@),
                    record.id,
                    at as int,
                ),
            decreases out@.len() - at,
        {
            at += 1;
        }
        let ghost before = out@;
        out.insert(at, record);
        proof {
            assert(records_of(given).skip(k - 1).first() == record@);
            assert(records_of(given).skip(k - 1).drop_first() =~= records_of(given).skip(k));
            assert(records_of(out@) =~= records_of(before).insert(at as int, record@));
        }
    }
    assert(records_of(given).skip(0) =~= records_of(given));
    out
}

/// The kinds of control that a layout can name.
#[derive(Clone, Copy, Debug, PartialEq, Eq, Structural)]
pub enum ControlKind {
    Pad,
    DirectionalPad,
    HorizontalSlider,
    VerticalSlider,
    EndlessEncoder,
}

/// The kind that `type_id` names, if it names one.
pub open spec fn kind_of(type_id: Seq<char>) -> Option<ControlKind> {
    if type_id == "pad"@ {
        Some(ControlKind::Pad)
    } else if type_id == "dpad"@ {
        Some(ControlKind::DirectionalPad)
    } else if type_id == "vert_slider"@ {
        Some(ControlKind::VerticalSlider)
    } else if type_id == "horz_slider"@ {
        Some(ControlKind::HorizontalSlider)
    } else if type_id == "endless"@ {
        Some(ControlKind::EndlessEncoder)
    } else {
        None
    }
}

pub fn kind(type_id: &String) -> (r: Option<ControlKind>)
    ensures
        r == kind_of(type_id@),
{
    if *type_id == String::from_str("pad") {
        Some(ControlKind::Pad)
    } else if *type_id == String::from_str("dpad") {
        Some(ControlKind::DirectionalPad)
    } else if *type_id == String::from_str("vert_slider") {
        Some(ControlKind::VerticalSlider)
    } else if *type_id == String::from_str("horz_slider") {
        Some(ControlKind::HorizontalSlider)
    } else if *type_id == String::from_str("endless") {
        Some(ControlKind::EndlessEncoder)
    } else {
        None
    }
}

/// Tells whether a flag is on: it is where the record gives it as `true`;
/// given as `false` or not given, it is off.
pub fn is_set(given: Option<bool>) -> (r: bool)
    ensures
        r == (given == Some(true)),
{
    match given {
        Some(b) => b,
        None => false,
    }
}

/// What a directional pad sends for a press or a release that the layout
/// gives no value.
pub open spec fn value_or_zero(given: Option<ArgType>) -> ArgType {
    match given {
        Some(a) => a,
        None => ArgType::IType(0),
    }
}

/// `state` is the control that `record` describes, as it stands when built
/// at time `now`.
///
/// A pad reports what the record asks for among force, moves, end and place:
/// a flag that the record does not give is off. A slider takes its bounds, step
/// and starting value from the record, and the defaults for those it does not
/// give.
pub open spec fn realises(state: ControllerState, record: ControlView, now: u64) -> bool {
    match kind_of(record.type_id) {
        Some(ControlKind::Pad) => {
            &&& state matches ControllerState::Pad(pad)
            &&& pad.address@ == record.address
            &&& pad.args@ == record.args
            &&& pad.pressure == (record.pressure == Some(true))
            &&& pad.generate_move == (record.generate_move == Some(true))
            &&& pad.generate_end == (record.generate_end == Some(true))
            &&& pad.generate_coords == (record.generate_coords == Some(true))
            &&& pad.previous_time == now
        },
        Some(ControlKind::DirectionalPad) => {
            &&& state matches ControllerState::DirectionalPad(pad)
            &&& pad.address@ == record.address
            &&& pad.args_on@ == record.args.push(value_or_zero(record.on))
            &&& pad.args_off@ == record.args.push(value_or_zero(record.off))
            &&& pad.previous_time == now
        },
        Some(ControlKind::VerticalSlider) => {
            &&& state matches ControllerState::VerticalSlider(slider)
            &&& slider.address@ == record.address
            &&& slider.args@ == record.args
            &&& slider.min == quantity_or(record.min, SLIDER_MIN)
            &&& slider.max == quantity_or(record.max, SLIDER_MAX)
            &&& slider.incr == quantity_or(record.incr, SLIDER_INCR)
            &&& slider.value == quantity_or(record.initial, SLIDER_INITIAL)
            &&& slider.last_y == (Scalar { micros: 0 })
        },
        Some(ControlKind::HorizontalSlider) => {
            &&& state matches ControllerState::HorizontalSlider(slider)
            &&& slider.address@ == record.address
            &&& slider.args@ == record.args
            &&& slider.min == quantity_or(record.min, SLIDER_MIN)
            &&& slider.max == quantity_or(record.max, SLIDER_MAX)
            &&& slider.incr == quantity_or(record.incr, SLIDER_INCR)
            &&& slider.value == quantity_or(record.initial, SLIDER_INITIAL)
            &&& slider.last_x == (Scalar { micros: 0 })
        },
        Some(ControlKind::EndlessEncoder) => {
            &&& state matches ControllerState::EndlessEncoder(encoder)
            &&& encoder.address@ == record.address
            &&& encoder.args@ == record.args
        },
        None => false,
    }
}

/// Builds the control that `record` describes, or nothing where the record
/// names no kind of control.
pub fn instantiate(record: &Control, now: u64) -> (r: Option<ControllerState>)
    ensures
        r is Some <==> kind_of(record@.type_id) is Some,
        r matches Some(state) ==> realises(state, record@, now),
{
    let address = record.address.clone();
    let args = followed_by(Vec::new(), &record.args);
    assert(args@ =~= record.args@);
    match kind(&record.type_id) {
        Some(ControlKind::Pad) => Some(
            ControllerState::Pad(
                Pad::new(
                    address,
                    args,
                    is_set(record.pressure),
                    is_set(record.generate_move),
                    is_set(record.generate_end),
                    is_set(record.generate_coords),
                    now,
                ),
            ),
        ),
        Some(ControlKind::DirectionalPad) => {
            let on = match record.on {
                Some(a) => a,
                None => ArgType::IType(0),
            };
            let off = match record.off {
                Some(a) => a,
                None => ArgType::IType(0),
            };
            Some(ControllerState::DirectionalPad(DPad::new(address, on, off, args, now)))
        },
        Some(ControlKind::VerticalSlider) => Some(
            ControllerState::VerticalSlider(
                VSlider::new(address, args, record.min, record.max, record.initial, record.incr),
            ),
        ),
        Some(ControlKind::HorizontalSlider) => Some(
            ControllerState::HorizontalSlider(
                HSlider::new(address, args, record.min, record.max, record.initial, record.incr),
            ),
        ),
        Some(ControlKind::EndlessEncoder) => Some(
            ControllerState::EndlessEncoder(Endless::new(address, args)),
        ),
        None => None,
    }
}

/// The records of `records` that name a kind of control, in their order.
pub open spec fn known(records: Seq<ControlView>) -> Seq<ControlView> {
    records.filter(|record: ControlView| kind_of(record.type_id) is Some)
}

/// `states` holds, in order, the controls that `records` describe.
pub open spec fn realise_all(states: Seq<ControllerState>, records: Seq<ControlView>, now: u64) -> bool {
    &&& states.len() == records.len()
    &&& forall|i: int| 0 <= i < states.len() ==> realises(#[trigger] states[i], records[i], now)
}

/// Builds the controls that `records` describe, in order. A record that
/// names no kind of control is passed over.
pub fn instantiate_all(records: &Vec<Control>, now: u64) -> (r: Vec<ControllerState>)
    ensures
        realise_all(r@, known(records_of(records@)), now),
{
    let mut out: Vec<ControllerState> = Vec::new();
    let mut i: usize = 0;
    assert(records_of(records@).take(0) =~= Seq::<ControlView>::empty());
    proof {
        reveal(Seq::filter);
    }
    while i < records.len()
        invariant
            i <= records@.len(),
            realise_all(out@, known(records_of(records@).take(i as int)), now),
        decreases records@.len() - i,
    {
        let ghost before = records_of(records@).take(i as int);
        proof {
            assert(records_of(records@).take(i as int + 1) =~= before.push(records@[i as int]@));
            before.lemma_filter_push(
                records@[i as int]@,
                |record: ControlView| kind_of(record.type_id) is Some,
            );
        }
        match instantiate(&records[i], now) {
            Some(state) => {
                out.push(state);
            },
            None => {},
        }
        i += 1;
    }
    assert(records_of(records@).take(i as int) =~= records_of(records@));
    out
}

/// The id of the first record at or after `from` that shares its id with the
/// record after it.
pub open spec fn repeat_from(records: Seq<ControlView>, from: int) -> Option<usize>
    decreases records.len() - from,
{
    if from < 0 || from + 1 >= records.len() {
        None
    } else if records[from].id == records[from + 1].id {
        Some(records[from].id)
    } else {
        repeat_from(records, from + 1)
    }
}

/// From `from` on, neighbours share an id exactly where `repeat_from` finds
/// one.
pub proof fn lemma_repeat_from(records: Seq<ControlView>, from: int)
    requires
        0 <= from,
    ensures
        repeat_from(records, from) is None <==> forall|k: int|
            from <= k && k + 1 < records.len() ==> (#[trigger] records[k]).id != records[k + 1].id,
    decreases records.len() - from,
{
    if from + 1 < records.len() {
        lemma_repeat_from(records, from + 1);
        if records[from].id != records[from + 1].id {
            assert forall|k: int|
                from <= k && k + 1 < records.len() && repeat_from(
                    records,
                    from,
                ) is None implies (#[trigger] records[k]).id != records[k + 1].id by {
                if k > from {
                    assert(from + 1 <= k);
                }
            }
        }
    }
}

/// A layout is refused for a shared id exactly where two of its records
/// share one.
pub proof fn lemma_shared_id_is_found(records: Seq<ControlView>)
    ensures
        repeat_from(sorted_by_id(records), 0) is None <==> distinct_ids(records),
{
    let sorted = sorted_by_id(records);
    lemma_sorted_is_ascending(records);
    lemma_sorted_keeps_records(records);
    lemma_repeat_from(sorted, 0);
    if distinct_ids(records) {
        lemma_sorted_is_strict(records);
        assert forall|k: int| 0 <= k && k + 1 < sorted.len() implies (#[trigger] sorted[k]).id
            != sorted[k + 1].id by {
            assert(sorted[k].id < sorted[k + 1].id);
        }
    }
    if repeat_from(sorted, 0) is None {
        assert forall|i: int, j: int| 0 <= i < j < sorted.len() implies sorted[i].id
            < sorted[j].id by {
            assert(sorted[i].id <= sorted[j - 1].id);
            assert(sorted[j - 1].id != sorted[j].id);
            assert(sorted[j - 1].id <= sorted[j].id);
        }
        assert(distinct_ids(sorted)) by {
            assert forall|i: int, j: int|
                0 <= i < sorted.len() && 0 <= j < sorted.len() && i != j implies sorted[i].id
                != sorted[j].id by {
                if i < j {
                    assert(sorted[i].id < sorted[j].id);
                } else {
                    assert(sorted[j].id < sorted[i].id);
                }
            }
        }
        lemma_same_members_distinct(sorted, records);
    }
}

/// Looks for two neighbours that share an id, and returns the id of the
/// first such pair.
pub fn find_repeat(records: &Vec<Control>) -> (r: Option<usize>)
    ensures
        r == repeat_from(records_of(records@), 0),
{
    if records.len() < 2 {
        return None;
    }
    let mut i: usize = 0;
    while i < records.len() - 1
        invariant
            records@.len() >= 2,
            i <= records@.len() - 1,
            repeat_from(records_of(records@), 0) == repeat_from(records_of(records@), i as int),
        decreases records@.len() - i,
    {
        if records[i].id == records[i + 1].id {
            return Some(records[i].id);
        }
        i += 1;
    }
    None
}

/// Why no engine can be built from the cells `grid` and the records
/// `records`, or `None` where one can: two records share an id, or else a
/// cell holds a slot beyond the controls that the records describe.
pub open spec fn build_failure(grid: Seq<Seq<u32>>, records: Seq<ControlView>) -> Option<
    BuildError,
> {
    match repeat_from(sorted_by_id(records), 0) {
        Some(id) => Some(BuildError::DuplicateId(id)),
        None => if bounded(grid, known(sorted_by_id(records)).len() as int) {
            None
        } else {
            Some(BuildError::UnresolvedSlot)
        },
    }
}

/// Compiles a layout into a routing table and the controls it routes to.
///
/// The controls stand in ascending order of the ids of their records, so
/// that slot `k` of the table names the control at position `k - 1`. Records
/// that name no kind of control are passed over.
pub fn compile(buffer: Vec<Vec<u32>>, records: Vec<Control>, now: u64) -> (r: Result<
    (RoutingTable, Vec<ControllerState>),
    BuildError,
>)
    ensures
        match r {
            Ok((table, controls)) => {
                &&& build_failure(grid_of(buffer@), records_of(records@)) is None
                &&& table.cells == buffer
                &&& table.bounded_by(controls@.len() as int)
                &&& realise_all(controls@, known(sorted_by_id(records_of(records@))), now)
            },
            Err(e) => build_failure(grid_of(buffer@), records_of(records@)) == Some(e),
        },
{
    let sorted = sort_by_id(records);
    match find_repeat(&sorted) {
        Some(id) => {
            return Err(BuildError::DuplicateId(id));
        },
        None => {},
    }
    let controls = instantiate_all(&sorted, now);
    let table = RoutingTable::new(buffer);
    if !table.within(controls.len()) {
        return Err(BuildError::UnresolvedSlot);
    }
    Ok((table, controls))
}

impl BuildError {
    /// The failure in words.
    pub fn message(&self) -> (r: &'static str)
        ensures
            r@ == match *self {
                BuildError::NotAnObject => "failed to pass JSON IR"@,
                BuildError::MissingBuffer => "failed to find buffer"@,
                BuildError::MissingControllers => "failed to find controllers array"@,
                BuildError::MalformedBuffer => "buffer is not a grid of slots"@,
                BuildError::MalformedControl(_) => "unexpected format error with controller"@,
                BuildError::DuplicateId(_) => "two controllers share an id"@,
                BuildError::UnresolvedSlot => "buffer names a slot that no controller fills"@,
            },
    {
        match self {
            BuildError::NotAnObject => "failed to pass JSON IR",
            BuildError::MissingBuffer => "failed to find buffer",
            BuildError::MissingControllers => "failed to find controllers array",
            BuildError::MalformedBuffer => "buffer is not a grid of slots",
            BuildError::MalformedControl(_) => "unexpected format error with controller",
            BuildError::DuplicateId(_) => "two controllers share an id",
            BuildError::UnresolvedSlot => "buffer names a slot that no controller fills",
        }
    }
}

} // verus!
