//! The engine for callers that deliver touch contacts one at a time.

use vstd::prelude::*;
use crate::device::contact::{Contact, State};
use crate::device::controllers::Controller;
use crate::device::message::{views, Message, MessageView};
use crate::device::layout::{build_failure, compile, known, realise_all, sorted_by_id, BuildError};
use crate::device::routing::RoutingTable;
use crate::device::schema::{parse_layout, plan_of, Layout, LayoutView};
use crate::device::state::ControllerState;

verus! {

/// Number of fingers that can be followed at a time. Finger identifiers run
/// from zero to one less.
pub const MAX_NUM_IDS: usize = 16;

/// An engine that is handed one contact at a time.
///
/// It remembers for each finger the control under which its touch began, so
/// that the release reaches that control wherever the finger has moved since.
#[derive(Debug, Clone)]
pub struct InterfaceDirect {
    /// The control under each place of the surface.
    pub buffer: RoutingTable,
    /// The controls, the one of slot `k` at position `k - 1`.
    pub controls: Vec<ControllerState>,
    /// For each finger, the slot of the control that awaits its release.
    pub move_end: Vec<Option<u32>>,
}

impl InterfaceDirect {
    /// Every slot that the engine holds names one of its controls, and there
    /// is one pending entry for each finger.
    pub open spec fn wf(&self) -> bool {
        &&& self.buffer.bounded_by(self.controls@.len() as int)
        &&& self.move_end@.len() == MAX_NUM_IDS
        &&& forall|i: int|
            0 <= i < self.move_end@.len() ==> (#[trigger] self.move_end@[i] matches Some(k) ==> 1
                <= k <= self.controls@.len())
    }

    /// The engine can take `contact`: a touch begins on the table, and a
    /// finger whose release is awaited or due is one of those followed.
    pub open spec fn accepts(&self, contact: Contact) -> bool {
        match contact.state {
            State::Start => self.buffer.covers(contact.x.index(), contact.y.index()) && (
            self.buffer.slot(contact.x.index(), contact.y.index()) is Some ==> contact.id
                < MAX_NUM_IDS),
            State::End => contact.id < MAX_NUM_IDS,
            _ => true,
        }
    }

    /// The slot of the control that `contact` goes to, if any: for the start
    /// of a touch the control at its place, for a release the control that
    /// awaits it. A move goes nowhere.
    pub open spec fn target(&self, contact: Contact) -> Option<u32> {
        match contact.state {
            State::Start => self.buffer.slot(contact.x.index(), contact.y.index()),
            State::End => self.move_end@[contact.id as int],
            _ => None,
        }
    }

    /// The controls after `contact` has been handled at time `now`.
    pub open spec fn controls_after(&self, contact: Contact, now: u64) -> Seq<ControllerState> {
        match self.target(contact) {
            Some(k) => self.controls@.update(
                k - 1,
                if contact.state == State::Start {
                    self.controls@[k - 1].after_start(contact, now)
                } else {
                    self.controls@[k - 1].after_end(contact, now)
                },
            ),
            None => self.controls@,
        }
    }

    /// The pending releases after `contact` has been handled.
    pub open spec fn pending_after(&self, contact: Contact) -> Seq<Option<u32>> {
        match self.target(contact) {
            Some(k) => self.move_end@.update(
                contact.id as int,
                if contact.state == State::Start {
                    Some(k)
                } else {
                    None
                },
            ),
            None => self.move_end@,
        }
    }

    /// The messages that handling `contact` at time `now` produces.
    pub open spec fn output(&self, contact: Contact, now: u64) -> Seq<MessageView> {
        match self.target(contact) {
            Some(k) => if contact.state == State::Start {
                self.controls@[k - 1].start_output(contact, now)
            } else {
                self.controls@[k - 1].end_output(contact, now)
            },
            None => seq![],
        }
    }

    /// An engine over the given table and controls, with no release pending.
    /// Every slot in the table must name one of the controls.
    pub fn new(buffer: Vec<Vec<u32>>, controls: Vec<ControllerState>) -> (r: InterfaceDirect)
        requires
            (RoutingTable { cells: buffer }).bounded_by(controls@.len() as int),
        ensures
            r.wf(),
            r.buffer.cells == buffer,
            r.controls == controls,
            forall|i: int| 0 <= i < MAX_NUM_IDS ==> r.move_end@[i] is None,
    {
        let mut move_end: Vec<Option<u32>> = Vec::new();
        while move_end.len() < MAX_NUM_IDS
            invariant
                move_end@.len() <= MAX_NUM_IDS,
                forall|i: int| 0 <= i < move_end@.len() ==> move_end@[i] is None,
            decreases MAX_NUM_IDS - move_end@.len(),
        {
            move_end.push(None);
        }
        InterfaceDirect { buffer: RoutingTable::new(buffer), controls, move_end }
    }

    /// Tells whether the engine can take `contact`.
    pub fn can_handle(&self, contact: &Contact) -> (r: bool)
        ensures
            r == self.accepts(*contact),
    {
        match contact.state {
            State::Start => {
                let x = contact.x.to_index();
                let y = contact.y.to_index();
                self.buffer.contains(x, y) && (self.buffer.lookup(x, y).is_none() || (
                contact.id as usize) < MAX_NUM_IDS)
            },
            State::End => (contact.id as usize) < MAX_NUM_IDS,
            _ => true,
        }
    }

    /// Handles one contact at time `now`.
    ///
    /// The start of a touch goes to the control at its place, which is then
    /// recorded as awaiting the release of that finger. A release goes to
    /// the control recorded for the finger, not to the one at the place of
    /// the release, and clears the record. Moves are not routed.
    #[allow(non_snake_case)]
    pub fn handleContact(&mut self, contact: &Contact, now: u64, sink: &mut Vec<Message>)
        requires
            old(self).wf(),
            old(self).accepts(*contact),
        ensures
            final(self).wf(),
            final(self).buffer == old(self).buffer,
            final(self).controls@ == old(self).controls_after(*contact, now),
            final(self).move_end@ == old(self).pending_after(*contact),
            views(final(sink)@) == views(old(sink)@) + old(self).output(*contact, now),
            old(self).target(*contact) is None ==> {
                &&& final(self).controls@ == old(self).controls@
                &&& final(self).move_end@ == old(self).move_end@
                &&& views(final(sink)@) == views(old(sink)@)
            },
    {
        match contact.state {
            State::Start => {
                let found = self.buffer.lookup(contact.x.to_index(), contact.y.to_index());
                if let Some(id) = found {
                    assert(self.buffer.covers(contact.x.index(), contact.y.index()));
                    let at: usize = id as usize - 1;
                    let _ = self.controls[at].touch_start(contact, now, sink);
                    self.move_end[contact.id as usize] = Some(id);
                }
            },
            State::End => {
                if let Some(id) = self.move_end[contact.id as usize] {
                    let at: usize = id as usize - 1;
                    self.controls[at].touch_end(contact, now, sink);
                    self.move_end[contact.id as usize] = None;
                }
            },
            _ => {},
        }
        assert(views(sink@) =~= views(old(sink)@) + old(self).output(*contact, now));
        assert(self.controls@ =~= old(self).controls_after(*contact, now));
        assert(self.move_end@ =~= old(self).pending_after(*contact));
    }
}

impl InterfaceDirect {
    /// The engine is the one that `layout` describes, built at time `now`:
    /// its table is that of the layout, and its controls are those that the
    /// layout's records describe, in ascending order of id, records of no
    /// known kind left out.
    pub open spec fn built_from(&self, layout: LayoutView, now: u64) -> bool {
        &&& self.wf()
        &&& self.buffer.grid() == layout.buffer
        &&& realise_all(self.controls@, known(sorted_by_id(layout.controllers)), now)
        &&& forall|i: int| 0 <= i < MAX_NUM_IDS ==> self.move_end@[i] is None
    }

    /// Builds the engine that `layout` describes, with no release pending.
    /// No engine is built where two records share an id or the table names a
    /// slot that no control fills.
    pub fn from_layout(layout: Layout, now: u64) -> (r: Result<InterfaceDirect, BuildError>)
        ensures
            match r {
                Ok(engine) => build_failure(layout@.buffer, layout@.controllers) is None
                    && engine.built_from(layout@, now),
                Err(e) => build_failure(layout@.buffer, layout@.controllers) == Some(e),
            },
    {
        match compile(layout.buffer, layout.controllers, now) {
            Ok((table, controls)) => Ok(InterfaceDirect::new(table.cells, controls)),
            Err(e) => Err(e),
        }
    }
}

impl InterfaceDirect {
    /// Engines built from one layout have the same routing table and as
    /// many controls, whenever each was built.
    pub proof fn lemma_same_layout_same_table(
        self,
        other: InterfaceDirect,
        layout: LayoutView,
        now: u64,
        later: u64,
    )
        requires
            self.built_from(layout, now),
            other.built_from(layout, later),
        ensures
            self.buffer.grid() == other.buffer.grid(),
            self.controls@.len() == other.controls@.len(),
    {
    }

    /// The start of a touch that lies on no control reaches no control: no
    /// control changes, no release is awaited and nothing is sent.
    pub proof fn lemma_unrouted_start(self, contact: Contact, now: u64)
        requires
            contact.state == State::Start,
            self.buffer.slot(contact.x.index(), contact.y.index()) is None,
        ensures
            self.controls_after(contact, now) == self.controls@,
            self.pending_after(contact) == self.move_end@,
            self.output(contact, now) == Seq::<MessageView>::empty(),
    {
    }
}

/// Builds an engine from the text of a layout.
#[derive(Debug, Clone)]
pub struct InterfaceBuilder {
    /// The layout, as JSON text.
    pub input: String,
    pub number_of_controllers: u32,
}

impl InterfaceBuilder {
    /// A builder for the layout that `input` describes.
    pub fn new(input: String) -> (r: InterfaceBuilder)
        ensures
            r.input == input,
            r.number_of_controllers == 0,
    {
        InterfaceBuilder { input, number_of_controllers: 0 }
    }

    /// Builds the engine that the text describes, as it stands at time
    /// `now`.
    pub fn build(&self, now: u64) -> (r: Result<InterfaceDirect, BuildError>)
        ensures
            match r {
                Ok(engine) => plan_of(self.input@) is Ok && engine.built_from(
                    plan_of(self.input@).unwrap(),
                    now,
                ),
                Err(e) => plan_of(self.input@) == Err::<LayoutView, BuildError>(e),
            },
    {
        self.build_internal(now)
    }

    /// Reads the text as a layout and builds the engine from it.
    ///
    /// The text must spell a JSON object whose `buffer` is the routing table
    /// and whose `controllers` is the list of records. The records are put
    /// in ascending order of id before the controls are built, so that the
    /// order in which the text lists them is of no account.
    pub fn build_internal(&self, now: u64) -> (r: Result<InterfaceDirect, BuildError>)
        ensures
            match r {
                Ok(engine) => plan_of(self.input@) is Ok && engine.built_from(
                    plan_of(self.input@).unwrap(),
                    now,
                ),
                Err(e) => plan_of(self.input@) == Err::<LayoutView, BuildError>(e),
            },
    {
        match parse_layout(self.input.as_str()) {
            Ok(layout) => InterfaceDirect::from_layout(layout, now),
            Err(e) => Err(e),
        }
    }
}

} // verus!
