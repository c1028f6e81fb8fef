//! The engine for callers that poll the sensor frame by frame.

use vstd::prelude::*;
use vstd::string::*;
use crate::device::contact::Contact;
use crate::device::message::{emit, views, Message, MessageView};
use crate::device::layout::{build_failure, compile, known, realise_all, sorted_by_id, BuildError};
use crate::device::routing::RoutingTable;
use crate::device::schema::{parse_layout, plan_of, Layout, LayoutView};
use crate::device::state::ControllerState;

verus! {

/// What the engine reports for a contact that lies on no control.
pub open spec fn miss() -> MessageView {
    MessageView { address: "/not/a/msg"@, args: seq![], destination: None }
}

/// The controls after the control under `contact`, if there is one, has
/// handled it at time `now` by the phase of the touch.
pub open spec fn step_controls(
    table: RoutingTable,
    controls: Seq<ControllerState>,
    contact: Contact,
    now: u64,
) -> Seq<ControllerState> {
    match table.slot(contact.x.index(), contact.y.index()) {
        Some(k) => controls.update(k - 1, controls[k - 1].handled(contact, now)),
        None => controls,
    }
}

/// The messages for `contact` at time `now`: those of the control under it,
/// or, where there is none and misses are reported, the miss message.
pub open spec fn step_output(
    table: RoutingTable,
    controls: Seq<ControllerState>,
    report_misses: bool,
    contact: Contact,
    now: u64,
) -> Seq<MessageView> {
    match table.slot(contact.x.index(), contact.y.index()) {
        Some(k) => controls[k - 1].handled_output(contact, now),
        None => if report_misses {
            seq![miss()]
        } else {
            seq![]
        },
    }
}

/// The controls after `contacts` have been handled in order at time `now`.
pub open spec fn run_controls(
    table: RoutingTable,
    controls: Seq<ControllerState>,
    contacts: Seq<Contact>,
    now: u64,
) -> Seq<ControllerState>
    decreases contacts.len(),
{
    if contacts.len() == 0 {
        controls
    } else {
        step_controls(
            table,
            run_controls(table, controls, contacts.drop_last(), now),
            contacts.last(),
            now,
        )
    }
}

/// The messages that handling `contacts` in order at time `now` produces.
pub open spec fn run_output(
    table: RoutingTable,
    controls: Seq<ControllerState>,
    report_misses: bool,
    contacts: Seq<Contact>,
    now: u64,
) -> Seq<MessageView>
    decreases contacts.len(),
{
    if contacts.len() == 0 {
        seq![]
    } else {
        run_output(table, controls, report_misses, contacts.drop_last(), now) + step_output(
            table,
            run_controls(table, controls, contacts.drop_last(), now),
            report_misses,
            contacts.last(),
            now,
        )
    }
}

/// Contacts that lie on no control change no control. They produce
/// nothing but the miss message, one for each contact, and that only where
/// misses are reported.
pub proof fn lemma_unrouted_contacts(
    table: RoutingTable,
    controls: Seq<ControllerState>,
    report_misses: bool,
    contacts: Seq<Contact>,
    now: u64,
)
    requires
        forall|i: int|
            0 <= i < contacts.len() ==> table.slot(
                (#[trigger] contacts[i]).x.index(),
                contacts[i].y.index(),
            ) is None,
    ensures
        run_controls(table, controls, contacts, now) == controls,
        run_output(table, controls, report_misses, contacts, now) == if report_misses {
            Seq::new(contacts.len(), |i: int| miss())
        } else {
            Seq::<MessageView>::empty()
        },
    decreases contacts.len(),
{
    if contacts.len() > 0 {
        let front = contacts.drop_last();
        assert forall|i: int| 0 <= i < front.len() implies table.slot(
            (#[trigger] front[i]).x.index(),
            front[i].y.index(),
        ) is None by {
            assert(front[i] == contacts[i]);
        }
        lemma_unrouted_contacts(table, controls, report_misses, front, now);
        let last = contacts.last();
        assert(last == contacts[contacts.len() - 1]);
        if report_misses {
            assert(run_output(table, controls, report_misses, contacts, now) =~= Seq::new(
                contacts.len(),
                |i: int| miss(),
            ));
        } else {
            assert(run_output(table, controls, report_misses, contacts, now)
                =~= Seq::<MessageView>::empty());
        }
    } else {
        assert(run_output(table, controls, report_misses, contacts, now) =~= Seq::new(
            contacts.len(),
            |i: int| miss(),
        ));
    }
}

/// Milliseconds that one frame lasts at `hetz` frames a second, rounded
/// down. At a rate of zero no frame ever ends.
pub fn frame_period(hetz: u32) -> (r: u64)
    ensures
        r == if hetz == 0 { u64::MAX as int } else { 1000int / (hetz as int) },
{
    if hetz == 0 {
        u64::MAX
    } else {
        1000 / (hetz as u64)
    }
}

/// An engine that is handed the contacts of each sensor frame.
#[derive(Debug, Clone)]
pub struct Interface {
    /// The control under each place of the surface.
    pub buffer: RoutingTable,
    /// The controls, the one of slot `k` at position `k - 1`.
    pub controls: Vec<ControllerState>,
    /// Whether a contact that lies on no control is reported.
    pub report_misses: bool,
}

impl Interface {
    /// Every slot in the table names one of the controls.
    pub open spec fn wf(&self) -> bool {
        self.buffer.bounded_by(self.controls@.len() as int)
    }

    /// The engine can take `contact`: it lies on the table.
    pub open spec fn accepts(&self, contact: Contact) -> bool {
        self.buffer.covers(contact.x.index(), contact.y.index())
    }

    /// An engine over the given table and controls. Every slot in the table
    /// must name one of the controls.
    pub fn new(buffer: Vec<Vec<u32>>, controls: Vec<ControllerState>, report_misses: bool) -> (r:
        Interface)
        requires
            (RoutingTable { cells: buffer }).bounded_by(controls@.len() as int),
        ensures
            r.wf(),
            r.buffer.cells == buffer,
            r.controls == controls,
            r.report_misses == report_misses,
    {
        Interface { buffer: RoutingTable::new(buffer), controls, report_misses }
    }

    /// Tells whether the engine can take `contact`.
    pub fn can_handle(&self, contact: &Contact) -> (r: bool)
        ensures
            r == self.accepts(*contact),
    {
        self.buffer.contains(contact.x.to_index(), contact.y.to_index())
    }

    /// Hands one contact to the control under it, which handles it by the
    /// phase of the touch. Where no control lies under it, the miss message
    /// is sent if the engine reports misses.
    pub fn dispatch(&mut self, contact: &Contact, now: u64, sink: &mut Vec<Message>)
        requires
            old(self).wf(),
            old(self).accepts(*contact),
        ensures
            final(self).wf(),
            final(self).buffer == old(self).buffer,
            final(self).report_misses == old(self).report_misses,
            final(self).controls@ == step_controls(
                old(self).buffer,
                old(self).controls@,
                *contact,
                now,
            ),
            views(final(sink)@) == views(old(sink)@) + step_output(
                old(self).buffer,
                old(self).controls@,
                old(self).report_misses,
                *contact,
                now,
            ),
            old(self).buffer.slot(contact.x.index(), contact.y.index()) is None ==> {
                &&& final(self).controls@ == old(self).controls@
                &&& views(final(sink)@) == views(old(sink)@) + if old(self).report_misses {
                    seq![miss()]
                } else {
                    Seq::<MessageView>::empty()
                }
            },
    {
        let found = self.buffer.lookup(contact.x.to_index(), contact.y.to_index());
        match found {
            Some(id) => {
                let at: usize = id as usize - 1;
                self.controls[at].handle(contact, now, sink);
            },
            None => {
                if self.report_misses {
                    let address = String::from_str("/not/a/msg");
                    emit(sink, &address, Vec::new(), None);
                }
            },
        }
        assert(self.controls@ =~= step_controls(
            old(self).buffer,
            old(self).controls@,
            *contact,
            now,
        ));
        assert(views(sink@) =~= views(old(sink)@) + step_output(
            old(self).buffer,
            old(self).controls@,
            old(self).report_misses,
            *contact,
            now,
        ));
    }

    /// Handles the contacts of one frame, in order, at time `now`.
    pub fn run(&mut self, contacts: &Vec<Contact>, now: u64, sink: &mut Vec<Message>)
        requires
            old(self).wf(),
            forall|i: int| 0 <= i < contacts@.len() ==> old(self).accepts(#[trigger] contacts@[i]),
        ensures
            final(self).wf(),
            final(self).buffer == old(self).buffer,
            final(self).report_misses == old(self).report_misses,
            final(self).controls@ == run_controls(
                old(self).buffer,
                old(self).controls@,
                contacts@,
                now,
            ),
            views(final(sink)@) == views(old(sink)@) + run_output(
                old(self).buffer,
                old(self).controls@,
                old(self).report_misses,
                contacts@,
                now,
            ),
    {
        let mut i: usize = 0;
        assert(views(sink@) =~= views(old(sink)@) + run_output(
            old(self).buffer,
            old(self).controls@,
            old(self).report_misses,
            contacts@.take(0),
            now,
        ));
        while i < contacts.len()
            invariant
                i <= contacts@.len(),
                self.wf(),
                self.buffer == old(self).buffer,
                self.report_misses == old(self).report_misses,
                forall|j: int| 0 <= j < contacts@.len() ==> self.accepts(#[trigger] contacts@[j]),
                self.controls@ == run_controls(
                    old(self).buffer,
                    old(self).controls@,
                    contacts@.take(i as int),
                    now,
                ),
                views(sink@) == views(old(sink)@) + run_output(
                    old(self).buffer,
                    old(self).controls@,
                    old(self).report_misses,
                    contacts@.take(i as int),
                    now,
                ),
            decreases contacts@.len() - i,
        {
            self.dispatch(&contacts[i], now, sink);
            proof {
                let next = contacts@.take(i as int + 1);
                assert(next.drop_last() =~= contacts@.take(i as int));
                assert(next.last() == contacts@[i as int]);
                assert(views(sink@) =~= views(old(sink)@) + run_output(
                    old(self).buffer,
                    old(self).controls@,
                    old(self).report_misses,
                    next,
                    now,
                ));
            }
            i += 1;
        }
        assert(contacts@.take(i as int) =~= contacts@);
    }
}

impl Interface {
    /// The engine is the one that `layout` describes, built at time `now`:
    /// its table is that of the layout, and its controls are those that the
    /// layout's records describe, in ascending order of id, records of no
    /// known kind left out.
    pub open spec fn built_from(&self, layout: LayoutView, now: u64, report_misses: bool) -> bool {
        &&& self.wf()
        &&& self.buffer.grid() == layout.buffer
        &&& realise_all(self.controls@, known(sorted_by_id(layout.controllers)), now)
        &&& self.report_misses == report_misses
    }

    /// Builds the engine that `layout` describes, which reports misses if
    /// asked to. No engine is built where two records share an id or the
    /// table names a slot that no control fills.
    pub fn from_layout(layout: Layout, now: u64, report_misses: bool) -> (r: Result<Interface, BuildError>)
        ensures
            match r {
                Ok(engine) => build_failure(layout@.buffer, layout@.controllers) is None
                    && engine.built_from(layout@, now, report_misses),
                Err(e) => build_failure(layout@.buffer, layout@.controllers) == Some(e),
            },
    {
        match compile(layout.buffer, layout.controllers, now) {
            Ok((table, controls)) => Ok(Interface::new(table.cells, controls, report_misses)),
            Err(e) => Err(e),
        }
    }
}

impl Interface {
    /// Engines built from one layout have the same routing table and as
    /// many controls, whenever each was built.
    pub proof fn lemma_same_layout_same_table(
        self,
        other: Interface,
        layout: LayoutView,
        now: u64,
        later: u64,
    )
        requires
            self.built_from(layout, now, self.report_misses),
            other.built_from(layout, later, other.report_misses),
        ensures
            self.buffer.grid() == other.buffer.grid(),
            self.controls@.len() == other.controls@.len(),
    {
    }
}

/// Builds an engine from the text of a layout.
#[derive(Debug, Clone)]
pub struct InterfaceBuilder {
    /// The layout, as JSON text.
    pub input: String,
    pub number_of_controllers: u32,
}

impl InterfaceBuilder {
    /// A builder for the layout that `input` describes.
    pub fn new(input: String) -> (r: InterfaceBuilder)
        ensures
            r.input == input,
            r.number_of_controllers == 0,
    {
        InterfaceBuilder { input, number_of_controllers: 0 }
    }

    /// Picks the sensor to read among the `found` sensors that are
    /// attached: the first of them, at position zero.
    pub fn sensel_info(&self, found: usize) -> (r: Result<usize, &'static str>)
        ensures
            found > 0 ==> r == Ok::<usize, &'static str>(0),
            found == 0 ==> r is Err && r.unwrap_err()@ == "no Sensel device found"@,
    {
        if found == 0 {
            return Err("no Sensel device found");
        }
        Ok(0)
    }

    /// Picks the sensor to connect to, as `sensel_info` does.
    pub fn connect(&self, found: usize) -> (r: Result<usize, &'static str>)
        ensures
            found > 0 ==> r == Ok::<usize, &'static str>(0),
            found == 0 ==> r is Err && r.unwrap_err()@ == "no Sensel device found"@,
    {
        self.sensel_info(found)
    }

    /// Builds the engine that the text describes, as it stands at time
    /// `now`.
    pub fn build(&self, now: u64, report_misses: bool) -> (r: Result<Interface, BuildError>)
        ensures
            match r {
                Ok(engine) => plan_of(self.input@) is Ok && engine.built_from(
                    plan_of(self.input@).unwrap(),
                    now, report_misses,
                ),
                Err(e) => plan_of(self.input@) == Err::<LayoutView, BuildError>(e),
            },
    {
        self.build_internal(now, report_misses)
    }

    /// Reads the text as a layout and builds the engine from it.
    ///
    /// The text must spell a JSON object whose `buffer` is the routing table
    /// and whose `controllers` is the list of records. The records are put
    /// in ascending order of id before the controls are built, so that the
    /// order in which the text lists them is of no account.
    pub fn build_internal(&self, now: u64, report_misses: bool) -> (r: Result<Interface, BuildError>)
        ensures
            match r {
                Ok(engine) => plan_of(self.input@) is Ok && engine.built_from(
                    plan_of(self.input@).unwrap(),
                    now, report_misses,
                ),
                Err(e) => plan_of(self.input@) == Err::<LayoutView, BuildError>(e),
            },
    {
        match parse_layout(self.input.as_str()) {
            Ok(layout) => Interface::from_layout(layout, now, report_misses),
            Err(e) => Err(e),
        }
    }
}

} // verus!
