//! The closed set of controls that an engine can hold.

use vstd::prelude::*;
use crate::device::contact::{Contact, State};
use crate::device::controllers::{
    dpad_destination, taken_as, Controller, DPad, Endless, HSlider, Pad, VSlider,
};
use crate::device::message::{views, Message, MessageView};

verus! {

/// One control of a layout, of whichever kind.
#[derive(Debug, Clone)]
pub enum ControllerState {
    Pad(Pad),
    DirectionalPad(DPad),
    VerticalSlider(VSlider),
    HorizontalSlider(HSlider),
    EndlessEncoder(Endless),
}

impl Controller for ControllerState {
    open spec fn label(&self) -> Seq<char> {
        match self {
            ControllerState::Pad(c) => c.label(),
            ControllerState::DirectionalPad(c) => c.label(),
            ControllerState::VerticalSlider(c) => c.label(),
            ControllerState::HorizontalSlider(c) => c.label(),
            ControllerState::EndlessEncoder(c) => c.label(),
        }
    }

    open spec fn after_start(&self, contact: Contact, now: u64) -> ControllerState {
        match self {
            ControllerState::Pad(c) => ControllerState::Pad(c.after_start(contact, now)),
            ControllerState::DirectionalPad(c) => ControllerState::DirectionalPad(
                c.after_start(contact, now),
            ),
            ControllerState::VerticalSlider(c) => ControllerState::VerticalSlider(
                c.after_start(contact, now),
            ),
            ControllerState::HorizontalSlider(c) => ControllerState::HorizontalSlider(
                c.after_start(contact, now),
            ),
            ControllerState::EndlessEncoder(c) => ControllerState::EndlessEncoder(
                c.after_start(contact, now),
            ),
        }
    }

    open spec fn start_output(&self, contact: Contact, now: u64) -> Seq<MessageView> {
        match self {
            ControllerState::Pad(c) => c.start_output(contact, now),
            ControllerState::DirectionalPad(c) => c.start_output(contact, now),
            ControllerState::VerticalSlider(c) => c.start_output(contact, now),
            ControllerState::HorizontalSlider(c) => c.start_output(contact, now),
            ControllerState::EndlessEncoder(c) => c.start_output(contact, now),
        }
    }

    open spec fn after_move(&self, contact: Contact, now: u64) -> ControllerState {
        match self {
            ControllerState::Pad(c) => ControllerState::Pad(c.after_move(contact, now)),
            ControllerState::DirectionalPad(c) => ControllerState::DirectionalPad(
                c.after_move(contact, now),
            ),
            ControllerState::VerticalSlider(c) => ControllerState::VerticalSlider(
                c.after_move(contact, now),
            ),
            ControllerState::HorizontalSlider(c) => ControllerState::HorizontalSlider(
                c.after_move(contact, now),
            ),
            ControllerState::EndlessEncoder(c) => ControllerState::EndlessEncoder(
                c.after_move(contact, now),
            ),
        }
    }

    open spec fn move_output(&self, contact: Contact, now: u64) -> Seq<MessageView> {
        match self {
            ControllerState::Pad(c) => c.move_output(contact, now),
            ControllerState::DirectionalPad(c) => c.move_output(contact, now),
            ControllerState::VerticalSlider(c) => c.move_output(contact, now),
            ControllerState::HorizontalSlider(c) => c.move_output(contact, now),
            ControllerState::EndlessEncoder(c) => c.move_output(contact, now),
        }
    }

    open spec fn after_end(&self, contact: Contact, now: u64) -> ControllerState {
        match self {
            ControllerState::Pad(c) => ControllerState::Pad(c.after_end(contact, now)),
            ControllerState::DirectionalPad(c) => ControllerState::DirectionalPad(
                c.after_end(contact, now),
            ),
            ControllerState::VerticalSlider(c) => ControllerState::VerticalSlider(
                c.after_end(contact, now),
            ),
            ControllerState::HorizontalSlider(c) => ControllerState::HorizontalSlider(
                c.after_end(contact, now),
            ),
            ControllerState::EndlessEncoder(c) => ControllerState::EndlessEncoder(
                c.after_end(contact, now),
            ),
        }
    }

    open spec fn end_output(&self, contact: Contact, now: u64) -> Seq<MessageView> {
        match self {
            ControllerState::Pad(c) => c.end_output(contact, now),
            ControllerState::DirectionalPad(c) => c.end_output(contact, now),
            ControllerState::VerticalSlider(c) => c.end_output(contact, now),
            ControllerState::HorizontalSlider(c) => c.end_output(contact, now),
            ControllerState::EndlessEncoder(c) => c.end_output(contact, now),
        }
    }

    fn name(&self) -> (r: &'static str) {
        match self {
            ControllerState::Pad(c) => c.name(),
            ControllerState::DirectionalPad(c) => c.name(),
            ControllerState::VerticalSlider(c) => c.name(),
            ControllerState::HorizontalSlider(c) => c.name(),
            ControllerState::EndlessEncoder(c) => c.name(),
        }
    }

    fn touch_start(&mut self, contact: &Contact, now: u64, sink: &mut Vec<Message>) -> (r: Result<
        (),
        &'static str,
    >) {
        match self {
            ControllerState::Pad(c) => c.touch_start(contact, now, sink),
            ControllerState::DirectionalPad(c) => c.touch_start(contact, now, sink),
            ControllerState::VerticalSlider(c) => c.touch_start(contact, now, sink),
            ControllerState::HorizontalSlider(c) => c.touch_start(contact, now, sink),
            ControllerState::EndlessEncoder(c) => c.touch_start(contact, now, sink),
        }
    }

    fn touch_move(&mut self, contact: &Contact, now: u64, sink: &mut Vec<Message>) -> (r: bool) {
        match self {
            ControllerState::Pad(c) => c.touch_move(contact, now, sink),
            ControllerState::DirectionalPad(c) => c.touch_move(contact, now, sink),
            ControllerState::VerticalSlider(c) => c.touch_move(contact, now, sink),
            ControllerState::HorizontalSlider(c) => c.touch_move(contact, now, sink),
            ControllerState::EndlessEncoder(c) => c.touch_move(contact, now, sink),
        }
    }

    fn touch_end(&mut self, contact: &Contact, now: u64, sink: &mut Vec<Message>) -> (r: bool) {
        match self {
            ControllerState::Pad(c) => c.touch_end(contact, now, sink),
            ControllerState::DirectionalPad(c) => c.touch_end(contact, now, sink),
            ControllerState::VerticalSlider(c) => c.touch_end(contact, now, sink),
            ControllerState::HorizontalSlider(c) => c.touch_end(contact, now, sink),
            ControllerState::EndlessEncoder(c) => c.touch_end(contact, now, sink),
        }
    }
}

impl ControllerState {
    /// The control after it has handled `contact` at time `now` by the
    /// phase of the touch. A contact of no valid phase leaves it as it is.
    pub open spec fn handled(&self, contact: Contact, now: u64) -> ControllerState {
        match contact.state {
            State::Start => self.after_start(contact, now),
            State::Move => self.after_move(contact, now),
            State::End => self.after_end(contact, now),
            State::Invalid => *self,
        }
    }

    /// The messages that handling `contact` at time `now` produces.
    pub open spec fn handled_output(&self, contact: Contact, now: u64) -> Seq<MessageView> {
        match contact.state {
            State::Start => self.start_output(contact, now),
            State::Move => self.move_output(contact, now),
            State::End => self.end_output(contact, now),
            State::Invalid => seq![],
        }
    }

    /// Handles a contact by the phase of the touch: the start of a touch
    /// goes to `touch_start`, a move to `touch_move` and a release to
    /// `touch_end`. A contact of no valid phase is passed over.
    pub fn handle(&mut self, contact: &Contact, now: u64, sink: &mut Vec<Message>)
        ensures
            *final(self) == old(self).handled(*contact, now),
            views(final(sink)@) == views(old(sink)@) + old(self).handled_output(*contact, now),
    {
        match contact.state {
            State::Start => {
                let _ = self.touch_start(contact, now, sink);
            },
            State::Move => {
                self.touch_move(contact, now, sink);
            },
            State::End => {
                self.touch_end(contact, now, sink);
            },
            State::Invalid => {
                assert(views(sink@) =~= views(old(sink)@) + old(self).handled_output(
                    *contact,
                    now,
                ));
            },
        }
    }
}

impl ControllerState {
    /// A directional pad handles a contact by its phase: a press is reported
    /// once the debounce window has passed, a move is passed over, and a
    /// release is always reported with the release arguments.
    pub proof fn lemma_directional_pad_by_phase(pad: DPad, contact: Contact, now: u64)
        ensures
            contact.state == State::Start ==> ControllerState::DirectionalPad(pad).handled_output(
                contact,
                now,
            ) == pad.start_output(contact, now),
            contact.state == State::Move ==> {
                &&& ControllerState::DirectionalPad(pad).handled_output(contact, now)
                    == Seq::<MessageView>::empty()
                &&& ControllerState::DirectionalPad(pad).handled(contact, now)
                    == ControllerState::DirectionalPad(pad)
            },
            contact.state == State::End ==> ControllerState::DirectionalPad(pad).handled_output(
                contact,
                now,
            ) == seq![
                (MessageView {
                    address: pad.address@,
                    args: pad.args_off@,
                    destination: Some(dpad_destination()),
                }),
            ],
    {
    }

    /// A pad and a slider handle a contact by its phase as their combined
    /// handlers do.
    pub proof fn lemma_combined_handlers(self, contact: Contact, now: u64)
        requires
            !(self is DirectionalPad),
        ensures
            self.handled(contact, now) == self.after_start(contact, now),
            self.handled_output(contact, now) == self.start_output(contact, now),
    {
        assert(taken_as(contact, contact.state) == contact);
    }
}

} // verus!
