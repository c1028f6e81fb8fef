//! The state machines behind the controls of a layout.
//!
//! Every control consumes touch contacts and appends the messages it
//! produces to a sink. A control changes nothing but its own memory and the
//! sink.

use vstd::prelude::*;
use crate::device::contact::{Contact, State};
use crate::device::message::{emit, views, ArgType, Endpoint, Message, MessageView};
use crate::device::scalar::{advance, advanced, clamp_spec, movement, movement_of, Scalar};

verus! {

/// Phase code that leads the arguments of a pad's message.
pub const TOUCH_START: i32 = 0;

pub const TOUCH_MOVE: i32 = 1;

pub const TOUCH_END: i32 = 2;

/// Microseconds that must have passed since a control last accepted an
/// event before it accepts the next.
pub const DEBOUNCE_WINDOW: u64 = 20_000;

/// Force, in millionths, that a touch must exceed to activate a pad.
pub const ACTIVATION_FORCE: i64 = 20_000_000;

/// More than the debounce window lies between `previous` and `now`. A clock
/// that ran backwards counts as no time passed.
pub open spec fn settled(previous: u64, now: u64) -> bool {
    now - previous > DEBOUNCE_WINDOW
}

pub fn has_settled(previous: u64, now: u64) -> (r: bool)
    ensures
        r == settled(previous, now),
{
    now > previous && now - previous > DEBOUNCE_WINDOW
}

/// `lead` followed by the elements of `tail`.
pub fn followed_by(lead: Vec<ArgType>, tail: &Vec<ArgType>) -> (r: Vec<ArgType>)
    ensures
        r@ == lead@ + tail@,
{
    let mut out = lead;
    let mut i: usize = 0;
    while i < tail.len()
        invariant
            i <= tail.len(),
            out@ == lead@ + tail@.take(i as int),
        decreases tail.len() - i,
    {
        out.push(tail[i]);
        i += 1;
        assert(out@ =~= lead@ + tail@.take(i as int));
    }
    assert(tail@.take(i as int) =~= tail@);
    out
}

/// `contact` taken as a contact in the phase `state`.
pub open spec fn taken_as(contact: Contact, state: State) -> Contact {
    Contact { state, ..contact }
}

pub fn take_as(contact: &Contact, state: State) -> (r: Contact)
    ensures
        r == taken_as(*contact, state),
{
    Contact {
        id: contact.id,
        x: contact.x,
        y: contact.y,
        total_force: contact.total_force,
        state,
    }
}

/// What every control offers the engine.
///
/// `touch_start` handles what it is given by the phase that the contact
/// reports. `touch_move` and `touch_end` handle what they are given as a move
/// and as the end of a touch. An engine hands the start of a touch to
/// `touch_start`, a move to `touch_move` and a release to `touch_end`.
pub trait Controller: Sized {
    /// The label that `name` returns.
    spec fn label(&self) -> Seq<char>;

    /// The control after `touch_start` has seen `contact` at time `now`.
    spec fn after_start(&self, contact: Contact, now: u64) -> Self;

    /// The messages that `touch_start` produces for `contact` at time `now`.
    spec fn start_output(&self, contact: Contact, now: u64) -> Seq<MessageView>;

    /// The control after `touch_move` has seen `contact` at time `now`.
    spec fn after_move(&self, contact: Contact, now: u64) -> Self;

    /// The messages that `touch_move` produces for `contact` at time `now`.
    spec fn move_output(&self, contact: Contact, now: u64) -> Seq<MessageView>;

    /// The control after `touch_end` has seen `contact` at time `now`.
    spec fn after_end(&self, contact: Contact, now: u64) -> Self;

    /// The messages that `touch_end` produces for `contact` at time `now`.
    spec fn end_output(&self, contact: Contact, now: u64) -> Seq<MessageView>;

    /// The name of this kind of control.
    fn name(&self) -> (r: &'static str)
        ensures
            r@ == self.label(),
    ;

    fn touch_start(&mut self, contact: &Contact, now: u64, sink: &mut Vec<Message>) -> (r: Result<
        (),
        &'static str,
    >)
        ensures
            r is Ok,
            *final(self) == old(self).after_start(*contact, now),
            views(final(sink)@) == views(old(sink)@) + old(self).start_output(*contact, now),
    ;

    /// A moving touch is always reported as handled.
    fn touch_move(&mut self, contact: &Contact, now: u64, sink: &mut Vec<Message>) -> (r: bool)
        ensures
            r,
            *final(self) == old(self).after_move(*contact, now),
            views(final(sink)@) == views(old(sink)@) + old(self).move_output(*contact, now),
    ;

    fn touch_end(&mut self, contact: &Contact, now: u64, sink: &mut Vec<Message>) -> (r: bool)
        ensures
            r,
            *final(self) == old(self).after_end(*contact, now),
            views(final(sink)@) == views(old(sink)@) + old(self).end_output(*contact, now),
    ;
}

/// A pad reports the phases of a touch, with the force and the place of the
/// touch where the layout asks for them.
#[derive(Debug, Clone)]
pub struct Pad {
    /// Address of the messages.
    pub address: String,
    /// Arguments that close every message.
    pub args: Vec<ArgType>,
    pub pressure: bool,
    pub generate_move: bool,
    pub generate_end: bool,
    pub generate_coords: bool,
    /// When the pad last accepted a start or an end.
    pub previous_time: u64,
}

/// The code that stands for a phase in a pad's message.
pub open spec fn phase_code(state: State) -> i32 {
    match state {
        State::Move => TOUCH_MOVE,
        State::End => TOUCH_END,
        _ => TOUCH_START,
    }
}

impl Pad {
    /// The arguments of a pad's message for `contact` in the phase that
    /// `phase` stands for. With both force and place asked for, the `x`
    /// coordinate is sent twice.
    pub open spec fn shaped(&self, phase: i32, contact: Contact) -> Seq<ArgType> {
        let lead = if self.pressure && self.generate_coords {
            seq![
                ArgType::IType(phase),
                ArgType::FType(contact.total_force),
                ArgType::FType(contact.x),
                ArgType::FType(contact.x),
            ]
        } else if self.generate_coords {
            seq![ArgType::IType(phase), ArgType::FType(contact.x), ArgType::FType(contact.y)]
        } else if self.pressure {
            seq![ArgType::IType(phase), ArgType::FType(contact.total_force)]
        } else {
            seq![ArgType::IType(phase)]
        };
        lead + self.args@
    }

    /// The pad takes notice of `contact`: the touch is firm enough and the
    /// debounce window has passed.
    pub open spec fn responds(&self, contact: Contact, now: u64) -> bool {
        contact.total_force.micros > ACTIVATION_FORCE && settled(self.previous_time, now)
    }

    /// The pad sends a message for `contact`.
    pub open spec fn emits(&self, contact: Contact, now: u64) -> bool {
        self.responds(contact, now) && match contact.state {
            State::Start | State::End => true,
            State::Move => self.generate_move,
            State::Invalid => false,
        }
    }

    /// The pad restarts its debounce clock on `contact`.
    pub open spec fn rearms(&self, contact: Contact, now: u64) -> bool {
        self.responds(contact, now) && (contact.state == State::Start || contact.state
            == State::End)
    }

    /// A pad that last accepted an event at time `now`.
    pub fn new(
        address: String,
        args: Vec<ArgType>,
        pressure: bool,
        generate_move: bool,
        generate_end: bool,
        generate_coords: bool,
        now: u64,
    ) -> (r: Pad)
        ensures
            r == (Pad {
                address,
                args,
                pressure,
                generate_move,
                generate_end,
                generate_coords,
                previous_time: now,
            }),
    {
        Pad {
            address,
            args,
            pressure,
            generate_coords,
            generate_move,
            generate_end,
            previous_time: now,
        }
    }

    /// Builds the arguments of a message for `contact`.
    pub fn shape(&self, phase: i32, contact: &Contact) -> (r: Vec<ArgType>)
        ensures
            r@ == self.shaped(phase, *contact),
    {
        let lead = if self.pressure && self.generate_coords {
            vec![
                ArgType::IType(phase),
                ArgType::FType(contact.total_force),
                ArgType::FType(contact.x),
                ArgType::FType(contact.x),
            ]
        } else if self.generate_coords {
            vec![ArgType::IType(phase), ArgType::FType(contact.x), ArgType::FType(contact.y)]
        } else if self.pressure {
            vec![ArgType::IType(phase), ArgType::FType(contact.total_force)]
        } else {
            vec![ArgType::IType(phase)]
        };
        followed_by(lead, &self.args)
    }
}

impl Pad {
    /// A touch at or below the activation force is ignored, whatever the
    /// pad was asked to report and whatever the phase of the touch.
    pub proof fn lemma_light_touch_is_ignored(self, contact: Contact, now: u64)
        requires
            contact.total_force.micros <= ACTIVATION_FORCE,
        ensures
            self.start_output(contact, now) == Seq::<MessageView>::empty(),
            self.after_start(contact, now) == self,
    {
    }

    /// The start of a touch above the activation force is reported once the
    /// debounce window has passed, whatever the pad was asked to report.
    pub proof fn lemma_firm_start_is_reported(self, contact: Contact, now: u64)
        requires
            contact.state == State::Start,
            contact.total_force.micros > ACTIVATION_FORCE,
            settled(self.previous_time, now),
        ensures
            self.start_output(contact, now) == seq![
                (MessageView {
                    address: self.address@,
                    args: self.shaped(TOUCH_START, contact),
                    destination: None,
                }),
            ],
            self.after_start(contact, now).previous_time == now,
    {
    }

    /// Of two starts within one debounce window at most one is reported.
    pub proof fn lemma_starts_within_window(
        self,
        first: Contact,
        at: u64,
        second: Contact,
        later: u64,
    )
        requires
            first.state == State::Start,
            second.state == State::Start,
            at <= later,
            later - at <= DEBOUNCE_WINDOW,
        ensures
            self.start_output(first, at).len() + self.after_start(first, at).start_output(
                second,
                later,
            ).len() <= 1,
    {
    }

    /// Two firm starts are both reported where more than the debounce window
    /// lies before each.
    pub proof fn lemma_starts_beyond_window(
        self,
        first: Contact,
        at: u64,
        second: Contact,
        later: u64,
    )
        requires
            first.state == State::Start,
            second.state == State::Start,
            first.total_force.micros > ACTIVATION_FORCE,
            second.total_force.micros > ACTIVATION_FORCE,
            settled(self.previous_time, at),
            settled(at, later),
        ensures
            self.start_output(first, at).len() == 1,
            self.after_start(first, at).start_output(second, later).len() == 1,
    {
    }
}

impl Pad {
    /// The end of a touch above the activation force is reported with the
    /// code of an end, once the debounce window has passed, and restarts the
    /// debounce clock: by the split handler for any contact, and by the
    /// combined handler for a contact that reports its end.
    pub proof fn lemma_firm_release_is_reported(self, contact: Contact, now: u64)
        requires
            contact.total_force.micros > ACTIVATION_FORCE,
            settled(self.previous_time, now),
        ensures
            self.end_output(contact, now) == seq![
                (MessageView {
                    address: self.address@,
                    args: self.shaped(TOUCH_END, contact),
                    destination: None,
                }),
            ],
            self.after_end(contact, now) == (Pad { previous_time: now, ..self }),
            contact.state == State::End ==> self.start_output(contact, now) == self.end_output(
                contact,
                now,
            ) && self.after_start(contact, now) == self.after_end(contact, now),
    {
        let taken = taken_as(contact, State::End);
        assert(self.shaped(TOUCH_END, taken) == self.shaped(TOUCH_END, contact));
        if contact.state == State::End {
            assert(taken == contact);
        }
    }

    /// A move of a touch above the activation force is reported with the
    /// code of a move, once the debounce window has passed, exactly where the
    /// pad was asked to report moves; it leaves the debounce clock alone.
    pub proof fn lemma_firm_move(self, contact: Contact, now: u64)
        requires
            contact.total_force.micros > ACTIVATION_FORCE,
            settled(self.previous_time, now),
        ensures
            self.move_output(contact, now) == if self.generate_move {
                seq![
                    (MessageView {
                        address: self.address@,
                        args: self.shaped(TOUCH_MOVE, contact),
                        destination: None,
                    }),
                ]
            } else {
                Seq::<MessageView>::empty()
            },
            self.after_move(contact, now) == self,
    {
        let taken = taken_as(contact, State::Move);
        assert(self.shaped(TOUCH_MOVE, taken) == self.shaped(TOUCH_MOVE, contact));
    }
}

impl Controller for Pad {
    open spec fn label(&self) -> Seq<char> {
        "pad"@
    }

    open spec fn after_start(&self, contact: Contact, now: u64) -> Pad {
        if self.rearms(contact, now) {
            Pad { previous_time: now, ..*self }
        } else {
            *self
        }
    }

    open spec fn start_output(&self, contact: Contact, now: u64) -> Seq<MessageView> {
        if self.emits(contact, now) {
            seq![
                MessageView {
                    address: self.address@,
                    args: self.shaped(phase_code(contact.state), contact),
                    destination: None,
                },
            ]
        } else {
            seq![]
        }
    }

    open spec fn after_move(&self, contact: Contact, now: u64) -> Pad {
        self.after_start(taken_as(contact, State::Move), now)
    }

    open spec fn move_output(&self, contact: Contact, now: u64) -> Seq<MessageView> {
        self.start_output(taken_as(contact, State::Move), now)
    }

    open spec fn after_end(&self, contact: Contact, now: u64) -> Pad {
        self.after_start(taken_as(contact, State::End), now)
    }

    open spec fn end_output(&self, contact: Contact, now: u64) -> Seq<MessageView> {
        self.start_output(taken_as(contact, State::End), now)
    }

    fn name(&self) -> (r: &'static str) {
        "pad"
    }

    /// Reports a touch that is firm enough, once the debounce window has
    /// passed: its start and its end always, its moves where the pad was
    /// asked to. A start and an end restart the debounce clock.
    fn touch_start(&mut self, contact: &Contact, now: u64, sink: &mut Vec<Message>) -> (r: Result<
        (),
        &'static str,
    >) {
        if contact.total_force.micros <= ACTIVATION_FORCE {
            return Ok(());
        }
        if has_settled(self.previous_time, now) {
            match contact.state {
                State::Start => {
                    let args = self.shape(TOUCH_START, contact);
                    emit(sink, &self.address, args, None);
                    self.previous_time = now;
                },
                State::Move => {
                    if self.generate_move {
                        let args = self.shape(TOUCH_MOVE, contact);
                        emit(sink, &self.address, args, None);
                    }
                },
                State::End => {
                    self.previous_time = now;
                    let args = self.shape(TOUCH_END, contact);
                    emit(sink, &self.address, args, None);
                },
                State::Invalid => {},
            }
        }
        assert(views(sink@) =~= views(old(sink)@) + old(self).start_output(*contact, now));
        Ok(())
    }

    /// Handles `contact` as a move, whatever phase it reports: a firm touch
    /// is reported, once the debounce window has passed, where the pad was
    /// asked to report moves.
    fn touch_move(&mut self, contact: &Contact, now: u64, sink: &mut Vec<Message>) -> (r: bool) {
        let taken = take_as(contact, State::Move);
        let _ = self.touch_start(&taken, now, sink);
        true
    }

    /// Handles `contact` as the end of a touch, whatever phase it reports: a
    /// firm touch is reported, once the debounce window has passed, and the
    /// debounce clock restarts.
    fn touch_end(&mut self, contact: &Contact, now: u64, sink: &mut Vec<Message>) -> (r: bool) {
        let taken = take_as(contact, State::End);
        let _ = self.touch_start(&taken, now, sink);
        true
    }
}

/// Where a directional pad sends its messages: port 4000 of the local host.
pub open spec fn dpad_destination() -> Endpoint {
    Endpoint { a: 127, b: 0, c: 0, d: 1, port: 4000 }
}

pub fn dpad_endpoint() -> (r: Endpoint)
    ensures
        r == dpad_destination(),
{
    Endpoint { a: 127, b: 0, c: 0, d: 1, port: 4000 }
}

/// A directional pad is a button: it sends one fixed message when it is
/// pressed and another when it is released.
#[derive(Debug, Clone)]
pub struct DPad {
    /// Address of the messages.
    pub address: String,
    /// Arguments of the message sent on a press.
    pub args_on: Vec<ArgType>,
    /// Arguments of the message sent on a release.
    pub args_off: Vec<ArgType>,
    /// When the pad last accepted a press or a release.
    pub previous_time: u64,
}

impl DPad {
    /// A directional pad whose messages carry `args` followed by `on` for a
    /// press and by `off` for a release, and which last accepted an event at
    /// time `now`.
    pub fn new(address: String, on: ArgType, off: ArgType, args: Vec<ArgType>, now: u64) -> (r:
        DPad)
        ensures
            r.address == address,
            r.args_on@ == args@.push(on),
            r.args_off@ == args@.push(off),
            r.previous_time == now,
    {
        let mut args_on = followed_by(Vec::new(), &args);
        args_on.push(on);
        let mut args_off = args;
        args_off.push(off);
        assert(args_on@ =~= args@.push(on));
        DPad { address, args_on, args_off, previous_time: now }
    }
}

impl DPad {
    /// A release is reported with the release arguments whatever came
    /// before it: a press that was reported, or one that the debounce clock
    /// held back.
    pub proof fn lemma_release_is_always_reported(
        self,
        press: Contact,
        at: u64,
        release: Contact,
        later: u64,
    )
        ensures
            self.after_start(press, at).end_output(release, later) == seq![
                (MessageView {
                    address: self.address@,
                    args: self.args_off@,
                    destination: Some(dpad_destination()),
                }),
            ],
            self.after_start(press, at).after_end(release, later).previous_time == later,
    {
    }

    /// A press is reported with the press arguments once the debounce
    /// window has passed.
    pub proof fn lemma_press_is_reported(self, press: Contact, at: u64)
        requires
            settled(self.previous_time, at),
        ensures
            self.start_output(press, at) == seq![
                (MessageView {
                    address: self.address@,
                    args: self.args_on@,
                    destination: Some(dpad_destination()),
                }),
            ],
    {
    }
}

impl Controller for DPad {
    open spec fn label(&self) -> Seq<char> {
        "dpad"@
    }

    open spec fn after_start(&self, contact: Contact, now: u64) -> DPad {
        if settled(self.previous_time, now) {
            DPad { previous_time: now, ..*self }
        } else {
            *self
        }
    }

    open spec fn start_output(&self, contact: Contact, now: u64) -> Seq<MessageView> {
        if settled(self.previous_time, now) {
            seq![
                MessageView {
                    address: self.address@,
                    args: self.args_on@,
                    destination: Some(dpad_destination()),
                },
            ]
        } else {
            seq![]
        }
    }

    open spec fn after_move(&self, contact: Contact, now: u64) -> DPad {
        *self
    }

    open spec fn move_output(&self, contact: Contact, now: u64) -> Seq<MessageView> {
        seq![]
    }

    open spec fn after_end(&self, contact: Contact, now: u64) -> DPad {
        DPad { previous_time: now, ..*self }
    }

    open spec fn end_output(&self, contact: Contact, now: u64) -> Seq<MessageView> {
        seq![
            MessageView {
                address: self.address@,
                args: self.args_off@,
                destination: Some(dpad_destination()),
            },
        ]
    }

    fn name(&self) -> (r: &'static str) {
        "dpad"
    }

    /// Sends the press message once the debounce window has passed, and
    /// restarts the debounce clock.
    fn touch_start(&mut self, contact: &Contact, now: u64, sink: &mut Vec<Message>) -> (r: Result<
        (),
        &'static str,
    >) {
        if has_settled(self.previous_time, now) {
            let args = followed_by(Vec::new(), &self.args_on);
            assert(args@ =~= self.args_on@);
            emit(sink, &self.address, args, Some(dpad_endpoint()));
            self.previous_time = now;
        }
        assert(views(sink@) =~= views(old(sink)@) + old(self).start_output(*contact, now));
        Ok(())
    }

    /// A move changes nothing and sends nothing.
    fn touch_move(&mut self, contact: &Contact, now: u64, sink: &mut Vec<Message>) -> (r: bool) {
        assert(views(sink@) =~= views(old(sink)@) + old(self).move_output(*contact, now));
        true
    }

    /// Sends the release message, whatever the debounce clock says, and
    /// restarts the clock.
    fn touch_end(&mut self, contact: &Contact, now: u64, sink: &mut Vec<Message>) -> (r: bool) {
        self.previous_time = now;
        let args = followed_by(Vec::new(), &self.args_off);
        assert(args@ =~= self.args_off@);
        emit(sink, &self.address, args, Some(dpad_endpoint()));
        assert(views(sink@) =~= views(old(sink)@) + old(self).end_output(*contact, now));
        true
    }
}

/// Lower bound, in millionths, of a slider that the layout gives none.
pub const SLIDER_MIN: i64 = 0;

/// Upper bound, in millionths, of a slider that the layout gives none.
pub const SLIDER_MAX: i64 = 127_000_000;

/// Step, in millionths, of a slider that the layout gives none.
pub const SLIDER_INCR: i64 = 1_000_000;

/// Starting value, in millionths, of a slider that the layout gives none.
pub const SLIDER_INITIAL: i64 = 0;

/// The quantity of `given`, or `default` millionths where nothing is given.
pub open spec fn quantity_or(given: Option<ArgType>, default: i64) -> Scalar {
    match given {
        Some(a) => a.quantity(),
        None => Scalar { micros: default },
    }
}

pub fn scalar_or(given: Option<ArgType>, default: i64) -> (r: Scalar)
    ensures
        r == quantity_or(given, default),
{
    match given {
        Some(a) => a.to_scalar(),
        None => Scalar { micros: default },
    }
}

/// A slider's value after a touch has moved from `last` to `at`: it changes
/// by the movement, and only where the movement is not zero.
pub open spec fn slid(
    value: Scalar,
    min: Scalar,
    max: Scalar,
    incr: Scalar,
    last: Scalar,
    at: Scalar,
) -> Scalar {
    if movement_of(last, at, incr) != 0 {
        advanced(value, min, max, movement_of(last, at, incr))
    } else {
        value
    }
}

/// A slider that is dragged up and down.
#[derive(Debug, Clone)]
pub struct VSlider {
    /// Address of the messages.
    pub address: String,
    /// Arguments that open every message.
    pub args: Vec<ArgType>,
    /// Least value of the slider.
    pub min: Scalar,
    /// Greatest value of the slider.
    pub max: Scalar,
    /// Change in value for a movement of one unit.
    pub incr: Scalar,
    /// Current value of the slider.
    pub value: Scalar,
    /// Where the last touch was, along `y`.
    pub last_y: Scalar,
}

impl VSlider {
    /// A slider with the given bounds, starting value and step, each at its
    /// default where it is not given.
    pub fn new(
        address: String,
        args: Vec<ArgType>,
        min: Option<ArgType>,
        max: Option<ArgType>,
        initial: Option<ArgType>,
        incr: Option<ArgType>,
    ) -> (r: VSlider)
        ensures
            r == (VSlider {
                address,
                args,
                min: quantity_or(min, SLIDER_MIN),
                max: quantity_or(max, SLIDER_MAX),
                incr: quantity_or(incr, SLIDER_INCR),
                value: quantity_or(initial, SLIDER_INITIAL),
                last_y: (Scalar { micros: 0 }),
            }),
    {
        VSlider {
            address,
            args,
            min: scalar_or(min, SLIDER_MIN),
            max: scalar_or(max, SLIDER_MAX),
            incr: scalar_or(incr, SLIDER_INCR),
            value: scalar_or(initial, SLIDER_INITIAL),
            last_y: Scalar { micros: 0 },
        }
    }

    /// The movement that a touch at `contact` makes: the distance travelled
    /// upwards since the last touch, times the step, in millionths.
    pub open spec fn movement(&self, contact: Contact) -> int {
        movement_of(self.last_y, contact.y, self.incr)
    }
}

impl VSlider {
    /// A move changes the value by the distance travelled times the step,
    /// kept within the bounds, and reports the new value after the fixed
    /// arguments.
    pub proof fn lemma_move_changes_value(self, contact: Contact, now: u64)
        requires
            contact.state == State::Move,
            self.movement(contact) != 0,
        ensures
            self.after_start(contact, now).value.micros == clamp_spec(
                self.value.micros + self.movement(contact),
                self.min.micros as int,
                self.max.micros as int,
            ),
            self.after_start(contact, now).last_y == contact.y,
            self.start_output(contact, now) == seq![
                (MessageView {
                    address: self.address@,
                    args: self.args@.push(ArgType::FType(self.after_start(contact, now).value)),
                    destination: None,
                }),
            ],
    {
    }

    /// A move to the place of the touch before it changes nothing and
    /// reports nothing.
    pub proof fn lemma_repeated_move_is_silent(
        self,
        first: Contact,
        at: u64,
        second: Contact,
        later: u64,
    )
        requires
            first.state == State::Start || first.state == State::Move,
            second.state == State::Move,
            second.y == first.y,
        ensures
            self.after_start(first, at).start_output(second, later) == Seq::<MessageView>::empty(),
            self.after_start(first, at).after_start(second, later) == self.after_start(first, at),
    {
        let rested = self.after_start(first, at);
        assert(rested.last_y == first.y);
        assert((rested.last_y.micros - second.y.micros) * rested.incr.micros == 0)
            by (nonlinear_arith)
            requires
                rested.last_y.micros - second.y.micros == 0,
        ;
    }

    /// The split handler for a move does what the combined handler does with
    /// a contact in its move phase.
    pub proof fn lemma_move_handler(self, contact: Contact, now: u64)
        requires
            contact.state == State::Move,
        ensures
            self.after_move(contact, now) == self.after_start(contact, now),
            self.move_output(contact, now) == self.start_output(contact, now),
    {
        assert(taken_as(contact, State::Move) == contact);
    }
}

impl Controller for VSlider {
    open spec fn label(&self) -> Seq<char> {
        "vslider"@
    }

    open spec fn after_start(&self, contact: Contact, now: u64) -> VSlider {
        match contact.state {
            State::Start => VSlider { last_y: contact.y, ..*self },
            State::Move => VSlider {
                last_y: contact.y,
                value: slid(self.value, self.min, self.max, self.incr, self.last_y, contact.y),
                ..*self
            },
            _ => *self,
        }
    }

    open spec fn start_output(&self, contact: Contact, now: u64) -> Seq<MessageView> {
        if contact.state == State::Move && self.movement(contact) != 0 {
            seq![
                MessageView {
                    address: self.address@,
                    args: self.args@.push(ArgType::FType(self.after_start(contact, now).value)),
                    destination: None,
                },
            ]
        } else {
            seq![]
        }
    }

    open spec fn after_move(&self, contact: Contact, now: u64) -> VSlider {
        self.after_start(taken_as(contact, State::Move), now)
    }

    open spec fn move_output(&self, contact: Contact, now: u64) -> Seq<MessageView> {
        self.start_output(taken_as(contact, State::Move), now)
    }

    open spec fn after_end(&self, contact: Contact, now: u64) -> VSlider {
        *self
    }

    open spec fn end_output(&self, contact: Contact, now: u64) -> Seq<MessageView> {
        seq![]
    }

    fn name(&self) -> (r: &'static str) {
        "vslider"
    }

    /// A start records where the touch is. A move changes the value by the
    /// distance travelled since the last touch and, where that is a change,
    /// sends the new value. An end does nothing.
    fn touch_start(&mut self, contact: &Contact, now: u64, sink: &mut Vec<Message>) -> (r: Result<
        (),
        &'static str,
    >) {
        match contact.state {
            State::Start => {
                self.last_y = contact.y;
            },
            State::Move => {
                let moved = movement(self.last_y, contact.y, self.incr);
                self.last_y = contact.y;
                if moved != 0 {
                    self.value = advance(self.value, self.min, self.max, moved);
                    let mut args = followed_by(Vec::new(), &self.args);
                    args.push(ArgType::FType(self.value));
                    assert(args@ =~= self.args@.push(ArgType::FType(self.value)));
                    emit(sink, &self.address, args, None);
                }
            },
            _ => {},
        }
        assert(views(sink@) =~= views(old(sink)@) + old(self).start_output(*contact, now));
        Ok(())
    }

    /// Handles `contact` as a move, whatever phase it reports.
    fn touch_move(&mut self, contact: &Contact, now: u64, sink: &mut Vec<Message>) -> (r: bool) {
        let taken = take_as(contact, State::Move);
        let _ = self.touch_start(&taken, now, sink);
        true
    }

    /// The end of a touch leaves a slider as it is.
    fn touch_end(&mut self, contact: &Contact, now: u64, sink: &mut Vec<Message>) -> (r: bool) {
        assert(views(sink@) =~= views(old(sink)@) + old(self).end_output(*contact, now));
        true
    }
}

/// A slider that is dragged left and right.
///
/// The start of a touch records the `y` coordinate of the contact, and later
/// moves are measured along `x` from it.
#[derive(Debug, Clone)]
pub struct HSlider {
    /// Address of the messages.
    pub address: String,
    /// Arguments that open every message.
    pub args: Vec<ArgType>,
    /// Least value of the slider.
    pub min: Scalar,
    /// Greatest value of the slider.
    pub max: Scalar,
    /// Change in value for a movement of one unit.
    pub incr: Scalar,
    /// Current value of the slider.
    pub value: Scalar,
    /// Where the last touch was.
    pub last_x: Scalar,
}

impl HSlider {
    /// A slider with the given bounds, starting value and step, each at its
    /// default where it is not given.
    pub fn new(
        address: String,
        args: Vec<ArgType>,
        min: Option<ArgType>,
        max: Option<ArgType>,
        initial: Option<ArgType>,
        incr: Option<ArgType>,
    ) -> (r: HSlider)
        ensures
            r == (HSlider {
                address,
                args,
                min: quantity_or(min, SLIDER_MIN),
                max: quantity_or(max, SLIDER_MAX),
                incr: quantity_or(incr, SLIDER_INCR),
                value: quantity_or(initial, SLIDER_INITIAL),
                last_x: (Scalar { micros: 0 }),
            }),
    {
        HSlider {
            address,
            args,
            min: scalar_or(min, SLIDER_MIN),
            max: scalar_or(max, SLIDER_MAX),
            incr: scalar_or(incr, SLIDER_INCR),
            value: scalar_or(initial, SLIDER_INITIAL),
            last_x: Scalar { micros: 0 },
        }
    }

    /// The movement that a touch at `contact` makes: the distance travelled
    /// leftwards since the last touch, times the step, in millionths.
    pub open spec fn movement(&self, contact: Contact) -> int {
        movement_of(self.last_x, contact.x, self.incr)
    }
}

impl HSlider {
    /// A move changes the value by the distance travelled times the step,
    /// kept within the bounds, and reports the new value after the fixed
    /// arguments.
    pub proof fn lemma_move_changes_value(self, contact: Contact, now: u64)
        requires
            contact.state == State::Move,
            self.movement(contact) != 0,
        ensures
            self.after_start(contact, now).value.micros == clamp_spec(
                self.value.micros + self.movement(contact),
                self.min.micros as int,
                self.max.micros as int,
            ),
            self.after_start(contact, now).last_x == contact.x,
            self.start_output(contact, now) == seq![
                (MessageView {
                    address: self.address@,
                    args: self.args@.push(ArgType::FType(self.after_start(contact, now).value)),
                    destination: None,
                }),
            ],
    {
    }

    /// A move to the place of the move before it changes nothing and reports
    /// nothing.
    pub proof fn lemma_repeated_move_is_silent(
        self,
        first: Contact,
        at: u64,
        second: Contact,
        later: u64,
    )
        requires
            first.state == State::Move,
            second.state == State::Move,
            second.x == first.x,
        ensures
            self.after_start(first, at).start_output(second, later) == Seq::<MessageView>::empty(),
            self.after_start(first, at).after_start(second, later) == self.after_start(first, at),
    {
        let rested = self.after_start(first, at);
        assert(rested.last_x == first.x);
        assert((rested.last_x.micros - second.x.micros) * rested.incr.micros == 0)
            by (nonlinear_arith)
            requires
                rested.last_x.micros - second.x.micros == 0,
        ;
    }

    /// The split handler for a move does what the combined handler does with
    /// a contact in its move phase.
    pub proof fn lemma_move_handler(self, contact: Contact, now: u64)
        requires
            contact.state == State::Move,
        ensures
            self.after_move(contact, now) == self.after_start(contact, now),
            self.move_output(contact, now) == self.start_output(contact, now),
    {
        assert(taken_as(contact, State::Move) == contact);
    }
}

impl Controller for HSlider {
    open spec fn label(&self) -> Seq<char> {
        "hslider"@
    }

    open spec fn after_start(&self, contact: Contact, now: u64) -> HSlider {
        match contact.state {
            State::Start => HSlider { last_x: contact.y, ..*self },
            State::Move => HSlider {
                last_x: contact.x,
                value: slid(self.value, self.min, self.max, self.incr, self.last_x, contact.x),
                ..*self
            },
            _ => *self,
        }
    }

    open spec fn start_output(&self, contact: Contact, now: u64) -> Seq<MessageView> {
        if contact.state == State::Move && self.movement(contact) != 0 {
            seq![
                MessageView {
                    address: self.address@,
                    args: self.args@.push(ArgType::FType(self.after_start(contact, now).value)),
                    destination: None,
                },
            ]
        } else {
            seq![]
        }
    }

    open spec fn after_move(&self, contact: Contact, now: u64) -> HSlider {
        self.after_start(taken_as(contact, State::Move), now)
    }

    open spec fn move_output(&self, contact: Contact, now: u64) -> Seq<MessageView> {
        self.start_output(taken_as(contact, State::Move), now)
    }

    open spec fn after_end(&self, contact: Contact, now: u64) -> HSlider {
        *self
    }

    open spec fn end_output(&self, contact: Contact, now: u64) -> Seq<MessageView> {
        seq![]
    }

    fn name(&self) -> (r: &'static str) {
        "hslider"
    }

    /// A start records where the touch is. A move changes the value by the
    /// distance travelled since the last touch and, where that is a change,
    /// sends the new value. An end does nothing.
    fn touch_start(&mut self, contact: &Contact, now: u64, sink: &mut Vec<Message>) -> (r: Result<
        (),
        &'static str,
    >) {
        match contact.state {
            State::Start => {
                self.last_x = contact.y;
            },
            State::Move => {
                let moved = movement(self.last_x, contact.x, self.incr);
                self.last_x = contact.x;
                if moved != 0 {
                    self.value = advance(self.value, self.min, self.max, moved);
                    let mut args = followed_by(Vec::new(), &self.args);
                    args.push(ArgType::FType(self.value));
                    assert(args@ =~= self.args@.push(ArgType::FType(self.value)));
                    emit(sink, &self.address, args, None);
                }
            },
            _ => {},
        }
        assert(views(sink@) =~= views(old(sink)@) + old(self).start_output(*contact, now));
        Ok(())
    }

    /// Handles `contact` as a move, whatever phase it reports.
    fn touch_move(&mut self, contact: &Contact, now: u64, sink: &mut Vec<Message>) -> (r: bool) {
        let taken = take_as(contact, State::Move);
        let _ = self.touch_start(&taken, now, sink);
        true
    }

    /// The end of a touch leaves a slider as it is.
    fn touch_end(&mut self, contact: &Contact, now: u64, sink: &mut Vec<Message>) -> (r: bool) {
        assert(views(sink@) =~= views(old(sink)@) + old(self).end_output(*contact, now));
        true
    }
}

/// An endless encoder. It has a place in layouts and sends nothing yet.
#[derive(Debug, Clone)]
pub struct Endless {
    /// Address of the messages.
    pub address: String,
    /// Arguments of the messages.
    pub args: Vec<ArgType>,
}

impl Endless {
    pub fn new(address: String, args: Vec<ArgType>) -> (r: Endless)
        ensures
            r == (Endless { address, args }),
    {
        Endless { address, args }
    }
}

impl Controller for Endless {
    open spec fn label(&self) -> Seq<char> {
        "endless"@
    }

    open spec fn after_start(&self, contact: Contact, now: u64) -> Endless {
        *self
    }

    open spec fn start_output(&self, contact: Contact, now: u64) -> Seq<MessageView> {
        seq![]
    }

    open spec fn after_move(&self, contact: Contact, now: u64) -> Endless {
        *self
    }

    open spec fn move_output(&self, contact: Contact, now: u64) -> Seq<MessageView> {
        seq![]
    }

    open spec fn after_end(&self, contact: Contact, now: u64) -> Endless {
        *self
    }

    open spec fn end_output(&self, contact: Contact, now: u64) -> Seq<MessageView> {
        seq![]
    }

    fn name(&self) -> (r: &'static str) {
        "endless"
    }

    fn touch_start(&mut self, contact: &Contact, now: u64, sink: &mut Vec<Message>) -> (r: Result<
        (),
        &'static str,
    >) {
        assert(views(sink@) =~= views(old(sink)@) + old(self).start_output(*contact, now));
        Ok(())
    }

    fn touch_move(&mut self, contact: &Contact, now: u64, sink: &mut Vec<Message>) -> (r: bool) {
        assert(views(sink@) =~= views(old(sink)@) + old(self).move_output(*contact, now));
        true
    }

    fn touch_end(&mut self, contact: &Contact, now: u64, sink: &mut Vec<Message>) -> (r: bool) {
        assert(views(sink@) =~= views(old(sink)@) + old(self).end_output(*contact, now));
        true
    }
}

} // verus!
