//! Outbound messages and the values they carry.

use vstd::prelude::*;
use crate::device::scalar::Scalar;

verus! {

/// One argument of a message: a whole number or a real quantity.
#[derive(Clone, Copy, Debug, PartialEq, Eq, Structural)]
pub enum ArgType {
    IType(i32),
    FType(Scalar),
}

impl ArgType {
    /// The quantity an argument denotes.
    pub open spec fn quantity(self) -> Scalar {
        match self {
            ArgType::IType(i) => Scalar { micros: (i * crate::device::scalar::SCALE) as i64 },
            ArgType::FType(f) => f,
        }
    }

    /// The argument as a real quantity; a whole number keeps its value.
    pub fn to_scalar(self) -> (r: Scalar)
        ensures
            r == self.quantity(),
    {
        match self {
            ArgType::IType(i) => Scalar::from_int(i),
            ArgType::FType(f) => f,
        }
    }
}

impl From<ArgType> for Scalar {
    fn from(item: ArgType) -> (r: Scalar) {
        item.to_scalar()
    }
}

impl vstd::std_specs::convert::FromSpecImpl<ArgType> for Scalar {
    open spec fn obeys_from_spec() -> bool {
        true
    }

    open spec fn from_spec(item: ArgType) -> Scalar {
        item.quantity()
    }
}

/// An IPv4 address and port that a message is sent to in place of the
/// transport's default.
#[derive(Clone, Copy, Debug, PartialEq, Eq, Structural)]
pub struct Endpoint {
    pub a: u8,
    pub b: u8,
    pub c: u8,
    pub d: u8,
    pub port: u16,
}

/// A message for the transport: where it goes and what it carries.
#[derive(Clone, Debug, PartialEq, Eq)]
pub struct Message {
    pub address: String,
    pub args: Vec<ArgType>,
    pub destination: Option<Endpoint>,
}

/// What a [`Message`] says, as mathematical values.
pub ghost struct MessageView {
    pub address: Seq<char>,
    pub args: Seq<ArgType>,
    pub destination: Option<Endpoint>,
}

impl View for Message {
    type V = MessageView;

    open spec fn view(&self) -> MessageView {
        MessageView { address: self.address@, args: self.args@, destination: self.destination }
    }
}

/// The messages of `sent`, each by its view.
pub open spec fn views(sent: Seq<Message>) -> Seq<MessageView> {
    sent.map_values(|m: Message| m@)
}

/// Appends a message with the given contents to `sink`.
pub fn emit(
    sink: &mut Vec<Message>,
    address: &String,
    args: Vec<ArgType>,
    destination: Option<Endpoint>,
)
    ensures
        views(final(sink)@) == views(old(sink)@).push(
            MessageView { address: address@, args: args@, destination },
        ),
{
    let message = Message { address: address.clone(), args, destination };
    sink.push(message);
    assert(views(sink@) =~= views(old(sink)@).push(message@));
}

} // verus!
