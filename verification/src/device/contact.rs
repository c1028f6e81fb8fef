//! Touch contacts as the sensor reports them.

use vstd::prelude::*;
use crate::device::scalar::Scalar;

verus! {

/// Phase of a touch within its press, drag and release.
#[derive(Clone, Copy, Debug, PartialEq, Eq, Structural)]
pub enum State {
    Invalid,
    Start,
    Move,
    End,
}

/// One touch point at one sensor poll.
///
/// `id` identifies the finger for as long as it stays on the surface and may
/// be given to a later touch once the finger has left.
#[derive(Clone, Copy, Debug, PartialEq, Eq, Structural)]
pub struct Contact {
    pub id: u8,
    pub x: Scalar,
    pub y: Scalar,
    pub total_force: Scalar,
    pub state: State,
}

} // verus!
