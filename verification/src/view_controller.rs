//! What the board and the backlog have in common: each takes messages and
//! can be shown.

use vstd::prelude::*;

verus! {

/// A controller behind one of the application's screens. `update` takes a
/// message and answers with the effect that the caller is to perform; `view`
/// gives what is to be shown, without changing anything.
pub trait ViewController {
    type Message;

    type Effect;

    type Projection;

    fn update(&mut self, msg: Self::Message) -> Self::Effect;

    fn view(&self) -> Self::Projection;
}

} // verus!
