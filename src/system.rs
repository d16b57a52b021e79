//! Coarse node state and the single-slot signal that carries it.
use vstd::prelude::*;

verus! {

/// Coarse state of the node, shown by the status LED and display.
#[derive(Clone, Copy, Debug, PartialEq, Eq, Structural)]
pub enum State {
    Booting,
    Ble,
    WifiConnecting,
    Dhcp,
    NtpSync,
    MqttConnecting,
    Sensors,
    Healthy,
    Panic,
}

impl Default for State {
    fn default() -> (r: State)
        ensures
            r == State::Booting,
    {
        State::Booting
    }
}

/// A single-slot signal: the latest value waits to be taken, and a new value
/// overwrites one not yet taken.
pub struct Latest<T> {
    value: Option<T>,
}

impl<T> View for Latest<T> {
    type V = Option<T>;

    closed spec fn view(&self) -> Option<T> {
        self.value
    }
}

impl<T> Latest<T> {
    /// An empty slot.
    pub fn new() -> (r: Latest<T>)
        ensures
            r@ is None,
    {
        Latest { value: None }
    }

    /// Stores `value`, replacing any value not yet taken.
    pub fn signal(&mut self, value: T)
        ensures
            final(self)@ == Some(value),
    {
        self.value = Some(value);
    }

    /// Takes the stored value, leaving the slot empty.
    pub fn take(&mut self) -> (r: Option<T>)
        ensures
            r == old(self)@,
            final(self)@ is None,
    {
        let r = self.value.take();
        r
    }

    /// Whether a value waits to be taken.
    pub fn is_set(&self) -> (r: bool)
        ensures
            r == self@ is Some,
    {
        self.value.is_some()
    }
}

/// Publishes the node's new state to the status signal.
pub fn set_state(signal: &mut Latest<State>, state: State)
    ensures
        final(signal)@ == Some(state),
{
    signal.signal(state);
}

} // verus!
