//! The error kinds the game rules can report.

use vstd::prelude::*;

verus! {

/// An error reported to the host. Only recoverable conditions appear here:
/// a signal not recognized in the current phase is ignored with
/// `InvalidSignal`, and a denied shop purchase is reported with
/// `InsufficientFunds` and leaves all state unchanged. Illegal phase
/// transitions and fights without an enemy are prevented by construction
/// (the state machine is the sole writer of the phase and spawns the enemy
/// in the same step that enters the fighting phase), so no error kind
/// exists for them.
#[derive(Clone, Copy, PartialEq, Eq, Structural, Debug)]
pub enum GameError {
    /// The signal is not recognized in the current phase; it was ignored.
    InvalidSignal,
    /// A purchase was denied because the player cannot afford the price;
    /// nothing changed.
    InsufficientFunds,
}

} // verus!
