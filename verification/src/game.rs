//! The coarse phases the application moves through.

use vstd::prelude::*;

verus! {

/// The phase the application is in.
#[derive(Debug, Clone, Copy, PartialEq, Eq, Hash)]
pub enum GameState {
    /// Assets are still being loaded.
    AssetLoading,
    /// The simulation is running.
    InGame,
    /// The simulation is suspended.
    Paused,
}

} // verus!
