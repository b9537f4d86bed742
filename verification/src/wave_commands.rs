//! Commands addressed to a wave: load or play it, or move its addresses.

use vstd::prelude::*;

verus! {

/// What a command asks for.
#[derive(PartialEq, Eq, Structural, Clone, Copy, Debug)]
pub enum Commands {
    LOAD,
    PLAY,
    STARTADRESS(usize),
    ENDADDRESS(usize),
}

/// A command together with the path of the wave file it concerns.
pub struct WaveCommands {
    pub command: Commands,
    pub path: String,
}

} // verus!
