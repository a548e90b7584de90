//! Control messages delivered over a queue into the main thread.

use vstd::prelude::*;

use crate::mode::Mode;

verus! {

/// A control message for the manager: apply a new mode, or ask the
/// event pump to terminate. The queue that carries these lives outside
/// this crate; the manager is handed each drained burst as a vector.
pub enum ELGLMMsg {
    SetMode(Mode),
    Stop,
}

} // verus!
