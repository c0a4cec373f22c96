//! Plain data carried by the resource models.

use vstd::prelude::*;

verus! {

/// The mode a user account operates in.
#[derive(Clone, Copy, Debug, PartialEq, Eq, Structural)]
pub enum UserMode {
    Normal,
    Observer,
    Receiver,
    Benefactor,
    Bot,
}

} // verus!
