use vstd::prelude::*;

verus! {

/// Operator commands that a ground station may issue to the vehicle.
///
/// The relay core treats commands as opaque text; this enumeration names the
/// kinds that producers and consumers agree on.
#[derive(Clone, Copy, Debug, PartialEq, Eq, Structural)]
pub enum Cmds {
    ABORT,
    ARM,
    PING,
    LAUCH,
}

} // verus!
