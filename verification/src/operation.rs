//! The two clusters a statement can be sent to.
use vstd::prelude::*;

verus! {

/// Which side of a read/write split cluster a statement goes to: `WRITE` is
/// the primary, `READ` the replica.
#[allow(non_camel_case_types)]
#[derive(Clone, Copy, Debug, PartialEq, Eq, Structural)]
pub enum ClusterDefine {
    WRITE,
    READ,
}

} // verus!
