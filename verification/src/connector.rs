//! The connector: the pool of the primary and the pool of the replica, and
//! the routing of statements between them.
use vstd::prelude::*;
use crate::operation::ClusterDefine;

verus! {

/// The side of the cluster chosen for a statement, with what serves it.
pub enum Route<W, R> {
    /// The primary, served by the write side.
    Write(W),
    /// The replica, served by the read side.
    Read(R),
}

/// A connector over a read/write split cluster, holding a write pool `W`
/// (primary) and a read pool `R` (replica).
pub struct PgConnector<W, R> {
    write: W,
    read: R,
}

impl<W, R> PgConnector<W, R> {
    /// The pool of the primary.
    pub closed spec fn write_pool(&self) -> W {
        self.write
    }

    /// The pool of the replica.
    pub closed spec fn read_pool(&self) -> R {
        self.read
    }

    /// A connector that writes through `write` and reads through `read`.
    pub fn new(write: W, read: R) -> (r: Self)
        ensures
            r.write_pool() == write,
            r.read_pool() == read,
    {
        PgConnector { write, read }
    }

    /// The pool of the primary.
    pub fn write(&self) -> (r: &W)
        ensures
            *r == self.write_pool(),
    {
        &self.write
    }

    /// The pool of the replica.
    pub fn read(&self) -> (r: &R)
        ensures
            *r == self.read_pool(),
    {
        &self.read
    }

    /// The pool that serves statements for `cluster`: the write pool for the
    /// primary (`WRITE`), the read pool for the replica (`READ`).
    pub fn route(&self, cluster: ClusterDefine) -> (r: Route<&W, &R>)
        ensures
            cluster == ClusterDefine::WRITE ==> r == Route::<&W, &R>::Write(&self.write_pool()),
            cluster == ClusterDefine::READ ==> r == Route::<&W, &R>::Read(&self.read_pool()),
    {
        match cluster {
            ClusterDefine::WRITE => Route::Write(&self.write),
            ClusterDefine::READ => Route::Read(&self.read),
        }
    }
}

} // verus!
