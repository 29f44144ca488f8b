//! The upstream pool: an immutable, non-empty list of upstream base
//! addresses, shared read-only across all connections.
use vstd::prelude::*;
use crate::errors::StartupError;

verus! {

/// A fixed, non-empty, ordered list of upstream base addresses
/// (scheme+host+port each). Constructed once at startup and never mutated.
#[derive(Debug)]
pub struct UpstreamPool {
    servers: Vec<String>,
}

impl View for UpstreamPool {
    type V = Seq<Seq<char>>;

    closed spec fn view(&self) -> Seq<Seq<char>> {
        Seq::new(self.servers@.len(), |i: int| self.servers@[i]@)
    }
}

impl UpstreamPool {
    /// The pool invariant: at least one upstream.
    pub open spec fn wf(&self) -> bool {
        self@.len() > 0
    }

    /// Build the pool from an already-split list of base addresses. An empty
    /// list is a fatal startup error: the pool invariant is non-emptiness.
    pub fn new(servers: Vec<String>) -> (r: Result<UpstreamPool, StartupError>)
        ensures
            r is Ok <==> servers@.len() > 0,
            r matches Ok(p) ==> p.wf() && p@ == Seq::new(
                servers@.len(),
                |i: int| servers@[i]@,
            ),
            r matches Err(e) ==> e == StartupError::EmptyUpstreamList,
    {
        if servers.len() == 0 {
            Err(StartupError::EmptyUpstreamList)
        } else {
            Ok(UpstreamPool { servers })
        }
    }

    /// How many upstreams the pool holds; positive for a well-formed pool.
    pub fn len(&self) -> (r: usize)
        ensures
            r == self@.len(),
    {
        self.servers.len()
    }

    /// The base address at pool position `i`.
    pub fn get(&self, i: usize) -> (r: &String)
        requires
            i < self@.len(),
        ensures
            r@ == self@[i as int],
    {
        &self.servers[i]
    }
}

} // verus!
