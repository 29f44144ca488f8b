//! Request forwarding: pick the next upstream by round-robin, build the
//! outbound target by verbatim concatenation, and validate it as a URI.
use vstd::prelude::*;
use vstd::string::StringExecFns;
use crate::errors::ForwardError;
use crate::pool::UpstreamPool;
use crate::selector::RoundRobin;
use crate::selector::rr_index;
use crate::selector::spec_rr_index;

verus! {

#[verifier::external_type_specification]
#[verifier::external_body]
pub struct ExUri(hyper::Uri);

/// Whether the URI grammar of the HTTP layer accepts `s`.
pub uninterp spec fn uri_parses(s: Seq<char>) -> bool;

/// Relies on `str::parse::<hyper::Uri>` (`http::Uri`'s `FromStr`): whether a
/// string parses is a function of its characters alone.
#[verifier::external_body]
fn parse_uri(s: &str) -> (r: Option<hyper::Uri>)
    ensures
        r is Some <==> uri_parses(s@),
{
    s.parse::<hyper::Uri>().ok()
}

/// The forwarded target for upstream base `base` and inbound target
/// `path_and_query`: verbatim concatenation, no normalization, no rewriting.
pub open spec fn spec_target(base: Seq<char>, path_and_query: Seq<char>) -> Seq<char> {
    base + path_and_query
}

/// Concatenate the selected upstream base address and the inbound request's
/// path-and-query, exactly as received.
pub fn build_target(base: &str, path_and_query: &str) -> (r: String)
    ensures
        r@ == spec_target(base@, path_and_query@),
{
    let mut t = String::from_str(base);
    t.append(path_and_query);
    t
}

/// Everything the transport needs to issue one outbound request: the drawn
/// pool index, the concatenated target, and the target parsed as a URI. The
/// inbound method, headers and body are carried by the caller unchanged.
pub struct ForwardPlan {
    /// The pool index this request was assigned by round-robin.
    pub index: usize,
    /// The outbound target string, `base + path_and_query` verbatim.
    pub target: String,
    /// The target, parsed by the HTTP layer's URI grammar.
    pub uri: hyper::Uri,
}

/// Decide one forwarded request from an already-drawn sequence number, as a
/// concurrent runner hands them out by atomic fetch-and-add: reduce the draw
/// to a pool index, form the target by concatenation, and parse it. A
/// failure is never retried against a different upstream.
pub fn plan_forward_drawn(pool: &UpstreamPool, draw: usize, path_and_query: &str) -> (r: Result<
    ForwardPlan,
    ForwardError,
>)
    requires
        pool.wf(),
    ensures
        ({
            let i = spec_rr_index(draw as nat, pool@.len());
            let t = spec_target(pool@[i as int], path_and_query@);
            &&& (r is Ok <==> uri_parses(t))
            &&& (r matches Ok(p) ==> p.index == i && p.target@ == t)
            &&& (r matches Err(e) ==> e == ForwardError::TargetNotAUri)
        }),
{
    let index = rr_index(draw, pool.len());
    let target = build_target(pool.get(index).as_str(), path_and_query);
    match parse_uri(target.as_str()) {
        Some(uri) => Ok(ForwardPlan { index, target, uri }),
        None => Err(ForwardError::TargetNotAUri),
    }
}

/// Decide one forwarded request: draw the next upstream from the cursor,
/// form the target by concatenation, and parse it. The cursor advances
/// exactly once per call, whether or not the target parses; a failure is
/// never retried against a different upstream.
pub fn plan_forward(pool: &UpstreamPool, cursor: &mut RoundRobin, path_and_query: &str) -> (r:
    Result<ForwardPlan, ForwardError>)
    requires
        pool.wf(),
    ensures
        old(cursor).count() < u64::MAX ==> final(cursor).count() == old(cursor).count() + 1,
        old(cursor).count() == u64::MAX ==> final(cursor).count() == 0,
        ({
            let i = spec_rr_index(old(cursor).count() as nat, pool@.len());
            let t = spec_target(pool@[i as int], path_and_query@);
            &&& (r is Ok <==> uri_parses(t))
            &&& (r matches Ok(p) ==> p.index == i && p.target@ == t)
            &&& (r matches Err(e) ==> e == ForwardError::TargetNotAUri)
        }),
{
    let index = cursor.next(pool.len());
    let target = build_target(pool.get(index).as_str(), path_and_query);
    match parse_uri(target.as_str()) {
        Some(uri) => Ok(ForwardPlan { index, target, uri }),
        None => Err(ForwardError::TargetNotAUri),
    }
}

} // verus!
