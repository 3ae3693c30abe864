use vstd::prelude::*;

verus! {

/// The API version that selects the base host. Exactly two hosts are
/// recognized: the stable surface and the preview surface.
#[derive(Clone, Copy, PartialEq, Eq, Structural, Debug)]
pub enum Host {
    V1,
    Beta,
}

impl Host {
    /// The base of every URL resolved against this host.
    pub open spec fn base(self) -> Seq<char> {
        match self {
            Host::V1 => "https://graph.microsoft.com/v1.0"@,
            Host::Beta => "https://graph.microsoft.com/beta"@,
        }
    }

    /// The base of every URL resolved against this host, as text the
    /// transport prefixes onto the rendered path.
    pub fn base_str(&self) -> (r: &'static str)
        ensures
            r@ == self.base(),
    {
        match self {
            Host::V1 => "https://graph.microsoft.com/v1.0",
            Host::Beta => "https://graph.microsoft.com/beta",
        }
    }
}

/// An authority plus a resolved path plus an optional query. The
/// authority is set once per version selection and never silently
/// mixed within one call chain.
#[derive(Clone)]
pub struct GraphUrl {
    pub host: Host,
    pub path: Vec<u8>,
    pub query: Option<Vec<u8>>,
}

impl GraphUrl {
    /// A URL on `host` with an empty path and no query.
    pub fn new(host: Host) -> (r: GraphUrl)
        ensures
            r.host == host,
            r.path@ == Seq::<u8>::empty(),
            r.query is None,
    {
        GraphUrl { host, path: Vec::new(), query: None }
    }
}

} // verus!
