use vstd::prelude::*;

verus! {

/// The identity scope that a request targets. Exactly one scope is
/// active on a client at any time; selecting a new one overwrites the
/// previous one and clears the bound resource id.
#[derive(Clone, Copy, PartialEq, Eq, Structural, Debug)]
pub enum Ident {
    Me,
    Drives,
    Sites,
    Groups,
    Users,
}

impl Ident {
    /// The fixed leading path segment of each identity scope.
    pub open spec fn segment(self) -> Seq<char> {
        match self {
            Ident::Me => "me"@,
            Ident::Drives => "drives"@,
            Ident::Sites => "sites"@,
            Ident::Groups => "groups"@,
            Ident::Users => "users"@,
        }
    }

    /// The path segment of this scope, as written into rendered paths.
    pub fn as_ref(&self) -> (r: &'static str)
        ensures
            r@ == self.segment(),
    {
        match self {
            Ident::Me => "me",
            Ident::Drives => "drives",
            Ident::Sites => "sites",
            Ident::Groups => "groups",
            Ident::Users => "users",
        }
    }
}

impl Default for Ident {
    /// A fresh client targets the signed-in user.
    fn default() -> (r: Self)
        ensures
            r == Ident::Me,
    {
        Ident::Me
    }
}

} // verus!
