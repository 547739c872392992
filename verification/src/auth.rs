//! Authorization collaborator, made explicit: the set of principals that
//! authorized the current invocation is handed in as a value, and operations
//! ask it for proof that a given principal authorized the call.

use crate::stream::Address;
use crate::stream::Error;
use vstd::prelude::*;

verus! {

/// The principals that authorized the current invocation.
pub struct AuthContext {
    pub authorized: Vec<Address>,
}

impl AuthContext {
    /// Whether `a` authorized the current invocation.
    pub open spec fn grants(self, a: Address) -> bool {
        self.authorized@.contains(a)
    }

    /// A context in which nobody authorized anything.
    pub fn empty() -> (r: AuthContext)
        ensures
            forall|a: Address| !r.grants(a),
    {
        AuthContext { authorized: Vec::new() }
    }

    /// A context in which exactly `a` authorized the invocation.
    pub fn single(a: Address) -> (r: AuthContext)
        ensures
            r.grants(a),
            forall|b: Address| r.grants(b) ==> b == a,
    {
        let mut v: Vec<Address> = Vec::new();
        v.push(a);
        proof {
            assert(v@[0] == a);
        }
        AuthContext { authorized: v }
    }

    /// The authorizer interface consumed by the engine: succeeds exactly when
    /// `a` authorized the current invocation, and fails with `NotAuthorized`
    /// otherwise.
    pub fn require(&self, a: Address) -> (r: Result<(), Error>)
        ensures
            r is Ok <==> self.grants(a),
            r is Err ==> r == Err::<(), Error>(Error::NotAuthorized),
    {
        let mut i: usize = 0;
        while i < self.authorized.len()
            invariant
                0 <= i <= self.authorized.len(),
                forall|j: int| 0 <= j < i ==> self.authorized@[j] != a,
            decreases self.authorized.len() - i,
        {
            if self.authorized[i] == a {
                return Ok(());
            }
            i = i + 1;
        }
        Err(Error::NotAuthorized)
    }
}

} // verus!
