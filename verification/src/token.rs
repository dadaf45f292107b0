//! Completion tokens: what a dispatch hands to its caller, and what the
//! caller redeems when the install is done.

use vstd::prelude::*;

verus! {

/// The number of bytes in a delegate token: 256 bits.
pub const DELEGATE_TOKEN_BYTES: usize = 32;

/// Calls `rand::random::<[u8; 32]>()`, which draws the bytes from the
/// thread's cryptographically secure generator. Nothing is claimed of the
/// bytes: two calls may give any two arrays. It fails only where the
/// operating system gives the generator no seed.
#[verifier::external_body]
fn random_bytes() -> [u8; 32] {
    rand::random()
}

/// The token of an install that the hub performs. The process cannot watch
/// that install, so holding these 32 random bytes is the caller's only proof.
#[derive(Clone, Copy, Debug)]
pub struct HubDelegateToken([u8; 32]);

impl View for HubDelegateToken {
    type V = Seq<u8>;

    closed spec fn view(&self) -> Seq<u8> {
        self.0@
    }
}

impl HubDelegateToken {
    /// A fresh token. Its bytes come from the random source and from
    /// nothing else: no argument, no state of the library.
    pub fn new() -> (token: Self)
        ensures
            token@.len() == DELEGATE_TOKEN_BYTES,
    {
        Self::from_bytes(random_bytes())
    }

    /// The token that holds exactly `bytes`.
    pub fn from_bytes(bytes: [u8; 32]) -> (token: Self)
        ensures
            token@ == bytes@,
            token@.len() == DELEGATE_TOKEN_BYTES,
    {
        HubDelegateToken(bytes)
    }

    /// The bytes of the token.
    pub fn to_bytes(&self) -> (bytes: [u8; 32])
        ensures
            bytes@ == self@,
    {
        self.0
    }

    /// Two tokens are the same token exactly when they hold the same bytes.
    pub proof fn law_bytes_decide(a: Self, b: Self)
        ensures
            a@ == b@ <==> a == b,
    {
        if a@ == b@ {
            assert forall|i: int| 0 <= i < 32 implies a.0[i] == b.0[i] by {
                assert(a.0[i] == a@[i]);
                assert(b.0[i] == b@[i]);
            }
            assert(a.0 =~= b.0);
        }
    }
}

impl PartialEq for HubDelegateToken {
    fn eq(&self, other: &Self) -> (equal: bool) {
        let mut i: usize = 0;
        while i < 32
            invariant
                i <= 32,
                forall|j: int| 0 <= j < i ==> self.0[j] == other.0[j],
            decreases 32 - i,
        {
            if self.0[i] != other.0[i] {
                return false;
            }
            i += 1;
        }
        proof {
            assert(self.0 =~= other.0);
        }
        true
    }
}

impl Eq for HubDelegateToken {

}

impl vstd::std_specs::cmp::PartialEqSpecImpl for HubDelegateToken {
    open spec fn obeys_eq_spec() -> bool {
        true
    }

    open spec fn eq_spec(&self, other: &Self) -> bool {
        *self == *other
    }
}

/// What a dispatch issues: the identifier of the installer process that it
/// spawned, or the token of an install that it handed to the hub.
#[derive(Clone, Copy, Debug)]
pub enum InstallCompletionToken {
    /// The installer runs as this process. Not a secret: the install counts
    /// as done only once that process is gone.
    Pid(u32),
    /// The hub installs. Only the holder of the token can confirm.
    DelegateToHub(HubDelegateToken),
}

impl PartialEq for InstallCompletionToken {
    fn eq(&self, other: &Self) -> (equal: bool) {
        match (self, other) {
            (InstallCompletionToken::Pid(a), InstallCompletionToken::Pid(b)) => *a == *b,
            (
                InstallCompletionToken::DelegateToHub(a),
                InstallCompletionToken::DelegateToHub(b),
            ) => a == b,
            _ => false,
        }
    }
}

impl Eq for InstallCompletionToken {

}

impl vstd::std_specs::cmp::PartialEqSpecImpl for InstallCompletionToken {
    open spec fn obeys_eq_spec() -> bool {
        true
    }

    open spec fn eq_spec(&self, other: &Self) -> bool {
        *self == *other
    }
}

} // verus!
