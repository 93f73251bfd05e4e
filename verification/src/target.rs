//! The immutable description of a connection target, and the credential
//! used for one authentication attempt.

use vstd::prelude::*;
use vstd::string::StrSliceExecFns;

verus! {

/// The credential offered during authentication.
///
/// A tagged union matched exhaustively at the authentication boundary: a
/// new credential kind cannot be added without updating the authenticator.
/// The value is held only for the duration of one attempt and is never
/// persisted by the engine.
#[derive(Clone, Debug, PartialEq)]
pub enum Credential {
    /// Public-key authentication with the PEM-encoded private key stored at
    /// `path` on the local filesystem.
    KeyFile { path: String },
    /// Password authentication.
    Password { secret: String },
}

/// What a connection attempt needs to know about its target.  Owned by the
/// caller and read-only to the engine.
#[derive(Clone, Debug, PartialEq)]
pub struct TargetDescriptor {
    /// Host name or address of the remote machine.
    pub host: String,
    /// TCP port of the secure-shell service, between 1 and 65535.
    pub port: u16,
    /// Account name to authenticate as.
    pub username: String,
    /// The credential to offer.
    pub credential: Credential,
}

impl TargetDescriptor {
    /// A descriptor is well formed when its port is non-zero.
    pub open spec fn wf(&self) -> bool {
        self.port >= 1
    }

    /// Check the descriptor's well-formedness at run time, for callers
    /// that take descriptors from outside the verified world.
    pub fn is_valid(&self) -> (r: bool)
        ensures
            r == self.wf(),
    {
        self.port >= 1
    }
}

/// The four characters of the public-key file name suffix.
pub open spec fn pub_suffix() -> Seq<char> {
    seq!['.', 'p', 'u', 'b']
}

/// The private-key path that a stored key reference resolves to: the stored
/// path with a trailing `.pub` trimmed, and the stored path itself when it
/// carries no such suffix.
pub open spec fn private_key_path_view(s: Seq<char>) -> Seq<char> {
    if s.len() >= 4 && s.subrange(s.len() - 4, s.len() as int) == pub_suffix() {
        s.subrange(0, s.len() - 4)
    } else {
        s
    }
}

/// Resolve a stored key reference to the path of the private key: callers
/// store the public key's path, whose `.pub` suffix names its private pair.
pub fn private_key_path(stored: &str) -> (r: String)
    ensures
        r@ == private_key_path_view(stored@),
{
    let n = stored.unicode_len();
    if n >= 4 {
        let c_dot = stored.get_char(n - 4);
        let c_p = stored.get_char(n - 3);
        let c_u = stored.get_char(n - 2);
        let c_b = stored.get_char(n - 1);
        if c_dot == '.' && c_p == 'p' && c_u == 'u' && c_b == 'b' {
            proof {
                assert(stored@.subrange(stored@.len() - 4, stored@.len() as int)
                    =~= pub_suffix());
            }
            return stored.substring_char(0, n - 4).to_owned();
        }
        proof {
            assert(stored@.subrange(stored@.len() - 4, stored@.len() as int)
                != pub_suffix());
        }
    }
    stored.to_owned()
}

/// The key-file credential that a stored key reference resolves to.
pub fn key_file_credential(stored: &str) -> (c: Credential)
    ensures
        c matches Credential::KeyFile { path } && path@ == private_key_path_view(stored@),
{
    Credential::KeyFile { path: private_key_path(stored) }
}

} // verus!
