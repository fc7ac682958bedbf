//! The access one Nexus socket grants, and the peers it answers.
//!
//! Every Nexus opens at least two sockets: the ordinary socket, for any
//! authenticated peer, and the meta socket, through which configuration and
//! privileged operations alone pass. The meta socket is bound for the owning
//! user alone, and a connection on it is answered only when the kernel says
//! the peer is that user.
use vstd::prelude::*;

verus! {

/// The access one socket grants.
#[derive(Clone, Copy, Debug, PartialEq, Eq, Structural)]
pub enum SocketAuthority {
    /// Readable and writable by the owning user and group.
    Ordinary,
    /// Readable and writable by the owning user alone, and answered only for
    /// that user.
    Privileged,
}

/// The file mode that expresses an authority.
pub open spec fn authority_mode(authority: SocketAuthority) -> u32 {
    match authority {
        SocketAuthority::Ordinary => 0o660,
        SocketAuthority::Privileged => 0o600,
    }
}

/// Whether an authority answers `peer_user` on a socket owned by `owner`.
pub open spec fn authority_admits(authority: SocketAuthority, peer_user: u32, owner: u32) -> bool {
    match authority {
        SocketAuthority::Ordinary => true,
        SocketAuthority::Privileged => peer_user == owner,
    }
}

/// An authority states the file mode that expresses it, and which peers it
/// admits once the mode has let them connect.
pub trait Permissive {
    fn mode(&self) -> u32;

    fn admits(&self, peer_user: u32, owner: u32) -> bool;
}

impl Permissive for SocketAuthority {
    fn mode(&self) -> (mode: u32)
        ensures
            mode == authority_mode(*self),
    {
        match self {
            SocketAuthority::Ordinary => 0o660,
            SocketAuthority::Privileged => 0o600,
        }
    }

    fn admits(&self, peer_user: u32, owner: u32) -> (admitted: bool)
        ensures
            admitted == authority_admits(*self, peer_user, owner),
    {
        match self {
            SocketAuthority::Ordinary => true,
            SocketAuthority::Privileged => peer_user == owner,
        }
    }
}

/// No socket, ordinary or privileged, grants anything to users outside its
/// owning user and group: the "other" bits of every mode are clear.
pub proof fn lemma_no_socket_is_world_reachable(authority: SocketAuthority)
    ensures
        authority_mode(authority) & 0o007u32 == 0,
{
    assert(0o660u32 & 0o007u32 == 0) by (bit_vector);
    assert(0o600u32 & 0o007u32 == 0) by (bit_vector);
}

/// The privileged mode grants nothing beyond its owning user: both the group
/// and the other bits are clear, while the owner can read and write.
pub proof fn lemma_privileged_mode_is_owner_only()
    ensures
        authority_mode(SocketAuthority::Privileged) & 0o077u32 == 0,
        authority_mode(SocketAuthority::Privileged) & 0o600u32 == 0o600u32,
{
    assert(0o600u32 & 0o077u32 == 0) by (bit_vector);
    assert(0o600u32 & 0o600u32 == 0o600u32) by (bit_vector);
}

/// The privileged mode grants a subset of what the ordinary mode grants.
pub proof fn lemma_privileged_mode_within_ordinary()
    ensures
        authority_mode(SocketAuthority::Privileged) & !authority_mode(SocketAuthority::Ordinary) == 0,
{
    assert(0o600u32 & !0o660u32 == 0) by (bit_vector);
}

/// The privileged authority answers exactly its owner, root included among
/// the refused; the ordinary authority answers whoever the mode let connect.
/// So every peer the privileged socket admits, the ordinary one admits too.
pub proof fn lemma_privileged_admits_only_the_owner(peer_user: u32, owner: u32)
    ensures
        authority_admits(SocketAuthority::Privileged, peer_user, owner) <==> peer_user == owner,
        authority_admits(SocketAuthority::Ordinary, peer_user, owner),
        authority_admits(SocketAuthority::Privileged, peer_user, owner) ==> authority_admits(
            SocketAuthority::Ordinary,
            peer_user,
            owner,
        ),
{
}

} // verus!
