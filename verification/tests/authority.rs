//! The access a Nexus socket grants, and what it does with a peer.

use nexus::{Permissive, SocketAuthority};

#[test]
fn the_privileged_authority_admits_its_owner_and_nobody_else() {
    let owner = 1001;
    assert!(SocketAuthority::Privileged.admits(owner, owner));
    for peer in [0, 1, 1000, 1002, u32::MAX] {
        assert!(
            !SocketAuthority::Privileged.admits(peer, owner),
            "user {peer} is not the Nexus's own user {owner}, root included"
        );
        assert!(
            SocketAuthority::Ordinary.admits(peer, owner),
            "the ordinary socket admits whoever the filesystem let through"
        );
    }
}

#[test]
fn the_privileged_socket_mode_grants_nothing_beyond_its_owner() {
    assert_eq!(SocketAuthority::Privileged.mode() & 0o077, 0);
    assert_eq!(SocketAuthority::Privileged.mode(), 0o600);
    assert_eq!(SocketAuthority::Ordinary.mode(), 0o660);
    assert_eq!(
        SocketAuthority::Ordinary.mode() & 0o007,
        0,
        "neither socket is world-reachable"
    );
}

#[test]
fn no_socket_mode_grants_anything_to_others() {
    for authority in [SocketAuthority::Ordinary, SocketAuthority::Privileged] {
        assert_eq!(authority.mode() & 0o007, 0);
    }
    assert_eq!(
        SocketAuthority::Privileged.mode() & !SocketAuthority::Ordinary.mode(),
        0
    );
}

#[test]
fn every_peer_the_privileged_socket_admits_the_ordinary_one_admits_too() {
    for owner in [0, 1001, u32::MAX] {
        for peer in [0, 1001, 1002, u32::MAX] {
            if SocketAuthority::Privileged.admits(peer, owner) {
                assert_eq!(peer, owner);
                assert!(SocketAuthority::Ordinary.admits(peer, owner));
            }
        }
    }
    assert!(SocketAuthority::Privileged.admits(0, 0));
}
