//! Where a Nexus actually ran, and the copy it refuses to be.

use nexus::situation::kernel_identity;
use nexus::{Situated, Situating, Situation, SystemReading};

fn reading() -> SystemReading {
    SystemReading {
        process_id: 4242,
        boot_identity: Some("0f3c2a1e-boot\n".to_owned()),
        host_identity: Some("  orchestrate-host \n".to_owned()),
    }
}

#[test]
fn a_situation_records_what_the_system_reported() {
    let situation = Situation::situated(
        "/state/orchestrate-nexus.sema".to_owned(),
        vec![
            "/run/orchestrate.sock".to_owned(),
            "/run/orchestrate-meta.sock".to_owned(),
        ],
        reading(),
    );
    assert_eq!(situation.store_path(), "/state/orchestrate-nexus.sema");
    assert_eq!(
        situation.bound_socket_vector(),
        ["/run/orchestrate.sock", "/run/orchestrate-meta.sock"]
    );
    assert_eq!(situation.process_id(), 4242);
    assert_eq!(situation.boot_identity(), "0f3c2a1e-boot");
    assert_eq!(situation.host_identity(), "orchestrate-host");
}

#[test]
fn an_unreadable_identity_is_recorded_empty() {
    let situation = Situation::situated(
        "/state/one.sema".to_owned(),
        Vec::new(),
        SystemReading {
            process_id: u32::MAX,
            boot_identity: None,
            host_identity: None,
        },
    );
    assert_eq!(situation.process_id(), 4294967295i64);
    assert_eq!(situation.boot_identity(), "");
    assert_eq!(situation.host_identity(), "");
}

#[test]
fn a_kernel_identity_is_trimmed() {
    assert_eq!(kernel_identity(&Some("\tabc def \r\n".to_owned())), "abc def");
    assert_eq!(kernel_identity(&Some("plain".to_owned())), "plain");
    assert_eq!(kernel_identity(&Some("  \n".to_owned())), "");
    assert_eq!(kernel_identity(&None), "");
}

#[test]
fn a_store_opened_where_its_own_record_says_it_lives_is_not_a_copy() {
    let situation = Situation::situated("/state/one.sema".to_owned(), Vec::new(), reading());
    assert!(!situation.is_carried("/state/one.sema"));
}

#[test]
fn a_store_opened_anywhere_else_is_a_copy_and_says_where_it_came_from() {
    let situation = Situation::situated("/state/one.sema".to_owned(), Vec::new(), reading());
    assert!(
        situation.is_carried("/elsewhere/one.sema"),
        "a store carried to a second path would otherwise bind the first \
         path's sockets, which belong to the Nexus still running there"
    );
    assert_eq!(situation.store_path(), "/state/one.sema");
}

#[test]
fn a_prefix_of_the_recorded_path_is_somewhere_else() {
    let situation = Situation::situated("/state/one.sema".to_owned(), Vec::new(), reading());
    assert!(situation.is_carried("/state/one"));
    assert!(situation.is_carried("/state/one.sema/"));
    assert!(situation.is_carried(""));
}

#[test]
fn a_readable_identity_with_content_is_never_recorded_empty() {
    assert_eq!(kernel_identity(&Some("\u{3000}\u{a0}id\u{2028}".to_owned())), "id");
    assert_eq!(kernel_identity(&Some("\u{85}\u{1680}".to_owned())), "");
    assert_eq!(kernel_identity(&Some(" a b ".to_owned())), "a b");
}
