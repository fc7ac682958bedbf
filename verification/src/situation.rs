//! Where a Nexus actually ran.
//!
//! A Nexus's persisted configuration is desired state. This is the other
//! half: observed state, written by the Nexus itself once both sockets are
//! bound, and never read back as configuration. It records the store file
//! that was actually opened, the socket paths that were actually bound, and
//! the process and boot that bound them. A copy of a populated store, opened
//! somewhere else, recognises itself by this record.
use vstd::prelude::*;
use crate::text::{is_piece_of, is_white_space, lemma_trim_keeps_the_content, lemma_trim_is_the_content_between_white_space, same_text, trim_text, trimmed_text};

verus! {

/// Where a Nexus process was actually situated: written at bind, never read
/// as configuration.
#[derive(Clone, Debug, PartialEq, Eq)]
pub struct Situation {
    pub store_path: String,
    pub bound_socket_vector: Vec<String>,
    pub process_id: i64,
    pub boot_identity: String,
    pub host_identity: String,
}

/// What the running system said about where a situation is being written:
/// the id of this process, and the text read where Linux publishes the boot
/// and host identities (`None` where it could not be read).
#[derive(Clone, Debug, PartialEq, Eq)]
pub struct SystemReading {
    pub process_id: u32,
    pub boot_identity: Option<String>,
    pub host_identity: Option<String>,
}

/// The identity recorded for what was read from the system: the read text
/// without its surrounding whitespace, or the empty text where nothing could
/// be read.
pub open spec fn recorded_identity(read: Option<String>) -> Seq<char> {
    match read {
        Some(text) => trimmed_text(text@),
        None => Seq::empty(),
    }
}

/// Whether a store opened at `opened_store_path` is a copy carried away from
/// the store its record names.
pub open spec fn carried(store_path: Seq<char>, opened_store_path: Seq<char>) -> bool {
    store_path != opened_store_path
}

/// The record a Nexus writes once both its sockets are bound.
pub trait Situating: Sized {
    fn situated(store_path: String, bound_socket_vector: Vec<String>, system: SystemReading) -> Self;
}

impl Situating for Situation {
    /// The process, boot and host come from what the running system said
    /// rather than from the caller's own idea of them. An identity that
    /// cannot be read is recorded as the empty string rather than guessed at
    /// or refused: neither identity is compared when deciding whether a store
    /// was carried.
    fn situated(store_path: String, bound_socket_vector: Vec<String>, system: SystemReading) -> (
        situation: Self)
        ensures
            situation.store_path == store_path,
            situation.bound_socket_vector == bound_socket_vector,
            situation.process_id == system.process_id,
            situation.boot_identity@ == recorded_identity(system.boot_identity),
            situation.host_identity@ == recorded_identity(system.host_identity),
    {
        let boot_identity = kernel_identity(&system.boot_identity);
        let host_identity = kernel_identity(&system.host_identity);
        Self {
            store_path,
            bound_socket_vector,
            process_id: system.process_id as i64,
            boot_identity,
            host_identity,
        }
    }
}

/// The identity to record for what was read where the kernel publishes it.
pub fn kernel_identity(read: &Option<String>) -> (identity: String)
    ensures
        identity@ == recorded_identity(*read),
        read is Some ==> identity@ == trimmed_text(read->0@),
        read is None ==> identity@.len() == 0,
        read is Some ==> is_piece_of(identity@, read->0@),
        read is Some && (exists|i: int|
            0 <= i < read->0@.len() && !is_white_space(#[trigger] read->0@[i])) ==> identity@.len() > 0,
{
    proof {
        if read is Some {
            lemma_trim_keeps_the_content(read->0@);
        }
    }
    match read {
        Some(text) => trim_text(text.as_str()).to_owned(),
        None => String::new(),
    }
}

/// A recorded situation answers where its Nexus was, and whether the store
/// now being opened is the one it was written into.
pub trait Situated {
    fn store_path(&self) -> &str;

    fn bound_socket_vector(&self) -> &[String];

    fn process_id(&self) -> i64;

    fn boot_identity(&self) -> &str;

    fn host_identity(&self) -> &str;

    /// A store opened anywhere other than where its own record says it lives
    /// is a copy that has been carried, and the socket paths it holds belong
    /// to the Nexus still running where the original is.
    fn is_carried(&self, opened_store_path: &str) -> bool;
}

impl Situated for Situation {
    fn store_path(&self) -> (path: &str)
        ensures
            path@ == self.store_path@,
    {
        self.store_path.as_str()
    }

    fn bound_socket_vector(&self) -> (sockets: &[String])
        ensures
            sockets@ == self.bound_socket_vector@,
    {
        self.bound_socket_vector.as_slice()
    }

    fn process_id(&self) -> (process_id: i64)
        ensures
            process_id == self.process_id,
    {
        self.process_id
    }

    fn boot_identity(&self) -> (identity: &str)
        ensures
            identity@ == self.boot_identity@,
    {
        self.boot_identity.as_str()
    }

    fn host_identity(&self) -> (identity: &str)
        ensures
            identity@ == self.host_identity@,
    {
        self.host_identity.as_str()
    }

    fn is_carried(&self, opened_store_path: &str) -> (is_copy: bool)
        ensures
            is_copy == carried(self.store_path@, opened_store_path@),
    {
        !same_text(self.store_path.as_str(), opened_store_path)
    }
}

/// A store opened where its own record says it lives is never taken for a
/// copy, and one opened anywhere else always is.
pub proof fn lemma_carried_exactly_when_moved(store_path: Seq<char>, opened_store_path: Seq<char>)
    ensures
        !carried(store_path, store_path),
        carried(store_path, opened_store_path) <==> opened_store_path != store_path,
{
}

/// The identity recorded for a readable text is the whole text with only
/// its surrounding White_Space removed: it runs from the first character of
/// the text that is not White_Space to the last one, so every such character
/// of the text is kept, in place. An unreadable identity is recorded empty.
pub proof fn lemma_recorded_identity_is_the_whole_trimmed_read(text: String)
    ensures
        recorded_identity(Some(text)) == trimmed_text(text@),
        recorded_identity(None) == Seq::<char>::empty(),
        exists|start: int, end: int|
            0 <= start <= end <= text@.len() && recorded_identity(Some(text)) == #[trigger] text@.subrange(start, end)
                && (forall|i: int| 0 <= i < start ==> is_white_space(#[trigger] text@[i]))
                && (forall|i: int| end <= i < text@.len() ==> is_white_space(#[trigger] text@[i]))
                && (start < end ==> !is_white_space(text@[start]) && !is_white_space(text@[end - 1])),
{
    lemma_trim_is_the_content_between_white_space(text@);
}

} // verus!
