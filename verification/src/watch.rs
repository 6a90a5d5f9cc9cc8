//! Keeping the command store in step with the script directory.

use crate::commands::{
    create_command, created, delete_command, deleted, update_command, updated,
};
use crate::store::{CommandStore, StoreModel};
use crate::names::{is_script, is_script_file};
use vstd::prelude::*;

verus! {

/// A change in the script directory, as the host's watcher reports it once a
/// burst of writes has settled. Files are given by their names.
#[derive(Debug, PartialEq, Eq)]
pub enum FileEvent {
    /// A file was created.
    Created(String),
    /// A file's content was changed.
    Written(String),
    /// A file was removed.
    Removed(String),
    /// A file was renamed, from the first name to the second.
    Renamed(String, String),
    /// Anything else.
    Other,
}

/// The store after a change in the script directory. A created script gets
/// its command; a written script has its command replaced, so that it is
/// read again; a removed script loses its command; a script renamed to a
/// script loses the command of the old name and gets that of the new name.
/// Files that are no scripts, and a rename with one of them, change nothing.
pub open spec fn synced(store: StoreModel, event: FileEvent) -> StoreModel {
    match event {
        FileEvent::Created(file) => created(store, file@),
        FileEvent::Written(file) => updated(store, file@),
        FileEvent::Removed(file) => deleted(store, file@),
        FileEvent::Renamed(from, to) => if is_script_file(from@) && is_script_file(to@) {
            created(deleted(store, from@), to@)
        } else {
            store
        },
        FileEvent::Other => store,
    }
}

/// Brings the store in step with one change in the script directory.
pub fn handle_file_event(store: &mut CommandStore, event: &FileEvent)
    ensures
        final(store)@ == synced(old(store)@, *event),
{
    match event {
        FileEvent::Created(file) => create_command(store, file.as_str()),
        FileEvent::Written(file) => update_command(store, file.as_str()),
        FileEvent::Removed(file) => delete_command(store, file.as_str()),
        FileEvent::Renamed(from, to) => {
            if is_script(from.as_str()) && is_script(to.as_str()) {
                delete_command(store, from.as_str());
                create_command(store, to.as_str());
            }
        },
        FileEvent::Other => {},
    }
}

} // verus!
