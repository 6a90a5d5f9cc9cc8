//! The commands of the script directory: one for each script file, named
//! after the file.

use crate::names::{command_name, command_name_of, is_script_file, script_path, script_path_of};
use crate::store::{loaded, source_after_load, CommandStore, StoreModel};
use vstd::prelude::*;

verus! {

/// What a lookup of a command found.
#[derive(Debug, PartialEq, Eq)]
pub enum Lookup {
    /// No command has the name.
    Absent,
    /// The command's file was read before: this is its source text.
    Loaded(String),
    /// The command exists and its file was never read: this is the file's
    /// path. Whoever reads it hands the text to [`load_command`].
    Unloaded(String),
}

/// The texts of a vector of strings.
pub open spec fn texts_of(strings: Seq<String>) -> Seq<Seq<char>> {
    Seq::new(strings.len(), |i: int| strings[i]@)
}

/// The store after the file `file` was created: if it is a script, its
/// command is there and unloaded, whatever was there under that name.
pub open spec fn created(store: StoreModel, file: Seq<char>) -> StoreModel {
    if is_script_file(file) {
        store.insert(command_name_of(file), None)
    } else {
        store
    }
}

/// The store after the file `file` was deleted: if it is a script, its
/// command is gone.
pub open spec fn deleted(store: StoreModel, file: Seq<char>) -> StoreModel {
    if is_script_file(file) {
        store.remove(command_name_of(file))
    } else {
        store
    }
}

/// The store after the file `file` was written: its command is deleted, then
/// created.
pub open spec fn updated(store: StoreModel, file: Seq<char>) -> StoreModel {
    created(deleted(store, file), file)
}

/// The store that a scan of a directory with the files `files` makes: each
/// file created in turn, in a store that starts empty.
pub open spec fn scanned(files: Seq<Seq<char>>) -> StoreModel
    decreases files.len(),
{
    if files.len() == 0 {
        Map::empty()
    } else {
        created(scanned(files.drop_last()), files.last())
    }
}

/// The store for a directory that holds the files `file_names`: one unloaded
/// command for each script among them. No file is read.
pub fn get_commands(file_names: &Vec<String>) -> (store: CommandStore)
    ensures
        store@ == scanned(texts_of(file_names@)),
{
    let mut store = CommandStore::new();
    let mut i: usize = 0;
    assert(texts_of(file_names@).take(0) =~= Seq::empty());
    while i < file_names.len()
        invariant
            i <= file_names@.len(),
            store@ == scanned(texts_of(file_names@).take(i as int)),
        decreases file_names@.len() - i,
    {
        proof {
            let files = texts_of(file_names@);
            assert(files.take(i + 1).drop_last() =~= files.take(i as int));
            assert(files.take(i + 1).last() == file_names@[i as int]@);
        }
        create_command(&mut store, file_names[i].as_str());
        i = i + 1;
    }
    assert(texts_of(file_names@).take(i as int) =~= texts_of(file_names@));
    store
}

/// Looks the command `name` up. Where the command exists and its file was
/// never read, the answer is the path of the file to read.
pub fn get_command(store: &CommandStore, name: &str) -> (found: Lookup)
    ensures
        !store@.contains_key(name@) ==> found is Absent,
        store@.contains_key(name@) && store@[name@] is Some ==> found is Loaded && Some(
            found->Loaded_0@,
        ) == store@[name@],
        store@.contains_key(name@) && store@[name@] is None ==> found is Unloaded
            && found->Unloaded_0@ == script_path_of(name@),
{
    match store.get(name) {
        None => Lookup::Absent,
        Some(Some(text)) => Lookup::Loaded(text),
        Some(None) => Lookup::Unloaded(script_path(name)),
    }
}

/// Hands the store the text that was read from the file of the command
/// `name`. The command takes it if it has none yet. The result is the source
/// to run for the lookup that asked for the file: what the command already
/// had, else `text`.
pub fn load_command(store: &mut CommandStore, name: &str, text: String) -> (kept: String)
    ensures
        final(store)@ == loaded(old(store)@, name@, text@),
        kept@ == source_after_load(old(store)@, name@, text@),
{
    store.load(name, text)
}

/// The file `file_name` was created: its command is put into the store,
/// unloaded. A file that is no script changes nothing.
pub fn create_command(store: &mut CommandStore, file_name: &str)
    ensures
        final(store)@ == created(old(store)@, file_name@),
{
    match command_name(file_name) {
        Some(name) => store.insert(name),
        None => {},
    }
}

/// The file `file_name` was deleted: its command is taken out of the store.
/// A file that is no script changes nothing.
pub fn delete_command(store: &mut CommandStore, file_name: &str)
    ensures
        final(store)@ == deleted(old(store)@, file_name@),
{
    match command_name(file_name) {
        Some(name) => store.remove(name.as_str()),
        None => {},
    }
}

/// The file `file_name` was written: its command is deleted, then created, so
/// that the next lookup asks for the file to be read again.
pub fn update_command(store: &mut CommandStore, file_name: &str)
    ensures
        final(store)@ == updated(old(store)@, file_name@),
{
    delete_command(store, file_name);
    create_command(store, file_name);
}

/// A scan makes a command of `name` exactly when some file of the directory
/// is a script that defines it, and leaves every command unloaded.
pub proof fn scan_has_each_script(files: Seq<Seq<char>>, name: Seq<char>)
    ensures
        scanned(files).contains_key(name) <==> exists|i: int|
            0 <= i < files.len() && is_script_file(#[trigger] files[i]) && command_name_of(files[i])
                == name,
        scanned(files).contains_key(name) ==> scanned(files)[name] is None,
    decreases files.len(),
{
    if files.len() > 0 {
        let rest = files.drop_last();
        let last = files.last();
        scan_has_each_script(rest, name);
        if scanned(files).contains_key(name) {
            if is_script_file(last) && command_name_of(last) == name {
                assert(files[files.len() - 1] == last);
            } else {
                assert(scanned(rest).contains_key(name));
                let i = choose|i: int|
                    0 <= i < rest.len() && is_script_file(#[trigger] rest[i]) && command_name_of(
                        rest[i],
                    ) == name;
                assert(files[i] == rest[i]);
            }
        }
        if exists|i: int|
            0 <= i < files.len() && is_script_file(#[trigger] files[i]) && command_name_of(files[i])
                == name {
            let i = choose|i: int|
                0 <= i < files.len() && is_script_file(#[trigger] files[i]) && command_name_of(
                    files[i],
                ) == name;
            if i < rest.len() {
                assert(rest[i] == files[i]);
            }
        }
    }
}

/// A command that was created and then deleted is not in the store.
pub proof fn create_then_delete(store: StoreModel, file: Seq<char>)
    requires
        is_script_file(file),
    ensures
        !deleted(created(store, file), file).contains_key(command_name_of(file)),
{
}

} // verus!
