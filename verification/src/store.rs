//! The command store: which commands exist, and the source text of those
//! whose file was read.
//!
//! A command's source text lies in a write-once cell: the first text that a
//! command is given stays, whatever is given later. A command gets a new
//! cell only by being inserted anew.

use crate::cell::{cell_text, empty_cell, fill_cell, read_cell};
use once_cell::sync::OnceCell;
use vstd::prelude::*;

verus! {

/// The model of a command store: each command's name, with its source text
/// where the file was read and `None` where it was not.
pub type StoreModel = Map<Seq<char>, Option<Seq<char>>>;

/// One command: its name, and the cell that takes its source text when the
/// file is first read.
pub struct Command {
    name: String,
    source: OnceCell<String>,
}

/// The commands that exist. No two have the same name.
pub struct CommandStore {
    commands: Vec<Command>,
}

/// The store after a load of `text` for the command `name`: a command that
/// has no text yet takes it; a command that has one keeps it; a name without
/// a command changes nothing.
pub open spec fn loaded(store: StoreModel, name: Seq<char>, text: Seq<char>) -> StoreModel {
    if store.contains_key(name) && store[name] is None {
        store.insert(name, Some(text))
    } else {
        store
    }
}

/// The source text that a load of `text` for the command `name` brings to
/// light: what the command already had, else `text`.
pub open spec fn source_after_load(store: StoreModel, name: Seq<char>, text: Seq<char>) -> Seq<
    char,
> {
    if store.contains_key(name) && store[name] is Some {
        store[name].unwrap()
    } else {
        text
    }
}

impl View for CommandStore {
    type V = StoreModel;

    closed spec fn view(&self) -> StoreModel {
        model_of(self.commands@)
    }
}

impl CommandStore {
    #[verifier::type_invariant]
    closed spec fn well_formed(&self) -> bool {
        distinct(self.commands@)
    }

    /// A store without commands.
    pub fn new() -> (store: CommandStore)
        ensures
            store@ == Map::<Seq<char>, Option<Seq<char>>>::empty(),
    {
        let store = CommandStore { commands: Vec::new() };
        assert(store@ =~= Map::empty()) by {
            assert forall|name: Seq<char>| !model_of(store.commands@).contains_key(name) by {
                if names(store.commands@, name) {
                    assert(false);
                }
            }
        }
        store
    }

    /// What the store has under `name`: `None` where there is no such
    /// command, `Some(None)` where the command's file was never read, else
    /// the command's source text.
    pub fn get(&self, name: &str) -> (found: Option<Option<String>>)
        ensures
            found is Some <==> self@.contains_key(name@),
            found is Some ==> (found->0 is Some <==> self@[name@] is Some),
            found is Some && found->0 is Some ==> Some(found->0->0@) == self@[name@],
    {
        let key = String::from_str(name);
        proof {
            use_type_invariant(self);
        }
        match find(&self.commands, &key) {
            None => None,
            Some(i) => {
                proof {
                    model_at(self.commands@, i as int);
                }
                Some(read_cell(&self.commands[i].source))
            },
        }
    }

    /// Puts an unloaded command under `name`, in place of any that was there:
    /// the next lookup finds its file unread.
    pub fn insert(&mut self, name: String)
        ensures
            final(self)@ == old(self)@.insert(name@, None),
    {
        let mut commands: Vec<Command> = Vec::new();
        proof {
            use_type_invariant(&*self);
        }
        core::mem::swap(&mut self.commands, &mut commands);
        put_in(&mut commands, name);
        core::mem::swap(&mut self.commands, &mut commands);
    }

    /// Takes the command called `name` out, if there is one.
    pub fn remove(&mut self, name: &str)
        ensures
            final(self)@ == old(self)@.remove(name@),
    {
        let key = String::from_str(name);
        let mut commands: Vec<Command> = Vec::new();
        proof {
            use_type_invariant(&*self);
        }
        core::mem::swap(&mut self.commands, &mut commands);
        take_out(&mut commands, &key);
        core::mem::swap(&mut self.commands, &mut commands);
    }

    /// Removes the command called `name`, then inserts it: two changes, one
    /// after the other.
    pub fn replace(&mut self, name: String)
        ensures
            final(self)@ == old(self)@.remove(name@).insert(name@, None),
    {
        self.remove(name.as_str());
        self.insert(name);
    }

    /// Gives the command called `name` the text that was read from its file.
    /// The command takes it if it has none yet. The result is the source that
    /// whoever asked for the file is to use: what the command already had,
    /// else `text`.
    pub fn load(&mut self, name: &str, text: String) -> (kept: String)
        ensures
            final(self)@ == loaded(old(self)@, name@, text@),
            kept@ == source_after_load(old(self)@, name@, text@),
    {
        let key = String::from_str(name);
        let mut commands: Vec<Command> = Vec::new();
        proof {
            use_type_invariant(&*self);
        }
        core::mem::swap(&mut self.commands, &mut commands);
        let kept = fill(&mut commands, &key, text);
        core::mem::swap(&mut self.commands, &mut commands);
        kept
    }
}

/// A name that was inserted and then removed is not in the store.
pub proof fn insert_then_remove(store: StoreModel, name: Seq<char>)
    ensures
        !store.insert(name, None).remove(name).contains_key(name),
{
}

/// A command's file goes into the store once. After a load the command has a
/// source text; it is the text that the load brought to light, and a later
/// load changes neither the store nor that text.
pub proof fn load_happens_once(
    store: StoreModel,
    name: Seq<char>,
    first: Seq<char>,
    second: Seq<char>,
)
    requires
        store.contains_key(name),
    ensures
        loaded(store, name, first)[name] == Some(source_after_load(store, name, first)),
        loaded(loaded(store, name, first), name, second) == loaded(store, name, first),
        source_after_load(loaded(store, name, first), name, second) == source_after_load(
            store,
            name,
            first,
        ),
{
}

/// A command that is replaced is there and unloaded, as one that is
/// inserted: replacing and inserting leave the same store.
pub proof fn replace_is_insert(store: StoreModel, name: Seq<char>)
    ensures
        store.remove(name).insert(name, None) == store.insert(name, None),
{
    assert(store.remove(name).insert(name, None) =~= store.insert(name, None));
}

/// Some command in `commands` is called `name`.
spec fn names(commands: Seq<Command>, name: Seq<char>) -> bool {
    exists|i: int| 0 <= i < commands.len() && #[trigger] commands[i].name@ == name
}

/// The place of the command called `name`.
spec fn place_of(commands: Seq<Command>, name: Seq<char>) -> int {
    choose|i: int| 0 <= i < commands.len() && #[trigger] commands[i].name@ == name
}

/// No two commands have the same name.
spec fn distinct(commands: Seq<Command>) -> bool {
    forall|i: int, j: int|
        0 <= i < j < commands.len() ==> #[trigger] commands[i].name@ != #[trigger] commands[j].name@
}

/// The model of a list of commands.
spec fn model_of(commands: Seq<Command>) -> StoreModel {
    Map::new(
        |name: Seq<char>| names(commands, name),
        |name: Seq<char>| cell_text(commands[place_of(commands, name)].source),
    )
}

/// In a list without repeated names, the command at place `i` is the one that
/// the model has under its name.
proof fn model_at(commands: Seq<Command>, i: int)
    requires
        distinct(commands),
        0 <= i < commands.len(),
    ensures
        model_of(commands).contains_key(commands[i].name@),
        model_of(commands)[commands[i].name@] == cell_text(commands[i].source),
        place_of(commands, commands[i].name@) == i,
{
    let name = commands[i].name@;
    assert(names(commands, name));
    let j = place_of(commands, name);
    assert(0 <= j < commands.len() && commands[j].name@ == name);
    if i < j {
        assert(commands[i].name@ != commands[j].name@);
    } else if j < i {
        assert(commands[j].name@ != commands[i].name@);
    }
}

/// A name that the model has belongs to a command of the list.
proof fn model_has(commands: Seq<Command>, name: Seq<char>)
    requires
        model_of(commands).contains_key(name),
    ensures
        0 <= place_of(commands, name) < commands.len(),
        commands[place_of(commands, name)].name@ == name,
{
    assert(names(commands, name));
}

/// Adding a command under a new name adds its name and text to the model.
proof fn model_after_push(commands: Seq<Command>, command: Command)
    requires
        distinct(commands),
        !model_of(commands).contains_key(command.name@),
    ensures
        distinct(commands.push(command)),
        model_of(commands.push(command)) == model_of(commands).insert(
            command.name@,
            cell_text(command.source),
        ),
{
    let after = commands.push(command);
    assert forall|i: int, j: int| 0 <= i < j < after.len() implies after[i].name@
        != after[j].name@ by {
        if j == commands.len() {
            assert(after[i] == commands[i]);
            if commands[i].name@ == command.name@ {
                assert(names(commands, command.name@));
            }
        } else {
            assert(after[i] == commands[i] && after[j] == commands[j]);
        }
    }
    let want = model_of(commands).insert(command.name@, cell_text(command.source));
    assert forall|name: Seq<char>| model_of(after).contains_key(name) <==> want.contains_key(
        name,
    ) by {
        if model_of(after).contains_key(name) {
            model_has(after, name);
            let i = place_of(after, name);
            if i < commands.len() {
                assert(after[i] == commands[i]);
                assert(names(commands, name));
            }
        }
        if want.contains_key(name) {
            if name == command.name@ {
                assert(after[commands.len() as int].name@ == name);
                assert(names(after, name));
            } else {
                model_has(commands, name);
                let i = place_of(commands, name);
                assert(after[i] == commands[i]);
                assert(names(after, name));
            }
        }
    }
    assert forall|name: Seq<char>| model_of(after).contains_key(name) implies model_of(
        after,
    )[name] == want[name] by {
        model_has(after, name);
        let i = place_of(after, name);
        model_at(after, i);
        if i < commands.len() {
            assert(after[i] == commands[i]);
            model_at(commands, i);
        }
    }
    assert(model_of(after) =~= want);
}

/// Taking a command out takes its name out of the model.
proof fn model_after_remove(commands: Seq<Command>, i: int)
    requires
        distinct(commands),
        0 <= i < commands.len(),
    ensures
        distinct(commands.remove(i)),
        model_of(commands.remove(i)) == model_of(commands).remove(commands[i].name@),
{
    let after = commands.remove(i);
    let gone = commands[i].name@;
    assert forall|a: int, b: int| 0 <= a < b < after.len() implies after[a].name@
        != after[b].name@ by {
        let a0 = if a < i { a } else { a + 1 };
        let b0 = if b < i { b } else { b + 1 };
        assert(after[a] == commands[a0] && after[b] == commands[b0]);
    }
    let want = model_of(commands).remove(gone);
    assert forall|name: Seq<char>| model_of(after).contains_key(name) <==> want.contains_key(
        name,
    ) by {
        if model_of(after).contains_key(name) {
            model_has(after, name);
            let a = place_of(after, name);
            let a0 = if a < i { a } else { a + 1 };
            assert(after[a] == commands[a0]);
            assert(names(commands, name));
            if a0 < i {
                assert(commands[a0].name@ != commands[i].name@);
            } else {
                assert(commands[i].name@ != commands[a0].name@);
            }
        }
        if want.contains_key(name) {
            model_has(commands, name);
            let a0 = place_of(commands, name);
            let a = if a0 < i { a0 } else { a0 - 1 };
            assert(after[a] == commands[a0]);
            assert(names(after, name));
        }
    }
    assert forall|name: Seq<char>| model_of(after).contains_key(name) implies model_of(
        after,
    )[name] == want[name] by {
        model_has(after, name);
        let a = place_of(after, name);
        let a0 = if a < i { a } else { a + 1 };
        assert(after[a] == commands[a0]);
        model_at(after, a);
        model_at(commands, a0);
    }
    assert(model_of(after) =~= want);
}

/// Giving a command's cell a new state changes that command's text in the
/// model and nothing else.
proof fn model_after_update(commands: Seq<Command>, i: int, command: Command)
    requires
        distinct(commands),
        0 <= i < commands.len(),
        command.name@ == commands[i].name@,
    ensures
        distinct(commands.update(i, command)),
        model_of(commands.update(i, command)) == model_of(commands).insert(
            command.name@,
            cell_text(command.source),
        ),
{
    let after = commands.update(i, command);
    assert forall|a: int, b: int| 0 <= a < b < after.len() implies after[a].name@
        != after[b].name@ by {
        assert(after[a].name@ == commands[a].name@ && after[b].name@ == commands[b].name@);
    }
    let want = model_of(commands).insert(command.name@, cell_text(command.source));
    assert forall|name: Seq<char>| model_of(after).contains_key(name) <==> want.contains_key(
        name,
    ) by {
        if model_of(after).contains_key(name) {
            model_has(after, name);
            let a = place_of(after, name);
            assert(commands[a].name@ == name);
            assert(names(commands, name));
        }
        if want.contains_key(name) {
            if name == command.name@ {
                assert(after[i].name@ == name);
            } else {
                model_has(commands, name);
                let a = place_of(commands, name);
                assert(after[a].name@ == name);
            }
            assert(names(after, name));
        }
    }
    assert forall|name: Seq<char>| model_of(after).contains_key(name) implies model_of(
        after,
    )[name] == want[name] by {
        model_has(after, name);
        let a = place_of(after, name);
        model_at(after, a);
        if a != i {
            assert(after[a] == commands[a]);
            model_at(commands, a);
        }
    }
    assert(model_of(after) =~= want);
}

/// The place in `commands` of the command called `name`, if there is one.
fn find(commands: &Vec<Command>, name: &String) -> (place: Option<usize>)
    ensures
        place is Some <==> model_of(commands@).contains_key(name@),
        place is Some ==> place->0 < commands@.len() && commands@[place->0 as int].name@ == name@,
{
    let mut i: usize = 0;
    while i < commands.len()
        invariant
            i <= commands@.len(),
            forall|j: int| 0 <= j < i ==> (#[trigger] commands@[j]).name@ != name@,
        decreases commands@.len() - i,
    {
        if commands[i].name == *name {
            assert(names(commands@, name@));
            return Some(i);
        }
        i = i + 1;
    }
    assert(!names(commands@, name@));
    None
}

/// Takes the command called `name` out of `commands`, if there is one.
fn take_out(commands: &mut Vec<Command>, name: &String)
    requires
        distinct(old(commands)@),
    ensures
        distinct(final(commands)@),
        model_of(final(commands)@) == model_of(old(commands)@).remove(name@),
{
    match find(commands, name) {
        Some(i) => {
            proof {
                model_after_remove(commands@, i as int);
            }
            commands.remove(i);
        },
        None => {
            assert(model_of(commands@).remove(name@) =~= model_of(commands@));
        },
    }
}

/// Puts an unloaded command called `name` into `commands`, in place of any
/// that had the name.
fn put_in(commands: &mut Vec<Command>, name: String)
    requires
        distinct(old(commands)@),
    ensures
        distinct(final(commands)@),
        model_of(final(commands)@) == model_of(old(commands)@).insert(name@, None),
{
    take_out(commands, &name);
    let command = Command { name, source: empty_cell() };
    proof {
        model_after_push(commands@, command);
        assert(model_of(old(commands)@).remove(name@).insert(name@, None) =~= model_of(
            old(commands)@,
        ).insert(name@, None));
    }
    commands.push(command);
}

/// Gives `text` to the command called `name` if that command has no text yet,
/// and returns the text that the command then has; `text` itself where there
/// is no such command.
fn fill(commands: &mut Vec<Command>, name: &String, text: String) -> (kept: String)
    requires
        distinct(old(commands)@),
    ensures
        distinct(final(commands)@),
        model_of(final(commands)@) == loaded(model_of(old(commands)@), name@, text@),
        kept@ == source_after_load(model_of(old(commands)@), name@, text@),
{
    match find(commands, name) {
        Some(i) => {
            proof {
                model_at(commands@, i as int);
            }
            let kept = fill_cell(&mut commands[i].source, text);
            proof {
                model_after_update(old(commands)@, i as int, commands@[i as int]);
                assert(commands@ =~= old(commands)@.update(i as int, commands@[i as int]));
                assert(model_of(commands@) =~= loaded(model_of(old(commands)@), name@, text@));
            }
            kept
        },
        None => text,
    }
}

} // verus!
