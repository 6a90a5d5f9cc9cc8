//! The execution pipeline: what the host does for a chat message, step by
//! step.
//!
//! The host reads files, runs the interpreter and sends replies. Each time it
//! has done one of these it tells [`handle_command`] what came of it, and
//! `handle_command` tells it what to do next.

use crate::commands::{created, deleted, get_command, load_command, Lookup};
use crate::names::{
    command_is_read_from_its_file, command_name_of, commands_dir, first_token, first_token_of,
    is_script_file, script_path_of,
};
use crate::store::{loaded, source_after_load, CommandStore, StoreModel};
use crate::value::{ScriptValue, ValueModel};
use vstd::prelude::*;

verus! {

/// What the interpreter made of a script.
#[derive(Debug, PartialEq, Eq)]
pub enum Outcome {
    /// The script ran to its end and produced `value`; `rendering` is the
    /// interpreter's own text for that value.
    Value { value: ScriptValue, rendering: String },
    /// The script did not compile; the text says why.
    CompileError(String),
    /// The script failed while it ran; the text says why.
    RuntimeError(String),
}

/// What happened, as the host tells it to [`handle_command`].
#[derive(Debug, PartialEq, Eq)]
pub enum Event {
    /// A chat message came in.
    Message(String),
    /// The file of the command `name` was read, as a lookup had asked.
    Loaded { name: String, text: String },
    /// The file that a lookup had asked for could not be read; the text says
    /// why.
    LoadFailed(String),
    /// The interpreter is done with a command's script.
    Finished(Outcome),
}

/// What the host is to do next.
#[derive(Debug, PartialEq, Eq)]
pub enum Action {
    /// Nothing: the message was no command, and gets no reply.
    Nothing,
    /// Read the file at `path` and report `Loaded` or `LoadFailed` for `name`.
    Load { name: String, path: String },
    /// Compile and run `source` in a fresh interpreter and report `Finished`.
    Run { source: String },
    /// Send this text as the reply.
    Reply(String),
}

/// The model of an [`Action`].
pub enum ActionModel {
    Nothing,
    Load { name: Seq<char>, path: Seq<char> },
    Run { source: Seq<char> },
    Reply(Seq<char>),
}

impl View for Action {
    type V = ActionModel;

    open spec fn view(&self) -> ActionModel {
        match self {
            Action::Nothing => ActionModel::Nothing,
            Action::Load { name, path } => ActionModel::Load { name: name@, path: path@ },
            Action::Run { source } => ActionModel::Run { source: source@ },
            Action::Reply(text) => ActionModel::Reply(text@),
        }
    }
}

/// The text that stands for a value in a reply: a string as it is, the empty
/// tuple as the empty text, anything else as the interpreter renders it.
pub open spec fn display_of(value: ValueModel, rendering: Seq<char>) -> Seq<char> {
    match value {
        ValueModel::String(text) => text,
        ValueModel::Tuple(items) => if items.len() == 0 {
            Seq::empty()
        } else {
            rendering
        },
        _ => rendering,
    }
}

/// The result of an execution: `Ok` with the text of the value that the script
/// produced, `Err` with the description of what went wrong.
pub open spec fn result_of(outcome: Outcome) -> Result<Seq<char>, Seq<char>> {
    match outcome {
        Outcome::Value { value, rendering } => Ok(display_of(value@, rendering@)),
        Outcome::CompileError(text) => Err(text@),
        Outcome::RuntimeError(text) => Err(text@),
    }
}

/// What is to be done for a chat message: its first token names the command.
/// No such command: nothing. A command whose file was read: run its source.
/// A command whose file was never read: read it.
pub open spec fn action_for_message(store: StoreModel, message: Seq<char>) -> ActionModel {
    let name = first_token_of(message);
    if !store.contains_key(name) {
        ActionModel::Nothing
    } else {
        match store[name] {
            Some(source) => ActionModel::Run { source },
            None => ActionModel::Load { name, path: script_path_of(name) },
        }
    }
}

/// What the host is to do after `event`, the store being `store` when the
/// event comes. A message is looked up. A file that was read is run: the
/// text that the command had before, else the text just read. A failed load
/// and a finished execution always get a reply: the error's description, or
/// the text of the value.
pub open spec fn next_action(store: StoreModel, event: Event) -> ActionModel {
    match event {
        Event::Message(message) => action_for_message(store, message@),
        Event::Loaded { name, text } => ActionModel::Run {
            source: source_after_load(store, name@, text@),
        },
        Event::LoadFailed(reason) => ActionModel::Reply(reason@),
        Event::Finished(outcome) => ActionModel::Reply(
            match result_of(outcome) {
                Ok(text) => text,
                Err(text) => text,
            },
        ),
    }
}

/// The store after `event`: a file that was read fills its command; nothing
/// else changes the store.
pub open spec fn next_store(store: StoreModel, event: Event) -> StoreModel {
    match event {
        Event::Loaded { name, text } => loaded(store, name@, text@),
        _ => store,
    }
}

/// The text that stands for `value` in a reply, `rendering` being the
/// interpreter's own text for it.
pub fn display_text(value: &ScriptValue, rendering: String) -> (text: String)
    ensures
        text@ == display_of(value@, rendering@),
{
    match value {
        ScriptValue::String(text) => text.clone(),
        ScriptValue::Tuple(items) => {
            assert(value@->Tuple_0.len() == items@.len());
            if items.len() == 0 {
                String::new()
            } else {
                rendering
            }
        },
        _ => rendering,
    }
}

/// The result of an execution, from what the interpreter made of the script.
pub fn execution_result(outcome: Outcome) -> (result: Result<String, String>)
    ensures
        result is Ok <==> result_of(outcome) is Ok,
        result is Ok ==> Ok::<Seq<char>, Seq<char>>(result->Ok_0@) == result_of(outcome),
        result is Err ==> Err::<Seq<char>, Seq<char>>(result->Err_0@) == result_of(outcome),
{
    match outcome {
        Outcome::Value { value, rendering } => Ok(display_text(&value, rendering)),
        Outcome::CompileError(text) => Err(text),
        Outcome::RuntimeError(text) => Err(text),
    }
}

/// One step of the pipeline: takes what happened, brings the store up to
/// date, and says what the host is to do next.
pub fn handle_command(store: &mut CommandStore, event: Event) -> (action: Action)
    ensures
        final(store)@ == next_store(old(store)@, event),
        action@ == next_action(old(store)@, event),
{
    match event {
        Event::Message(message) => {
            let name = first_token(message.as_str());
            match get_command(store, name.as_str()) {
                Lookup::Absent => Action::Nothing,
                Lookup::Loaded(source) => Action::Run { source },
                Lookup::Unloaded(path) => Action::Load { name, path },
            }
        },
        Event::Loaded { name, text } => {
            let source = load_command(store, name.as_str(), text);
            Action::Run { source }
        },
        Event::LoadFailed(reason) => Action::Reply(reason),
        Event::Finished(outcome) => {
            match execution_result(outcome) {
                Ok(text) => Action::Reply(text),
                Err(text) => Action::Reply(text),
            }
        },
    }
}

/// A message that names a script whose file was just created asks for that
/// file to be read.
pub proof fn created_command_is_read_from_its_file(
    store: StoreModel,
    file: Seq<char>,
    message: Seq<char>,
)
    requires
        is_script_file(file),
        first_token_of(message) == command_name_of(file),
    ensures
        action_for_message(created(store, file), message) == (ActionModel::Load {
            name: command_name_of(file),
            path: commands_dir() + file,
        }),
{
    command_is_read_from_its_file(file);
}

/// Once a command's file was read, a message that names the command runs the
/// text of that first read: nothing asks for the file again.
pub proof fn loaded_command_is_not_read_again(
    store: StoreModel,
    name: Seq<char>,
    text: Seq<char>,
    message: Seq<char>,
)
    requires
        store.contains_key(name),
        first_token_of(message) == name,
    ensures
        action_for_message(loaded(store, name, text), message) == (ActionModel::Run {
            source: source_after_load(store, name, text),
        }),
{
}

/// A message that names a script whose file was deleted gets no reply.
pub proof fn deleted_command_gets_no_reply(store: StoreModel, file: Seq<char>, message: Seq<char>)
    requires
        is_script_file(file),
        first_token_of(message) == command_name_of(file),
    ensures
        action_for_message(deleted(store, file), message) == ActionModel::Nothing,
{
}

/// A message that names a command is never dropped in silence. The message
/// itself leads to a read or a run; a file that was read leads to a run; a
/// file that could not be read and a script that is done lead to a reply.
pub proof fn command_is_answered(store: StoreModel, event: Event)
    ensures
        event matches Event::Message(message) && store.contains_key(first_token_of(message@))
            ==> next_action(store, event) is Load || next_action(store, event) is Run,
        event is Loaded ==> next_action(store, event) is Run,
        event is LoadFailed || event is Finished ==> next_action(store, event) is Reply,
{
}

/// A message that names no command gets no reply and changes nothing.
pub proof fn other_message_is_ignored(store: StoreModel, message: Seq<char>)
    requires
        !store.contains_key(first_token_of(message)),
    ensures
        action_for_message(store, message) == ActionModel::Nothing,
{
}

} // verus!
