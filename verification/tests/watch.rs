use somebotty::commands::{get_command, get_commands, load_command, Lookup};
use somebotty::store::CommandStore;
use somebotty::watch::{handle_file_event, FileEvent};

fn unloaded(file: &str) -> Lookup {
    Lookup::Unloaded(format!("./commands/{}", file))
}

#[test]
fn created_script_gets_a_command() {
    let mut store = CommandStore::new();
    handle_file_event(&mut store, &FileEvent::Created("greet.boba".to_string()));
    assert_eq!(get_command(&store, "!greet"), unloaded("greet.boba"));
}

#[test]
fn written_script_is_read_again() {
    let mut store = get_commands(&vec!["greet.boba".to_string()]);
    load_command(&mut store, "!greet", "old".to_string());
    handle_file_event(&mut store, &FileEvent::Written("greet.boba".to_string()));
    assert_eq!(get_command(&store, "!greet"), unloaded("greet.boba"));
}

#[test]
fn removed_script_loses_its_command() {
    let mut store = get_commands(&vec!["greet.boba".to_string()]);
    handle_file_event(&mut store, &FileEvent::Removed("greet.boba".to_string()));
    assert_eq!(get_command(&store, "!greet"), Lookup::Absent);
}

#[test]
fn renamed_script_changes_its_command() {
    let mut store = get_commands(&vec!["greet.boba".to_string()]);
    load_command(&mut store, "!greet", "text".to_string());
    handle_file_event(
        &mut store,
        &FileEvent::Renamed("greet.boba".to_string(), "hello.boba".to_string()),
    );
    assert_eq!(get_command(&store, "!greet"), Lookup::Absent);
    assert_eq!(get_command(&store, "!hello"), unloaded("hello.boba"));
}

#[test]
fn rename_with_a_file_that_is_no_script_changes_nothing() {
    let mut store = get_commands(&vec!["greet.boba".to_string()]);
    handle_file_event(
        &mut store,
        &FileEvent::Renamed("greet.boba".to_string(), "greet.txt".to_string()),
    );
    assert_eq!(get_command(&store, "!greet"), unloaded("greet.boba"));
    handle_file_event(
        &mut store,
        &FileEvent::Renamed("draft.txt".to_string(), "draft.boba".to_string()),
    );
    assert_eq!(get_command(&store, "!draft"), Lookup::Absent);
}

#[test]
fn events_on_other_files_change_nothing() {
    let mut store = get_commands(&vec!["greet.boba".to_string()]);
    load_command(&mut store, "!greet", "text".to_string());
    handle_file_event(&mut store, &FileEvent::Created("notes.txt".to_string()));
    handle_file_event(&mut store, &FileEvent::Written("greet.txt".to_string()));
    handle_file_event(&mut store, &FileEvent::Removed("greet".to_string()));
    handle_file_event(&mut store, &FileEvent::Other);
    assert_eq!(get_command(&store, "!greet"), Lookup::Loaded("text".to_string()));
    assert_eq!(get_command(&store, "!notes"), Lookup::Absent);
}
