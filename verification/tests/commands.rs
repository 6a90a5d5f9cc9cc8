use somebotty::commands::{
    create_command, delete_command, get_command, get_commands, load_command, update_command, Lookup,
};
use somebotty::store::CommandStore;

fn names(files: &[&str]) -> Vec<String> {
    files.iter().map(|f| f.to_string()).collect()
}

#[test]
fn new_store_has_no_command() {
    let store = CommandStore::new();
    assert_eq!(get_command(&store, "!greet"), Lookup::Absent);
    assert_eq!(get_command(&store, ""), Lookup::Absent);
}

#[test]
fn scan_makes_one_command_per_script() {
    let store = get_commands(&names(&["greet.boba", "notes.txt", "hello.boba", ".boba"]));
    assert_eq!(
        get_command(&store, "!greet"),
        Lookup::Unloaded("./commands/greet.boba".to_string())
    );
    assert_eq!(
        get_command(&store, "!hello"),
        Lookup::Unloaded("./commands/hello.boba".to_string())
    );
    assert_eq!(get_command(&store, "!notes"), Lookup::Absent);
    assert_eq!(get_command(&store, "!"), Lookup::Absent);
    assert_eq!(get_command(&store, "greet"), Lookup::Absent);
    assert_eq!(get_command(&store, "greet.boba"), Lookup::Absent);
}

#[test]
fn scan_of_empty_directory_is_empty() {
    let store = get_commands(&Vec::new());
    assert_eq!(get_command(&store, "!greet"), Lookup::Absent);
}

#[test]
fn scan_takes_a_repeated_file_once() {
    let mut store = get_commands(&names(&["greet.boba", "greet.boba"]));
    delete_command(&mut store, "greet.boba");
    assert_eq!(get_command(&store, "!greet"), Lookup::Absent);
}

#[test]
fn new_command_is_not_loaded() {
    let mut store = CommandStore::new();
    create_command(&mut store, "greet.boba");
    assert_eq!(
        get_command(&store, "!greet"),
        Lookup::Unloaded("./commands/greet.boba".to_string())
    );
}

#[test]
fn loaded_command_gives_its_text() {
    let mut store = get_commands(&names(&["greet.boba"]));
    let kept = load_command(&mut store, "!greet", "\"hi\"".to_string());
    assert_eq!(kept, "\"hi\"");
    assert_eq!(get_command(&store, "!greet"), Lookup::Loaded("\"hi\"".to_string()));
}

#[test]
fn second_load_keeps_the_first_text() {
    let mut store = get_commands(&names(&["greet.boba"]));
    assert_eq!(load_command(&mut store, "!greet", "first".to_string()), "first");
    assert_eq!(load_command(&mut store, "!greet", "second".to_string()), "first");
    assert_eq!(load_command(&mut store, "!greet", "third".to_string()), "first");
    assert_eq!(get_command(&store, "!greet"), Lookup::Loaded("first".to_string()));
    assert_eq!(get_command(&store, "!greet"), Lookup::Loaded("first".to_string()));
}

#[test]
fn load_touches_no_other_command() {
    let mut store = get_commands(&names(&["a.boba", "b.boba"]));
    load_command(&mut store, "!a", "text of a".to_string());
    assert_eq!(get_command(&store, "!b"), Lookup::Unloaded("./commands/b.boba".to_string()));
    assert_eq!(get_command(&store, "!a"), Lookup::Loaded("text of a".to_string()));
}

#[test]
fn load_of_unknown_command_changes_nothing() {
    let mut store = get_commands(&names(&["greet.boba"]));
    assert_eq!(load_command(&mut store, "!other", "text".to_string()), "text");
    assert_eq!(get_command(&store, "!other"), Lookup::Absent);
    assert_eq!(
        get_command(&store, "!greet"),
        Lookup::Unloaded("./commands/greet.boba".to_string())
    );
}

#[test]
fn create_then_delete_leaves_no_command() {
    let mut store = CommandStore::new();
    create_command(&mut store, "greet.boba");
    delete_command(&mut store, "greet.boba");
    assert_eq!(get_command(&store, "!greet"), Lookup::Absent);
    assert_eq!(load_command(&mut store, "!greet", "text".to_string()), "text");
    assert_eq!(get_command(&store, "!greet"), Lookup::Absent);
}

#[test]
fn delete_leaves_the_others() {
    let mut store = get_commands(&names(&["a.boba", "b.boba", "c.boba"]));
    load_command(&mut store, "!c", "text of c".to_string());
    delete_command(&mut store, "b.boba");
    assert_eq!(get_command(&store, "!a"), Lookup::Unloaded("./commands/a.boba".to_string()));
    assert_eq!(get_command(&store, "!b"), Lookup::Absent);
    assert_eq!(get_command(&store, "!c"), Lookup::Loaded("text of c".to_string()));
}

#[test]
fn delete_of_unknown_command_does_nothing() {
    let mut store = get_commands(&names(&["a.boba"]));
    delete_command(&mut store, "b.boba");
    assert_eq!(get_command(&store, "!a"), Lookup::Unloaded("./commands/a.boba".to_string()));
}

#[test]
fn create_replaces_a_loaded_command() {
    let mut store = get_commands(&names(&["greet.boba"]));
    load_command(&mut store, "!greet", "old".to_string());
    create_command(&mut store, "greet.boba");
    assert_eq!(
        get_command(&store, "!greet"),
        Lookup::Unloaded("./commands/greet.boba".to_string())
    );
    assert_eq!(load_command(&mut store, "!greet", "new".to_string()), "new");
}

#[test]
fn update_makes_the_command_unloaded_again() {
    let mut store = get_commands(&names(&["greet.boba"]));
    load_command(&mut store, "!greet", "old".to_string());
    update_command(&mut store, "greet.boba");
    assert_eq!(
        get_command(&store, "!greet"),
        Lookup::Unloaded("./commands/greet.boba".to_string())
    );
    assert_eq!(load_command(&mut store, "!greet", "new".to_string()), "new");
    assert_eq!(get_command(&store, "!greet"), Lookup::Loaded("new".to_string()));
}

#[test]
fn update_of_unknown_script_creates_it() {
    let mut store = CommandStore::new();
    update_command(&mut store, "greet.boba");
    assert_eq!(
        get_command(&store, "!greet"),
        Lookup::Unloaded("./commands/greet.boba".to_string())
    );
}

#[test]
fn files_that_are_no_scripts_change_nothing() {
    let mut store = get_commands(&names(&["greet.boba"]));
    load_command(&mut store, "!greet", "text".to_string());
    create_command(&mut store, "greet.txt");
    update_command(&mut store, "greet");
    delete_command(&mut store, "greet.bob");
    delete_command(&mut store, ".boba");
    assert_eq!(get_command(&store, "!greet"), Lookup::Loaded("text".to_string()));
    assert_eq!(get_command(&store, "!"), Lookup::Absent);
}

#[test]
fn many_commands_stay_apart() {
    let files: Vec<String> = (0..50).map(|i| format!("c{}.boba", i)).collect();
    let mut store = get_commands(&files);
    for i in 0..50 {
        let name = format!("!c{}", i);
        assert_eq!(load_command(&mut store, &name, format!("text {}", i)), format!("text {}", i));
    }
    for i in (0..50).step_by(2) {
        delete_command(&mut store, &format!("c{}.boba", i));
    }
    for i in 0..50 {
        let found = get_command(&store, &format!("!c{}", i));
        if i % 2 == 0 {
            assert_eq!(found, Lookup::Absent);
        } else {
            assert_eq!(found, Lookup::Loaded(format!("text {}", i)));
        }
    }
}
