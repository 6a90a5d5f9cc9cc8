//! Names: how a script file's name becomes a command's name, where a
//! command's file lies, and which part of a chat message selects a command.

use vstd::prelude::*;

verus! {

/// The character that every command name starts with.
pub const PREFIX: char = '!';

/// The ending that marks a file as a script, dot included.
pub open spec fn script_suffix() -> Seq<char> {
    ".boba"@
}

/// The directory that holds the script files, with its trailing separator.
pub open spec fn commands_dir() -> Seq<char> {
    "./commands/"@
}

/// A file name belongs to a script when it ends in the script suffix and
/// something stands before the suffix.
pub open spec fn is_script_file(file: Seq<char>) -> bool {
    &&& file.len() > script_suffix().len()
    &&& file.skip(file.len() - script_suffix().len()) == script_suffix()
}

/// The stem of a script file: its name without the suffix.
pub open spec fn stem_of(file: Seq<char>) -> Seq<char> {
    file.take(file.len() - script_suffix().len())
}

/// The command that a script file defines: the prefix, then the file's stem.
pub open spec fn command_name_of(file: Seq<char>) -> Seq<char> {
    seq![PREFIX] + stem_of(file)
}

/// Where the script of a command lies: the stem is the name without its first
/// character (an empty name has an empty stem).
pub open spec fn script_path_of(name: Seq<char>) -> Seq<char> {
    let stem = if name.len() > 0 {
        name.skip(1)
    } else {
        name
    };
    commands_dir() + stem + script_suffix()
}

/// Whether a character is white space: one of the characters that Unicode
/// gives the property `White_Space`.
pub open spec fn is_white_space(c: char) -> bool {
    let code = c as u32;
    ||| 0x09 <= code <= 0x0d
    ||| code == 0x20
    ||| code == 0x85
    ||| code == 0xa0
    ||| code == 0x1680
    ||| 0x2000 <= code <= 0x200a
    ||| code == 0x2028
    ||| code == 0x2029
    ||| code == 0x202f
    ||| code == 0x205f
    ||| code == 0x3000
}

/// `end` is where the first token of `message` ends: no white space before
/// it, and either the message ends there or white space stands there.
pub open spec fn is_token_end(message: Seq<char>, end: int) -> bool {
    &&& 0 <= end <= message.len()
    &&& forall|j: int| 0 <= j < end ==> !is_white_space(#[trigger] message[j])
    &&& end < message.len() ==> is_white_space(message[end])
}

/// The first token of a message: everything before its first white space,
/// the whole message where it has none. A message that starts with white
/// space has the empty token.
pub open spec fn first_token_of(message: Seq<char>) -> Seq<char> {
    message.take(choose|end: int| is_token_end(message, end))
}

/// A message has exactly one place where its first token ends.
pub proof fn token_end_is_unique(message: Seq<char>, a: int, b: int)
    requires
        is_token_end(message, a),
        is_token_end(message, b),
    ensures
        a == b,
{
    if a < b {
        assert(is_white_space(message[a]));
    } else if b < a {
        assert(is_white_space(message[b]));
    }
}

/// Whether `c` is white space.
pub fn is_space(c: char) -> (yes: bool)
    ensures
        yes == is_white_space(c),
{
    let code: u32 = c as u32;
    (0x09 <= code && code <= 0x0d) || code == 0x20 || code == 0x85 || code == 0xa0 || code
        == 0x1680 || (0x2000 <= code && code <= 0x200a) || code == 0x2028 || code == 0x2029
        || code == 0x202f || code == 0x205f || code == 0x3000
}

/// The first token of `message`: the text before its first white space.
pub fn first_token(message: &str) -> (token: String)
    ensures
        token@ == first_token_of(message@),
        is_token_end(message@, token@.len() as int),
{
    let n: usize = message.unicode_len();
    let mut end: usize = 0;
    while end < n && !is_space(message.get_char(end))
        invariant
            n == message@.len(),
            end <= n,
            forall|j: int| 0 <= j < end ==> !is_white_space(#[trigger] message@[j]),
        decreases n - end,
    {
        end = end + 1;
    }
    proof {
        assert(is_token_end(message@, end as int));
        let chosen = choose|e: int| is_token_end(message@, e);
        token_end_is_unique(message@, end as int, chosen);
    }
    let token = message.substring_char(0, end);
    String::from_str(token)
}

/// Whether the file `file_name` is a script.
pub fn is_script(file_name: &str) -> (yes: bool)
    ensures
        yes == is_script_file(file_name@),
{
    proof {
        reveal_strlit(".boba");
    }
    let n: usize = file_name.unicode_len();
    if n <= 5 {
        return false;
    }
    let tail = String::from_str(file_name.substring_char(n - 5, n));
    let suffix = String::from_str(".boba");
    assert(tail@ == file_name@.skip(n - 5));
    tail == suffix
}

/// The name of the command that the file `file_name` defines, if the file is a
/// script.
pub fn command_name(file_name: &str) -> (name: Option<String>)
    ensures
        name is Some <==> is_script_file(file_name@),
        name is Some ==> name->0@ == command_name_of(file_name@),
{
    if !is_script(file_name) {
        return None;
    }
    proof {
        reveal_strlit(".boba");
        reveal_strlit("!");
    }
    let n: usize = file_name.unicode_len();
    let mut name = String::from_str("!");
    name.append(file_name.substring_char(0, n - 5));
    assert(name@ == command_name_of(file_name@));
    Some(name)
}

/// The path of the file that holds the script of the command `name`.
pub fn script_path(name: &str) -> (path: String)
    ensures
        path@ == script_path_of(name@),
{
    let n: usize = name.unicode_len();
    let mut path = String::from_str("./commands/");
    if n > 0 {
        path.append(name.substring_char(1, n));
    }
    path.append(".boba");
    assert(path@ =~= script_path_of(name@));
    path
}

/// Two scripts that define the same command are the same file: each script
/// has a command of its own.
pub proof fn one_command_per_script(a: Seq<char>, b: Seq<char>)
    requires
        is_script_file(a),
        is_script_file(b),
        command_name_of(a) == command_name_of(b),
    ensures
        a == b,
{
    let n = script_suffix().len() as int;
    assert(stem_of(a) =~= command_name_of(a).skip(1));
    assert(stem_of(b) =~= command_name_of(b).skip(1));
    assert(a =~= stem_of(a) + a.skip(a.len() - n));
    assert(b =~= stem_of(b) + b.skip(b.len() - n));
}

/// The script of a command is read from the file that defined the command:
/// the file of that name in the script directory.
pub proof fn command_is_read_from_its_file(file: Seq<char>)
    requires
        is_script_file(file),
    ensures
        script_path_of(command_name_of(file)) == commands_dir() + file,
{
    let n = script_suffix().len() as int;
    assert(command_name_of(file).skip(1) =~= stem_of(file));
    assert(file =~= stem_of(file) + file.skip(file.len() - n));
    assert(script_path_of(command_name_of(file)) =~= commands_dir() + file);
}

} // verus!
