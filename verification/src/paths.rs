//! File locations beside the program: a directory joined with a file name.

use vstd::prelude::*;

verus! {

/// `path` is `dir` extended by the relative file name `name`, the way a
/// path buffer adjoins a relative component: no separator after an empty
/// directory or after one that ends in `/`, else the platform's separator
/// (`/` or `\`); `\` counts as a separator only where the platform says so.
pub open spec fn is_joined(dir: Seq<char>, name: Seq<char>, path: Seq<char>) -> bool {
    if dir.len() == 0 {
        path == name
    } else if dir.last() == '/' {
        path == dir + name
    } else {
        ||| (dir.last() == '\\' && path == dir + name)
        ||| path == dir + seq!['/'] + name
        ||| path == dir + seq!['\\'] + name
    }
}

/// Calls `std::path::is_separator`: `/` is a separator on every platform,
/// and nothing but `/` and `\` is one on any.
#[verifier::external_body]
fn is_separator(c: char) -> (r: bool)
    ensures
        c == '/' ==> r,
        r ==> (c == '/' || c == '\\'),
{
    std::path::is_separator(c)
}

/// Reads `std::path::MAIN_SEPARATOR`, the platform's primary separator,
/// which is `/` or `\`.
#[verifier::external_body]
fn main_separator() -> (c: char)
    ensures
        c == '/' || c == '\\',
{
    std::path::MAIN_SEPARATOR
}

/// `dir` extended by the relative file name `name` with the separator
/// `sep`: no separator after an empty directory or after one that already
/// ends in a separator.
pub open spec fn joined_with(
    dir: Seq<char>,
    name: Seq<char>,
    sep: char,
    dir_ends_in_separator: bool,
) -> Seq<char> {
    if dir.len() == 0 || dir_ends_in_separator {
        dir + name
    } else {
        dir + seq![sep] + name
    }
}

/// Adjoins the relative file name `name` to the directory `dir` with the
/// separator `sep`; `dir_ends_in_separator` tells whether `dir`'s last
/// character is a separator.
pub fn join_with(dir: &str, name: &str, sep: char, dir_ends_in_separator: bool) -> (path: String)
    requires
        sep == '/' || sep == '\\',
    ensures
        path@ == joined_with(dir@, name@, sep, dir_ends_in_separator),
{
    let mut path = dir.to_owned();
    if dir.unicode_len() > 0 && !dir_ends_in_separator {
        proof {
            reveal_strlit("/");
            reveal_strlit("\\");
        }
        if sep == '/' {
            path.append("/");
        } else {
            path.append("\\");
        }
        assert(path@ == dir@ + seq![sep]);
    }
    let ghost before = path@;
    path.append(name);
    proof {
        if dir@.len() == 0 {
            assert(path@ =~= name@);
        }
        assert(path@ == before + name@);
    }
    path
}

/// Adjoins the relative file name `name` to the directory `dir` with the
/// platform's separator, where the platform counts `dir`'s last character
/// as none.
pub fn join_file_name(dir: &str, name: &str) -> (path: String)
    ensures
        is_joined(dir@, name@, path@),
{
    let n = dir.unicode_len();
    let ends_in_separator = n > 0 && is_separator(dir.get_char(n - 1));
    let sep = main_separator();
    join_with(dir, name, sep, ends_in_separator)
}

/// The program's directory: `parent`, the directory that holds the
/// program where it could be found, else the current directory `.`.
pub fn program_dir(parent: Option<String>) -> (dir: String)
    ensures
        match parent {
            Some(p) => dir == p,
            None => dir@ == "."@,
        },
{
    match parent {
        Some(p) => p,
        None => ".".to_owned(),
    }
}

/// Where the settings file lives: `config.json` in the directory `dir`.
pub fn config_path(dir: &str) -> (path: String)
    ensures
        is_joined(dir@, "config.json"@, path@),
{
    join_file_name(dir, "config.json")
}

/// Where the usage ledger lives: `ledger.json` in the directory `dir`.
pub fn ledger_path(dir: &str) -> (path: String)
    ensures
        is_joined(dir@, "ledger.json"@, path@),
{
    join_file_name(dir, "ledger.json")
}

/// The settings file and the ledger file lie side by side: both paths
/// begin with the directory, continue with at most one separator, end
/// with their own file names, and differ.
pub proof fn law_files_side_by_side(dir: Seq<char>, config: Seq<char>, ledger: Seq<char>)
    requires
        is_joined(dir, "config.json"@, config),
        is_joined(dir, "ledger.json"@, ledger),
    ensures
        config.len() >= dir.len() && config.subrange(0, dir.len() as int) == dir,
        ledger.len() >= dir.len() && ledger.subrange(0, dir.len() as int) == dir,
        config.len() - dir.len() - 11 == 0 || config.len() - dir.len() - 11 == 1,
        ledger.len() - dir.len() - 11 == 0 || ledger.len() - dir.len() - 11 == 1,
        config.subrange(config.len() - 11, config.len() as int) == "config.json"@,
        ledger.subrange(ledger.len() - 11, ledger.len() as int) == "ledger.json"@,
        config != ledger,
{
    reveal_strlit("config.json");
    reveal_strlit("ledger.json");
    let c = "config.json"@;
    let l = "ledger.json"@;
    assert(c.len() == 11 && l.len() == 11);
    if dir.len() == 0 {
        assert(config.subrange(0, 0) =~= dir);
        assert(ledger.subrange(0, 0) =~= dir);
        assert(config.subrange(0, 11) =~= c);
        assert(ledger.subrange(0, 11) =~= l);
    } else {
        assert(config.subrange(0, dir.len() as int) =~= dir);
        assert(ledger.subrange(0, dir.len() as int) =~= dir);
        assert(config.subrange(config.len() - 11, config.len() as int) =~= c);
        assert(ledger.subrange(ledger.len() - 11, ledger.len() as int) =~= l);
    }
    assert(c[0] != l[0]);
    assert(config[config.len() - 11] == c[0]);
    assert(ledger[ledger.len() - 11] == l[0]);
}

/// With one separator reading, the settings file and the ledger file are
/// side by side: the same directory part, then their own names, and they
/// differ.
pub proof fn law_joined_files_share_parent(dir: Seq<char>, sep: char, dir_ends_in_separator: bool)
    ensures
        ({
            let parent = joined_with(dir, Seq::empty(), sep, dir_ends_in_separator);
            &&& joined_with(dir, "config.json"@, sep, dir_ends_in_separator) == parent
                + "config.json"@
            &&& joined_with(dir, "ledger.json"@, sep, dir_ends_in_separator) == parent
                + "ledger.json"@
            &&& joined_with(dir, "config.json"@, sep, dir_ends_in_separator) != joined_with(
                dir,
                "ledger.json"@,
                sep,
                dir_ends_in_separator,
            )
        }),
{
    reveal_strlit("config.json");
    reveal_strlit("ledger.json");
    let parent = joined_with(dir, Seq::empty(), sep, dir_ends_in_separator);
    let c = joined_with(dir, "config.json"@, sep, dir_ends_in_separator);
    let l = joined_with(dir, "ledger.json"@, sep, dir_ends_in_separator);
    assert(c =~= parent + "config.json"@);
    assert(l =~= parent + "ledger.json"@);
    assert(c[parent.len() as int] != l[parent.len() as int]);
}

} // verus!
