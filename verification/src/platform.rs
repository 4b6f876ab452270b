//! Per-platform differences: where Teams writes its logs, where the
//! application keeps its data, and how paths are put together.

use vstd::prelude::*;
use vstd::string::*;

verus! {

/// The operating system that the application runs on.
#[derive(Debug, Clone, Copy, PartialEq, Eq, Structural)]
pub enum Platform {
    MacOs,
    Windows,
    Linux,
    Other,
}

impl Platform {
    /// True for the characters that separate the components of a path.
    pub open spec fn is_separator(self, c: char) -> bool {
        c == '/' || (self == Platform::Windows && c == '\\')
    }

    /// The separator that is written between components.
    pub open spec fn separator(self) -> char {
        if self == Platform::Windows {
            '\\'
        } else {
            '/'
        }
    }

    pub fn separates(self, c: char) -> (r: bool)
        ensures
            r == self.is_separator(c),
    {
        c == '/' || (self == Platform::Windows && c == '\\')
    }
}

/// True for a Windows path that is a drive letter alone, such as `C:`.
pub open spec fn is_bare_drive(p: Platform, base: Seq<char>) -> bool {
    p == Platform::Windows && base.len() == 2 && base[1] == ':' && (('a' <= base[0] && base[0]
        <= 'z') || ('A' <= base[0] && base[0] <= 'Z'))
}

/// A base path extended by a relative path. A separator is put between them
/// unless the base is empty, ends in one already, or is a bare drive.
pub open spec fn joined(p: Platform, base: Seq<char>, rest: Seq<char>) -> Seq<char> {
    if base.len() == 0 || p.is_separator(base.last()) || is_bare_drive(p, base) {
        base + rest
    } else {
        base.push(p.separator()) + rest
    }
}

/// Extends a base path by a relative one.
pub fn join_path(p: Platform, base: &str, rest: &str) -> (r: String)
    ensures
        r@ == joined(p, base@, rest@),
{
    let n: usize = base.unicode_len();
    let mut r: String = base.to_owned();
    if n > 0 {
        let bare_drive: bool = p == Platform::Windows && n == 2 && base.get_char(1) == ':' && (('a'
            <= base.get_char(0) && base.get_char(0) <= 'z') || ('A' <= base.get_char(0)
            && base.get_char(0) <= 'Z'));
        if !p.separates(base.get_char(n - 1)) && !bare_drive {
            let sep: char = if p == Platform::Windows { '\\' } else { '/' };
            r.push(sep);
        }
    }
    r.append(rest);
    r
}

/// The environment variable under which the Teams log directory lies.
pub open spec fn teams_base_variable(p: Platform) -> Seq<char> {
    if p == Platform::Windows {
        "LOCALAPPDATA"@
    } else {
        "HOME"@
    }
}

/// The Teams log directory, below the directory of the base variable.
pub open spec fn teams_log_subdir(p: Platform) -> Seq<char> {
    match p {
        Platform::MacOs => "Library/Group Containers/UBF8T346G9.com.microsoft.teams/Library/Application Support/Logs"@,
        Platform::Windows => "Packages\\MSTeams_8wekyb3d8bbwe\\LocalCache\\Microsoft\\MSTeams\\Logs"@,
        _ => ".config/Microsoft/Microsoft Teams/logs"@,
    }
}

/// The environment variable under which the application data lies.
pub open spec fn data_base_variable(p: Platform) -> Seq<char> {
    if p == Platform::Windows {
        "APPDATA"@
    } else {
        "HOME"@
    }
}

/// The application data directory, below the directory of the base variable.
pub open spec fn data_subdir(p: Platform) -> Seq<char> {
    match p {
        Platform::MacOs => "Library/Application Support/Onair"@,
        Platform::Windows => "Onair"@,
        _ => ".config/onair"@,
    }
}

/// Name of the environment variable that [`default_teams_log_dir`] starts from.
pub fn teams_log_dir_variable(p: Platform) -> (r: &'static str)
    ensures
        r@ == teams_base_variable(p),
{
    match p {
        Platform::Windows => "LOCALAPPDATA",
        _ => "HOME",
    }
}

/// Default Microsoft Teams log directory, given the value of its environment
/// variable. There is none if the variable is not set.
/// User can override this via the Settings UI; this is just the auto-detected default.
pub fn default_teams_log_dir(p: Platform, base: Option<&str>) -> (r: Option<String>)
    ensures
        match base {
            Some(b) => r is Some && r->Some_0@ == joined(p, b@, teams_log_subdir(p)),
            None => r is None,
        },
{
    let sub: &'static str = match p {
        Platform::MacOs => "Library/Group Containers/UBF8T346G9.com.microsoft.teams/Library/Application Support/Logs",
        Platform::Windows => "Packages\\MSTeams_8wekyb3d8bbwe\\LocalCache\\Microsoft\\MSTeams\\Logs",
        _ => ".config/Microsoft/Microsoft Teams/logs",
    };
    match base {
        Some(b) => Some(join_path(p, b, sub)),
        None => None,
    }
}

/// Name of the environment variable that [`default_data_dir`] starts from.
pub fn data_dir_variable(p: Platform) -> (r: &'static str)
    ensures
        r@ == data_base_variable(p),
{
    match p {
        Platform::Windows => "APPDATA",
        _ => "HOME",
    }
}

/// The value of an environment variable, empty if it is not set.
pub open spec fn base_or_empty(base: Option<&str>) -> Seq<char> {
    match base {
        Some(b) => b@,
        None => Seq::empty(),
    }
}

/// Default application data directory, given the value of its environment
/// variable; relative to the current directory if the variable is not set.
pub fn default_data_dir(p: Platform, base: Option<&str>) -> (r: String)
    ensures
        r@ == joined(p, base_or_empty(base), data_subdir(p)),
{
    let sub: &'static str = match p {
        Platform::MacOs => "Library/Application Support/Onair",
        Platform::Windows => "Onair",
        _ => ".config/onair",
    };
    match base {
        Some(b) => join_path(p, b, sub),
        None => {
            let empty: String = String::new();
            join_path(p, empty.as_str(), sub)
        },
    }
}

/// Default DB file path (data_dir + onair.db).
pub fn default_db_path(p: Platform, base: Option<&str>) -> (r: String)
    ensures
        r@ == joined(p, joined(p, base_or_empty(base), data_subdir(p)), "onair.db"@),
{
    let dir: String = default_data_dir(p, base);
    join_path(p, dir.as_str(), "onair.db")
}

/// A joined path begins with its base and ends with its rest. Between them stands
/// nothing but a separator, and only where the base does not end in one.
pub proof fn joined_paths_hold_both_parts(p: Platform, base: Seq<char>, rest: Seq<char>)
    ensures
        ({
            let path = joined(p, base, rest);
            let between = path.len() - base.len() - rest.len();
            &&& between == 0 || between == 1
            &&& path.take(base.len() as int) == base
            &&& path.skip(path.len() - rest.len()) == rest
            &&& between == 1 ==> {
                &&& path[base.len() as int] == if p == Platform::Windows {
                    '\\'
                } else {
                    '/'
                }
                &&& base.len() > 0 && base.last() != '/'
                &&& p == Platform::Windows ==> base.last() != '\\'
            }
            &&& between == 0 && p != Platform::Windows ==> base.len() == 0 || base.last() == '/'
            &&& between == 0 && p == Platform::Windows ==> base.len() == 0 || base.last() == '/'
                || base.last() == '\\' || (base.len() == 2 && base[1] == ':')
            &&& p == Platform::Windows && base.len() == 2 && base[1] == ':' ==> (between == 0 <==> (
            ('a' <= base[0] && base[0] <= 'z') || ('A' <= base[0] && base[0] <= 'Z')))
        }),
{
    let path = joined(p, base, rest);
    assert(path.take(base.len() as int) =~= base);
    assert(path.skip(path.len() - rest.len()) =~= rest);
}

/// Where Teams keeps its logs, and where the application keeps its data, on each
/// operating system.
pub proof fn directories_of_each_platform(p: Platform)
    ensures
        p == Platform::Windows ==> {
            &&& teams_base_variable(p) == "LOCALAPPDATA"@
            &&& data_base_variable(p) == "APPDATA"@
            &&& teams_log_subdir(p)
                == "Packages\\MSTeams_8wekyb3d8bbwe\\LocalCache\\Microsoft\\MSTeams\\Logs"@
            &&& data_subdir(p) == "Onair"@
        },
        p == Platform::MacOs ==> {
            &&& teams_log_subdir(p)
                == "Library/Group Containers/UBF8T346G9.com.microsoft.teams/Library/Application Support/Logs"@
            &&& data_subdir(p) == "Library/Application Support/Onair"@
        },
        p == Platform::Linux || p == Platform::Other ==> {
            &&& teams_log_subdir(p) == ".config/Microsoft/Microsoft Teams/logs"@
            &&& data_subdir(p) == ".config/onair"@
        },
        p != Platform::Windows ==> teams_base_variable(p) == "HOME"@ && data_base_variable(p)
            == "HOME"@,
{
}

/// A variable that is set counts with its value, and one that is not as empty.
pub proof fn unset_variables_are_empty(base: Option<&str>)
    ensures
        base is None ==> base_or_empty(base).len() == 0,
        base matches Some(b) ==> base_or_empty(base) == b@,
{
}

} // verus!
