//! Cross-platform "run on login" helper.
//!
//! Lets the Settings UI install / uninstall onair as a login-time daemon
//! without the user touching launchd plists / systemd units / Windows
//! registry entries by hand.
//!
//! Per-OS strategy:
//!
//! - **macOS**: writes `~/Library/LaunchAgents/com.dannotes.onair.plist` and
//!   loads it via `launchctl load`. `KeepAlive=true` so onair restarts on
//!   crash. Logs to `/tmp/onair.log`.
//! - **Linux**: writes `~/.config/systemd/user/onair.service` and enables it
//!   via `systemctl --user enable --now`. Logs go to journald.
//! - **Windows**: drops a shortcut into the user's Startup folder
//!   (`%APPDATA%\Microsoft\Windows\Start Menu\Programs\Startup\onair.lnk`).
//!   Created via a one-liner PowerShell `WScript.Shell` COM call so users can
//!   see it in Task Manager → Startup and remove it manually if desired. No
//!   admin required.
//!
//! This module plans the steps; carrying them out is up to its caller.

use crate::clock::Moment;
use crate::events::EventLevel;
use crate::platform::{base_or_empty, join_path, joined, Platform};
use crate::state::AppState;
use crate::text::{chars_of, occurs_in, optional_text, trim_spec, trim_text};
use crate::watcher::{lossy_text, utf8_lossy};
use vstd::prelude::*;
use vstd::string::*;

verus! {

// ---------------------------------------------------------------------------
// Steps
// ---------------------------------------------------------------------------

/// A program to run, with its arguments.
#[derive(Debug)]
pub struct Invocation {
    pub program: &'static str,
    pub args: Vec<String>,
}

/// The values of an [`Invocation`].
#[verifier::ext_equal]
pub struct InvocationModel {
    pub program: Seq<char>,
    pub args: Seq<Seq<char>>,
}

/// The characters of a sequence of strings.
pub open spec fn texts(s: Seq<String>) -> Seq<Seq<char>> {
    Seq::new(s.len(), |i: int| s[i]@)
}

impl View for Invocation {
    type V = InvocationModel;

    open spec fn view(&self) -> InvocationModel {
        InvocationModel { program: self.program@, args: texts(self.args@) }
    }
}

/// One step of an installation or its removal.
#[derive(Debug)]
pub enum Step {
    /// Create a directory and its parents.
    CreateDir(String),
    /// Write a file.
    WriteFile { path: String, text: String },
    /// Run a program, whatever comes of it.
    Attempt(Invocation),
    /// Run a program that has to succeed. If it cannot be started, the error
    /// follows `spawn_failure`; if it fails, what it says follows `failure`.
    Run { command: Invocation, spawn_failure: &'static str, failure: &'static str },
    /// Remove a file.
    Remove(String),
    /// Remove a file if it is there.
    RemoveIfExists(String),
}

/// The values of a [`Step`].
#[verifier::ext_equal]
pub enum StepModel {
    CreateDir(Seq<char>),
    WriteFile { path: Seq<char>, text: Seq<char> },
    Attempt(InvocationModel),
    Run { command: InvocationModel, spawn_failure: Seq<char>, failure: Seq<char> },
    Remove(Seq<char>),
    RemoveIfExists(Seq<char>),
}

impl View for Step {
    type V = StepModel;

    open spec fn view(&self) -> StepModel {
        match *self {
            Step::CreateDir(path) => StepModel::CreateDir(path@),
            Step::WriteFile { path, text } => StepModel::WriteFile { path: path@, text: text@ },
            Step::Attempt(command) => StepModel::Attempt(command@),
            Step::Run { command, spawn_failure, failure } => StepModel::Run {
                command: command@,
                spawn_failure: spawn_failure@,
                failure: failure@,
            },
            Step::Remove(path) => StepModel::Remove(path@),
            Step::RemoveIfExists(path) => StepModel::RemoveIfExists(path@),
        }
    }
}

/// The values of a sequence of steps.
pub open spec fn step_models(s: Seq<Step>) -> Seq<StepModel> {
    Seq::new(s.len(), |i: int| s[i]@)
}

/// The error of a program that has failed: a prefix, and what it wrote to its
/// standard error without surrounding white space.
pub fn failure_text(failure: &str, stderr: &[u8]) -> (r: String)
    ensures
        r@ == failure@ + trim_spec(utf8_lossy(stderr@)),
{
    let said: String = lossy_text(stderr);
    failure.to_owned().concat(trim_text(said.as_str()).as_str())
}

/// A program with two arguments.
pub open spec fn invocation2(program: Seq<char>, a: Seq<char>, b: Seq<char>) -> InvocationModel {
    InvocationModel { program, args: seq![a, b] }
}

/// A program with four arguments.
pub open spec fn invocation4(
    program: Seq<char>,
    a: Seq<char>,
    b: Seq<char>,
    c: Seq<char>,
    d: Seq<char>,
) -> InvocationModel {
    InvocationModel { program, args: seq![a, b, c, d] }
}

fn invoke2(program: &'static str, a: &str, b: &str) -> (r: Invocation)
    ensures
        r@ == invocation2(program@, a@, b@),
{
    let mut args: Vec<String> = Vec::new();
    args.push(a.to_owned());
    args.push(b.to_owned());
    let r: Invocation = Invocation { program, args };
    assert(r@.args =~= seq![a@, b@]);
    r
}

fn invoke4(program: &'static str, a: &str, b: &str, c: &str, d: &str) -> (r: Invocation)
    ensures
        r@ == invocation4(program@, a@, b@, c@, d@),
{
    let mut args: Vec<String> = Vec::new();
    args.push(a.to_owned());
    args.push(b.to_owned());
    args.push(c.to_owned());
    args.push(d.to_owned());
    let r: Invocation = Invocation { program, args };
    assert(r@.args =~= seq![a@, b@, c@, d@]);
    r
}

// ---------------------------------------------------------------------------
// Location
// ---------------------------------------------------------------------------

/// The directory of the autostart entry, below the directory of its base
/// variable.
pub open spec fn entry_subdir(p: Platform) -> Seq<char> {
    match p {
        Platform::MacOs => "Library/LaunchAgents"@,
        Platform::Windows => "Microsoft\\Windows\\Start Menu\\Programs\\Startup"@,
        _ => ".config/systemd/user"@,
    }
}

/// The file of the autostart entry, below the directory of its base variable.
pub open spec fn entry_subpath(p: Platform) -> Seq<char> {
    match p {
        Platform::MacOs => "Library/LaunchAgents/com.dannotes.onair.plist"@,
        Platform::Windows => "Microsoft\\Windows\\Start Menu\\Programs\\Startup\\onair.lnk"@,
        _ => ".config/systemd/user/onair.service"@,
    }
}

/// The file name of the autostart entry.
pub open spec fn entry_name(p: Platform) -> Seq<char> {
    match p {
        Platform::MacOs => "com.dannotes.onair.plist"@,
        Platform::Windows => "onair.lnk"@,
        _ => "onair.service"@,
    }
}

/// Where the autostart entry lies.
pub open spec fn entry_path(p: Platform, base: Option<&str>) -> Seq<char> {
    joined(p, base_or_empty(base), entry_subpath(p))
}

/// The directory in which the autostart entry lies.
pub open spec fn entry_dir(p: Platform, base: Option<&str>) -> Seq<char> {
    joined(p, base_or_empty(base), entry_subdir(p))
}

/// The autostart entry lies in its directory.
pub proof fn entry_lies_in_its_directory(p: Platform, base: Option<&str>)
    ensures
        entry_path(p, base) == entry_dir(p, base).push(p.separator()) + entry_name(p),
{
    reveal_strlit("Library/LaunchAgents");
    reveal_strlit("Library/LaunchAgents/com.dannotes.onair.plist");
    reveal_strlit("com.dannotes.onair.plist");
    reveal_strlit("Microsoft\\Windows\\Start Menu\\Programs\\Startup");
    reveal_strlit("Microsoft\\Windows\\Start Menu\\Programs\\Startup\\onair.lnk");
    reveal_strlit("onair.lnk");
    reveal_strlit(".config/systemd/user");
    reveal_strlit(".config/systemd/user/onair.service");
    reveal_strlit("onair.service");
    assert(entry_subpath(p) =~= entry_subdir(p).push(p.separator()) + entry_name(p));
    assert(entry_path(p, base) =~= entry_dir(p, base).push(p.separator()) + entry_name(p));
}

/// True for the operating systems on which onair can start on login.
pub fn is_supported(p: Platform) -> (r: bool)
    ensures
        r == (p != Platform::Other),
{
    p != Platform::Other
}

/// Name of the environment variable that [`install_location`] starts from.
pub fn base_variable(p: Platform) -> (r: &'static str)
    ensures
        r@ == if p == Platform::Windows {
            "APPDATA"@
        } else {
            "HOME"@
        },
{
    match p {
        Platform::Windows => "APPDATA",
        _ => "HOME",
    }
}

fn under_base(p: Platform, base: Option<&str>, rest: &str) -> (r: String)
    ensures
        r@ == joined(p, base_or_empty(base), rest@),
{
    match base {
        Some(b) => join_path(p, b, rest),
        None => {
            let empty: String = String::new();
            join_path(p, empty.as_str(), rest)
        },
    }
}

fn entry_file(p: Platform, base: Option<&str>) -> (r: String)
    ensures
        r@ == entry_path(p, base),
{
    under_base(
        p,
        base,
        match p {
            Platform::MacOs => "Library/LaunchAgents/com.dannotes.onair.plist",
            Platform::Windows => "Microsoft\\Windows\\Start Menu\\Programs\\Startup\\onair.lnk",
            _ => ".config/systemd/user/onair.service",
        },
    )
}

fn entry_folder(p: Platform, base: Option<&str>) -> (r: String)
    ensures
        r@ == entry_dir(p, base),
{
    under_base(
        p,
        base,
        match p {
            Platform::MacOs => "Library/LaunchAgents",
            Platform::Windows => "Microsoft\\Windows\\Start Menu\\Programs\\Startup",
            _ => ".config/systemd/user",
        },
    )
}

/// Path that the autostart entry would be written to, given the value of its
/// environment variable. Useful for the UI to show "currently installed at:
/// ..." next to the toggle.
pub fn install_location(p: Platform, base: Option<&str>) -> (r: Option<String>)
    ensures
        optional_text(r) == if p == Platform::Other {
            None
        } else {
            Some(entry_path(p, base))
        },
{
    match p {
        Platform::Other => None,
        _ => Some(entry_file(p, base)),
    }
}

/// True if what is known of the entry says that onair starts on login.
pub open spec fn counts_as_installed(
    p: Platform,
    unit_enabled: Option<bool>,
    entry_exists: bool,
) -> bool {
    if p == Platform::Linux && unit_enabled is Some {
        unit_enabled->Some_0
    } else {
        p != Platform::Other && entry_exists
    }
}

/// The entry counts if it is there; on Linux the word of systemd counts more, if it
/// could be asked. On other systems there is no entry.
pub proof fn entries_count_if_they_are_there(p: Platform, enabled: bool, entry_exists: bool)
    ensures
        counts_as_installed(Platform::Linux, Some(enabled), entry_exists) == enabled,
        p != Platform::Other ==> counts_as_installed(p, None, entry_exists) == entry_exists,
        p == Platform::MacOs || p == Platform::Windows ==> counts_as_installed(
            p,
            Some(enabled),
            entry_exists,
        ) == entry_exists,
        !counts_as_installed(Platform::Other, Some(enabled), entry_exists),
{
}

/// True if onair is currently configured to start on login, given whether the
/// entry exists and, on Linux, whether systemd says that the unit is enabled.
/// Its word is authoritative; the file alone counts if systemd could not be
/// asked.
pub fn is_installed(p: Platform, unit_enabled: Option<bool>, entry_exists: bool) -> (r: bool)
    ensures
        r == match p {
            Platform::Linux => match unit_enabled {
                Some(enabled) => enabled,
                None => entry_exists,
            },
            Platform::Other => false,
            _ => entry_exists,
        },
        r == counts_as_installed(p, unit_enabled, entry_exists),
{
    match p {
        Platform::Linux => unit_enabled.unwrap_or(entry_exists),
        Platform::Other => false,
        _ => entry_exists,
    }
}

/// The question to systemd whether the unit is enabled.
pub fn enabled_query() -> (r: Invocation)
    ensures
        r@ == (InvocationModel {
            program: "systemctl"@,
            args: seq!["--user"@, "is-enabled"@, "onair.service"@],
        }),
{
    let mut args: Vec<String> = Vec::new();
    args.push("--user".to_owned());
    args.push("is-enabled".to_owned());
    args.push("onair.service".to_owned());
    let r: Invocation = Invocation { program: "systemctl", args };
    assert(r@.args =~= seq!["--user"@, "is-enabled"@, "onair.service"@]);
    r
}

// ---------------------------------------------------------------------------
// Texts
// ---------------------------------------------------------------------------

/// The text that stands for a character in XML.
pub open spec fn xml_char(c: char) -> Seq<char> {
    if c == '&' {
        "&amp;"@
    } else if c == '<' {
        "&lt;"@
    } else if c == '>' {
        "&gt;"@
    } else {
        seq![c]
    }
}

/// A text as it is written in XML.
pub open spec fn xml_escaped(s: Seq<char>) -> Seq<char>
    decreases s.len(),
{
    if s.len() == 0 {
        s
    } else {
        xml_escaped(s.drop_last()) + xml_char(s.last())
    }
}

/// The text that stands for a character between the single quotes of a
/// PowerShell string.
pub open spec fn quoted_char(c: char) -> Seq<char> {
    if c == '\'' {
        "''"@
    } else {
        seq![c]
    }
}

/// A text as it is written between the single quotes of a PowerShell string.
pub open spec fn quote_escaped(s: Seq<char>) -> Seq<char>
    decreases s.len(),
{
    if s.len() == 0 {
        s
    } else {
        quote_escaped(s.drop_last()) + quoted_char(s.last())
    }
}

/// No text opens or closes an XML tag once it is escaped.
pub proof fn escaped_text_has_no_tags(s: Seq<char>, i: int)
    requires
        0 <= i < xml_escaped(s).len(),
    ensures
        xml_escaped(s)[i] != '<',
        xml_escaped(s)[i] != '>',
    decreases s.len(),
{
    reveal_strlit("&amp;");
    reveal_strlit("&lt;");
    reveal_strlit("&gt;");
    let before = xml_escaped(s.drop_last());
    if i < before.len() {
        escaped_text_has_no_tags(s.drop_last(), i);
    } else {
        assert(xml_escaped(s)[i] == xml_char(s.last())[i - before.len()]);
    }
}

/// A text without special characters is written in XML as it is.
pub proof fn plain_text_is_not_escaped(s: Seq<char>)
    requires
        forall|i: int|
            0 <= i < s.len() ==> #[trigger] s[i] != '&' && s[i] != '<' && s[i] != '>',
    ensures
        xml_escaped(s) == s,
    decreases s.len(),
{
    if s.len() > 0 {
        let init = s.drop_last();
        assert forall|i: int| 0 <= i < init.len() implies #[trigger] init[i] != '&' && init[i]
            != '<' && init[i] != '>' by {
            assert(init[i] == s[i]);
        }
        plain_text_is_not_escaped(init);
        assert(s[s.len() - 1] == s.last());
        assert(init + seq![s.last()] == s);
    }
}

/// The text between single quotes as PowerShell reads it: two quotes stand for
/// one, and a single one ends the string.
pub open spec fn quoted_text_read(s: Seq<char>) -> Option<Seq<char>>
    decreases s.len(),
{
    if s.len() == 0 {
        Some(s)
    } else if s.last() != '\'' {
        match quoted_text_read(s.drop_last()) {
            Some(t) => Some(t.push(s.last())),
            None => None,
        }
    } else if s.len() >= 2 && s[s.len() - 2] == '\'' {
        match quoted_text_read(s.drop_last().drop_last()) {
            Some(t) => Some(t.push('\'')),
            None => None,
        }
    } else {
        None
    }
}

/// PowerShell reads an escaped text as the text that it stands for, so that no
/// path can end the string that it is written in.
pub proof fn quoting_round_trip(s: Seq<char>)
    ensures
        quoted_text_read(quote_escaped(s)) == Some(s),
    decreases s.len(),
{
    reveal_strlit("''");
    if s.len() > 0 {
        let init = s.drop_last();
        let before = quote_escaped(init);
        let after = quote_escaped(s);
        quoting_round_trip(init);
        if s.last() == '\'' {
            assert(after =~= before.push('\'').push('\''));
            assert(after.drop_last() =~= before.push('\''));
            assert(after.drop_last().drop_last() =~= before);
        } else {
            assert(after =~= before.push(s.last()));
            assert(after.drop_last() =~= before);
        }
        assert(init.push(s.last()) =~= s);
    }
}

fn escape_xml(s: &str) -> (r: String)
    ensures
        r@ == xml_escaped(s@),
{
    let v: Vec<char> = chars_of(s);
    let mut r: String = String::new();
    let mut i: usize = 0;
    while i < v.len()
        invariant
            v@ == s@,
            i <= v@.len(),
            r@ == xml_escaped(v@.take(i as int)),
        decreases v@.len() - i,
    {
        let c: char = v[i];
        assert(v@.take(i + 1).drop_last() == v@.take(i as int));
        if c == '&' {
            r.append("&amp;");
        } else if c == '<' {
            r.append("&lt;");
        } else if c == '>' {
            r.append("&gt;");
        } else {
            let ghost before = r@;
            r.push(c);
            assert(r@ =~= before + seq![c]);
        }
        i = i + 1;
    }
    assert(v@.take(v@.len() as int) == v@);
    r
}

fn escape_quotes(s: &str) -> (r: String)
    ensures
        r@ == quote_escaped(s@),
{
    let v: Vec<char> = chars_of(s);
    let mut r: String = String::new();
    let mut i: usize = 0;
    while i < v.len()
        invariant
            v@ == s@,
            i <= v@.len(),
            r@ == quote_escaped(v@.take(i as int)),
        decreases v@.len() - i,
    {
        let c: char = v[i];
        assert(v@.take(i + 1).drop_last() == v@.take(i as int));
        if c == '\'' {
            r.append("''");
        } else {
            let ghost before = r@;
            r.push(c);
            assert(r@ =~= before + seq![c]);
        }
        i = i + 1;
    }
    assert(v@.take(v@.len() as int) == v@);
    r
}

/// The launchd property list up to the path of the program.
pub const PLIST_HEAD: &'static str = r#"<?xml version="1.0" encoding="UTF-8"?>
<!DOCTYPE plist PUBLIC "-//Apple//DTD PLIST 1.0//EN" "http://www.apple.com/DTDs/PropertyList-1.0.dtd">
<plist version="1.0">
<dict>
    <key>Label</key>
    <string>com.dannotes.onair</string>
    <key>ProgramArguments</key>
    <array>
        <string>"#;

/// The launchd property list after the path of the program.
pub const PLIST_TAIL: &'static str = r#"</string>
    </array>
    <key>RunAtLoad</key>
    <true/>
    <key>KeepAlive</key>
    <true/>
    <key>StandardOutPath</key>
    <string>/tmp/onair.log</string>
    <key>StandardErrorPath</key>
    <string>/tmp/onair.log</string>
    <key>EnvironmentVariables</key>
    <dict>
        <key>RUST_LOG</key>
        <string>info</string>
    </dict>
</dict>
</plist>
"#;

/// The systemd unit up to the path of the program.
pub const UNIT_HEAD: &'static str = r#"# onair — auto-generated by the dashboard "Run on Login" toggle.
[Unit]
Description=onair — Microsoft Teams presence indicator for Philips WiZ bulbs
After=network-online.target
Wants=network-online.target

[Service]
Type=simple
ExecStart="#;

/// The systemd unit after the path of the program.
pub const UNIT_TAIL: &'static str = "
Restart=on-failure
RestartSec=5
Environment=RUST_LOG=info

[Install]
WantedBy=default.target
";

/// The launchd property list for a program.
pub open spec fn plist_text(exe: Seq<char>) -> Seq<char> {
    PLIST_HEAD@ + xml_escaped(exe) + PLIST_TAIL@
}

/// The systemd unit for a program.
pub open spec fn unit_text(exe: Seq<char>) -> Seq<char> {
    UNIT_HEAD@ + exe + UNIT_TAIL@
}

/// The PowerShell script that creates a shortcut to a program.
pub open spec fn shortcut_script(lnk: Seq<char>, exe: Seq<char>, dir: Seq<char>) -> Seq<char> {
    "$ws = New-Object -ComObject WScript.Shell; $sc = $ws.CreateShortcut('"@ + quote_escaped(lnk)
        + "'); $sc.TargetPath = '"@ + quote_escaped(exe) + "'; $sc.WorkingDirectory = '"@
        + quote_escaped(dir)
        + "'; $sc.WindowStyle = 7; $sc.Description = 'onair — Teams presence bulb'; $sc.Save()"@
}

fn write_plist(exe: &str) -> (r: String)
    ensures
        r@ == plist_text(exe@),
{
    let mut r: String = PLIST_HEAD.to_owned();
    r.append(escape_xml(exe).as_str());
    r.append(PLIST_TAIL);
    r
}

fn write_unit(exe: &str) -> (r: String)
    ensures
        r@ == unit_text(exe@),
{
    let mut r: String = UNIT_HEAD.to_owned();
    r.append(exe);
    r.append(UNIT_TAIL);
    r
}

fn write_script(lnk: &str, exe: &str, dir: &str) -> (r: String)
    ensures
        r@ == shortcut_script(lnk@, exe@, dir@),
{
    let mut r: String = "$ws = New-Object -ComObject WScript.Shell; $sc = $ws.CreateShortcut('".to_owned();
    r.append(escape_quotes(lnk).as_str());
    r.append("'); $sc.TargetPath = '");
    r.append(escape_quotes(exe).as_str());
    r.append("'; $sc.WorkingDirectory = '");
    r.append(escape_quotes(dir).as_str());
    r.append(
        "'; $sc.WindowStyle = 7; $sc.Description = 'onair — Teams presence bulb'; $sc.Save()",
    );
    r
}

// ---------------------------------------------------------------------------
// Plans
// ---------------------------------------------------------------------------

/// The complaint on an operating system that is not supported.
pub const UNSUPPORTED: &'static str = "autostart is not supported on this operating system";

/// The steps that install onair; none on an operating system that is not
/// supported.
pub open spec fn install_steps(p: Platform, base: Option<&str>, exe: Seq<char>) -> Option<
    Seq<StepModel>,
> {
    let path = entry_path(p, base);
    match p {
        Platform::MacOs => Some(
            seq![
                StepModel::CreateDir(entry_dir(p, base)),
                StepModel::WriteFile { path, text: plist_text(exe) },
                // In case it was loaded with a stale property list.
                StepModel::Attempt(invocation2("launchctl"@, "unload"@, path)),
                StepModel::Run {
                    command: invocation2("launchctl"@, "load"@, path),
                    spawn_failure: ""@,
                    failure: "launchctl load failed: "@,
                },
            ],
        ),
        Platform::Linux => Some(
            seq![
                StepModel::CreateDir(entry_dir(p, base)),
                StepModel::WriteFile { path, text: unit_text(exe) },
                StepModel::Attempt(invocation2("systemctl"@, "--user"@, "daemon-reload"@)),
                StepModel::Run {
                    command: invocation4(
                        "systemctl"@,
                        "--user"@,
                        "enable"@,
                        "--now"@,
                        "onair.service"@,
                    ),
                    spawn_failure: "systemctl --user enable failed to spawn: "@,
                    failure: "systemctl --user enable --now failed: "@,
                },
            ],
        ),
        Platform::Windows => Some(
            seq![
                StepModel::Run {
                    command: invocation4(
                        "powershell"@,
                        "-NoProfile"@,
                        "-NonInteractive"@,
                        "-Command"@,
                        shortcut_script(path, exe, entry_dir(p, base)),
                    ),
                    spawn_failure: "powershell failed to spawn: "@,
                    failure: "powershell shortcut create failed: "@,
                },
            ],
        ),
        Platform::Other => None,
    }
}

/// The steps that remove onair from the login-time services, given whether the
/// entry exists; none on an operating system that is not supported.
pub open spec fn uninstall_steps(p: Platform, base: Option<&str>, entry_exists: bool) -> Option<
    Seq<StepModel>,
> {
    let path = entry_path(p, base);
    match p {
        Platform::MacOs => Some(
            if entry_exists {
                seq![
                    StepModel::Attempt(invocation2("launchctl"@, "unload"@, path)),
                    StepModel::Remove(path),
                ]
            } else {
                Seq::empty()
            },
        ),
        Platform::Linux => Some(
            seq![
                StepModel::Attempt(
                    invocation4("systemctl"@, "--user"@, "disable"@, "--now"@, "onair.service"@),
                ),
                StepModel::RemoveIfExists(path),
                StepModel::Attempt(invocation2("systemctl"@, "--user"@, "daemon-reload"@)),
            ],
        ),
        Platform::Windows => Some(
            if entry_exists {
                seq![StepModel::Remove(path)]
            } else {
                Seq::empty()
            },
        ),
        Platform::Other => None,
    }
}

/// True if a step writes or makes the file at a path.
pub open spec fn makes_file(step: StepModel, path: Seq<char>) -> bool {
    step matches StepModel::WriteFile { path: q, .. } && q == path
}

/// True if a step removes the file at a path.
pub open spec fn removes_file(step: StepModel, path: Seq<char>) -> bool {
    step == StepModel::Remove(path) || step == StepModel::RemoveIfExists(path)
}

/// What an installation writes, a removal removes: the entry, and no other file.
pub proof fn removal_undoes_installation(p: Platform, base: Option<&str>, exe: Seq<char>)
    requires
        p != Platform::Other,
    ensures
        ({
            let made = install_steps(p, base, exe)->Some_0;
            let removed = uninstall_steps(p, base, true)->Some_0;
            let path = entry_path(p, base);
            &&& forall|i: int|
                0 <= i < made.len() && #[trigger] made[i] is WriteFile ==> makes_file(made[i], path)
            &&& exists|j: int| 0 <= j < removed.len() && removes_file(#[trigger] removed[j], path)
            &&& forall|j: int|
                0 <= j < removed.len() && (#[trigger] removed[j] is Remove
                    || removed[j] is RemoveIfExists) ==> removes_file(removed[j], path)
        }),
{
    let removed = uninstall_steps(p, base, true)->Some_0;
    let path = entry_path(p, base);
    match p {
        Platform::Windows => {
            assert(removes_file(removed[0], path));
        },
        _ => {
            assert(removes_file(removed[1], path));
        },
    }
}

/// Plans the installation of onair, at the given path, as a login-time service
/// for the current user.
pub fn install(p: Platform, base: Option<&str>, exe: &str) -> (r: Result<Vec<Step>, String>)
    ensures
        match r {
            Ok(steps) => install_steps(p, base, exe@) == Some(step_models(steps@)),
            Err(e) => install_steps(p, base, exe@) is None && e@ == UNSUPPORTED@,
        },
{
    let path: String = entry_file(p, base);
    let dir: String = entry_folder(p, base);
    let mut steps: Vec<Step> = Vec::new();
    match p {
        Platform::MacOs => {
            let unload: Invocation = invoke2("launchctl", "unload", path.as_str());
            let load: Invocation = invoke2("launchctl", "load", path.as_str());
            steps.push(Step::CreateDir(dir));
            steps.push(Step::WriteFile { path, text: write_plist(exe) });
            steps.push(Step::Attempt(unload));
            steps.push(
                Step::Run {
                    command: load,
                    spawn_failure: "",
                    failure: "launchctl load failed: ",
                },
            );
        },
        Platform::Linux => {
            steps.push(Step::CreateDir(dir));
            steps.push(Step::WriteFile { path, text: write_unit(exe) });
            steps.push(Step::Attempt(invoke2("systemctl", "--user", "daemon-reload")));
            steps.push(
                Step::Run {
                    command: invoke4("systemctl", "--user", "enable", "--now", "onair.service"),
                    spawn_failure: "systemctl --user enable failed to spawn: ",
                    failure: "systemctl --user enable --now failed: ",
                },
            );
        },
        Platform::Windows => {
            let script: String = write_script(path.as_str(), exe, dir.as_str());
            steps.push(
                Step::Run {
                    command: invoke4(
                        "powershell",
                        "-NoProfile",
                        "-NonInteractive",
                        "-Command",
                        script.as_str(),
                    ),
                    spawn_failure: "powershell failed to spawn: ",
                    failure: "powershell shortcut create failed: ",
                },
            );
        },
        Platform::Other => {
            return Err(UNSUPPORTED.to_owned());
        },
    }
    assert(step_models(steps@) =~= install_steps(p, base, exe@)->Some_0);
    Ok(steps)
}

/// Plans the removal of onair from the user's login-time services.
pub fn uninstall(p: Platform, base: Option<&str>, entry_exists: bool) -> (r: Result<
    Vec<Step>,
    String,
>)
    ensures
        match r {
            Ok(steps) => uninstall_steps(p, base, entry_exists) == Some(step_models(steps@)),
            Err(e) => uninstall_steps(p, base, entry_exists) is None && e@ == UNSUPPORTED@,
        },
{
    let path: String = entry_file(p, base);
    let mut steps: Vec<Step> = Vec::new();
    match p {
        Platform::MacOs => {
            if entry_exists {
                steps.push(Step::Attempt(invoke2("launchctl", "unload", path.as_str())));
                steps.push(Step::Remove(path));
            }
        },
        Platform::Linux => {
            steps.push(
                Step::Attempt(
                    invoke4("systemctl", "--user", "disable", "--now", "onair.service"),
                ),
            );
            steps.push(Step::RemoveIfExists(path));
            steps.push(Step::Attempt(invoke2("systemctl", "--user", "daemon-reload")));
        },
        Platform::Windows => {
            if entry_exists {
                steps.push(Step::Remove(path));
            }
        },
        Platform::Other => {
            return Err(UNSUPPORTED.to_owned());
        },
    }
    assert(step_models(steps@) =~= uninstall_steps(p, base, entry_exists)->Some_0);
    Ok(steps)
}

// ---------------------------------------------------------------------------
// Events
// ---------------------------------------------------------------------------

impl AppState {
    /// Takes in that autostart has been enabled or disabled, or why that failed.
    pub fn note_autostart(&mut self, enable: bool, failure: Option<&str>, now: Moment)
        requires
            old(self)@.can_log(1),
        ensures
            final(self)@ == match failure {
                Some(e) => old(self)@.logged(
                    EventLevel::Error,
                    "autostart change failed: "@ + e@,
                    now,
                ),
                None => old(self)@.logged(
                    EventLevel::Okay,
                    if enable {
                        "autostart enabled"@
                    } else {
                        "autostart disabled"@
                    },
                    now,
                ),
            },
    {
        match failure {
            Some(e) => {
                self.log_event(
                    EventLevel::Error,
                    "autostart change failed: ".to_owned().concat(e),
                    now,
                );
            },
            None => {
                let message: &str = if enable { "autostart enabled" } else { "autostart disabled" };
                self.log_event(EventLevel::Okay, message.to_owned(), now);
            },
        }
    }
}

// ---------------------------------------------------------------------------
// Laws
// ---------------------------------------------------------------------------

/// The entry of an installation starts the program at its path, at login, and lies
/// where the operating system looks for it: its directory is made before it is
/// written, and it is written before it is put into effect.
pub proof fn installations_start_the_program(p: Platform, base: Option<&str>, exe: Seq<char>)
    ensures
        install_steps(p, base, exe) is None <==> p == Platform::Other,
        p == Platform::MacOs ==> {
            let steps = install_steps(p, base, exe)->Some_0;
            &&& steps.len() == 4
            &&& steps[0] == StepModel::CreateDir(entry_dir(p, base))
            &&& steps[1] matches StepModel::WriteFile { path, text } && path == entry_path(p, base)
                && occurs_in(xml_escaped(exe), text)
            &&& steps[3] matches StepModel::Run { command, .. } && command.program
                == "launchctl"@ && command.args == seq!["load"@, entry_path(p, base)]
        },
        p == Platform::Linux ==> {
            let steps = install_steps(p, base, exe)->Some_0;
            &&& steps.len() == 4
            &&& steps[0] == StepModel::CreateDir(entry_dir(p, base))
            &&& steps[1] matches StepModel::WriteFile { path, text } && path == entry_path(p, base)
                && occurs_in(exe, text)
            &&& steps[3] matches StepModel::Run { command, .. } && command.program
                == "systemctl"@ && command.args == seq![
                "--user"@,
                "enable"@,
                "--now"@,
                "onair.service"@,
            ]
        },
        p == Platform::Windows ==> {
            let steps = install_steps(p, base, exe)->Some_0;
            &&& steps.len() == 1
            &&& steps[0] matches StepModel::Run { command, .. } && command.program
                == "powershell"@ && command.args.len() == 4 && occurs_in(
                seq!['\''] + quote_escaped(exe) + seq!['\''],
                command.args[3],
            ) && occurs_in(
                seq!['\''] + quote_escaped(entry_path(p, base)) + seq!['\''],
                command.args[3],
            )
        },
{
    match p {
        Platform::MacOs => {
            let text = plist_text(exe);
            let i = PLIST_HEAD@.len() as int;
            assert(text.subrange(i, i + xml_escaped(exe).len()) =~= xml_escaped(exe));
        },
        Platform::Linux => {
            let text = unit_text(exe);
            let i = UNIT_HEAD@.len() as int;
            assert(text.subrange(i, i + exe.len()) =~= exe);
        },
        Platform::Windows => {
            script_quotes_its_paths(entry_path(p, base), exe, entry_dir(p, base));
        },
        Platform::Other => {},
    }
}

proof fn script_quotes_its_paths(lnk: Seq<char>, exe: Seq<char>, dir: Seq<char>)
    ensures
        occurs_in(seq!['\''] + quote_escaped(lnk) + seq!['\''], shortcut_script(lnk, exe, dir)),
        occurs_in(seq!['\''] + quote_escaped(exe) + seq!['\''], shortcut_script(lnk, exe, dir)),
{
    reveal_strlit("$ws = New-Object -ComObject WScript.Shell; $sc = $ws.CreateShortcut('");
    reveal_strlit("'); $sc.TargetPath = '");
    reveal_strlit("'; $sc.WorkingDirectory = '");
    let head = "$ws = New-Object -ComObject WScript.Shell; $sc = $ws.CreateShortcut('"@;
    let target = "'); $sc.TargetPath = '"@;
    let script = shortcut_script(lnk, exe, dir);
    let first = seq!['\''] + quote_escaped(lnk) + seq!['\''];
    let second = seq!['\''] + quote_escaped(exe) + seq!['\''];
    let i = head.len() - 1;
    assert(script.subrange(i, i + first.len()) =~= first);
    let j = head.len() + quote_escaped(lnk).len() + target.len() - 1;
    assert(script.subrange(j, j + second.len()) =~= second);
}

/// Where there is no entry there is nothing to remove; systemd is told in any case.
pub proof fn nothing_is_removed_twice(p: Platform, base: Option<&str>)
    ensures
        uninstall_steps(p, base, false) is None <==> p == Platform::Other,
        p == Platform::MacOs || p == Platform::Windows ==> uninstall_steps(
            p,
            base,
            false,
        )->Some_0.len() == 0,
        p == Platform::Linux ==> uninstall_steps(p, base, false) == uninstall_steps(p, base, true),
{
}

/// A special character is written in XML by its name; every other one stands for
/// itself.
pub proof fn characters_are_escaped_one_by_one(s: Seq<char>, c: char)
    ensures
        c == '&' ==> xml_escaped(s.push(c)) == xml_escaped(s) + "&amp;"@,
        c == '<' ==> xml_escaped(s.push(c)) == xml_escaped(s) + "&lt;"@,
        c == '>' ==> xml_escaped(s.push(c)) == xml_escaped(s) + "&gt;"@,
        c != '&' && c != '<' && c != '>' ==> xml_escaped(s.push(c)) == xml_escaped(s).push(c),
{
    assert(s.push(c).drop_last() == s);
    assert(xml_escaped(s) + seq![c] =~= xml_escaped(s).push(c));
}

/// The entry lies where each operating system looks for what to start at login.
pub proof fn entries_lie_where_login_looks(p: Platform, base: Option<&str>)
    ensures
        p == Platform::MacOs ==> entry_path(p, base) == joined(
            p,
            base_or_empty(base),
            "Library/LaunchAgents/com.dannotes.onair.plist"@,
        ),
        p == Platform::Linux ==> entry_path(p, base) == joined(
            p,
            base_or_empty(base),
            ".config/systemd/user/onair.service"@,
        ),
        p == Platform::Windows ==> entry_path(p, base) == joined(
            p,
            base_or_empty(base),
            "Microsoft\\Windows\\Start Menu\\Programs\\Startup\\onair.lnk"@,
        ),
{
}

} // verus!
