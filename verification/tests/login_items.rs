use onair::autostart::{
    base_variable, enabled_query, failure_text, install, install_location, is_installed,
    is_supported, uninstall, Invocation, Step,
};
use onair::platform::Platform;

fn line(i: &Invocation) -> String {
    format!("{} {}", i.program, i.args.join(" "))
}

const PLIST: &str = r#"<?xml version="1.0" encoding="UTF-8"?>
<!DOCTYPE plist PUBLIC "-//Apple//DTD PLIST 1.0//EN" "http://www.apple.com/DTDs/PropertyList-1.0.dtd">
<plist version="1.0">
<dict>
    <key>Label</key>
    <string>com.dannotes.onair</string>
    <key>ProgramArguments</key>
    <array>
        <string>/opt/a&amp;b &lt;x&gt;/onair</string>
    </array>
    <key>RunAtLoad</key>
    <true/>
    <key>KeepAlive</key>
    <true/>
    <key>StandardOutPath</key>
    <string>/tmp/onair.log</string>
    <key>StandardErrorPath</key>
    <string>/tmp/onair.log</string>
    <key>EnvironmentVariables</key>
    <dict>
        <key>RUST_LOG</key>
        <string>info</string>
    </dict>
</dict>
</plist>
"#;

const UNIT: &str = r#"# onair — auto-generated by the dashboard "Run on Login" toggle.
[Unit]
Description=onair — Microsoft Teams presence indicator for Philips WiZ bulbs
After=network-online.target
Wants=network-online.target

[Service]
Type=simple
ExecStart=/usr/bin/onair
Restart=on-failure
RestartSec=5
Environment=RUST_LOG=info

[Install]
WantedBy=default.target
"#;

#[test]
fn locations() {
    assert_eq!(
        install_location(Platform::MacOs, Some("/Users/u")).unwrap(),
        "/Users/u/Library/LaunchAgents/com.dannotes.onair.plist"
    );
    assert_eq!(
        install_location(Platform::Linux, Some("/home/u")).unwrap(),
        "/home/u/.config/systemd/user/onair.service"
    );
    assert_eq!(
        install_location(Platform::Windows, Some(r"C:\Users\u\AppData\Roaming")).unwrap(),
        r"C:\Users\u\AppData\Roaming\Microsoft\Windows\Start Menu\Programs\Startup\onair.lnk"
    );
    assert_eq!(
        install_location(Platform::Linux, None).unwrap(),
        ".config/systemd/user/onair.service"
    );
    assert_eq!(install_location(Platform::Other, Some("/home/u")), None);
    assert_eq!(base_variable(Platform::Windows), "APPDATA");
    assert_eq!(base_variable(Platform::Linux), "HOME");
}

#[test]
fn installed_or_not() {
    assert!(is_installed(Platform::MacOs, None, true));
    assert!(!is_installed(Platform::Windows, Some(true), false));
    assert!(is_installed(Platform::Linux, Some(true), false));
    assert!(!is_installed(Platform::Linux, Some(false), true));
    assert!(is_installed(Platform::Linux, None, true));
    assert!(!is_installed(Platform::Other, Some(true), true));
    assert!(is_supported(Platform::Linux));
    assert!(!is_supported(Platform::Other));
    assert_eq!(line(&enabled_query()), "systemctl --user is-enabled onair.service");
}

#[test]
fn macos_installation() {
    let steps = install(Platform::MacOs, Some("/Users/u"), "/opt/a&b <x>/onair").unwrap();
    let path = "/Users/u/Library/LaunchAgents/com.dannotes.onair.plist";
    assert_eq!(steps.len(), 4);
    assert!(matches!(&steps[0], Step::CreateDir(d) if d == "/Users/u/Library/LaunchAgents"));
    assert!(matches!(&steps[1], Step::WriteFile { path: p, text } if p == path && text == PLIST));
    assert!(
        matches!(&steps[2], Step::Attempt(c) if line(c) == format!("launchctl unload {}", path))
    );
    assert!(matches!(
        &steps[3],
        Step::Run { command, spawn_failure, failure }
            if line(command) == format!("launchctl load {}", path)
                && spawn_failure.is_empty()
                && *failure == "launchctl load failed: "
    ));
}

#[test]
fn linux_installation() {
    let steps = install(Platform::Linux, Some("/home/u"), "/usr/bin/onair").unwrap();
    assert_eq!(steps.len(), 4);
    assert!(matches!(&steps[0], Step::CreateDir(d) if d == "/home/u/.config/systemd/user"));
    assert!(matches!(&steps[1], Step::WriteFile { path, text }
        if path == "/home/u/.config/systemd/user/onair.service" && text == UNIT));
    assert!(matches!(&steps[2], Step::Attempt(c) if line(c) == "systemctl --user daemon-reload"));
    assert!(matches!(
        &steps[3],
        Step::Run { command, spawn_failure, failure }
            if line(command) == "systemctl --user enable --now onair.service"
                && *spawn_failure == "systemctl --user enable failed to spawn: "
                && *failure == "systemctl --user enable --now failed: "
    ));
}

#[test]
fn windows_installation() {
    let steps = install(Platform::Windows, Some(r"C:\O'Neil"), r"C:\it's\onair.exe").unwrap();
    assert_eq!(steps.len(), 1);
    let script = r"$ws = New-Object -ComObject WScript.Shell; $sc = $ws.CreateShortcut('C:\O''Neil\Microsoft\Windows\Start Menu\Programs\Startup\onair.lnk'); $sc.TargetPath = 'C:\it''s\onair.exe'; $sc.WorkingDirectory = 'C:\O''Neil\Microsoft\Windows\Start Menu\Programs\Startup'; $sc.WindowStyle = 7; $sc.Description = 'onair — Teams presence bulb'; $sc.Save()";
    assert!(matches!(
        &steps[0],
        Step::Run { command, spawn_failure, failure }
            if command.program == "powershell"
                && command.args[..3] == ["-NoProfile", "-NonInteractive", "-Command"]
                && command.args[3] == script
                && *spawn_failure == "powershell failed to spawn: "
                && *failure == "powershell shortcut create failed: "
    ));
}

#[test]
fn removal() {
    let steps = uninstall(Platform::MacOs, Some("/u"), true).unwrap();
    assert_eq!(steps.len(), 2);
    assert!(matches!(&steps[1], Step::Remove(p)
        if p == "/u/Library/LaunchAgents/com.dannotes.onair.plist"));
    assert!(uninstall(Platform::MacOs, Some("/u"), false).unwrap().is_empty());
    let steps = uninstall(Platform::Linux, Some("/u"), false).unwrap();
    assert_eq!(steps.len(), 3);
    assert!(matches!(&steps[0], Step::Attempt(c)
        if line(c) == "systemctl --user disable --now onair.service"));
    assert!(matches!(&steps[1], Step::RemoveIfExists(p)
        if p == "/u/.config/systemd/user/onair.service"));
    assert_eq!(uninstall(Platform::Windows, Some("C:\\u"), true).unwrap().len(), 1);
    assert!(uninstall(Platform::Windows, Some("C:\\u"), false).unwrap().is_empty());
}

#[test]
fn unsupported_systems() {
    let text = "autostart is not supported on this operating system";
    assert_eq!(install(Platform::Other, None, "onair").unwrap_err(), text);
    assert_eq!(uninstall(Platform::Other, None, true).unwrap_err(), text);
}

#[test]
fn failures_quote_what_was_said() {
    assert_eq!(
        failure_text("launchctl load failed: ", b"  no such file\n"),
        "launchctl load failed: no such file"
    );
    assert_eq!(failure_text("x: ", &[0xff]), "x: \u{fffd}");
}
