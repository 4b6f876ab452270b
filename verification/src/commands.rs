//! Bulb commands: what is sent for a display, and what becomes of the state
//! when the bulb has answered.

use crate::bulb::{clamp_dimming, clamped_dimming, color_request, off_request, set_pilot_color_request, set_pilot_off_request, BulbError, BulbState};
use crate::clock::Moment;
use crate::config::BulbMode;
use crate::events::{EventLevel, NoticeModel};
use crate::models::{hex_of_color, Rgb};
use crate::net::Ipv4;
use crate::state::{AppModel, AppState, DisplayState};
use crate::text::{decimal, decimal_text};
use vstd::prelude::*;
use vstd::string::*;

verus! {

/// The displays that are configured.
#[derive(Debug, Clone, Copy, PartialEq, Eq, Structural)]
pub enum Scene {
    Call,
    Idle,
}

impl Scene {
    /// The name of the scene in event messages.
    pub open spec fn label_spec(self) -> Seq<char> {
        match self {
            Scene::Call => "CALL"@,
            Scene::Idle => "IDLE"@,
        }
    }

    /// What the bulb displays when it shows the scene.
    pub open spec fn display_spec(self) -> DisplayState {
        match self {
            Scene::Call => DisplayState::Call,
            Scene::Idle => DisplayState::Idle,
        }
    }

    /// The name of the scene in event messages.
    pub fn label(self) -> (r: &'static str)
        ensures
            r@ == self.label_spec(),
    {
        match self {
            Scene::Call => "CALL",
            Scene::Idle => "IDLE",
        }
    }

    /// What the bulb displays when it shows the scene.
    pub fn display(self) -> (r: DisplayState)
        ensures
            r == self.display_spec(),
    {
        match self {
            Scene::Call => DisplayState::Call,
            Scene::Idle => DisplayState::Idle,
        }
    }
}

/// A command to show a scene.
#[derive(Debug, Clone, Copy, PartialEq, Eq, Structural)]
pub struct BulbCommand {
    pub ip: Ipv4,
    pub scene: Scene,
    pub mode: BulbMode,
    pub color: Rgb,
    pub brightness: u8,
}

impl BulbCommand {
    /// The request that is sent to the bulb.
    pub open spec fn request_spec(self) -> Seq<char> {
        match self.mode {
            BulbMode::On => color_request(self.color, self.brightness),
            BulbMode::Off => off_request(),
        }
    }

    /// Writes the request that is sent to the bulb.
    pub fn request(&self) -> (r: String)
        ensures
            r@ == self.request_spec(),
    {
        match self.mode {
            BulbMode::On => set_pilot_color_request(self.color, self.brightness),
            BulbMode::Off => set_pilot_off_request(),
        }
    }
}

/// A scene as it is configured, on the given bulb.
pub open spec fn scene_command(m: AppModel, ip: Ipv4, scene: Scene) -> BulbCommand {
    match scene {
        Scene::Call => BulbCommand {
            ip,
            scene,
            mode: m.config.call_state,
            color: m.config.call_color,
            brightness: m.config.call_brightness,
        },
        Scene::Idle => BulbCommand {
            ip,
            scene,
            mode: m.config.idle_state,
            color: m.config.idle_color,
            brightness: m.config.idle_brightness,
        },
    }
}

/// The command that shows a scene on the resolved bulb, if there is one.
pub open spec fn due_command(m: AppModel, scene: Scene) -> Option<BulbCommand> {
    match m.bulb_ip {
        Some(ip) => Some(scene_command(m, ip, scene)),
        None => None,
    }
}

/// The bulb state that a successful command is taken to have brought about,
/// after the last known state. What the command does not set is carried over.
pub open spec fn mirrored(last: Option<BulbState>, c: BulbCommand) -> BulbState {
    let before = match last {
        Some(b) => b,
        None => BulbState {
            state: false,
            r: 0,
            g: 0,
            b: 0,
            dimming: 0,
            temp: 0,
            rssi: 0,
            scene_id: 0,
        },
    };
    match c.mode {
        BulbMode::On => BulbState {
            state: true,
            r: c.color.r,
            g: c.color.g,
            b: c.color.b,
            dimming: clamped_dimming(c.brightness),
            ..before
        },
        BulbMode::Off => BulbState { state: false, ..before },
    }
}

/// The message about a successful command.
pub open spec fn command_message(c: BulbCommand) -> Seq<char> {
    match c.mode {
        BulbMode::On => "bulb -> "@ + c.scene.label_spec() + " "@ + hex_of_color(c.color)
            + " brightness "@ + decimal(c.brightness as nat),
        BulbMode::Off => "bulb -> "@ + c.scene.label_spec() + " OFF"@,
    }
}

/// The state after a command has been sent and answered, or has failed.
pub open spec fn after_command(
    m: AppModel,
    c: BulbCommand,
    result: Result<(), BulbError>,
    now: Moment,
) -> AppModel {
    match result {
        Ok(_) => AppModel {
            display: c.scene.display_spec(),
            bulb_reachable: true,
            bulb_live: Some(mirrored(m.bulb_live, c)),
            bulb_last_polled: Some(now),
            ..m
        }.logged(EventLevel::Okay, command_message(c), now),
        Err(e) => AppModel { bulb_reachable: false, ..m }.logged(
            EventLevel::Error,
            "bulb command failed: "@ + e.message_spec() + " (will retry next cycle)"@,
            now,
        ),
    }
}

/// The state after it has been tried to switch the bulb off.
pub open spec fn after_forced_off(m: AppModel, done: bool) -> AppModel {
    if done {
        AppModel { display: DisplayState::Off, ..m }
    } else {
        m
    }
}

/// The state after `getPilot` has given a snapshot or has failed.
pub open spec fn after_pilot(m: AppModel, snapshot: Option<BulbState>, now: Moment) -> AppModel {
    match snapshot {
        Some(b) => AppModel {
            bulb_live: Some(b),
            bulb_last_polled: Some(now),
            bulb_reachable: true,
            ..m
        },
        None => AppModel { bulb_reachable: false, ..m },
    }
}

fn mirror(last: Option<BulbState>, c: &BulbCommand) -> (r: BulbState)
    ensures
        r == mirrored(last, *c),
{
    let mut live: BulbState = match last {
        Some(b) => b,
        None => BulbState {
            state: false,
            r: 0,
            g: 0,
            b: 0,
            dimming: 0,
            temp: 0,
            rssi: 0,
            scene_id: 0,
        },
    };
    match c.mode {
        BulbMode::On => {
            live.state = true;
            live.r = c.color.r;
            live.g = c.color.g;
            live.b = c.color.b;
            live.dimming = clamp_dimming(c.brightness);
        },
        BulbMode::Off => {
            live.state = false;
        },
    }
    live
}

fn command_text(c: &BulbCommand) -> (r: String)
    ensures
        r@ == command_message(*c),
{
    let mut r: String = "bulb -> ".to_owned();
    r.append(c.scene.label());
    match c.mode {
        BulbMode::On => {
            r.append(" ");
            r.append(c.color.to_hex().as_str());
            r.append(" brightness ");
            r.append(decimal_text(c.brightness as u64).as_str());
        },
        BulbMode::Off => {
            r.append(" OFF");
        },
    }
    r
}

impl AppState {
    /// The command that shows a scene, if the bulb is known.
    pub fn command(&self, scene: Scene) -> (r: Option<BulbCommand>)
        ensures
            r == due_command(self@, scene),
            r is Some <==> self@.bulb_ip is Some,
            r matches Some(c) ==> Some(c.ip) == self@.bulb_ip && c.scene == scene && match scene {
                Scene::Call => {
                    &&& c.mode == self@.config.call_state
                    &&& c.color == self@.config.call_color
                    &&& c.brightness == self@.config.call_brightness
                },
                Scene::Idle => {
                    &&& c.mode == self@.config.idle_state
                    &&& c.color == self@.config.idle_color
                    &&& c.brightness == self@.config.idle_brightness
                },
            },
    {
        match self.bulb_ip {
            Some(ip) => Some(
                match scene {
                    Scene::Call => BulbCommand {
                        ip,
                        scene,
                        mode: self.config.call_state,
                        color: self.config.call_color,
                        brightness: self.config.call_brightness,
                    },
                    Scene::Idle => BulbCommand {
                        ip,
                        scene,
                        mode: self.config.idle_state,
                        color: self.config.idle_color,
                        brightness: self.config.idle_brightness,
                    },
                },
            ),
            None => None,
        }
    }

    /// The command for the configured "call" display (color or off).
    pub fn apply_call(&self) -> (r: Option<BulbCommand>)
        ensures
            r == due_command(self@, Scene::Call),
            r is Some <==> self@.bulb_ip is Some,
            r matches Some(c) ==> {
                &&& Some(c.ip) == self@.bulb_ip
                &&& c.scene == Scene::Call
                &&& c.mode == self@.config.call_state
                &&& c.color == self@.config.call_color
                &&& c.brightness == self@.config.call_brightness
            },
    {
        self.command(Scene::Call)
    }

    /// The command for the configured "idle" display.
    pub fn apply_idle(&self) -> (r: Option<BulbCommand>)
        ensures
            r == due_command(self@, Scene::Idle),
            r is Some <==> self@.bulb_ip is Some,
            r matches Some(c) ==> {
                &&& Some(c.ip) == self@.bulb_ip
                &&& c.scene == Scene::Idle
                &&& c.mode == self@.config.idle_state
                &&& c.color == self@.config.idle_color
                &&& c.brightness == self@.config.idle_brightness
            },
    {
        self.command(Scene::Idle)
    }

    /// The command that forces the bulb red (call config), regardless of
    /// presence.
    pub fn force_red(&self) -> (r: Option<BulbCommand>)
        ensures
            r == due_command(self@, Scene::Call),
            r is Some <==> self@.bulb_ip is Some,
            r matches Some(c) ==> {
                &&& Some(c.ip) == self@.bulb_ip
                &&& c.scene == Scene::Call
                &&& c.mode == self@.config.call_state
                &&& c.color == self@.config.call_color
                &&& c.brightness == self@.config.call_brightness
            },
    {
        self.apply_call()
    }

    /// Takes in what became of a command. The new bulb state is mirrored at
    /// once, so that the dashboard doesn't show stale data until the next poll.
    pub fn note_command(&mut self, c: &BulbCommand, result: Result<(), BulbError>, now: Moment)
        requires
            old(self)@.can_log(1),
        ensures
            final(self)@ == after_command(old(self)@, *c, result, now),
    {
        match result {
            Ok(_) => {
                self.display = c.scene.display();
                self.bulb_reachable = true;
                self.bulb_live = Some(mirror(self.bulb_live, c));
                self.bulb_last_polled = Some(now);
                self.log_event(EventLevel::Okay, command_text(c), now);
            },
            Err(e) => {
                self.bulb_reachable = false;
                let mut message: String = "bulb command failed: ".to_owned();
                message.append(e.message().as_str());
                message.append(" (will retry next cycle)");
                self.log_event(EventLevel::Error, message, now);
            },
        }
    }

    /// The bulb that is to be switched off, regardless of mode and config, if it
    /// is known, and the request for that.
    pub fn force_off(&self) -> (r: Option<(Ipv4, String)>)
        ensures
            match r {
                Some((ip, request)) => self@.bulb_ip == Some(ip) && request@ == off_request(),
                None => self@.bulb_ip is None,
            },
    {
        match self.bulb_ip {
            Some(ip) => Some((ip, set_pilot_off_request())),
            None => None,
        }
    }

    /// Takes in whether the bulb has been switched off.
    pub fn note_forced_off(&mut self, done: bool)
        ensures
            final(self)@ == if done {
                AppModel { display: DisplayState::Off, ..old(self)@ }
            } else {
                old(self)@
            },
            final(self)@ == after_forced_off(old(self)@, done),
    {
        if done {
            self.display = DisplayState::Off;
        }
    }

    /// Takes in what `getPilot` gave. A failure leaves the last snapshot.
    pub fn note_pilot(&mut self, snapshot: Option<BulbState>, now: Moment)
        ensures
            final(self)@ == match snapshot {
                Some(b) => AppModel {
                    bulb_live: Some(b),
                    bulb_last_polled: Some(now),
                    bulb_reachable: true,
                    ..old(self)@
                },
                None => AppModel { bulb_reachable: false, ..old(self)@ },
            },
            final(self)@ == after_pilot(old(self)@, snapshot, now),
    {
        match snapshot {
            Some(b) => {
                self.bulb_live = Some(b);
                self.bulb_last_polled = Some(now);
                self.bulb_reachable = true;
            },
            None => {
                self.bulb_reachable = false;
            },
        }
    }
}

/// A command that failed leaves the display and the last snapshot as they were,
/// so it is given again in the next cycle that calls for it.
pub proof fn failed_commands_change_no_display(
    m: AppModel,
    c: BulbCommand,
    e: BulbError,
    now: Moment,
)
    ensures
        after_command(m, c, Err(e), now).display == m.display,
        after_command(m, c, Err(e), now).bulb_live == m.bulb_live,
        !after_command(m, c, Err(e), now).bulb_reachable,
{
}

/// After a successful command that turns the bulb on, the mirrored state is on
/// and has the color and brightness of the command; signal strength, color
/// temperature and scene are those of the last snapshot.
pub proof fn successful_commands_are_mirrored(m: AppModel, c: BulbCommand, now: Moment)
    ensures
        ({
            let after = after_command(m, c, Ok(()), now);
            &&& after.display == c.scene.display_spec()
            &&& after.bulb_reachable
            &&& after.bulb_live matches Some(live) && {
                &&& live.state == (c.mode == BulbMode::On)
                &&& c.mode == BulbMode::On ==> Rgb { r: live.r, g: live.g, b: live.b } == c.color
                    && live.dimming == clamped_dimming(c.brightness)
                &&& m.bulb_live matches Some(last) ==> live.rssi == last.rssi && live.temp
                    == last.temp && live.scene_id == last.scene_id
            }
        }),
{
}

/// True if two states differ at most in what is known of the bulb, and in the log.
pub open spec fn same_but_for_the_bulb(a: AppModel, b: AppModel) -> bool {
    &&& a.platform == b.platform
    &&& a.config == b.config
    &&& a.bulb_ip == b.bulb_ip
    &&& a.current_presence == b.current_presence
    &&& a.call_start == b.call_start
    &&& a.grace_until == b.grace_until
    &&& a.override_mode == b.override_mode
    &&& a.started_at == b.started_at
    &&& a.stats == b.stats
    &&& a.call_tracker_active == b.call_tracker_active
    &&& a.last_discovery == b.last_discovery
    &&& a.current_call_id == b.current_call_id
}

/// The command for a display goes to the resolved bulb and carries the values that
/// are configured for that display: on or off, color and brightness. Without a
/// bulb there is none.
pub proof fn commands_carry_the_configuration(m: AppModel)
    ensures
        m.bulb_ip is None ==> due_command(m, Scene::Call) is None && due_command(
            m,
            Scene::Idle,
        ) is None,
        m.bulb_ip is Some ==> due_command(m, Scene::Call) is Some && due_command(
            m,
            Scene::Idle,
        ) is Some,
        due_command(m, Scene::Call) matches Some(c) ==> {
            &&& Some(c.ip) == m.bulb_ip
            &&& c.scene == Scene::Call
            &&& c.mode == m.config.call_state
            &&& c.color == m.config.call_color
            &&& c.brightness == m.config.call_brightness
        },
        due_command(m, Scene::Idle) matches Some(c) ==> {
            &&& Some(c.ip) == m.bulb_ip
            &&& c.scene == Scene::Idle
            &&& c.mode == m.config.idle_state
            &&& c.color == m.config.idle_color
            &&& c.brightness == m.config.idle_brightness
        },
{
}

/// What is sent for a command: the color and brightness that it carries if the
/// bulb is to be on, and nothing but that it is to be off otherwise.
pub proof fn commands_are_sent_as_they_are(c: BulbCommand)
    ensures
        c.mode == BulbMode::On ==> c.request_spec() == color_request(c.color, c.brightness),
        c.mode == BulbMode::Off ==> c.request_spec() == off_request(),
        c.scene.display_spec() == DisplayState::Call <==> c.scene == Scene::Call,
        c.scene.display_spec() == DisplayState::Idle <==> c.scene == Scene::Idle,
{
}

/// A command that turns the bulb off leaves the color and brightness that are known
/// of it; where nothing is known these count as nothing. Answers tell when the bulb
/// was last heard of, and touch nothing else.
pub proof fn answers_tell_of_the_bulb(
    m: AppModel,
    c: BulbCommand,
    result: Result<(), BulbError>,
    now: Moment,
)
    ensures
        ({
            let after = after_command(m, c, result, now);
            &&& same_but_for_the_bulb(m, after)
            &&& after.bulb_reachable == (result is Ok)
            &&& result is Ok ==> after.bulb_last_polled == Some(now) && after.bulb_live is Some
            &&& result is Err ==> after.bulb_last_polled == m.bulb_last_polled && after.bulb_live
                == m.bulb_live && after.display == m.display
            &&& result is Ok && c.mode == BulbMode::Off ==> {
                let live = after.bulb_live->Some_0;
                &&& !live.state
                &&& m.bulb_live matches Some(last) ==> live.r == last.r && live.g == last.g
                    && live.b == last.b && live.dimming == last.dimming
                &&& m.bulb_live is None ==> live.r == 0 && live.g == 0 && live.b == 0
                    && live.dimming == 0
            }
            &&& result is Ok && m.bulb_live is None ==> {
                let live = after.bulb_live->Some_0;
                live.temp == 0 && live.rssi == 0 && live.scene_id == 0
            }
        }),
{
}

/// A bulb that has been told to show a scene, and then reports just what it was
/// told, looks as it was taken to look at once.
pub proof fn mirrored_states_are_confirmed(m: AppModel, c: BulbCommand, seen: BulbState, now: Moment)
    requires
        m.bulb_live is Some,
        seen.rssi == m.bulb_live->Some_0.rssi,
        seen.temp == m.bulb_live->Some_0.temp,
        seen.scene_id == m.bulb_live->Some_0.scene_id,
        seen.state == (c.mode == BulbMode::On),
        c.mode == BulbMode::On ==> seen.r == c.color.r && seen.g == c.color.g && seen.b == c.color.b
            && seen.dimming == clamped_dimming(c.brightness),
        c.mode == BulbMode::Off ==> seen.r == m.bulb_live->Some_0.r && seen.g
            == m.bulb_live->Some_0.g && seen.b == m.bulb_live->Some_0.b && seen.dimming
            == m.bulb_live->Some_0.dimming,
    ensures
        after_pilot(after_command(m, c, Ok(()), now), Some(seen), now) == after_command(
            m,
            c,
            Ok(()),
            now,
        ),
{
}

/// A snapshot is taken in as it is, and shows that the bulb can be reached; without
/// one the last stays. Neither changes what the bulb was told to display.
pub proof fn snapshots_are_kept(m: AppModel, snapshot: Option<BulbState>, now: Moment)
    ensures
        ({
            let after = after_pilot(m, snapshot, now);
            &&& same_but_for_the_bulb(m, after)
            &&& after.display == m.display
            &&& after.events == m.events
            &&& after.bulb_reachable == (snapshot is Some)
            &&& snapshot is Some ==> after.bulb_live == snapshot && after.bulb_last_polled == Some(
                now,
            )
            &&& snapshot is None ==> after.bulb_live == m.bulb_live && after.bulb_last_polled
                == m.bulb_last_polled
        }),
{
}

/// A bulb that has been switched off is taken to be off, and only then; nothing
/// else changes.
pub proof fn switched_off_is_off(m: AppModel, done: bool)
    ensures
        ({
            let after = after_forced_off(m, done);
            &&& done ==> after.display == DisplayState::Off
            &&& !done ==> after.display == m.display
            &&& same_but_for_the_bulb(m, after)
            &&& after.bulb_live == m.bulb_live && after.bulb_reachable == m.bulb_reachable
            &&& after.bulb_last_polled == m.bulb_last_polled && after.events == m.events
        }),
{
}

/// What is said of a command: what the bulb shows now, or why it failed.
pub proof fn what_is_said_of_commands(
    m: AppModel,
    c: BulbCommand,
    result: Result<(), BulbError>,
    now: Moment,
)
    ensures
        ({
            let after = after_command(m, c, result, now);
            let name = if c.scene == Scene::Call {
                "CALL"@
            } else {
                "IDLE"@
            };
            match result {
                Ok(_) => after.notices == m.notices.push(
                    NoticeModel {
                        level: EventLevel::Okay,
                        message: if c.mode == BulbMode::On {
                            "bulb -> "@ + name + " "@ + hex_of_color(c.color) + " brightness "@
                                + decimal(c.brightness as nat)
                        } else {
                            "bulb -> "@ + name + " OFF"@
                        },
                    },
                ),
                Err(e) => after.notices == m.notices.push(
                    NoticeModel {
                        level: EventLevel::Error,
                        message: "bulb command failed: "@ + e.message_spec()
                            + " (will retry next cycle)"@,
                    },
                ),
            }
        }),
{
}

} // verus!
