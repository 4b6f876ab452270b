//! Conveniences of the first run: picking the only bulb on the LAN, and opening
//! the dashboard.

use crate::bulb::{bulb_models, BulbError, BulbModel, DiscoveredBulb};
use crate::clock::Moment;
use crate::config::ConfigModel;
use crate::events::{EventLevel, NoticeModel};
use crate::net::dotted;
use crate::search::discovery_result;
use crate::state::{AppModel, AppState};
use crate::text::{decimal, decimal_text, optional_text};
use vstd::prelude::*;
use vstd::string::*;

verus! {

/// The advice for when no bulb has replied.
pub const NO_BULBS_ADVICE: &'static str = "no bulbs responded to broadcast discovery — this is normal if your bulb is already paired with the Philips WiZ app, Alexa, or Google Home. Open http://localhost:9876 → Settings → Bulb Selection and enter the bulb's IP directly.";

/// The state after the first-run scan. The only bulb on the LAN is selected;
/// between several the user has to choose.
pub open spec fn after_first_scan(
    m: AppModel,
    result: Result<Seq<BulbModel>, Seq<char>>,
    now: Moment,
) -> AppModel {
    match result {
        Ok(bulbs) => {
            let scanned = AppModel { last_discovery: bulbs, ..m };
            if bulbs.len() == 1 {
                AppModel {
                    config: ConfigModel { bulb_mac: bulbs[0].mac, ..m.config },
                    ..scanned
                }.logged(
                    EventLevel::Okay,
                    "auto-selected only bulb on LAN: "@ + bulbs[0].mac + " at "@ + dotted(
                        bulbs[0].ip,
                    ),
                    now,
                )
            } else if bulbs.len() == 0 {
                scanned.logged(EventLevel::Wrn, NO_BULBS_ADVICE@, now)
            } else {
                scanned.logged(
                    EventLevel::Inf,
                    decimal(bulbs.len()) + " bulbs found — open http://localhost:9876 to pick one"@,
                    now,
                )
            }
        },
        Err(e) => m.logged(EventLevel::Wrn, "first-run discovery failed: "@ + e, now),
    }
}

/// The address of the dashboard.
pub open spec fn dashboard_address(port: u16) -> Seq<char> {
    "http://127.0.0.1:"@ + decimal(port as nat)
}

/// The address of the dashboard, if it is to be opened: once only, and only
/// from an interactive terminal.
pub open spec fn dashboard_due(m: AppModel, interactive: bool) -> Option<Seq<char>> {
    if interactive && !m.config.first_run_completed {
        Some(dashboard_address(m.config.ui_port))
    } else {
        None
    }
}

/// The state after the dashboard has been opened.
pub open spec fn after_opening(m: AppModel) -> AppModel {
    AppModel { config: ConfigModel { first_run_completed: true, ..m.config }, ..m }
}

/// The dashboard is opened once: never after it has been opened, and never
/// without an interactive terminal.
pub proof fn dashboard_opens_once(m: AppModel, interactive: bool)
    ensures
        dashboard_due(after_opening(m), interactive) is None,
        dashboard_due(m, false) is None,
{
}

impl AppState {
    /// Begins the first-run setup. Returns true if no bulb is configured and the
    /// network is to be scanned.
    pub fn begin_first_run(&mut self, now: Moment) -> (r: bool)
        requires
            old(self)@.can_log(1),
        ensures
            r == (old(self)@.config.bulb_mac.len() == 0),
            final(self)@ == if r {
                old(self)@.logged(
                    EventLevel::Inf,
                    "no bulb configured — scanning network for first-run setup"@,
                    now,
                )
            } else {
                old(self)@
            },
    {
        if self.config.bulb_mac.as_str().unicode_len() != 0 {
            return false;
        }
        self.log_event(
            EventLevel::Inf,
            "no bulb configured — scanning network for first-run setup".to_owned(),
            now,
        );
        true
    }

    /// Takes in what the first-run scan gave. Returns true if the config has
    /// changed and is to be stored.
    pub fn first_scan_done(
        &mut self,
        result: Result<Vec<DiscoveredBulb>, BulbError>,
        now: Moment,
    ) -> (r: bool)
        requires
            old(self)@.can_log(1),
        ensures
            r == (discovery_result(result) matches Ok(bulbs) && bulbs.len() == 1),
            final(self)@ == after_first_scan(old(self)@, discovery_result(result), now),
    {
        match result {
            Ok(bulbs) => {
                let count: usize = bulbs.len();
                if count == 1 {
                    assert(bulb_models(bulbs@)[0] == bulbs@[0]@);
                    let mut message: String = "auto-selected only bulb on LAN: ".to_owned();
                    message.append(bulbs[0].mac.as_str());
                    message.append(" at ");
                    message.append(bulbs[0].ip.to_text().as_str());
                    self.config.bulb_mac = bulbs[0].mac.clone();
                    self.last_discovery = bulbs;
                    self.log_event(EventLevel::Okay, message, now);
                    return true;
                }
                self.last_discovery = bulbs;
                if count == 0 {
                    self.log_event(EventLevel::Wrn, NO_BULBS_ADVICE.to_owned(), now);
                } else {
                    let mut message: String = decimal_text(count as u64);
                    message.append(" bulbs found — open http://localhost:9876 to pick one");
                    self.log_event(EventLevel::Inf, message, now);
                }
                false
            },
            Err(e) => {
                let message: String = "first-run discovery failed: ".to_owned().concat(
                    e.message().as_str(),
                );
                self.log_event(EventLevel::Wrn, message, now);
                false
            },
        }
    }

    /// The address of the dashboard, if it is to be opened in the user's
    /// browser: once only, and only when started from an interactive terminal
    /// (so it never fires under launchd / systemd / a startup shortcut).
    pub fn dashboard_to_open(&self, interactive: bool) -> (r: Option<String>)
        ensures
            optional_text(r) == dashboard_due(self@, interactive),
    {
        if self.config.first_run_completed || !interactive {
            return None;
        }
        let mut url: String = "http://127.0.0.1:".to_owned();
        url.append(decimal_text(self.config.ui_port as u64).as_str());
        Some(url)
    }

    /// Logs that the dashboard is being opened.
    pub fn dashboard_opening(&mut self, url: &str, now: Moment)
        requires
            old(self)@.can_log(1),
        ensures
            final(self)@ == old(self)@.logged(
                EventLevel::Inf,
                "opening dashboard in your browser: "@ + url@,
                now,
            ),
    {
        self.log_event(
            EventLevel::Inf,
            "opening dashboard in your browser: ".to_owned().concat(url),
            now,
        );
    }

    /// The dashboard has been opened, or opening it has been tried. The config
    /// is to be stored.
    pub fn dashboard_opened(&mut self)
        ensures
            final(self)@ == after_opening(old(self)@),
    {
        self.config.first_run_completed = true;
    }
}

// ---------------------------------------------------------------------------
// Laws
// ---------------------------------------------------------------------------

/// The first scan selects a bulb if and only if it is the only one; what was found
/// is kept. A scan that failed changes nothing but the log. Neither binds a bulb.
pub proof fn the_only_bulb_is_selected(
    m: AppModel,
    bulbs: Seq<BulbModel>,
    why: Seq<char>,
    now: Moment,
)
    ensures
        ({
            let after = after_first_scan(m, Ok(bulbs), now);
            &&& after.last_discovery == bulbs
            &&& bulbs.len() == 1 ==> after.config.bulb_mac == bulbs[0].mac
            &&& bulbs.len() != 1 ==> after.config.bulb_mac == m.config.bulb_mac
            &&& after.config == (ConfigModel { bulb_mac: after.config.bulb_mac, ..m.config })
            &&& after.bulb_ip == m.bulb_ip && after.bulb_reachable == m.bulb_reachable
            &&& after.call_start == m.call_start && after.display == m.display
            &&& after.override_mode == m.override_mode
        }),
        ({
            let failed = after_first_scan(m, Err(why), now);
            &&& failed.last_discovery == m.last_discovery && failed.config == m.config
            &&& failed.bulb_ip == m.bulb_ip && failed.bulb_reachable == m.bulb_reachable
        }),
{
}

/// The dashboard is opened on the first interactive start, at the configured port
/// of this machine.
pub proof fn the_dashboard_opens_at_its_port(m: AppModel)
    ensures
        !m.config.first_run_completed ==> dashboard_due(m, true) == Some(
            "http://127.0.0.1:"@ + decimal(m.config.ui_port as nat),
        ),
        m.config.first_run_completed ==> dashboard_due(m, true) is None,
        after_opening(m).config == (ConfigModel { first_run_completed: true, ..m.config }),
        after_opening(m).bulb_ip == m.bulb_ip && after_opening(m).call_start == m.call_start,
        after_opening(m).events == m.events && after_opening(m).display == m.display,
{
}

/// What is said of the first scan; nothing else changes but the discovery and the
/// configured bulb.
pub proof fn what_is_said_of_the_first_scan(
    m: AppModel,
    bulbs: Seq<BulbModel>,
    why: Seq<char>,
    now: Moment,
)
    ensures
        ({
            let after = after_first_scan(m, Ok(bulbs), now);
            &&& after == (AppModel {
                config: after.config,
                last_discovery: after.last_discovery,
                events: after.events,
                notices: after.notices,
                ..m
            })
            &&& after.notices == m.notices.push(
                if bulbs.len() == 1 {
                    NoticeModel {
                        level: EventLevel::Okay,
                        message: "auto-selected only bulb on LAN: "@ + bulbs[0].mac + " at "@
                            + dotted(bulbs[0].ip),
                    }
                } else if bulbs.len() == 0 {
                    NoticeModel { level: EventLevel::Wrn, message: NO_BULBS_ADVICE@ }
                } else {
                    NoticeModel {
                        level: EventLevel::Inf,
                        message: decimal(bulbs.len())
                            + " bulbs found — open http://localhost:9876 to pick one"@,
                    }
                },
            )
        }),
        after_first_scan(m, Err(why), now).notices == m.notices.push(
            NoticeModel {
                level: EventLevel::Wrn,
                message: "first-run discovery failed: "@ + why,
            },
        ),
{
}

} // verus!
