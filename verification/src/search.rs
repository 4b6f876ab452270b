//! Finding the configured bulb on the network.
//!
//! A search begins with [`AppState::begin_search`]. Each step says what outside
//! work comes next, and the method that takes in its result is the next step.

use crate::bulb::{bulb_models, bulb_with_mac, bulbs_are_found_by_mac, find_bulb, same_mac, BulbError, BulbModel, DiscoveredBulb};
use crate::clock::Moment;
use crate::config::ConfigModel;
use crate::events::{EventLevel, NoticeModel};
use crate::net::{address_of, address_round_trip, dotted, Ipv4};
use crate::state::{AppModel, AppState};
use crate::text::{decimal, decimal_text};
use vstd::prelude::*;
use vstd::string::*;

verus! {

/// How many times a search tries to discover the bulb.
pub const BULB_DISCOVERY_RETRIES: u32 = 3;

/// How long a search waits after each attempt.
pub const BULB_DISCOVERY_RETRY_DELAY_SECS: u64 = 2;

/// How long a discovery collects replies.
pub const DISCOVERY_WAIT_SECS: u64 = 3;

/// How often the bulb's state is polled.
pub const BULB_POLL_INTERVAL_SECS: u64 = 5;

/// What a search does next.
#[derive(Debug, Clone, Copy, PartialEq, Eq, Structural)]
pub enum SearchStep {
    /// The search is over.
    Finished,
    /// The search is over, and the config has changed and is to be stored.
    Found,
    /// Ask the bulb at the cached address for its state.
    AskCached(Ipv4),
    /// Discover bulbs, for the given attempt.
    Discover(u32),
    /// Wait, then discover bulbs once more, for the given attempt.
    Retry(u32),
    /// Wait, then give up.
    GiveUp,
}

/// What came of a discovery: the bulbs, or the error in words.
pub open spec fn discovery_result(r: Result<Vec<DiscoveredBulb>, BulbError>) -> Result<
    Seq<BulbModel>,
    Seq<char>,
> {
    match r {
        Ok(bulbs) => Ok(bulb_models(bulbs@)),
        Err(e) => Err(e.message_spec()),
    }
}

/// How a search begins. The cached address comes first: WiZ broadcast discovery
/// is unreliable on some networks and after the bulb has been claimed by another
/// app.
pub open spec fn first_step(m: AppModel) -> SearchStep {
    if m.config.bulb_mac.len() == 0 {
        SearchStep::Finished
    } else {
        match address_of(m.config.bulb_last_ip) {
            Some(ip) => SearchStep::AskCached(ip),
            None => SearchStep::Discover(1),
        }
    }
}

/// The state after the bulb at the cached address has answered or failed to.
pub open spec fn after_cached(
    m: AppModel,
    mac: Seq<char>,
    ip: Ipv4,
    failure: Option<BulbError>,
    now: Moment,
) -> AppModel {
    match failure {
        None => AppModel { bulb_ip: Some(ip), bulb_reachable: true, ..m }.logged(
            EventLevel::Okay,
            "reconnected to cached bulb "@ + mac + " at "@ + dotted(ip),
            now,
        ),
        Some(e) => m.logged(
            EventLevel::Inf,
            "cached IP "@ + dotted(ip) + " unreachable ("@ + e.message_spec()
                + "), falling back to discovery"@,
            now,
        ),
    }
}

/// The state with a bulb bound to it: the address is known, and cached for the
/// next start.
pub open spec fn bound(m: AppModel, ip: Ipv4) -> AppModel {
    AppModel {
        bulb_ip: Some(ip),
        bulb_reachable: true,
        config: ConfigModel { bulb_last_ip: dotted(ip), ..m.config },
        ..m
    }
}

/// The message about bulbs none of which is the configured one.
pub open spec fn not_found_message(mac: Seq<char>, attempt: u32, count: nat) -> Seq<char> {
    "configured bulb "@ + mac + " not found (attempt "@ + decimal(attempt as nat) + "/"@ + decimal(
        BULB_DISCOVERY_RETRIES as nat,
    ) + "), "@ + decimal(count) + " other bulb(s) on LAN"@
}

/// The state after an attempt to discover the bulb.
pub open spec fn after_discovery(
    m: AppModel,
    mac: Seq<char>,
    attempt: u32,
    result: Result<Seq<BulbModel>, Seq<char>>,
    now: Moment,
) -> AppModel {
    match result {
        Ok(bulbs) => {
            let scanned = AppModel { last_discovery: bulbs, ..m };
            match bulb_with_mac(bulbs, mac) {
                Some(bulb) => bound(scanned, bulb.ip).logged(
                    EventLevel::Okay,
                    "found bulb "@ + bulb.mac + " at "@ + dotted(bulb.ip),
                    now,
                ),
                None => scanned.logged(
                    EventLevel::Wrn,
                    not_found_message(mac, attempt, bulbs.len()),
                    now,
                ),
            }
        },
        Err(e) => m.logged(
            EventLevel::Wrn,
            "discovery failed (attempt "@ + decimal(attempt as nat) + "): "@ + e,
            now,
        ),
    }
}

/// What a search does after an attempt to discover the bulb.
pub open spec fn step_after_discovery(
    mac: Seq<char>,
    attempt: u32,
    result: Result<Seq<BulbModel>, Seq<char>>,
) -> SearchStep {
    if result is Ok && bulb_with_mac(result->Ok_0, mac) is Some {
        SearchStep::Found
    } else if attempt < BULB_DISCOVERY_RETRIES {
        SearchStep::Retry((attempt + 1) as u32)
    } else {
        SearchStep::GiveUp
    }
}

impl AppState {
    /// Begins the search for the configured bulb. Returns its MAC, which the
    /// whole search is for, and the first step.
    pub fn begin_search(&mut self, now: Moment) -> (r: (String, SearchStep))
        requires
            old(self)@.can_log(1),
        ensures
            r.0@ == old(self)@.config.bulb_mac,
            r.1 == first_step(old(self)@),
            final(self)@ == if r.1 == SearchStep::Finished {
                AppModel { bulb_ip: None, ..old(self)@ }.logged(
                    EventLevel::Wrn,
                    "no bulb MAC configured — open Settings to select one"@,
                    now,
                )
            } else {
                old(self)@
            },
            r.1 == SearchStep::Finished <==> old(self)@.config.bulb_mac.len() == 0,
    {
        let mac: String = self.config.bulb_mac.clone();
        if mac.as_str().unicode_len() == 0 {
            self.log_event(
                EventLevel::Wrn,
                "no bulb MAC configured — open Settings to select one".to_owned(),
                now,
            );
            self.bulb_ip = None;
            return (mac, SearchStep::Finished);
        }
        match Ipv4::parse(self.config.bulb_last_ip.as_str()) {
            Some(ip) => (mac, SearchStep::AskCached(ip)),
            None => (mac, SearchStep::Discover(1)),
        }
    }

    /// Takes in whether the bulb at the cached address has answered, or why it
    /// has not.
    pub fn cached_answered(
        &mut self,
        mac: &str,
        ip: Ipv4,
        failure: Option<BulbError>,
        now: Moment,
    ) -> (r: SearchStep)
        requires
            old(self)@.can_log(1),
        ensures
            r == if failure is None {
                SearchStep::Finished
            } else {
                SearchStep::Discover(1)
            },
            final(self)@ == after_cached(old(self)@, mac@, ip, failure, now),
    {
        match failure {
            None => {
                self.bulb_ip = Some(ip);
                self.bulb_reachable = true;
                let mut message: String = "reconnected to cached bulb ".to_owned();
                message.append(mac);
                message.append(" at ");
                message.append(ip.to_text().as_str());
                self.log_event(EventLevel::Okay, message, now);
                SearchStep::Finished
            },
            Some(e) => {
                let mut message: String = "cached IP ".to_owned();
                message.append(ip.to_text().as_str());
                message.append(" unreachable (");
                message.append(e.message().as_str());
                message.append("), falling back to discovery");
                self.log_event(EventLevel::Inf, message, now);
                SearchStep::Discover(1)
            },
        }
    }

    /// Binds the bulb at an address.
    pub fn bind_bulb(&mut self, ip: Ipv4)
        ensures
            final(self)@ == bound(old(self)@, ip),
    {
        self.bulb_ip = Some(ip);
        self.bulb_reachable = true;
        self.config.bulb_last_ip = ip.to_text();
    }

    /// Takes in what the given attempt to discover the bulb gave.
    pub fn discovery_answered(
        &mut self,
        mac: &str,
        attempt: u32,
        result: Result<Vec<DiscoveredBulb>, BulbError>,
        now: Moment,
    ) -> (r: SearchStep)
        requires
            old(self)@.can_log(1),
        ensures
            r == step_after_discovery(mac@, attempt, discovery_result(result)),
            final(self)@ == after_discovery(
                old(self)@,
                mac@,
                attempt,
                discovery_result(result),
                now,
            ),
    {
        match result {
            Ok(bulbs) => {
                let count: usize = bulbs.len();
                let found: Option<DiscoveredBulb> = match find_bulb(&bulbs, mac) {
                    Some(b) => Some(b.clone()),
                    None => None,
                };
                self.last_discovery = bulbs;
                match found {
                    Some(b) => {
                        self.bind_bulb(b.ip);
                        let mut message: String = "found bulb ".to_owned();
                        message.append(b.mac.as_str());
                        message.append(" at ");
                        message.append(b.ip.to_text().as_str());
                        self.log_event(EventLevel::Okay, message, now);
                        return SearchStep::Found;
                    },
                    None => {
                        let mut message: String = "configured bulb ".to_owned();
                        message.append(mac);
                        message.append(" not found (attempt ");
                        message.append(decimal_text(attempt as u64).as_str());
                        message.append("/");
                        message.append(decimal_text(BULB_DISCOVERY_RETRIES as u64).as_str());
                        message.append("), ");
                        message.append(decimal_text(count as u64).as_str());
                        message.append(" other bulb(s) on LAN");
                        self.log_event(EventLevel::Wrn, message, now);
                    },
                }
            },
            Err(e) => {
                let mut message: String = "discovery failed (attempt ".to_owned();
                message.append(decimal_text(attempt as u64).as_str());
                message.append("): ");
                message.append(e.message().as_str());
                self.log_event(EventLevel::Wrn, message, now);
            },
        }
        if attempt < BULB_DISCOVERY_RETRIES {
            SearchStep::Retry(attempt + 1)
        } else {
            SearchStep::GiveUp
        }
    }

    /// Ends a search without success.
    pub fn give_up(&mut self, mac: &str, now: Moment)
        requires
            old(self)@.can_log(1),
        ensures
            final(self)@ == (AppModel { bulb_ip: None, bulb_reachable: false, ..old(self)@ }).logged(
                EventLevel::Error,
                "could not find bulb "@ + mac@ + " after "@ + decimal(BULB_DISCOVERY_RETRIES as nat)
                    + " attempts"@,
                now,
            ),
            final(self)@.bulb_ip is None,
            !final(self)@.bulb_reachable,
            final(self)@.config == old(self)@.config,
    {
        let mut message: String = "could not find bulb ".to_owned();
        message.append(mac);
        message.append(" after ");
        message.append(decimal_text(BULB_DISCOVERY_RETRIES as u64).as_str());
        message.append(" attempts");
        self.log_event(EventLevel::Error, message, now);
        self.bulb_ip = None;
        self.bulb_reachable = false;
    }
}

/// A search ends: after each attempt it is successful, given up, or goes on with
/// the next one, and it does not go on after the last.
pub proof fn searches_end(mac: Seq<char>, attempt: u32, result: Result<Seq<BulbModel>, Seq<char>>)
    ensures
        match step_after_discovery(mac, attempt, result) {
            SearchStep::Found => true,
            SearchStep::GiveUp => attempt >= BULB_DISCOVERY_RETRIES,
            SearchStep::Retry(next) => next == attempt + 1 && next <= BULB_DISCOVERY_RETRIES,
            _ => false,
        },
{
}

/// A bulb that a search has found is asked first by the next one: its address is
/// cached in the config.
pub proof fn found_bulbs_are_cached(
    m: AppModel,
    attempt: u32,
    result: Result<Seq<BulbModel>, Seq<char>>,
    now: Moment,
)
    requires
        m.config.bulb_mac.len() > 0,
        step_after_discovery(m.config.bulb_mac, attempt, result) == SearchStep::Found,
    ensures
        ({
            let after = after_discovery(m, m.config.bulb_mac, attempt, result, now);
            &&& after.bulb_ip is Some
            &&& first_step(after) == SearchStep::AskCached(after.bulb_ip->Some_0)
        }),
{
    let bulb = bulb_with_mac(result->Ok_0, m.config.bulb_mac)->Some_0;
    address_round_trip(bulb.ip);
}

/// True if two states differ at most in where the bulb is, what was discovered, and
/// the log.
pub open spec fn same_but_for_the_address(a: AppModel, b: AppModel) -> bool {
    &&& a.platform == b.platform
    &&& a.bulb_live == b.bulb_live
    &&& a.bulb_last_polled == b.bulb_last_polled
    &&& a.display == b.display
    &&& a.current_presence == b.current_presence
    &&& a.call_start == b.call_start
    &&& a.grace_until == b.grace_until
    &&& a.override_mode == b.override_mode
    &&& a.started_at == b.started_at
    &&& a.stats == b.stats
    &&& a.call_tracker_active == b.call_tracker_active
    &&& a.current_call_id == b.current_call_id
    &&& a.config == (ConfigModel { bulb_last_ip: a.config.bulb_last_ip, ..b.config })
}

/// A search needs a MAC. It begins with the bulb at the cached address, if there is
/// one, and else with the first attempt to discover it.
pub proof fn searches_begin_at_the_cached_address(m: AppModel, ip: Ipv4)
    ensures
        m.config.bulb_mac.len() == 0 ==> first_step(m) == SearchStep::Finished,
        m.config.bulb_mac.len() > 0 && m.config.bulb_last_ip == dotted(ip) ==> first_step(m)
            == SearchStep::AskCached(ip),
        m.config.bulb_mac.len() > 0 && (forall|other: Ipv4|
            m.config.bulb_last_ip != #[trigger] dotted(other)) ==> first_step(m)
            == SearchStep::Discover(1),
{
    address_round_trip(ip);
}

/// The bulb at the cached address is bound if it has answered; if not, everything
/// stays as it is, and the search goes on.
pub proof fn cached_bulbs_are_bound_if_they_answer(
    m: AppModel,
    mac: Seq<char>,
    ip: Ipv4,
    failure: Option<BulbError>,
    now: Moment,
)
    ensures
        ({
            let after = after_cached(m, mac, ip, failure, now);
            &&& failure is None ==> after.bulb_ip == Some(ip) && after.bulb_reachable
            &&& failure is Some ==> after.bulb_ip == m.bulb_ip && after.bulb_reachable
                == m.bulb_reachable
            &&& after.config == m.config && after.last_discovery == m.last_discovery
            &&& same_but_for_the_address(m, after)
        }),
{
}

/// A discovery binds the configured bulb at the address it was discovered at, which
/// is cached. If it is not among the discovered ones, or the discovery failed, what
/// is bound stays. What was discovered is kept either way.
pub proof fn discovered_bulbs_are_bound(
    m: AppModel,
    mac: Seq<char>,
    attempt: u32,
    bulbs: Seq<BulbModel>,
    i: int,
    why: Seq<char>,
    now: Moment,
)
    requires
        0 <= i <= bulbs.len(),
        forall|j: int| 0 <= j < i ==> !same_mac((#[trigger] bulbs[j]).mac, mac),
        i < bulbs.len() ==> same_mac(bulbs[i].mac, mac),
    ensures
        ({
            let after = after_discovery(m, mac, attempt, Ok(bulbs), now);
            let step = step_after_discovery(mac, attempt, Ok(bulbs));
            &&& after.last_discovery == bulbs
            &&& same_but_for_the_address(m, after)
            &&& step == SearchStep::Found <==> i < bulbs.len()
            &&& i < bulbs.len() ==> {
                &&& after.bulb_ip == Some(bulbs[i].ip)
                &&& after.bulb_reachable
                &&& after.config.bulb_last_ip == dotted(bulbs[i].ip)
            }
            &&& i == bulbs.len() ==> {
                &&& after.bulb_ip == m.bulb_ip
                &&& after.bulb_reachable == m.bulb_reachable
                &&& after.config == m.config
            }
        }),
        ({
            let failed = after_discovery(m, mac, attempt, Err(why), now);
            &&& failed.bulb_ip == m.bulb_ip && failed.bulb_reachable == m.bulb_reachable
            &&& failed.config == m.config && failed.last_discovery == m.last_discovery
            &&& same_but_for_the_address(m, failed)
            &&& step_after_discovery(mac, attempt, Err(why)) != SearchStep::Found
        }),
{
    bulbs_are_found_by_mac(bulbs, mac, i);
}

/// A search tries three times, counting up, and then gives up.
pub proof fn searches_try_three_times(
    mac: Seq<char>,
    attempt: u32,
    result: Result<Seq<BulbModel>, Seq<char>>,
)
    requires
        step_after_discovery(mac, attempt, result) != SearchStep::Found,
    ensures
        attempt < 3 ==> step_after_discovery(mac, attempt, result) == SearchStep::Retry(
            (attempt + 1) as u32,
        ),
        attempt >= 3 ==> step_after_discovery(mac, attempt, result) == SearchStep::GiveUp,
{
}

/// A bulb that is bound is at that address, can be reached, and is remembered there
/// under its notation; nothing else changes.
pub proof fn binding_remembers_the_address(m: AppModel, ip: Ipv4)
    ensures
        bound(m, ip).bulb_ip == Some(ip),
        bound(m, ip).bulb_reachable,
        address_of(bound(m, ip).config.bulb_last_ip) == Some(ip),
        bound(m, ip).last_discovery == m.last_discovery,
        bound(m, ip).events == m.events && bound(m, ip).notices == m.notices,
        same_but_for_the_address(m, bound(m, ip)),
{
    address_round_trip(ip);
}

/// What is said of the steps of a search.
pub proof fn what_is_said_of_searches(
    m: AppModel,
    mac: Seq<char>,
    ip: Ipv4,
    e: BulbError,
    attempt: u32,
    bulbs: Seq<BulbModel>,
    why: Seq<char>,
    now: Moment,
)
    ensures
        after_cached(m, mac, ip, None, now).notices == m.notices.push(
            NoticeModel {
                level: EventLevel::Okay,
                message: "reconnected to cached bulb "@ + mac + " at "@ + dotted(ip),
            },
        ),
        after_cached(m, mac, ip, Some(e), now).notices == m.notices.push(
            NoticeModel {
                level: EventLevel::Inf,
                message: "cached IP "@ + dotted(ip) + " unreachable ("@ + e.message_spec()
                    + "), falling back to discovery"@,
            },
        ),
        after_discovery(m, mac, attempt, Err(why), now).notices == m.notices.push(
            NoticeModel {
                level: EventLevel::Wrn,
                message: "discovery failed (attempt "@ + decimal(attempt as nat) + "): "@ + why,
            },
        ),
        after_discovery(m, mac, attempt, Ok(bulbs), now).notices == m.notices.push(
            match bulb_with_mac(bulbs, mac) {
                Some(bulb) => NoticeModel {
                    level: EventLevel::Okay,
                    message: "found bulb "@ + bulb.mac + " at "@ + dotted(bulb.ip),
                },
                None => NoticeModel {
                    level: EventLevel::Wrn,
                    message: "configured bulb "@ + mac + " not found (attempt "@ + decimal(
                        attempt as nat,
                    ) + "/"@ + decimal(3) + "), "@ + decimal(bulbs.len())
                        + " other bulb(s) on LAN"@,
                },
            },
        ),
{
}

/// What came of a discovery is taken as it is: the bulbs, or the error in words.
pub proof fn discoveries_are_taken_as_they_are(r: Result<Vec<DiscoveredBulb>, BulbError>)
    ensures
        r matches Ok(bulbs) ==> discovery_result(r) == Ok::<Seq<BulbModel>, Seq<char>>(
            bulb_models(bulbs@),
        ),
        r matches Err(e) ==> discovery_result(r) == Err::<Seq<BulbModel>, Seq<char>>(
            e.message_spec(),
        ),
{
}

} // verus!
