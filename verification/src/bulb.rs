//! WiZ smart bulb protocol.
//!
//! WiZ bulbs speak a small JSON-over-UDP protocol on port 38899:
//! - Discovery is a broadcast `registration` request, bulbs reply with their MAC.
//! - `setPilot` controls state/color/brightness (unicast to the bulb's IP).
//! - `getPilot` reads the bulb's current state.
//!
//! This module writes the requests and judges the replies; sending and
//! receiving the datagrams is up to its caller.

use crate::json::Json;
use crate::models::Rgb;
use crate::net::Ipv4;
use crate::text::{ascii_lower, ascii_lower_text, chars_of, decimal, decimal_text, is_ascii_alphanumeric_spec, is_digit, optional_text, same_ignoring_case, same_text, to_ascii_lower};
use vstd::prelude::*;
use vstd::string::*;

verus! {

/// WiZ bulbs always listen on this UDP port.
pub const WIZ_PORT: u16 = 38899;

/// How long a reply to `setPilot` and `registration` is waited for.
pub const RESPONSE_TIMEOUT_SECS: u64 = 5;

/// How long a reply to `getPilot` is waited for.
pub const GET_PILOT_TIMEOUT_SECS: u64 = 2;

/// A bulb seen on the LAN during a discovery sweep.
#[derive(Debug)]
pub struct DiscoveredBulb {
    /// Lowercase MAC with no separators (e.g. `"a8bb50a4f94d"`).
    pub mac: String,
    /// IPv4 address the bulb replied from.
    pub ip: Ipv4,
    /// Module name reported by the bulb (e.g. `"ESP15_SHRGB1W_01I"`), if any.
    pub module: Option<String>,
}

/// The values of a [`DiscoveredBulb`].
#[verifier::ext_equal]
pub struct BulbModel {
    pub mac: Seq<char>,
    pub ip: Ipv4,
    pub module: Option<Seq<char>>,
}

impl View for DiscoveredBulb {
    type V = BulbModel;

    open spec fn view(&self) -> BulbModel {
        BulbModel { mac: self.mac@, ip: self.ip, module: optional_text(self.module) }
    }
}

/// The values of a sequence of bulbs.
pub open spec fn bulb_models(s: Seq<DiscoveredBulb>) -> Seq<BulbModel> {
    Seq::new(s.len(), |i: int| s[i]@)
}

impl Clone for DiscoveredBulb {
    /// A bulb with the same values.
    fn clone(&self) -> (r: Self)
        ensures
            r@ == self@,
    {
        Self {
            mac: self.mac.clone(),
            ip: self.ip,
            module: match &self.module {
                Some(m) => Some(m.clone()),
                None => None,
            },
        }
    }
}

/// Snapshot of a bulb's runtime state, as returned by `getPilot`.
#[derive(Debug, Clone, Copy, PartialEq, Eq, Structural)]
pub struct BulbState {
    /// `true` if the bulb is on.
    pub state: bool,
    pub r: u8,
    pub g: u8,
    pub b: u8,
    /// Brightness percentage, 10..=100.
    pub dimming: u8,
    /// Color temperature in Kelvin (0 if the bulb is in RGB mode).
    pub temp: u32,
    /// WiFi RSSI in dBm (closer to 0 = stronger).
    pub rssi: i32,
    /// Active scene id (0 = no scene).
    pub scene_id: u32,
}

/// What can go wrong in an exchange with a bulb.
#[derive(Debug)]
pub enum BulbError {
    Io(String),
    Json(String),
    Timeout,
    InvalidResponse(String),
}

impl BulbError {
    /// The error in words.
    pub open spec fn message_spec(self) -> Seq<char> {
        match self {
            BulbError::Io(e) => "io error: "@ + e@,
            BulbError::Json(e) => "json error: "@ + e@,
            BulbError::Timeout => "timeout waiting for bulb response"@,
            BulbError::InvalidResponse(what) => "invalid response: "@ + what@,
        }
    }

    /// The error in words.
    pub fn message(&self) -> (r: String)
        ensures
            r@ == self.message_spec(),
    {
        match self {
            BulbError::Io(e) => "io error: ".to_owned().concat(e.as_str()),
            BulbError::Json(e) => "json error: ".to_owned().concat(e.as_str()),
            BulbError::Timeout => "timeout waiting for bulb response".to_owned(),
            BulbError::InvalidResponse(what) => "invalid response: ".to_owned().concat(
                what.as_str(),
            ),
        }
    }
}

// ---------------------------------------------------------------------------
// MAC addresses
// ---------------------------------------------------------------------------

/// A MAC without its separators and in lower case.
pub open spec fn normalized_mac(raw: Seq<char>) -> Seq<char> {
    ascii_lower_text(raw.filter(|c: char| is_ascii_alphanumeric_spec(c)))
}

/// Keeps the ASCII letters and digits of a MAC, in lower case.
pub fn normalize_mac(raw: &str) -> (r: String)
    ensures
        r@ == normalized_mac(raw@),
{
    let v: Vec<char> = chars_of(raw);
    let mut r: String = String::new();
    let mut i: usize = 0;
    let ghost kept = |c: char| is_ascii_alphanumeric_spec(c);
    proof {
        reveal(Seq::filter);
        assert(v@.take(0).filter(kept) == Seq::<char>::empty());
        assert(r@ =~= ascii_lower_text(v@.take(0).filter(kept)));
    }
    while i < v.len()
        invariant
            v@ == raw@,
            i <= v@.len(),
            kept == (|c: char| is_ascii_alphanumeric_spec(c)),
            r@ == ascii_lower_text(v@.take(i as int).filter(kept)),
        decreases v@.len() - i,
    {
        let c: char = v[i];
        proof {
            reveal(Seq::filter);
            assert(v@.take(i + 1).drop_last() == v@.take(i as int));
            assert(v@.take(i + 1).last() == c);
        }
        if ('0' <= c && c <= '9') || ('a' <= c && c <= 'z') || ('A' <= c && c <= 'Z') {
            let ghost before = v@.take(i as int).filter(kept);
            assert(v@.take(i + 1).filter(kept) == before.push(c));
            assert(ascii_lower_text(before.push(c)) =~= ascii_lower_text(before).push(ascii_lower(c)));
            r.push(to_ascii_lower(c));
        }
        i = i + 1;
    }
    assert(v@.take(v@.len() as int) == v@);
    r
}

/// A normalized MAC consists of digits and small letters.
pub proof fn normalized_mac_is_plain(raw: Seq<char>, i: int)
    requires
        0 <= i < normalized_mac(raw).len(),
    ensures
        is_digit(normalized_mac(raw)[i]) || 'a' <= normalized_mac(raw)[i] <= 'z',
{
    let kept = |c: char| is_ascii_alphanumeric_spec(c);
    lemma_filter_keeps(raw, kept, i);
}

proof fn lemma_filter_keeps(s: Seq<char>, pred: spec_fn(char) -> bool, i: int)
    requires
        0 <= i < s.filter(pred).len(),
    ensures
        pred(s.filter(pred)[i]),
    decreases s.len(),
{
    reveal(Seq::filter);
    if i < s.drop_last().filter(pred).len() {
        lemma_filter_keeps(s.drop_last(), pred, i);
    }
}

proof fn lemma_filter_all(s: Seq<char>, pred: spec_fn(char) -> bool)
    requires
        forall|i: int| 0 <= i < s.len() ==> pred(#[trigger] s[i]),
    ensures
        s.filter(pred) == s,
    decreases s.len(),
{
    reveal(Seq::filter);
    if s.len() > 0 {
        assert(pred(s[s.len() - 1]));
        lemma_filter_all(s.drop_last(), pred);
        assert(s.drop_last().push(s.last()) == s);
    }
}

proof fn lemma_filter_concat(a: Seq<char>, b: Seq<char>, pred: spec_fn(char) -> bool)
    ensures
        (a + b).filter(pred) == a.filter(pred) + b.filter(pred),
    decreases b.len(),
{
    reveal(Seq::filter);
    if b.len() == 0 {
        assert(a + b == a);
        assert(a.filter(pred) + b.filter(pred) == a.filter(pred));
    } else {
        lemma_filter_concat(a, b.drop_last(), pred);
        assert((a + b).drop_last() == a + b.drop_last());
        assert((a + b).last() == b.last());
        assert((a + b).filter(pred) == a.filter(pred) + b.filter(pred));
    }
}

/// Normalizing a normalized MAC changes nothing.
pub proof fn normalizing_is_idempotent(raw: Seq<char>)
    ensures
        normalized_mac(normalized_mac(raw)) == normalized_mac(raw),
{
    let n = normalized_mac(raw);
    let kept = |c: char| is_ascii_alphanumeric_spec(c);
    assert forall|i: int| 0 <= i < n.len() implies kept(#[trigger] n[i]) && ascii_lower(n[i])
        == n[i] by {
        normalized_mac_is_plain(raw, i);
    }
    lemma_filter_all(n, kept);
    assert(ascii_lower_text(n) =~= n);
}

/// Separators between the parts of a MAC do not matter.
pub proof fn separators_are_ignored(a: Seq<char>, separator: char, b: Seq<char>)
    requires
        !is_ascii_alphanumeric_spec(separator),
    ensures
        normalized_mac(a + seq![separator] + b) == normalized_mac(a + b),
{
    let kept = |c: char| is_ascii_alphanumeric_spec(c);
    lemma_filter_concat(a + seq![separator], b, kept);
    lemma_filter_concat(a, seq![separator], kept);
    lemma_filter_concat(a, b, kept);
    assert(seq![separator].filter(kept) == Seq::<char>::empty()) by {
        reveal_with_fuel(Seq::filter, 2);
        assert(seq![separator].drop_last() == Seq::<char>::empty());
        assert(seq![separator].last() == separator);
    }
    assert(a.filter(kept) + Seq::<char>::empty() == a.filter(kept));
}

// ---------------------------------------------------------------------------
// Requests
// ---------------------------------------------------------------------------

/// The brightness that is sent for a wanted one. WiZ accepts 10..=100.
pub open spec fn clamped_dimming(dimming: u8) -> u8 {
    if dimming < 10 {
        10
    } else if dimming > 100 {
        100
    } else {
        dimming
    }
}

/// Brings a brightness into the range that WiZ accepts.
pub fn clamp_dimming(dimming: u8) -> (r: u8)
    ensures
        r == clamped_dimming(dimming),
        10 <= r <= 100,
{
    if dimming < 10 {
        10
    } else if dimming > 100 {
        100
    } else {
        dimming
    }
}

/// The request that turns a bulb on.
pub open spec fn color_request(color: Rgb, dimming: u8) -> Seq<char> {
    r#"{"method":"setPilot","params":{"state":true,"r":"#@ + decimal(color.r as nat) + r#","g":"#@
        + decimal(color.g as nat) + r#","b":"#@ + decimal(color.b as nat) + r#","dimming":"#@
        + decimal(clamped_dimming(dimming) as nat) + "}}"@
}

/// The request that turns a bulb off.
pub open spec fn off_request() -> Seq<char> {
    r#"{"method":"setPilot","params":{"state":false}}"#@
}

/// Writes the request that turns a bulb on with the given color and brightness,
/// which is brought into the range 10..=100.
pub fn set_pilot_color_request(color: Rgb, dimming: u8) -> (r: String)
    ensures
        r@ == color_request(color, dimming),
{
    let mut r: String = r#"{"method":"setPilot","params":{"state":true,"r":"#.to_owned();
    r.append(decimal_text(color.r as u64).as_str());
    r.append(r#","g":"#);
    r.append(decimal_text(color.g as u64).as_str());
    r.append(r#","b":"#);
    r.append(decimal_text(color.b as u64).as_str());
    r.append(r#","dimming":"#);
    r.append(decimal_text(clamp_dimming(dimming) as u64).as_str());
    r.append("}}");
    r
}

/// Writes the request that turns a bulb off.
pub fn set_pilot_off_request() -> (r: String)
    ensures
        r@ == off_request(),
{
    r#"{"method":"setPilot","params":{"state":false}}"#.to_owned()
}

/// Writes the request for a bulb's current state.
pub fn get_pilot_request() -> (r: String)
    ensures
        r@ == r#"{"method":"getPilot","params":{}}"#@,
{
    r#"{"method":"getPilot","params":{}}"#.to_owned()
}

/// Writes the request to which bulbs reply with their MAC.
pub fn registration_request() -> (r: String)
    ensures
        r@
            == r#"{"method":"registration","params":{"phoneMac":"AAAAAAAAAAAA","register":false,"phoneIp":"0.0.0.0"}}"#@,
{
    r#"{"method":"registration","params":{"phoneMac":"AAAAAAAAAAAA","register":false,"phoneIp":"0.0.0.0"}}"#.to_owned()
}

// ---------------------------------------------------------------------------
// Replies
// ---------------------------------------------------------------------------

/// The `result` of a reply, and its JSON text.
#[derive(Debug)]
pub struct WizResult {
    pub value: Json,
    pub text: String,
}

/// A bulb's reply: the JSON text of its `error` and its `result`, as far as
/// they are there.
#[derive(Debug)]
pub struct WizResponse {
    pub error: Option<String>,
    pub result: Option<WizResult>,
}

/// The outcome of an exchange: the text of the error, or the value.
pub open spec fn outcome<T>(r: Result<T, BulbError>) -> Result<T, Seq<char>> {
    match r {
        Ok(v) => Ok(v),
        Err(e) => Err(e.message_spec()),
    }
}

/// Why a reply has no usable result.
pub open spec fn refusal(reply: WizResponse) -> Option<Seq<char>> {
    match (reply.error, reply.result) {
        (Some(e), _) => Some("invalid response: "@ + ("bulb error: "@ + e@)),
        (None, None) => Some("invalid response: "@ + "missing 'result' field"@),
        (None, Some(_)) => None,
    }
}

/// The result of a reply.
pub fn accept(reply: WizResponse) -> (r: Result<WizResult, BulbError>)
    ensures
        match r {
            Ok(v) => refusal(reply) is None && reply.result == Some(v),
            Err(e) => e is InvalidResponse && refusal(reply) == Some(e.message_spec()),
        },
{
    if let Some(e) = reply.error {
        return Err(BulbError::InvalidResponse("bulb error: ".to_owned().concat(e.as_str())));
    }
    match reply.result {
        Some(v) => Ok(v),
        None => Err(BulbError::InvalidResponse("missing 'result' field".to_owned())),
    }
}

/// What a `setPilot` reply says. `{"success": true}` is the rule; only an
/// explicit `false` counts as a failure.
pub open spec fn set_pilot_spec(reply: WizResponse) -> Result<(), Seq<char>> {
    match refusal(reply) {
        Some(why) => Err(why),
        None => if reply.result->Some_0.value.bool_at("success"@) == Some(false) {
            Err("invalid response: "@ + ("setPilot success=false: "@ + reply.result->Some_0.text@))
        } else {
            Ok(())
        },
    }
}

/// Judges the reply to `setPilot`.
pub fn set_pilot_outcome(reply: WizResponse) -> (r: Result<(), BulbError>)
    ensures
        outcome(r) == set_pilot_spec(reply),
{
    match accept(reply) {
        Ok(result) => {
            if let Some(false) = result.value.get_bool("success") {
                return Err(
                    BulbError::InvalidResponse(
                        "setPilot success=false: ".to_owned().concat(result.text.as_str()),
                    ),
                );
            }
            Ok(())
        },
        Err(e) => Err(e),
    }
}

/// A number, but no more than a maximum; zero if it is not there.
pub open spec fn capped(n: Option<u64>, max: u8) -> u8 {
    match n {
        Some(n) => if n > max {
            max
        } else {
            n as u8
        },
        None => 0,
    }
}

/// The lowest 32 bits of a number; zero if it is not there.
pub open spec fn low_bits(n: Option<u64>) -> u32 {
    match n {
        Some(n) => (n as int % 0x1_0000_0000) as u32,
        None => 0,
    }
}

/// The number that the lowest 32 bits of a signed number denote; zero if it is
/// not there.
pub open spec fn low_signed_bits(n: Option<i64>) -> i32 {
    match n {
        Some(n) => ((n + 0x8000_0000) % 0x1_0000_0000 - 0x8000_0000) as i32,
        None => 0,
    }
}

/// The state in the result of a `getPilot` reply.
pub open spec fn state_of_result(v: Json, on: bool) -> BulbState {
    BulbState {
        state: on,
        r: capped(v.u64_at("r"@), 255),
        g: capped(v.u64_at("g"@), 255),
        b: capped(v.u64_at("b"@), 255),
        dimming: capped(v.u64_at("dimming"@), 100),
        temp: low_bits(v.u64_at("temp"@)),
        rssi: low_signed_bits(v.i64_at("rssi"@)),
        scene_id: low_bits(v.u64_at("sceneId"@)),
    }
}

/// What a `getPilot` reply says. A missing `state` is an error, other missing
/// fields count as zero.
pub open spec fn get_pilot_spec(reply: WizResponse) -> Result<BulbState, Seq<char>> {
    match refusal(reply) {
        Some(why) => Err(why),
        None => match reply.result->Some_0.value.bool_at("state"@) {
            Some(on) => Ok(state_of_result(reply.result->Some_0.value, on)),
            None => Err("invalid response: "@ + "missing 'state' field"@),
        },
    }
}

fn cap(n: Option<u64>, max: u8) -> (r: u8)
    ensures
        r == capped(n, max),
{
    match n {
        Some(n) => if n > max as u64 {
            max
        } else {
            n as u8
        },
        None => 0,
    }
}

fn truncate_unsigned(n: Option<u64>) -> (r: u32)
    ensures
        r == low_bits(n),
{
    match n {
        Some(n) => (n % 0x1_0000_0000) as u32,
        None => 0,
    }
}

fn truncate_signed(n: Option<i64>) -> (r: i32)
    ensures
        r == low_signed_bits(n),
{
    match n {
        Some(n) => {
            assert(n as i32 == (n + 0x8000_0000) % 0x1_0000_0000 - 0x8000_0000) by (bit_vector);
            n as i32
        },
        None => 0,
    }
}

/// Judges the reply to `getPilot` and reads the bulb's state from it.
pub fn get_pilot_outcome(reply: WizResponse) -> (r: Result<BulbState, BulbError>)
    ensures
        outcome(r) == get_pilot_spec(reply),
{
    match accept(reply) {
        Ok(result) => {
            let v: &Json = &result.value;
            match v.get_bool("state") {
                Some(on) => Ok(
                    BulbState {
                        state: on,
                        r: cap(v.get_u64("r"), 255),
                        g: cap(v.get_u64("g"), 255),
                        b: cap(v.get_u64("b"), 255),
                        dimming: cap(v.get_u64("dimming"), 100),
                        temp: truncate_unsigned(v.get_u64("temp")),
                        rssi: truncate_signed(v.get_i64("rssi")),
                        scene_id: truncate_unsigned(v.get_u64("sceneId")),
                    },
                ),
                None => Err(BulbError::InvalidResponse("missing 'state' field".to_owned())),
            }
        },
        Err(e) => Err(e),
    }
}

// ---------------------------------------------------------------------------
// Discovery
// ---------------------------------------------------------------------------

/// A network interface, as far as discovery cares.
#[derive(Debug, Clone, Copy, PartialEq, Eq, Structural)]
pub struct Interface {
    pub loopback: bool,
    /// The IPv4 broadcast address, if the interface has one.
    pub broadcast: Option<Ipv4>,
}

/// The broadcast addresses of the interfaces other than loopback ones, each
/// once, in the order of their first occurrence.
pub open spec fn broadcasts_of(ifs: Seq<Interface>) -> Seq<Ipv4>
    decreases ifs.len(),
{
    if ifs.len() == 0 {
        Seq::empty()
    } else {
        let before = broadcasts_of(ifs.drop_last());
        match ifs.last().broadcast {
            Some(ip) => if ifs.last().loopback || before.contains(ip) {
                before
            } else {
                before.push(ip)
            },
            None => before,
        }
    }
}

/// Collects the IPv4 broadcast addresses of every non-loopback interface.
///
/// Used to send subnet-directed broadcasts in addition to the limited
/// broadcast `255.255.255.255`. macOS in particular often drops limited
/// broadcasts or only emits them on the default-route interface, so
/// subnet-directed broadcasts are far more reliable.
pub fn local_broadcast_targets(ifs: &Vec<Interface>) -> (r: Vec<Ipv4>)
    ensures
        r@ == broadcasts_of(ifs@),
{
    let mut r: Vec<Ipv4> = Vec::new();
    let mut i: usize = 0;
    assert(ifs@.take(0) == Seq::<Interface>::empty());
    while i < ifs.len()
        invariant
            i <= ifs@.len(),
            r@ == broadcasts_of(ifs@.take(i as int)),
        decreases ifs@.len() - i,
    {
        proof {
            assert(ifs@.take(i + 1).drop_last() == ifs@.take(i as int));
            assert(ifs@.take(i + 1).last() == ifs@[i as int]);
        }
        if !ifs[i].loopback {
            if let Some(ip) = ifs[i].broadcast {
                if !address_listed(&r, ip) {
                    r.push(ip);
                }
            }
        }
        i = i + 1;
    }
    assert(ifs@.take(ifs@.len() as int) == ifs@);
    r
}

fn address_listed(v: &Vec<Ipv4>, ip: Ipv4) -> (r: bool)
    ensures
        r == v@.contains(ip),
{
    let mut i: usize = 0;
    while i < v.len()
        invariant
            i <= v@.len(),
            forall|j: int| 0 <= j < i ==> v@[j] != ip,
        decreases v@.len() - i,
    {
        if v[i] == ip {
            return true;
        }
        i = i + 1;
    }
    false
}

/// The addresses that the discovery request is sent to.
pub open spec fn targets_of(ifs: Seq<Interface>) -> Seq<Ipv4> {
    seq![Ipv4 { a: 255, b: 255, c: 255, d: 255 }] + broadcasts_of(ifs)
}

/// The discovery request goes to the limited broadcast first, and then to every
/// subnet of an interface other than loopback.
pub proof fn every_subnet_is_asked(ifs: Seq<Interface>, i: int)
    ensures
        ({
            let first = targets_of(ifs)[0];
            first.a == 255 && first.b == 255 && first.c == 255 && first.d == 255
        }),
        0 <= i < ifs.len() && !ifs[i].loopback && ifs[i].broadcast is Some ==> targets_of(
            ifs,
        ).contains(ifs[i].broadcast->Some_0),
        targets_of(ifs).len() <= ifs.len() + 1,
    decreases ifs.len(),
{
    if ifs.len() > 0 {
        every_subnet_is_asked(ifs.drop_last(), 0);
    }
    broadcasts_are_complete_and_distinct(ifs);
    if 0 <= i < ifs.len() && !ifs[i].loopback && ifs[i].broadcast is Some {
        let ip = ifs[i].broadcast->Some_0;
        assert(broadcasts_of(ifs).contains(ip));
        let k = choose|k: int| 0 <= k < broadcasts_of(ifs).len() && broadcasts_of(ifs)[k] == ip;
        assert(targets_of(ifs)[k + 1] == ip);
    }
}

/// Where the discovery request is sent to: the limited broadcast, and every
/// local interface's subnet broadcast.
pub fn discovery_targets(ifs: &Vec<Interface>) -> (r: Vec<Ipv4>)
    ensures
        r@ == seq![Ipv4 { a: 255, b: 255, c: 255, d: 255 }] + broadcasts_of(ifs@),
        r@ == targets_of(ifs@),
{
    let mut r: Vec<Ipv4> = Vec::new();
    r.push(Ipv4 { a: 255, b: 255, c: 255, d: 255 });
    let mut local: Vec<Ipv4> = local_broadcast_targets(ifs);
    r.append(&mut local);
    r
}

/// No address is among the local targets twice, and an address is among them
/// exactly if it is the broadcast address of an interface other than loopback.
pub proof fn broadcasts_are_complete_and_distinct(ifs: Seq<Interface>)
    ensures
        broadcasts_of(ifs).no_duplicates(),
        forall|ip: Ipv4| #[trigger]
            broadcasts_of(ifs).contains(ip) <==> exists|i: int|
                0 <= i < ifs.len() && !(#[trigger] ifs[i]).loopback && ifs[i].broadcast == Some(ip),
    decreases ifs.len(),
{
    if ifs.len() > 0 {
        let init = ifs.drop_last();
        let before = broadcasts_of(init);
        let after = broadcasts_of(ifs);
        let n = ifs.len() - 1;
        broadcasts_are_complete_and_distinct(init);
        assert forall|ip: Ipv4| #[trigger] after.contains(ip) implies exists|i: int|
            0 <= i < ifs.len() && !(#[trigger] ifs[i]).loopback && ifs[i].broadcast == Some(ip) by {
            if before.contains(ip) {
                let i = choose|i: int|
                    0 <= i < init.len() && !(#[trigger] init[i]).loopback && init[i].broadcast
                        == Some(ip);
                assert(ifs[i] == init[i]);
            } else {
                assert(ifs[n].broadcast == Some(ip));
            }
        }
        assert forall|ip: Ipv4|
            (exists|i: int|
                0 <= i < ifs.len() && !(#[trigger] ifs[i]).loopback && ifs[i].broadcast == Some(
                    ip,
                )) implies #[trigger] after.contains(ip) by {
            let i = choose|i: int|
                0 <= i < ifs.len() && !(#[trigger] ifs[i]).loopback && ifs[i].broadcast == Some(ip);
            if i < n {
                assert(init[i] == ifs[i]);
                assert(before.contains(ip));
                let k = choose|k: int| 0 <= k < before.len() && before[k] == ip;
                assert(after[k] == ip);
            } else if before.contains(ip) {
                assert(after == before);
            } else {
                assert(after[after.len() - 1] == ip);
            }
        }
    }
}

/// The bulb that a discovery reply announces, given the `result` of the reply;
/// none if the MAC is missing.
pub open spec fn announced(ip: Ipv4, result: Json) -> Option<BulbModel> {
    match result.text_at("mac"@) {
        Some(mac) => Some(
            BulbModel { mac: normalized_mac(mac), ip, module: result.text_at("moduleName"@) },
        ),
        None => None,
    }
}

/// True if one of the bulbs has the MAC.
pub open spec fn mac_known(bulbs: Seq<BulbModel>, mac: Seq<char>) -> bool {
    exists|i: int| 0 <= i < bulbs.len() && (#[trigger] bulbs[i]).mac == mac
}

/// The bulbs found so far after another reply. A bulb that replies twice stays
/// as it replied first.
pub open spec fn with_reply(found: Seq<BulbModel>, ip: Ipv4, result: Option<Json>) -> Seq<BulbModel> {
    match result {
        Some(v) => match announced(ip, v) {
            Some(bulb) => if mac_known(found, bulb.mac) {
                found
            } else {
                found.push(bulb)
            },
            None => found,
        },
        None => found,
    }
}

/// What became of a discovery reply.
#[derive(Debug, Clone, Copy, PartialEq, Eq, Structural)]
pub enum ReplyNote {
    /// The reply has no `result`.
    NoResult,
    /// The result has no MAC.
    NoMac,
    /// The bulb has replied before.
    Repeated,
    /// The bulb was added.
    Added,
}

/// The bulb that a reply announces.
pub fn announced_bulb(ip: Ipv4, result: &Json) -> (r: Option<DiscoveredBulb>)
    ensures
        match r {
            Some(b) => announced(ip, *result) == Some(b@),
            None => announced(ip, *result) is None,
        },
{
    match result.get_text("mac") {
        Some(mac) => Some(
            DiscoveredBulb {
                mac: normalize_mac(mac),
                ip,
                module: match result.get_text("moduleName") {
                    Some(m) => Some(m.to_owned()),
                    None => None,
                },
            },
        ),
        None => None,
    }
}

/// Takes in a reply to the discovery request, given its `result`.
pub fn note_reply(found: &mut Vec<DiscoveredBulb>, ip: Ipv4, result: &Option<Json>) -> (r: ReplyNote)
    ensures
        bulb_models(final(found)@) == with_reply(bulb_models(old(found)@), ip, *result),
        r == reply_note(bulb_models(old(found)@), ip, *result),
{
    let ghost before = bulb_models(found@);
    match result {
        Some(v) => match announced_bulb(ip, v) {
            Some(bulb) => {
                let ghost model = bulb@;
                let mut i: usize = 0;
                while i < found.len()
                    invariant
                        found@ == old(found)@,
                        before == bulb_models(found@),
                        model == bulb@,
                        i <= found@.len(),
                        *result == Some(*v),
                        announced(ip, *v) == Some(model),
                        forall|j: int| 0 <= j < i ==> (#[trigger] before[j]).mac != model.mac,
                    decreases found@.len() - i,
                {
                    assert(before[i as int].mac == found@[i as int].mac@);
                    if same_text(found[i].mac.as_str(), bulb.mac.as_str()) {
                        return ReplyNote::Repeated;
                    }
                    i = i + 1;
                }
                found.push(bulb);
                assert(bulb_models(found@) == before.push(model));
                ReplyNote::Added
            },
            None => ReplyNote::NoMac,
        },
        None => ReplyNote::NoResult,
    }
}

/// What came of listening for replies to the discovery request.
#[derive(Debug)]
pub enum Reception {
    /// A reply with its `result`, if any.
    Reply(Ipv4, Option<Json>),
    /// A reply that could not be parsed.
    Unparsable,
    /// A reply from an address that is no IPv4 address.
    OtherAddress,
    /// Nothing within the time that was left.
    Elapsed,
    /// The socket failed.
    Failed(String),
}

/// How a discovery goes on.
#[derive(Debug)]
pub enum Listening {
    /// Listen again. The note says what became of a reply that was heeded.
    Again(Option<ReplyNote>),
    /// The bulbs that were found are the result.
    Finished,
    /// The discovery fails.
    Broken(BulbError),
}

/// What becomes of a reply.
pub open spec fn reply_note(found: Seq<BulbModel>, ip: Ipv4, result: Option<Json>) -> ReplyNote {
    match result {
        Some(v) => match announced(ip, v) {
            Some(bulb) => if mac_known(found, bulb.mac) {
                ReplyNote::Repeated
            } else {
                ReplyNote::Added
            },
            None => ReplyNote::NoMac,
        },
        None => ReplyNote::NoResult,
    }
}

/// The bulbs found so far after listening.
pub open spec fn after_reception(found: Seq<BulbModel>, reception: Reception) -> Seq<BulbModel> {
    match reception {
        Reception::Reply(ip, result) => with_reply(found, ip, result),
        _ => found,
    }
}

/// Takes in what came of listening. A reply that cannot be used is passed over,
/// the end of the window finishes the discovery, and a failing socket breaks it.
pub fn take_reception(found: &mut Vec<DiscoveredBulb>, reception: Reception) -> (r: Listening)
    ensures
        bulb_models(final(found)@) == after_reception(bulb_models(old(found)@), reception),
        match reception {
            Reception::Reply(ip, result) => r == Listening::Again(
                Some(reply_note(bulb_models(old(found)@), ip, result)),
            ),
            Reception::Unparsable => r == Listening::Again(None),
            Reception::OtherAddress => r == Listening::Again(None),
            Reception::Elapsed => r == Listening::Finished,
            Reception::Failed(e) => r == Listening::Broken(BulbError::Io(e)),
        },
{
    match reception {
        Reception::Reply(ip, result) => Listening::Again(Some(note_reply(found, ip, &result))),
        Reception::Unparsable => Listening::Again(None),
        Reception::OtherAddress => Listening::Again(None),
        Reception::Elapsed => Listening::Finished,
        Reception::Failed(e) => Listening::Broken(BulbError::Io(e)),
    }
}

/// What is left until a deadline.
pub open spec fn left_until(deadline: u64, clock: u64) -> Option<u64> {
    if deadline > clock {
        Some((deadline - clock) as u64)
    } else {
        None
    }
}

/// A discovery listens until its deadline: what is left, and what has passed, add up
/// to it; at the deadline nothing is left.
pub proof fn windows_last_until_their_deadline(deadline: u64, clock: u64)
    ensures
        left_until(deadline, clock) is None <==> deadline <= clock,
        left_until(deadline, clock) matches Some(left) ==> left > 0 && clock + left == deadline,
{
}

/// How much of the window is left to listen in, in nanoseconds of the monotonic
/// clock; none if it has elapsed.
pub fn time_left(deadline: u64, clock: u64) -> (r: Option<u64>)
    ensures
        r == if clock < deadline {
            Some((deadline - clock) as u64)
        } else {
            None
        },
        r == left_until(deadline, clock),
{
    if clock < deadline {
        Some(deadline - clock)
    } else {
        None
    }
}

/// True if no two bulbs have the same MAC.
pub open spec fn distinct_macs(bulbs: Seq<BulbModel>) -> bool {
    forall|i: int, j: int|
        0 <= i < j < bulbs.len() ==> (#[trigger] bulbs[i]).mac != (#[trigger] bulbs[j]).mac
}

/// The bulbs found after a series of replies.
pub open spec fn with_replies(replies: Seq<(Ipv4, Option<Json>)>) -> Seq<BulbModel>
    decreases replies.len(),
{
    if replies.len() == 0 {
        Seq::empty()
    } else {
        with_reply(with_replies(replies.drop_last()), replies.last().0, replies.last().1)
    }
}

/// Whatever replies come in, each bulb is found once, and every bulb that
/// announced its MAC is found, at the address of its first reply.
pub proof fn each_bulb_is_found_once(replies: Seq<(Ipv4, Option<Json>)>)
    ensures
        distinct_macs(with_replies(replies)),
        forall|i: int|
            0 <= i < replies.len() && (#[trigger] replies[i]).1 is Some && announced(
                replies[i].0,
                replies[i].1->Some_0,
            ) is Some ==> mac_known(
                with_replies(replies),
                announced(replies[i].0, replies[i].1->Some_0)->Some_0.mac,
            ),
        forall|k: int|
            0 <= k < with_replies(replies).len() ==> announced_by_some(
                replies,
                #[trigger] with_replies(replies)[k],
            ),
    decreases replies.len(),
{
    if replies.len() > 0 {
        let init = replies.drop_last();
        let n = replies.len() - 1;
        each_bulb_is_found_once(init);
        let before = with_replies(init);
        let after = with_replies(replies);
        assert(after == before || after == before.push(after.last()));
        assert forall|m: Seq<char>| mac_known(before, m) implies #[trigger] mac_known(after, m) by {
            let k = choose|k: int| 0 <= k < before.len() && (#[trigger] before[k]).mac == m;
            assert(after[k].mac == m);
        }
        assert(distinct_macs(after)) by {
            assert forall|i: int, j: int| 0 <= i < j < after.len() implies (#[trigger] after[i]).mac
                != (#[trigger] after[j]).mac by {
                assert(before[i] == after[i]);
                if j < before.len() {
                    assert(before[j] == after[j]);
                }
            }
        }
        assert forall|i: int|
            0 <= i < replies.len() && (#[trigger] replies[i]).1 is Some && announced(
                replies[i].0,
                replies[i].1->Some_0,
            ) is Some implies mac_known(
            after,
            announced(replies[i].0, replies[i].1->Some_0)->Some_0.mac,
        ) by {
            if i < n {
                assert(init[i] == replies[i]);
            } else {
                let bulb = announced(replies[i].0, replies[i].1->Some_0)->Some_0;
                if !mac_known(before, bulb.mac) {
                    assert(after[after.len() - 1].mac == bulb.mac);
                }
            }
        }
        assert forall|k: int| 0 <= k < after.len() implies announced_by_some(
            replies,
            #[trigger] after[k],
        ) by {
            if k < before.len() {
                assert(after[k] == before[k]);
                assert(announced_by_some(init, before[k]));
                let i = choose|i: int| first_announcement(init, i, before[k]);
                assert(init[i] == replies[i]);
                assert forall|j: int| 0 <= j < i implies !announces_mac(
                    #[trigger] replies[j],
                    after[k].mac,
                ) by {
                    assert(init[j] == replies[j]);
                }
                assert(first_announcement(replies, i, after[k]));
            } else {
                assert forall|j: int| 0 <= j < n implies !announces_mac(
                    #[trigger] replies[j],
                    after[k].mac,
                ) by {
                    assert(init[j] == replies[j]);
                }
                assert(first_announcement(replies, n, after[k]));
            }
        }
    }
}

/// True if a reply announces a bulb with the MAC.
pub open spec fn announces_mac(reply: (Ipv4, Option<Json>), mac: Seq<char>) -> bool {
    reply.1 is Some && announced(reply.0, reply.1->Some_0) is Some && announced(
        reply.0,
        reply.1->Some_0,
    )->Some_0.mac == mac
}

/// True if reply `i` announces the bulb and no earlier one has its MAC.
pub open spec fn first_announcement(
    replies: Seq<(Ipv4, Option<Json>)>,
    i: int,
    bulb: BulbModel,
) -> bool {
    &&& 0 <= i < replies.len()
    &&& replies[i].1 is Some
    &&& announced(replies[i].0, replies[i].1->Some_0) == Some(bulb)
    &&& forall|j: int| 0 <= j < i ==> !announces_mac(#[trigger] replies[j], bulb.mac)
}

/// True if the bulb is as the first reply with its MAC announced it.
pub open spec fn announced_by_some(replies: Seq<(Ipv4, Option<Json>)>, bulb: BulbModel) -> bool {
    exists|i: int| first_announcement(replies, i, bulb)
}

/// The first bulb whose MAC is the given one up to the case of its letters.
pub open spec fn bulb_with_mac(bulbs: Seq<BulbModel>, mac: Seq<char>) -> Option<BulbModel>
    decreases bulbs.len(),
{
    if bulbs.len() == 0 {
        None
    } else if ascii_lower_text(bulbs.first().mac) == ascii_lower_text(mac) {
        Some(bulbs.first())
    } else {
        bulb_with_mac(bulbs.drop_first(), mac)
    }
}

/// Finds a bulb by its MAC.
pub fn find_bulb<'a>(bulbs: &'a Vec<DiscoveredBulb>, mac: &str) -> (r: Option<&'a DiscoveredBulb>)
    ensures
        match r {
            Some(b) => bulb_with_mac(bulb_models(bulbs@), mac@) == Some(b@),
            None => bulb_with_mac(bulb_models(bulbs@), mac@) is None,
        },
{
    let ghost models = bulb_models(bulbs@);
    let mut i: usize = 0;
    assert(models.skip(0) == models);
    while i < bulbs.len()
        invariant
            i <= bulbs@.len(),
            models == bulb_models(bulbs@),
            bulb_with_mac(models, mac@) == bulb_with_mac(models.skip(i as int), mac@),
        decreases bulbs@.len() - i,
    {
        proof {
            assert(models.skip(i as int).first() == bulbs@[i as int]@);
            assert(models.skip(i as int).drop_first() == models.skip(i + 1));
        }
        if same_ignoring_case(bulbs[i].mac.as_str(), mac) {
            return Some(&bulbs[i]);
        }
        i = i + 1;
    }
    None
}

/// What the reply to a unicast `registration` says: the bulb at the address, or
/// why there is none.
pub open spec fn probe_spec(ip: Ipv4, reply: WizResponse) -> Result<BulbModel, Seq<char>> {
    match refusal(reply) {
        Some(why) => Err(why),
        None => match announced(ip, reply.result->Some_0.value) {
            Some(bulb) => Ok(bulb),
            None => Err("invalid response: "@ + "missing 'mac' field"@),
        },
    }
}

/// Judges the reply to a `registration` that was sent to one address.
pub fn probe_outcome(ip: Ipv4, reply: WizResponse) -> (r: Result<DiscoveredBulb, BulbError>)
    ensures
        match r {
            Ok(b) => probe_spec(ip, reply) == Ok::<BulbModel, Seq<char>>(b@),
            Err(e) => probe_spec(ip, reply) == Err::<BulbModel, Seq<char>>(e.message_spec()),
        },
{
    match accept(reply) {
        Ok(result) => match announced_bulb(ip, &result.value) {
            Some(bulb) => Ok(bulb),
            None => Err(BulbError::InvalidResponse("missing 'mac' field".to_owned())),
        },
        Err(e) => Err(e),
    }
}

// ---------------------------------------------------------------------------
// Laws of requests
// ---------------------------------------------------------------------------

/// A brightness is sent as the nearest one that a bulb accepts.
pub proof fn brightness_is_the_nearest(dimming: u8, accepted: u8)
    requires
        10 <= accepted <= 100,
    ensures
        10 <= clamped_dimming(dimming) <= 100,
        10 <= dimming <= 100 ==> clamped_dimming(dimming) == dimming,
        ({
            let sent = clamped_dimming(dimming);
            let off = if sent >= dimming {
                sent - dimming
            } else {
                dimming - sent
            };
            off <= if accepted >= dimming {
                accepted - dimming
            } else {
                dimming - accepted
            }
        }),
{
}

/// The JSON text of a member.
pub open spec fn member_text(key: Seq<char>, value: Seq<char>) -> Seq<char> {
    seq!['"'] + key + seq!['"', ':'] + value
}

/// The JSON text of an object, given the texts of its values.
pub open spec fn object_text(members: Seq<(Seq<char>, Seq<char>)>) -> Seq<char> {
    seq!['{'] + members_text(members) + seq!['}']
}

/// The members of an object, with commas between them.
pub open spec fn members_text(members: Seq<(Seq<char>, Seq<char>)>) -> Seq<char>
    decreases members.len(),
{
    if members.len() == 0 {
        Seq::empty()
    } else if members.len() == 1 {
        member_text(members[0].0, members[0].1)
    } else {
        members_text(members.drop_last()) + seq![','] + member_text(
            members.last().0,
            members.last().1,
        )
    }
}

/// The JSON text of a request.
pub open spec fn request_text(method: Seq<char>, params: Seq<(Seq<char>, Seq<char>)>) -> Seq<char> {
    object_text(
        seq![
            ("method"@, seq!['"'] + method + seq!['"']),
            ("params"@, object_text(params)),
        ],
    )
}

proof fn lemma_request_text(method: Seq<char>, params: Seq<(Seq<char>, Seq<char>)>)
    ensures
        request_text(method, params) == seq!['{', '"', 'm', 'e', 't', 'h', 'o', 'd', '"', ':', '"']
            + method + seq!['"', ',', '"', 'p', 'a', 'r', 'a', 'm', 's', '"', ':', '{']
            + members_text(params) + seq!['}', '}'],
{
    reveal_strlit("method");
    reveal_strlit("params");
    reveal_with_fuel(members_text, 3);
    let members = seq![
        ("method"@, seq!['"'] + method + seq!['"']),
        ("params"@, object_text(params)),
    ];
    assert(members.drop_last() == seq![members[0]]);
    assert(request_text(method, params) =~= seq![
        '{',
        '"',
        'm',
        'e',
        't',
        'h',
        'o',
        'd',
        '"',
        ':',
        '"',
    ] + method + seq!['"', ',', '"', 'p', 'a', 'r', 'a', 'm', 's', '"', ':', '{'] + members_text(
        params,
    ) + seq!['}', '}']);
}

/// The parameters of a request that turns a bulb on.
pub open spec fn color_params(color: Rgb, dimming: nat) -> Seq<(Seq<char>, Seq<char>)> {
    seq![
        ("state"@, "true"@),
        ("r"@, decimal(color.r as nat)),
        ("g"@, decimal(color.g as nat)),
        ("b"@, decimal(color.b as nat)),
        ("dimming"@, decimal(dimming)),
    ]
}

proof fn lemma_color_params(color: Rgb, dimming: nat)
    ensures
        members_text(color_params(color, dimming)) == seq!['"', 's', 't', 'a', 't', 'e', '"', ':',
            't', 'r', 'u', 'e', ',', '"', 'r', '"', ':'] + decimal(color.r as nat) + seq![
            ',',
            '"',
            'g',
            '"',
            ':',
        ] + decimal(color.g as nat) + seq![',', '"', 'b', '"', ':'] + decimal(color.b as nat)
            + seq![',', '"', 'd', 'i', 'm', 'm', 'i', 'n', 'g', '"', ':'] + decimal(dimming),
{
    reveal_strlit("state");
    reveal_strlit("true");
    reveal_strlit("r");
    reveal_strlit("g");
    reveal_strlit("b");
    reveal_strlit("dimming");
    let all = color_params(color, dimming);
    let (r, g, b) = (decimal(color.r as nat), decimal(color.g as nat), decimal(color.b as nat));
    let one = seq![all[0]];
    let two = one.push(all[1]);
    let three = two.push(all[2]);
    let four = three.push(all[3]);
    assert(all =~= four.push(all[4]));
    assert(two.drop_last() =~= one);
    assert(three.drop_last() =~= two);
    assert(four.drop_last() =~= three);
    assert(all.drop_last() =~= four);
    let s1 = seq!['"', 's', 't', 'a', 't', 'e', '"', ':', 't', 'r', 'u', 'e'];
    assert(members_text(one) =~= s1);
    let s2 = seq!['"', 's', 't', 'a', 't', 'e', '"', ':', 't', 'r', 'u', 'e', ',', '"', 'r', '"',
        ':'] + r;
    assert(members_text(two) =~= s2);
    let s3 = s2 + seq![',', '"', 'g', '"', ':'] + g;
    assert(members_text(three) =~= s3);
    let s4 = s3 + seq![',', '"', 'b', '"', ':'] + b;
    assert(members_text(four) =~= s4);
    let s5 = s4 + seq![',', '"', 'd', 'i', 'm', 'm', 'i', 'n', 'g', '"', ':'] + decimal(dimming);
    assert(members_text(all) =~= s5);
}

/// A bulb is turned on by a `setPilot` request with its state, its color by
/// component, and its brightness.
pub proof fn bulbs_are_told_their_color(color: Rgb, dimming: u8)
    ensures
        color_request(color, dimming) == request_text(
            "setPilot"@,
            seq![
                ("state"@, "true"@),
                ("r"@, decimal(color.r as nat)),
                ("g"@, decimal(color.g as nat)),
                ("b"@, decimal(color.b as nat)),
                ("dimming"@, decimal(clamped_dimming(dimming) as nat)),
            ],
        ),
{
    let d = clamped_dimming(dimming) as nat;
    lemma_request_text("setPilot"@, color_params(color, d));
    lemma_color_params(color, d);
    reveal_strlit("setPilot");
    reveal_strlit(r#"{"method":"setPilot","params":{"state":true,"r":"#);
    reveal_strlit(r#","g":"#);
    reveal_strlit(r#","b":"#);
    reveal_strlit(r#","dimming":"#);
    reveal_strlit("}}");
    assert(r#","g":"#@ =~= seq![',', '"', 'g', '"', ':']);
    assert(r#","b":"#@ =~= seq![',', '"', 'b', '"', ':']);
    assert(r#","dimming":"#@ =~= seq![',', '"', 'd', 'i', 'm', 'm', 'i', 'n', 'g', '"', ':']);
    assert("}}"@ =~= seq!['}', '}']);
    let head = seq!['{', '"', 'm', 'e', 't', 'h', 'o', 'd', '"', ':', '"'] + "setPilot"@ + seq![
        '"',
        ',',
        '"',
        'p',
        'a',
        'r',
        'a',
        'm',
        's',
        '"',
        ':',
        '{',
    ];
    let first = seq!['"', 's', 't', 'a', 't', 'e', '"', ':', 't', 'r', 'u', 'e', ',', '"', 'r', '"',
        ':'];
    assert(r#"{"method":"setPilot","params":{"state":true,"r":"#@ =~= head + first);
    let (r, g, b) = (decimal(color.r as nat), decimal(color.g as nat), decimal(color.b as nat));
    let rest = first + r + r#","g":"#@ + g + r#","b":"#@ + b + r#","dimming":"#@ + decimal(d);
    assert(head + rest =~= head + first + r + r#","g":"#@ + g + r#","b":"#@ + b + r#","dimming":"#@
        + decimal(d));
    assert(color_request(color, dimming) =~= head + rest + "}}"@);
    assert(request_text("setPilot"@, color_params(color, d)) == color_request(color, dimming));
}

/// A bulb is turned off by a `setPilot` request with its state alone.
pub proof fn bulbs_are_told_to_be_off()
    ensures
        off_request() == request_text("setPilot"@, seq![("state"@, "false"@)]),
{
    let params = seq![("state"@, "false"@)];
    lemma_request_text("setPilot"@, params);
    reveal_strlit("setPilot");
    reveal_strlit("state");
    reveal_strlit("false");
    reveal_strlit(r#"{"method":"setPilot","params":{"state":false}}"#);
    assert(members_text(params) =~= seq!['"', 's', 't', 'a', 't', 'e', '"', ':', 'f', 'a', 'l', 's',
        'e']);
    assert(off_request() =~= request_text("setPilot"@, params));
}

// ---------------------------------------------------------------------------
// Laws of replies
// ---------------------------------------------------------------------------

/// True if a reply can be used: it tells of no error and has a result.
pub open spec fn is_usable(reply: WizResponse) -> bool {
    reply.error is None && reply.result is Some
}

/// A reply that tells of an error, or has no result, is refused whatever it was a
/// reply to; the error that it tells of comes first.
pub proof fn unusable_replies_are_refused(reply: WizResponse, ip: Ipv4)
    ensures
        refusal(reply) is None <==> is_usable(reply),
        !is_usable(reply) ==> set_pilot_spec(reply) is Err && get_pilot_spec(reply) is Err
            && probe_spec(ip, reply) is Err,
        reply.error matches Some(e) ==> refusal(reply) == Some(
            "invalid response: "@ + ("bulb error: "@ + e@),
        ),
{
}

/// A `setPilot` is taken as done, unless the reply says in so many words that it
/// was not.
pub proof fn commands_succeed_unless_denied(reply: WizResponse)
    requires
        is_usable(reply),
    ensures
        set_pilot_spec(reply) is Err <==> reply.result->Some_0.value.get_spec("success"@) == Some(
            Json::Bool(false),
        ),
{
}

/// The state of a bulb is read from the members of the reply: on or off, which has
/// to be there, and the numbers under the names of the protocol, each for itself.
/// A missing number counts as nothing; one that is out of range is cut to it.
pub proof fn states_are_read_by_name(reply: WizResponse, n: u64)
    requires
        is_usable(reply),
    ensures
        ({
            let v = reply.result->Some_0.value;
            let state = get_pilot_spec(reply);
            &&& state is Ok <==> v.bool_at("state"@) is Some
            &&& state matches Ok(s) ==> {
                &&& v.get_spec("state"@) == Some(Json::Bool(s.state))
                &&& v.get_spec("r"@) == Some(Json::Unsigned(n)) ==> s.r == if n < 255 {
                    n as int
                } else {
                    255
                }
                &&& v.get_spec("g"@) == Some(Json::Unsigned(n)) ==> s.g == if n < 255 {
                    n as int
                } else {
                    255
                }
                &&& v.get_spec("b"@) == Some(Json::Unsigned(n)) ==> s.b == if n < 255 {
                    n as int
                } else {
                    255
                }
                &&& v.get_spec("dimming"@) == Some(Json::Unsigned(n)) ==> s.dimming == if n < 100 {
                    n as int
                } else {
                    100
                }
                &&& v.get_spec("temp"@) == Some(Json::Unsigned(n)) && n <= u32::MAX ==> s.temp == n
                &&& v.get_spec("sceneId"@) == Some(Json::Unsigned(n)) && n <= u32::MAX
                    ==> s.scene_id == n
                &&& v.get_spec("temp"@) == Some(Json::Unsigned(n)) ==> (n - s.temp) % 0x1_0000_0000
                    == 0
                &&& v.get_spec("sceneId"@) == Some(Json::Unsigned(n)) ==> (n - s.scene_id)
                    % 0x1_0000_0000 == 0
                &&& v.get_spec("r"@) is None ==> s.r == 0
                &&& v.get_spec("g"@) is None ==> s.g == 0
                &&& v.get_spec("b"@) is None ==> s.b == 0
                &&& v.get_spec("dimming"@) is None ==> s.dimming == 0
                &&& v.get_spec("temp"@) is None ==> s.temp == 0
                &&& v.get_spec("sceneId"@) is None ==> s.scene_id == 0
                &&& v.get_spec("rssi"@) is None ==> s.rssi == 0
            }
        }),
{
}

/// The signal strength is read as it is, mostly a negative number.
pub proof fn signal_strength_is_read(reply: WizResponse, n: i32)
    requires
        is_usable(reply),
        get_pilot_spec(reply) is Ok,
    ensures
        reply.result->Some_0.value.get_spec("rssi"@) == Some(Json::Negative(n as i64))
            ==> get_pilot_spec(reply)->Ok_0.rssi == n,
        n >= 0 && reply.result->Some_0.value.get_spec("rssi"@) == Some(Json::Unsigned(n as u64))
            ==> get_pilot_spec(reply)->Ok_0.rssi == n,
{
}

/// A bulb that was told a color and a brightness, and reports what it was told,
/// reads back as on, with that color and that brightness.
pub proof fn told_colors_read_back(reply: WizResponse, color: Rgb, dimming: u8)
    requires
        is_usable(reply),
        reply.result->Some_0.value.get_spec("state"@) == Some(Json::Bool(true)),
        reply.result->Some_0.value.get_spec("r"@) == Some(Json::Unsigned(color.r as u64)),
        reply.result->Some_0.value.get_spec("g"@) == Some(Json::Unsigned(color.g as u64)),
        reply.result->Some_0.value.get_spec("b"@) == Some(Json::Unsigned(color.b as u64)),
        reply.result->Some_0.value.get_spec("dimming"@) == Some(
            Json::Unsigned(clamped_dimming(dimming) as u64),
        ),
    ensures
        get_pilot_spec(reply) matches Ok(s) && s.state && s.r == color.r && s.g == color.g && s.b
            == color.b && s.dimming == clamped_dimming(dimming),
{
}

// ---------------------------------------------------------------------------
// Laws of discovery
// ---------------------------------------------------------------------------

/// A MAC is normalized character by character: digits and small letters stay,
/// capital letters become small, and everything else goes.
pub proof fn macs_are_normalized_by_character(a: Seq<char>, c: char)
    ensures
        ('0' <= c && c <= '9') || ('a' <= c && c <= 'z') ==> normalized_mac(a.push(c))
            == normalized_mac(a).push(c),
        'A' <= c && c <= 'Z' ==> normalized_mac(a.push(c)) == normalized_mac(a).push(
            (c as int + 32) as char,
        ),
        !(('0' <= c && c <= '9') || ('a' <= c && c <= 'z') || ('A' <= c && c <= 'Z'))
            ==> normalized_mac(a.push(c)) == normalized_mac(a),
        normalized_mac(Seq::empty()).len() == 0,
{
    reveal(Seq::filter);
    let kept = |c: char| is_ascii_alphanumeric_spec(c);
    assert(a.push(c).drop_last() == a);
    assert(a.push(c).last() == c);
    if kept(c) {
        assert(a.push(c).filter(kept) == a.filter(kept).push(c));
        assert(ascii_lower_text(a.filter(kept).push(c)) =~= ascii_lower_text(a.filter(kept)).push(
            ascii_lower(c),
        ));
    }
}

/// A reply announces a bulb if its result holds a MAC: at the address that it came
/// from, with the MAC normalized and the module as it is named.
pub proof fn replies_announce_their_bulb(ip: Ipv4, result: Json)
    ensures
        announced(ip, result) is Some <==> result.get_spec("mac"@) matches Some(Json::Text(_)),
        announced(ip, result) matches Some(bulb) ==> {
            &&& bulb.ip == ip
            &&& result.get_spec("mac"@) matches Some(Json::Text(mac)) ==> bulb.mac
                == normalized_mac(mac@)
            &&& result.get_spec("moduleName"@) matches Some(Json::Text(module)) ==> bulb.module
                == Some(module@)
            &&& result.get_spec("moduleName"@) is None ==> bulb.module is None
        },
{
}

/// A bulb that is asked for itself answers as one that is discovered; without a MAC
/// it is refused.
pub proof fn probes_find_what_is_announced(ip: Ipv4, reply: WizResponse)
    requires
        is_usable(reply),
    ensures
        match announced(ip, reply.result->Some_0.value) {
            Some(bulb) => probe_spec(ip, reply) == Ok::<BulbModel, Seq<char>>(bulb),
            None => probe_spec(ip, reply) is Err,
        },
{
}

/// True if two MACs are the same but for the case of their letters.
pub open spec fn same_mac(a: Seq<char>, b: Seq<char>) -> bool {
    a.len() == b.len() && forall|i: int|
        0 <= i < a.len() ==> (#[trigger] a[i] == b[i] || ('A' <= a[i] && a[i] <= 'Z' && b[i] as int
            == a[i] as int + 32) || ('A' <= b[i] && b[i] <= 'Z' && a[i] as int == b[i] as int + 32))
}

/// A bulb is found by its MAC: the first one that has it, in either case of its
/// letters; none only if no bulb has it.
pub proof fn bulbs_are_found_by_mac(bulbs: Seq<BulbModel>, mac: Seq<char>, i: int)
    requires
        0 <= i <= bulbs.len(),
        forall|j: int| 0 <= j < i ==> !same_mac((#[trigger] bulbs[j]).mac, mac),
    ensures
        i == bulbs.len() ==> bulb_with_mac(bulbs, mac) is None,
        i < bulbs.len() && same_mac(bulbs[i].mac, mac) ==> bulb_with_mac(bulbs, mac) == Some(
            bulbs[i],
        ),
    decreases i,
{
    if bulbs.len() > 0 {
        lemma_same_mac(bulbs[0].mac, mac);
    }
    if i > 0 {
        assert(!same_mac(bulbs[0].mac, mac));
        let rest = bulbs.drop_first();
        assert forall|j: int| 0 <= j < i - 1 implies !same_mac((#[trigger] rest[j]).mac, mac) by {
            assert(rest[j] == bulbs[j + 1]);
        }
        bulbs_are_found_by_mac(rest, mac, i - 1);
    }
}

/// Two MACs are the same but for the case of their letters if and only if they are
/// the same in small letters.
pub proof fn lemma_same_mac(a: Seq<char>, b: Seq<char>)
    ensures
        same_mac(a, b) <==> ascii_lower_text(a) == ascii_lower_text(b),
{
    if same_mac(a, b) {
        assert forall|i: int| 0 <= i < a.len() implies ascii_lower(a[i]) == ascii_lower(b[i]) by {}
        assert(ascii_lower_text(a) =~= ascii_lower_text(b));
    }
    if ascii_lower_text(a) == ascii_lower_text(b) {
        assert(ascii_lower_text(a).len() == ascii_lower_text(b).len());
        assert forall|i: int| 0 <= i < a.len() implies (#[trigger] a[i] == b[i] || ('A' <= a[i]
            && a[i] <= 'Z' && b[i] as int == a[i] as int + 32) || ('A' <= b[i] && b[i] <= 'Z'
            && a[i] as int == b[i] as int + 32)) by {
            assert(ascii_lower_text(a)[i] == ascii_lower_text(b)[i]);
            lemma_lower(a[i], b[i]);
        }
    }
}

proof fn lemma_lower(x: char, y: char)
    requires
        ascii_lower(x) == ascii_lower(y),
    ensures
        x == y || ('A' <= x && x <= 'Z' && y as int == x as int + 32) || ('A' <= y && y <= 'Z'
            && x as int == y as int + 32),
{
}

/// What listening gives is heeded only if it is a reply; a reply changes nothing of
/// what was found before it.
pub proof fn only_replies_are_heeded(found: Seq<BulbModel>, reception: Reception)
    ensures
        ({
            let after = after_reception(found, reception);
            &&& reception !is Reply ==> after == found
            &&& after == found || after.drop_last() == found
            &&& reception matches Reception::Reply(ip, result) ==> {
                let bulb = match result {
                    Some(v) => announced(ip, v),
                    None => None,
                };
                let known = bulb is Some && exists|k: int|
                    0 <= k < found.len() && (#[trigger] found[k]).mac == bulb->Some_0.mac;
                &&& bulb is Some && !known ==> after == found.push(bulb->Some_0)
                &&& bulb is None || known ==> after == found
                &&& (reply_note(found, ip, result) == ReplyNote::Added) == (bulb is Some && !known)
                &&& (reply_note(found, ip, result) == ReplyNote::Repeated) == known
                &&& (reply_note(found, ip, result) == ReplyNote::NoResult) == (result is None)
            }
        }),
{
    if let Reception::Reply(ip, result) = reception {
        let after = after_reception(found, reception);
        if after != found {
            assert(after.drop_last() =~= found);
        }
    }
}

/// Every error says in words what went wrong, with what is known of it.
pub proof fn errors_say_what_went_wrong(e: BulbError)
    ensures
        e matches BulbError::Io(why) ==> e.message_spec() == "io error: "@ + why@,
        e matches BulbError::Json(why) ==> e.message_spec() == "json error: "@ + why@,
        e is Timeout ==> e.message_spec() == "timeout waiting for bulb response"@,
        e matches BulbError::InvalidResponse(what) ==> e.message_spec() == "invalid response: "@
            + what@,
{
}

/// The values of bulbs are those of each, in their order.
pub proof fn bulbs_keep_their_values(bulbs: Seq<DiscoveredBulb>, i: int)
    ensures
        bulb_models(bulbs).len() == bulbs.len(),
        0 <= i < bulbs.len() ==> {
            let b = bulb_models(bulbs)[i];
            b.mac == bulbs[i].mac@ && b.ip == bulbs[i].ip && b.module == optional_text(
                bulbs[i].module,
            )
        },
{
}

} // verus!
