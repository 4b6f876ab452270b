//! Presence values, trigger modes and colors.

use crate::text::chars_of;
use vstd::prelude::*;
use vstd::string::*;

verus! {

/// Normalized presence value across Windows / macOS / Linux Teams logs.
#[derive(Debug, Clone, Copy, PartialEq, Eq, Structural)]
pub enum Presence {
    Available,
    Busy,
    Away,
    BeRightBack,
    DoNotDisturb,
    Offline,
    Unknown,
}

impl Presence {
    /// Busy and DoNotDisturb are the presences of somebody in a call.
    pub open spec fn in_call(self) -> bool {
        self == Presence::Busy || self == Presence::DoNotDisturb
    }

    /// Every presence but Available, Offline and Unknown.
    pub open spec fn engaged(self) -> bool {
        self != Presence::Available && self != Presence::Offline && self != Presence::Unknown
    }

    /// The name of the variant.
    pub open spec fn name_spec(self) -> Seq<char> {
        match self {
            Presence::Available => "Available"@,
            Presence::Busy => "Busy"@,
            Presence::Away => "Away"@,
            Presence::BeRightBack => "BeRightBack"@,
            Presence::DoNotDisturb => "DoNotDisturb"@,
            Presence::Offline => "Offline"@,
            Presence::Unknown => "Unknown"@,
        }
    }

    /// The variant's name in lower case, as the status endpoint reports it.
    pub open spec fn status_spec(self) -> Seq<char> {
        match self {
            Presence::Available => "available"@,
            Presence::Busy => "busy"@,
            Presence::Away => "away"@,
            Presence::BeRightBack => "berightback"@,
            Presence::DoNotDisturb => "donotdisturb"@,
            Presence::Offline => "offline"@,
            Presence::Unknown => "unknown"@,
        }
    }

    /// True if this presence should turn the bulb on (call mode).
    pub fn is_in_call(self) -> (r: bool)
        ensures
            r == self.in_call(),
    {
        matches!(self, Presence::Busy | Presence::DoNotDisturb)
    }

    /// True for anything except Available, Offline, or Unknown.
    pub fn is_engaged(self) -> (r: bool)
        ensures
            r == self.engaged(),
    {
        !matches!(self, Presence::Available | Presence::Offline | Presence::Unknown)
    }

    /// The name of the variant, as it appears in event messages.
    pub fn name(self) -> (r: &'static str)
        ensures
            r@ == self.name_spec(),
    {
        match self {
            Presence::Available => "Available",
            Presence::Busy => "Busy",
            Presence::Away => "Away",
            Presence::BeRightBack => "BeRightBack",
            Presence::DoNotDisturb => "DoNotDisturb",
            Presence::Offline => "Offline",
            Presence::Unknown => "Unknown",
        }
    }

    /// The value of the `status` field of the status endpoint.
    pub fn status_text(self) -> (r: &'static str)
        ensures
            r@ == self.status_spec(),
    {
        match self {
            Presence::Available => "available",
            Presence::Busy => "busy",
            Presence::Away => "away",
            Presence::BeRightBack => "berightback",
            Presence::DoNotDisturb => "donotdisturb",
            Presence::Offline => "offline",
            Presence::Unknown => "unknown",
        }
    }
}

/// What presence state(s) should activate the bulb.
#[derive(Debug, Clone, Copy, PartialEq, Eq, Structural)]
pub enum TriggerMode {
    /// Only fire on explicit TeamsCallTracker call events (Windows).
    /// On macOS there is no call-tracker signal, so this behaves the same as
    /// `BusyAndDnd` (Busy is the only call indicator available in the log).
    CallOnly,
    /// Activate on Busy or DoNotDisturb, the default.
    BusyAndDnd,
    /// Activate on anything except Available, Offline, or Unknown.
    /// Catches Away, BeRightBack, Busy, and DoNotDisturb.
    AnyNonAvailable,
}

impl TriggerMode {
    /// The name of the variant.
    pub open spec fn name_spec(self) -> Seq<char> {
        match self {
            TriggerMode::CallOnly => "CallOnly"@,
            TriggerMode::BusyAndDnd => "BusyAndDnd"@,
            TriggerMode::AnyNonAvailable => "AnyNonAvailable"@,
        }
    }

    /// The name of the variant, as it appears in event messages.
    pub fn name(self) -> (r: &'static str)
        ensures
            r@ == self.name_spec(),
    {
        match self {
            TriggerMode::CallOnly => "CallOnly",
            TriggerMode::BusyAndDnd => "BusyAndDnd",
            TriggerMode::AnyNonAvailable => "AnyNonAvailable",
        }
    }
}

impl Default for TriggerMode {
    fn default() -> (r: Self)
        ensures
            r == TriggerMode::BusyAndDnd,
    {
        TriggerMode::BusyAndDnd
    }
}

/// RGB color (0-255 each).
#[derive(Debug, Clone, Copy, PartialEq, Eq, Structural)]
pub struct Rgb {
    pub r: u8,
    pub g: u8,
    pub b: u8,
}

// ---------------------------------------------------------------------------
// Hexadecimal notation
// ---------------------------------------------------------------------------

/// The value of an ASCII hexadecimal digit in either case.
pub open spec fn hex_value(c: char) -> Option<u8> {
    if '0' <= c && c <= '9' {
        Some((c as int - '0' as int) as u8)
    } else if 'A' <= c && c <= 'F' {
        Some((c as int - 'A' as int + 10) as u8)
    } else if 'a' <= c && c <= 'f' {
        Some((c as int - 'a' as int + 10) as u8)
    } else {
        None
    }
}

/// The value of a number of two hexadecimal digits.
pub open spec fn hex_pair(x: char, y: char) -> u8 {
    (hex_value(x)->Some_0 * 16 + hex_value(y)->Some_0) as u8
}

/// The text without a leading `#`, if it has one.
pub open spec fn without_hash(s: Seq<char>) -> Seq<char> {
    if s.len() > 0 && s[0] == '#' {
        s.skip(1)
    } else {
        s
    }
}

/// True for "RRGGBB": exactly six hexadecimal digits.
pub open spec fn is_rrggbb(d: Seq<char>) -> bool {
    d.len() == 6 && forall|i: int| 0 <= i < d.len() ==> hex_value(#[trigger] d[i]) is Some
}

/// The color that a text of the form "#RRGGBB" or "RRGGBB" denotes; no other
/// text denotes a color.
pub open spec fn color_of_hex(hex: Seq<char>) -> Option<Rgb> {
    let d = without_hash(hex);
    if is_rrggbb(d) {
        Some(Rgb { r: hex_pair(d[0], d[1]), g: hex_pair(d[2], d[3]), b: hex_pair(d[4], d[5]) })
    } else {
        None
    }
}

/// The upper-case hexadecimal digit of a value below sixteen.
pub open spec fn hex_char(d: int) -> char {
    if d < 10 {
        (0x30 + d) as char
    } else {
        (0x41 + d - 10) as char
    }
}

/// The `#RRGGBB` notation of a color.
pub open spec fn hex_of_color(c: Rgb) -> Seq<char> {
    seq![
        '#',
        hex_char(c.r as int / 16),
        hex_char(c.r as int % 16),
        hex_char(c.g as int / 16),
        hex_char(c.g as int % 16),
        hex_char(c.b as int / 16),
        hex_char(c.b as int % 16),
    ]
}

fn hex_value_of(c: char) -> (r: Option<u8>)
    ensures
        r == hex_value(c),
{
    if '0' <= c && c <= '9' {
        Some(c as u8 - 0x30)
    } else if 'A' <= c && c <= 'F' {
        Some(c as u8 - 0x41 + 10)
    } else if 'a' <= c && c <= 'f' {
        Some(c as u8 - 0x61 + 10)
    } else {
        None
    }
}

/// The value of two hexadecimal digits; none if one of them is not a digit.
fn hex_pair_of(x: char, y: char) -> (r: Option<u8>)
    ensures
        match r {
            Some(n) => hex_value(x) is Some && hex_value(y) is Some && n == hex_pair(x, y),
            None => hex_value(x) is None || hex_value(y) is None,
        },
{
    match (hex_value_of(x), hex_value_of(y)) {
        (Some(a), Some(b)) => Some(a * 16 + b),
        _ => None,
    }
}

fn hex_char_of(d: u8) -> (c: char)
    requires
        d < 16,
    ensures
        c == hex_char(d as int),
{
    if d < 10 {
        (0x30 + d) as char
    } else {
        (0x41 + d - 10) as char
    }
}

impl Rgb {
    pub fn new(r: u8, g: u8, b: u8) -> (c: Self)
        ensures
            c == (Rgb { r, g, b }),
    {
        Self { r, g, b }
    }

    /// Parse "#RRGGBB" or "RRGGBB" hex string.
    pub fn from_hex(hex: &str) -> (r: Option<Self>)
        ensures
            r == color_of_hex(hex@),
    {
        let v: Vec<char> = chars_of(hex);
        let k: usize = if v.len() > 0 && v[0] == '#' { 1 } else { 0 };
        let ghost d = without_hash(hex@);
        assert(d == v@.skip(k as int));
        if v.len() != k + 6 {
            return None;
        }
        match (
            hex_pair_of(v[k], v[k + 1]),
            hex_pair_of(v[k + 2], v[k + 3]),
            hex_pair_of(v[k + 4], v[k + 5]),
        ) {
            (Some(red), Some(green), Some(blue)) => {
                assert(is_rrggbb(d));
                Some(Self { r: red, g: green, b: blue })
            },
            _ => {
                assert(hex_value(d[0]) is None || hex_value(d[1]) is None || hex_value(d[2]) is None
                    || hex_value(d[3]) is None || hex_value(d[4]) is None || hex_value(d[5]) is None);
                None
            },
        }
    }

    /// The `#RRGGBB` notation, in upper case.
    pub fn to_hex(self) -> (s: String)
        ensures
            s@ == hex_of_color(self),
    {
        let mut s: String = String::new();
        s.push('#');
        s.push(hex_char_of(self.r / 16));
        s.push(hex_char_of(self.r % 16));
        s.push(hex_char_of(self.g / 16));
        s.push(hex_char_of(self.g % 16));
        s.push(hex_char_of(self.b / 16));
        s.push(hex_char_of(self.b % 16));
        assert(s@ =~= hex_of_color(self));
        s
    }
}

/// The hexadecimal notation of a color is read back as that color.
pub proof fn hex_round_trip(c: Rgb)
    ensures
        color_of_hex(hex_of_color(c)) == Some(c),
{
    let h = hex_of_color(c);
    let d = without_hash(h);
    assert(d =~= h.skip(1));
    assert forall|i: int| 0 <= i < d.len() implies hex_value(#[trigger] d[i]) is Some by {
        assert(d[i] == h[i + 1]);
    }
}

/// A leading `#` is optional: "#RRGGBB" and "RRGGBB" are read alike.
pub proof fn hash_is_optional(hex: Seq<char>)
    requires
        hex.len() == 0 || hex[0] != '#',
    ensures
        color_of_hex(seq!['#'] + hex) == color_of_hex(hex),
{
    assert((seq!['#'] + hex).skip(1) == hex);
}

/// A second leading `#` is no part of a color.
pub proof fn one_hash_at_most(hex: Seq<char>)
    ensures
        color_of_hex(seq!['#', '#'] + hex) is None,
{
    let d = without_hash(seq!['#', '#'] + hex);
    assert(d[0] == '#');
}

/// Different presences have different names, in either case.
pub proof fn names_are_distinct(a: Presence, b: Presence)
    ensures
        a.name_spec() == b.name_spec() <==> a == b,
        a.status_spec() == b.status_spec() <==> a == b,
{
    reveal_strlit("Available");
    reveal_strlit("Busy");
    reveal_strlit("Away");
    reveal_strlit("BeRightBack");
    reveal_strlit("DoNotDisturb");
    reveal_strlit("Offline");
    reveal_strlit("Unknown");
    reveal_strlit("available");
    reveal_strlit("busy");
    reveal_strlit("away");
    reveal_strlit("berightback");
    reveal_strlit("donotdisturb");
    reveal_strlit("offline");
    reveal_strlit("unknown");
    assert("Available"@.len() == 9 && "available"@.len() == 9);
    assert("Busy"@[0] == 'B' && "Away"@[0] == 'A' && "busy"@[0] == 'b' && "away"@[0] == 'a');
    assert("Busy"@.len() == 4 && "Away"@.len() == 4 && "busy"@.len() == 4 && "away"@.len() == 4);
    assert("BeRightBack"@.len() == 11 && "berightback"@.len() == 11);
    assert("DoNotDisturb"@.len() == 12 && "donotdisturb"@.len() == 12);
    assert("Offline"@[0] == 'O' && "Unknown"@[0] == 'U');
    assert("offline"@[0] == 'o' && "unknown"@[0] == 'u');
    assert("Offline"@.len() == 7 && "Unknown"@.len() == 7);
    assert("offline"@.len() == 7 && "unknown"@.len() == 7);
}

/// In a call are Busy and DoNotDisturb; engaged are these, Away and BeRightBack.
pub proof fn who_is_in_a_call_is_engaged(presence: Presence)
    ensures
        presence.in_call() ==> presence.engaged(),
        presence.engaged() && !presence.in_call() <==> (presence == Presence::Away || presence
            == Presence::BeRightBack),
        !presence.engaged() <==> (presence == Presence::Available || presence == Presence::Offline
            || presence == Presence::Unknown),
{
}

/// The value of a hexadecimal digit is its place among the sixteen, in either case
/// of letters; no other character has one.
pub proof fn digits_have_their_places(c: char, v: int)
    requires
        0 <= v < 16,
    ensures
        hex_value(c) == Some(v as u8) <==> (c == "0123456789ABCDEF"@[v] || c
            == "0123456789abcdef"@[v]),
{
    reveal_strlit("0123456789ABCDEF");
    reveal_strlit("0123456789abcdef");
}

/// Two digits per component, red first: each component is sixteen times its first
/// digit and its second one.
pub proof fn digits_of_a_color(hex: Seq<char>)
    requires
        hex.len() == 6,
    ensures
        color_of_hex(hex) matches Some(c) ==> {
            &&& forall|i: int| 0 <= i < 6 ==> hex_value(#[trigger] hex[i]) is Some
            &&& c.r == 16 * hex_value(hex[0])->Some_0 + hex_value(hex[1])->Some_0
            &&& c.g == 16 * hex_value(hex[2])->Some_0 + hex_value(hex[3])->Some_0
            &&& c.b == 16 * hex_value(hex[4])->Some_0 + hex_value(hex[5])->Some_0
        },
        (forall|i: int| 0 <= i < 6 ==> hex_value(#[trigger] hex[i]) is Some) ==> color_of_hex(
            hex,
        ) is Some,
{
    if color_of_hex(hex) is Some {
        assert(without_hash(hex) == hex);
    } else if forall|i: int| 0 <= i < 6 ==> hex_value(#[trigger] hex[i]) is Some {
        assert(hex_value(hex[0]) is Some);
        assert(without_hash(hex) == hex);
    }
}

/// The notation of a color is `#` and six digits, with capital letters.
pub proof fn notation_is_in_capitals(c: Rgb, i: int)
    requires
        1 <= i < 7,
    ensures
        hex_of_color(c).len() == 7,
        hex_of_color(c)[0] == '#',
        ('0' <= hex_of_color(c)[i] && hex_of_color(c)[i] <= '9') || ('A' <= hex_of_color(c)[i]
            && hex_of_color(c)[i] <= 'F'),
{
}

/// Each trigger mode is named in the log as it is called.
pub proof fn names_of_trigger_modes(mode: TriggerMode)
    ensures
        mode == TriggerMode::CallOnly ==> mode.name_spec() == "CallOnly"@,
        mode == TriggerMode::BusyAndDnd ==> mode.name_spec() == "BusyAndDnd"@,
        mode == TriggerMode::AnyNonAvailable ==> mode.name_spec() == "AnyNonAvailable"@,
{
}

} // verus!
