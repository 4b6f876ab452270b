//! IPv4 addresses.

use crate::text::{all_digits, chars_of, decimal, decimal_round_trip, decimal_text, is_digit, lemma_decimal, parse_unsigned, parse_unsigned_spec, same_text, string_of};
use vstd::prelude::*;
use vstd::string::*;

verus! {

/// An IPv4 address, by its four octets.
#[derive(Debug, Clone, Copy, PartialEq, Eq, Structural)]
pub struct Ipv4 {
    pub a: u8,
    pub b: u8,
    pub c: u8,
    pub d: u8,
}

/// The dotted decimal notation of an address.
pub open spec fn dotted(ip: Ipv4) -> Seq<char> {
    decimal(ip.a as nat) + seq!['.'] + decimal(ip.b as nat) + seq!['.'] + decimal(ip.c as nat)
        + seq!['.'] + decimal(ip.d as nat)
}

/// The address that a text is the dotted decimal notation of.
pub open spec fn address_of(s: Seq<char>) -> Option<Ipv4> {
    if exists|ip: Ipv4| #[trigger] dotted(ip) == s {
        Some(choose|ip: Ipv4| #[trigger] dotted(ip) == s)
    } else {
        None
    }
}

/// The number of an octet, if the text is the decimal notation of one.
fn parse_octet(s: &str) -> (r: Option<u8>)
    ensures
        match r {
            Some(n) => decimal(n as nat) == s@,
            None => forall|n: u8| #[trigger] decimal(n as nat) != s@,
        },
{
    proof {
        assert forall|n: u8| #[trigger] decimal(n as nat) == s@ implies parse_unsigned_spec(
            s@,
            255,
        ) == Some(n as nat) by {
            decimal_round_trip(n as nat, 255);
        }
    }
    match parse_unsigned(s, 255) {
        Some(n) => {
            let canonical: String = decimal_text(n);
            if same_text(canonical.as_str(), s) {
                Some(n as u8)
            } else {
                None
            }
        },
        None => None,
    }
}

/// The index of the first dot at or after `from`.
fn find_dot(v: &Vec<char>, from: usize) -> (r: Option<usize>)
    requires
        from <= v@.len(),
    ensures
        match r {
            Some(i) => from <= i < v@.len() && v@[i as int] == '.' && forall|j: int|
                from <= j < i ==> v@[j] != '.',
            None => forall|j: int| from <= j < v@.len() ==> v@[j] != '.',
        },
{
    let mut i: usize = from;
    while i < v.len()
        invariant
            from <= i <= v@.len(),
            forall|j: int| from <= j < i ==> v@[j] != '.',
        decreases v@.len() - i,
    {
        if v[i] == '.' {
            return Some(i);
        }
        i = i + 1;
    }
    None
}

/// In a text `piece.rest` where the piece has no dot, the first dot ends the
/// piece.
proof fn lemma_first_dot(v: Seq<char>, from: int, piece: Seq<char>, rest: Seq<char>, at: int)
    requires
        0 <= from <= v.len(),
        v.skip(from) == piece + seq!['.'] + rest,
        all_digits(piece),
        from <= at < v.len(),
        v[at] == '.',
        forall|j: int| from <= j < at ==> v[j] != '.',
    ensures
        at == from + piece.len(),
        v.subrange(from, at) == piece,
        v.skip(at + 1) == rest,
{
    let t = piece + seq!['.'] + rest;
    lemma_has_dot(v, from, piece, rest);
    assert(v.len() - from == t.len());
    if at < from + piece.len() {
        assert(v.skip(from)[at - from] == piece[at - from]);
        assert(is_digit(piece[at - from]));
    }
    assert(v.subrange(from, at) =~= piece) by {
        assert forall|j: int| 0 <= j < piece.len() implies v.subrange(from, at)[j] == piece[j] by {
            assert(v.skip(from)[j] == t[j]);
        }
    }
    assert(v.skip(at + 1) =~= rest) by {
        assert forall|j: int| 0 <= j < rest.len() implies v.skip(at + 1)[j] == rest[j] by {
            assert(v.skip(from)[piece.len() + 1 + j] == t[piece.len() + 1 + j]);
        }
    }
}

/// A dotted notation has a dot after its first piece.
proof fn lemma_has_dot(v: Seq<char>, from: int, piece: Seq<char>, rest: Seq<char>)
    requires
        0 <= from <= v.len(),
        v.skip(from) == piece + seq!['.'] + rest,
    ensures
        from + piece.len() < v.len(),
        v[from + piece.len()] == '.',
{
    let t = piece + seq!['.'] + rest;
    assert(t.len() == piece.len() + 1 + rest.len());
    assert(v.skip(from).len() == v.len() - from);
    assert(t[piece.len() as int] == '.');
    assert(v.skip(from)[piece.len() as int] == v[from + piece.len()]);
}

impl Ipv4 {
    /// The dotted decimal notation of the address.
    pub fn to_text(self) -> (r: String)
        ensures
            r@ == dotted(self),
    {
        let mut r: String = decimal_text(self.a as u64);
        r.push('.');
        r.append(decimal_text(self.b as u64).as_str());
        r.push('.');
        r.append(decimal_text(self.c as u64).as_str());
        r.push('.');
        r.append(decimal_text(self.d as u64).as_str());
        assert(r@ =~= dotted(self));
        r
    }

    /// Reads an address. The texts that are read are exactly the dotted decimal
    /// notations of the addresses.
    pub fn parse(s: &str) -> (r: Option<Ipv4>)
        ensures
            r == address_of(s@),
    {
        let r: Option<Ipv4> = Ipv4::read_dotted(s);
        proof {
            if let Some(ip) = r {
                address_round_trip(ip);
            }
        }
        r
    }

    fn read_dotted(s: &str) -> (r: Option<Ipv4>)
        ensures
            match r {
                Some(ip) => dotted(ip) == s@,
                None => forall|ip: Ipv4| #[trigger] dotted(ip) != s@,
            },
    {
        let v: Vec<char> = chars_of(s);
        let n: usize = v.len();
        proof {
            assert(v@.skip(0) == v@);
            assert forall|ip: Ipv4| #[trigger] dotted(ip) == s@ implies v@.skip(0) == decimal(
                ip.a as nat,
            ) + seq!['.'] + (decimal(ip.b as nat) + seq!['.'] + (decimal(ip.c as nat) + seq!['.']
                + decimal(ip.d as nat))) by {
                assert(dotted(ip) =~= decimal(ip.a as nat) + seq!['.'] + (decimal(ip.b as nat)
                    + seq!['.'] + (decimal(ip.c as nat) + seq!['.'] + decimal(ip.d as nat))));
            }
        }
        let i: usize = match find_dot(&v, 0) {
            Some(i) => i,
            None => {
                proof {
                    assert forall|ip: Ipv4| #[trigger] dotted(ip) != s@ by {
                        if dotted(ip) == s@ {
                            lemma_has_dot(
                                v@,
                                0,
                                decimal(ip.a as nat),
                                decimal(ip.b as nat) + seq!['.'] + (decimal(ip.c as nat) + seq!['.']
                                    + decimal(ip.d as nat)),
                            );
                        }
                    }
                }
                return None;
            },
        };
        proof {
            assert forall|ip: Ipv4| #[trigger] dotted(ip) == s@ implies v@.subrange(0, i as int)
                == decimal(ip.a as nat) && v@.skip(i + 1) == decimal(ip.b as nat) + seq!['.'] + (
            decimal(ip.c as nat) + seq!['.'] + decimal(ip.d as nat)) by {
                lemma_decimal(ip.a as nat);
                lemma_first_dot(
                    v@,
                    0,
                    decimal(ip.a as nat),
                    decimal(ip.b as nat) + seq!['.'] + (decimal(ip.c as nat) + seq!['.'] + decimal(
                        ip.d as nat,
                    )),
                    i as int,
                );
            }
        }
        let j: usize = match find_dot(&v, i + 1) {
            Some(j) => j,
            None => {
                proof {
                    assert forall|ip: Ipv4| #[trigger] dotted(ip) != s@ by {
                        if dotted(ip) == s@ {
                            lemma_has_dot(
                                v@,
                                i + 1,
                                decimal(ip.b as nat),
                                decimal(ip.c as nat) + seq!['.'] + decimal(ip.d as nat),
                            );
                        }
                    }
                }
                return None;
            },
        };
        proof {
            assert forall|ip: Ipv4| #[trigger] dotted(ip) == s@ implies v@.subrange(
                i + 1,
                j as int,
            ) == decimal(ip.b as nat) && v@.skip(j + 1) == decimal(ip.c as nat) + seq!['.']
                + decimal(ip.d as nat) by {
                lemma_decimal(ip.b as nat);
                lemma_first_dot(
                    v@,
                    i + 1,
                    decimal(ip.b as nat),
                    decimal(ip.c as nat) + seq!['.'] + decimal(ip.d as nat),
                    j as int,
                );
            }
        }
        let k: usize = match find_dot(&v, j + 1) {
            Some(k) => k,
            None => {
                proof {
                    assert forall|ip: Ipv4| #[trigger] dotted(ip) != s@ by {
                        if dotted(ip) == s@ {
                            lemma_has_dot(v@, j + 1, decimal(ip.c as nat), decimal(ip.d as nat));
                        }
                    }
                }
                return None;
            },
        };
        proof {
            assert forall|ip: Ipv4| #[trigger] dotted(ip) == s@ implies v@.subrange(
                j + 1,
                k as int,
            ) == decimal(ip.c as nat) && v@.skip(k + 1) == decimal(ip.d as nat) by {
                lemma_decimal(ip.c as nat);
                lemma_first_dot(v@, j + 1, decimal(ip.c as nat), decimal(ip.d as nat), k as int);
            }
            assert(v@.skip(k + 1) == v@.subrange(k + 1, v@.len() as int));
        }
        let a: String = string_of(&v, 0, i);
        let b: String = string_of(&v, i + 1, j);
        let c: String = string_of(&v, j + 1, k);
        let d: String = string_of(&v, k + 1, n);
        match (
            parse_octet(a.as_str()),
            parse_octet(b.as_str()),
            parse_octet(c.as_str()),
            parse_octet(d.as_str()),
        ) {
            (Some(w), Some(x), Some(y), Some(z)) => {
                let ip: Ipv4 = Ipv4 { a: w, b: x, c: y, d: z };
                assert(dotted(ip) =~= v@);
                Some(ip)
            },
            _ => None,
        }
    }
}

/// Writing an address and reading it back gives the same address.
pub proof fn address_round_trip(ip: Ipv4)
    ensures
        address_of(dotted(ip)) == Some(ip),
{
    let found = choose|x: Ipv4| #[trigger] dotted(x) == dotted(ip);
    dotted_is_injective(found, ip);
}

/// An address is determined by its notation.
pub proof fn dotted_is_injective(x: Ipv4, y: Ipv4)
    requires
        dotted(x) == dotted(y),
    ensures
        x == y,
{
    let v = dotted(x);
    assert(v.skip(0) == v);
    let rest_x = decimal(x.b as nat) + seq!['.'] + (decimal(x.c as nat) + seq!['.'] + decimal(
        x.d as nat,
    ));
    let rest_y = decimal(y.b as nat) + seq!['.'] + (decimal(y.c as nat) + seq!['.'] + decimal(
        y.d as nat,
    ));
    assert(v =~= decimal(x.a as nat) + seq!['.'] + rest_x);
    assert(dotted(y) =~= decimal(y.a as nat) + seq!['.'] + rest_y);
    lemma_same_split(decimal(x.a as nat), rest_x, decimal(y.a as nat), rest_y, x.a, y.a);
    let tail_x = decimal(x.c as nat) + seq!['.'] + decimal(x.d as nat);
    let tail_y = decimal(y.c as nat) + seq!['.'] + decimal(y.d as nat);
    lemma_same_split(decimal(x.b as nat), tail_x, decimal(y.b as nat), tail_y, x.b, y.b);
    lemma_same_split(
        decimal(x.c as nat),
        decimal(x.d as nat),
        decimal(y.c as nat),
        decimal(y.d as nat),
        x.c,
        y.c,
    );
    lemma_decimal(x.d as nat);
    lemma_decimal(y.d as nat);
}

/// Two texts that begin with a number and a dot agree in the number and in what
/// follows it.
proof fn lemma_same_split(p: Seq<char>, r: Seq<char>, q: Seq<char>, t: Seq<char>, m: u8, n: u8)
    requires
        p == decimal(m as nat),
        q == decimal(n as nat),
        p + seq!['.'] + r == q + seq!['.'] + t,
    ensures
        m == n,
        r == t,
{
    let v = q + seq!['.'] + t;
    lemma_decimal(m as nat);
    lemma_decimal(n as nat);
    assert(v.skip(0) == v);
    let at = q.len() as int;
    assert(v[at] == '.');
    assert forall|j: int| 0 <= j < at implies v[j] != '.' by {
        assert(v[j] == q[j]);
        assert(is_digit(q[j]));
    }
    lemma_first_dot(v, 0, p, r, at);
    lemma_first_dot(v, 0, q, t, at);
}

/// An address is written as its four numbers with dots between them, and a text is
/// an address if and only if it is so written.
pub proof fn addresses_are_written_with_dots(ip: Ipv4, s: Seq<char>)
    ensures
        dotted(ip) == decimal(ip.a as nat) + "."@ + decimal(ip.b as nat) + "."@ + decimal(
            ip.c as nat,
        ) + "."@ + decimal(ip.d as nat),
        address_of(s) == Some(ip) <==> s == dotted(ip),
{
    reveal_strlit(".");
    assert("."@ =~= seq!['.']);
    address_round_trip(ip);
}

} // verus!
