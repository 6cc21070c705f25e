//! Listening address of the planning service.

use crate::text::{chars_of, decimal, digit, is_digit, lemma_decimal, push_decimal};
use vstd::prelude::*;

verus! {

/// Port where none is set.
pub const DEFAULT_PORT: u16 = 8_000;

/// The number that a run of decimal digits stands for.
pub open spec fn value(s: Seq<char>) -> int
    decreases s.len(),
{
    if s.len() == 0 {
        0
    } else {
        value(s.drop_last()) * 10 + (s.last() as int - '0' as int)
    }
}

/// `s` without a leading plus sign.
pub open spec fn unsigned(s: Seq<char>) -> Seq<char> {
    if s.len() > 0 && s[0] == '+' {
        s.drop_first()
    } else {
        s
    }
}

/// The port that a text gives: one decimal digit or more, after at most one plus
/// sign, for a number of sixteen bits.
pub open spec fn port_of(s: Seq<char>) -> Option<int> {
    let d = unsigned(s);
    if d.len() > 0 && (forall|i: int| 0 <= i < d.len() ==> is_digit(#[trigger] d[i])) && value(d) <= u16::MAX {
        Some(value(d))
    } else {
        None
    }
}

proof fn lemma_value_grows(s: Seq<char>, n: int)
    requires
        0 <= n <= s.len(),
        forall|i: int| 0 <= i < s.len() ==> is_digit(#[trigger] s[i]),
    ensures
        0 <= value(s.take(n)) <= value(s),
    decreases s.len() - n,
{
    if n == s.len() {
        assert(s.take(n) =~= s);
        lemma_value_natural(s);
    } else {
        lemma_value_grows(s, n + 1);
        let longer = s.take(n + 1);
        assert(longer.drop_last() =~= s.take(n));
        assert(longer.last() == s[n]);
        assert(is_digit(s[n]));
        lemma_value_natural(s.take(n));
    }
}

proof fn lemma_value_natural(s: Seq<char>)
    requires
        forall|i: int| 0 <= i < s.len() ==> is_digit(#[trigger] s[i]),
    ensures
        0 <= value(s),
    decreases s.len(),
{
    if s.len() > 0 {
        let rest = s.drop_last();
        assert forall|i: int| 0 <= i < rest.len() implies is_digit(#[trigger] rest[i]) by {
            assert(is_digit(s[i]));
        }
        lemma_value_natural(rest);
        assert(is_digit(s[s.len() - 1]));
    }
}

/// Read a port.
pub fn parse_port(s: &str) -> (r: Option<u16>)
    ensures
        match r {
            Some(p) => port_of(s@) == Some(p as int),
            None => port_of(s@) is None,
        },
{
    let c: Vec<char> = chars_of(s);
    let start: usize = if c.len() > 0 && c[0] == '+' {
        1
    } else {
        0
    };
    let ghost d = unsigned(s@);
    assert(d.len() == c@.len() - start);
    assert(forall|i: int| 0 <= i < d.len() ==> d[i] == c@[i + start]);
    if c.len() == start {
        return None;
    }
    let mut n: u32 = 0;
    let mut i: usize = start;
    while i < c.len()
        invariant
            start <= i <= c@.len(),
            d.len() == c@.len() - start,
            d == unsigned(s@),
            forall|k: int| 0 <= k < d.len() ==> d[k] == c@[k + start],
            forall|k: int| 0 <= k < i - start ==> is_digit(#[trigger] d[k]),
            n == value(d.take(i - start)),
            n <= u16::MAX,
        decreases c@.len() - i,
    {
        let ghost k = i - start;
        if !('0' <= c[i] && c[i] <= '9') {
            assert(!is_digit(d[k]));
            return None;
        }
        let ghost longer = d.take(k + 1);
        assert(longer.drop_last() =~= d.take(k));
        assert(longer.last() == d[k]);
        n = n * 10 + (c[i] as u32 - '0' as u32);
        i = i + 1;
        assert(n == value(longer));
        if n > 65_535 {
            proof {
                if forall|j: int| 0 <= j < d.len() ==> is_digit(#[trigger] d[j]) {
                    lemma_value_grows(d, k + 1);
                }
            }
            return None;
        }
    }
    assert(d.take(d.len() as int) =~= d);
    Some(n as u16)
}

/// The address to listen on: the host, or the loopback address where none is
/// set, then a colon and the port, or the default where none can be read.
pub open spec fn address_of(host: Option<Seq<char>>, port: Option<Seq<char>>) -> Seq<char> {
    let h = match host {
        Some(h) => h,
        None => "127.0.0.1"@,
    };
    let p = match port {
        Some(p) => match port_of(p) {
            Some(n) => n,
            None => DEFAULT_PORT as int,
        },
        None => DEFAULT_PORT as int,
    };
    h.push(':') + decimal(p as nat)
}

pub open spec fn viewed(s: Option<&String>) -> Option<Seq<char>> {
    match s {
        Some(s) => Some(s@),
        None => None,
    }
}

/// The address to listen on, by the host and the port that are set.
pub fn listen_address(host: Option<&String>, port: Option<&String>) -> (r: String)
    ensures
        r@ == address_of(viewed(host), viewed(port)),
{
    let n: u16 = match port {
        Some(p) => match parse_port(p.as_str()) {
            Some(n) => n,
            None => DEFAULT_PORT,
        },
        None => DEFAULT_PORT,
    };
    let mut addr: String = String::new();
    match host {
        Some(h) => {
            addr.append(h.as_str());
        },
        None => {
            addr.append("127.0.0.1");
        },
    }
    addr.push(':');
    push_decimal(&mut addr, n as u64);
    assert(addr@ =~= address_of(viewed(host), viewed(port)));
    addr
}

/// A port is read back from its decimal notation.
pub proof fn port_round_trips(p: u16)
    ensures
        port_of(decimal(p as nat)) == Some(p as int),
{
    lemma_decimal(p as nat);
    lemma_value_of_decimal(p as nat);
    let d = decimal(p as nat);
    assert(is_digit(d[0]));
    assert(unsigned(d) == d);
}

proof fn lemma_value_of_decimal(n: nat)
    ensures
        value(decimal(n)) == n,
    decreases n,
{
    let d = decimal(n);
    assert(d.last() == digit((n % 10) as int));
    if n >= 10 {
        lemma_value_of_decimal(n / 10);
        assert(d.drop_last() =~= decimal(n / 10));
    } else {
        assert(d.drop_last() =~= seq![]);
        assert(value(d.drop_last()) == 0);
    }
}

/// A port may have a plus sign; one that needs more than sixteen bits is refused, and
/// so is a text without a digit or with anything else in it.
pub proof fn only_ports_are_read(n: nat, s: Seq<char>)
    ensures
        port_of(decimal(n)) == (if n <= 65_535 {
            Some(n as int)
        } else {
            None
        }),
        port_of(seq!['+'] + decimal(n)) == port_of(decimal(n)),
        s.len() == 0 ==> port_of(s) is None,
        s == seq!['+'] ==> port_of(s) is None,
        (exists|i: int| 0 < i < s.len() && !is_digit(#[trigger] s[i])) ==> port_of(s) is None,
        s.len() > 0 && s[0] != '+' && !is_digit(s[0]) ==> port_of(s) is None,
        port_of(s) matches Some(p) ==> 0 <= p <= 65_535,
{
    lemma_decimal(n);
    lemma_value_of_decimal(n);
    let d = decimal(n);
    assert(is_digit(d[0]));
    assert(unsigned(d) == d);
    let signed = seq!['+'] + d;
    assert(signed.drop_first() =~= d);
    if exists|i: int| 0 < i < s.len() && !is_digit(#[trigger] s[i]) {
        let i = choose|i: int| 0 < i < s.len() && !is_digit(#[trigger] s[i]);
        let u = unsigned(s);
        if s[0] == '+' {
            assert(u[i - 1] == s[i]);
        } else {
            assert(u[i] == s[i]);
        }
    }
    if s.len() > 0 && s[0] != '+' && !is_digit(s[0]) {
        assert(unsigned(s)[0] == s[0]);
    }
    if port_of(s) is Some {
        lemma_value_natural(unsigned(s));
    }
}

/// The address is the host set and the port set, with a colon between them. Without a
/// host it is the loopback address, and without a port that can be read it is port
/// 8000.
pub proof fn address_has_its_defaults(host: Seq<char>, port: Option<Seq<char>>, n: u16)
    ensures
        address_of(None, None) == "127.0.0.1:8000"@,
        address_of(Some(host), Some(decimal(n as nat))) == host + seq![':'] + decimal(n as nat),
        address_of(Some(host), None) == host + ":8000"@,
        (port matches Some(p) ==> port_of(p) is None) ==> address_of(Some(host), port) == address_of(
            Some(host),
            None,
        ),
        address_of(None, port) == address_of(Some("127.0.0.1"@), port),
{
    port_round_trips(n);
    reveal_strlit("127.0.0.1");
    reveal_strlit("127.0.0.1:8000");
    reveal_strlit(":8000");
    reveal_with_fuel(decimal, 5);
    assert(decimal(8_000) =~= seq!['8', '0', '0', '0']);
    assert(address_of(None, None) =~= "127.0.0.1:8000"@);
    assert(address_of(Some(host), None) =~= host + ":8000"@);
    assert(address_of(Some(host), Some(decimal(n as nat))) =~= host + seq![':'] + decimal(n as nat));
}

} // verus!
