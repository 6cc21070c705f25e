//! Multi-flyby trajectory search: decision-vector layouts, leg bookkeeping,
//! connection choice and diagnostics.

use crate::scalar::{lemma_powers_of_two, lit, Scalar};
use crate::selection::{best_choice, leader, leader_is_first_minimum};
use crate::text::{
    chars_of, decimal, free_of, joined, lemma_decimal, lines, lines_of, pieces, pieces_of, push_decimal,
    push_joined, splitting_undoes_joining, string_of, string_views, trim, trimmed, two_lines_are_two, views,
};
use vstd::prelude::*;

verus! {

/// Values of a five-leg decision vector.
pub const CASSINI2_LEN: usize = 22;

/// 1 m/s, below which a deep-space manoeuvre counts as none.
pub const BALLISTIC_MS: u64 = 0x3FF0_0000_0000_0000;

/// 1, the primer-vector bound.
pub const PRIMER_BOUND: u64 = 0x3FF0_0000_0000_0000;

/// 5 m/s, above which an improvement is real.
pub const MIN_REAL_IMPROVEMENT_MS: u64 = 0x4014_0000_0000_0000;

/// 1e-4, below which two seeds coincide.
pub const SEED_GAP: u64 = 0x3F1A_36E2_EB1C_432D;

/// 0.3, the relative error allowed to a moon's distance.
pub const MOON_TOLERANCE: u64 = 0x3FD3_3333_3333_3333;

/// 400 days, the shortest resonant leg.
pub const MIN_RESONANT_DAYS: u64 = 0x4079_0000_0000_0000;

/// 1000 days, the longest resonant leg.
pub const MAX_RESONANT_DAYS: u64 = 0x408F_4000_0000_0000;

/// 1e-9, the sine of the smallest turn with a plane.
pub const MIN_SIN_TURN: u64 = 0x3E11_2E0B_E826_D695;

/// 0.9, the largest alignment of a reference axis with the approach.
pub const MAX_AXIS_ALIGNMENT: u64 = 0x3FEC_CCCC_CCCC_CCCD;

/// Decision vector of the Earth-Venus-Venus-Earth-Jupiter-Saturn problem.
#[derive(Clone, Copy, Debug)]
pub struct Cassini2 {
    pub t0: Scalar,
    pub vinf: Scalar,
    pub u: Scalar,
    pub v: Scalar,
    /// Time of flight and manoeuvre fraction per leg.
    pub tof: [Scalar; 5],
    pub eta: [Scalar; 5],
    /// Periapsis radius and plane angle per flyby.
    pub rp: [Scalar; 4],
    pub beta: [Scalar; 4],
}

/// Grouped layout: launch, then all times of flight, all fractions, all radii
/// and all angles.
pub open spec fn grouped(c: Cassini2) -> Seq<Scalar> {
    seq![c.t0, c.vinf, c.u, c.v] + c.tof@ + c.eta@ + c.rp@ + c.beta@
}

/// Interleaved layout: launch, then time of flight and fraction leg by leg, and
/// radius and angle flyby by flyby; what follows is not read.
pub open spec fn interleaves(p: Seq<Scalar>, c: Cassini2) -> bool {
    &&& p.len() >= CASSINI2_LEN
    &&& p[0] == c.t0 && p[1] == c.vinf && p[2] == c.u && p[3] == c.v
    &&& forall|k: int| 0 <= k < 5 ==> p[4 + 2 * k] == (#[trigger] c.tof@[k])
    &&& forall|k: int| 0 <= k < 5 ==> p[5 + 2 * k] == (#[trigger] c.eta@[k])
    &&& forall|k: int| 0 <= k < 4 ==> p[14 + 2 * k] == (#[trigger] c.rp@[k])
    &&& forall|k: int| 0 <= k < 4 ==> p[15 + 2 * k] == (#[trigger] c.beta@[k])
}

/// Read a grouped decision vector; `None` unless it has its exact length.
pub fn decode_grouped(x: &Vec<Scalar>) -> (r: Option<Cassini2>)
    ensures
        match r {
            Some(c) => x@ == grouped(c),
            None => x@.len() != CASSINI2_LEN,
        },
{
    if x.len() != CASSINI2_LEN {
        return None;
    }
    let c: Cassini2 = Cassini2 {
        t0: x[0],
        vinf: x[1],
        u: x[2],
        v: x[3],
        tof: [x[4], x[5], x[6], x[7], x[8]],
        eta: [x[9], x[10], x[11], x[12], x[13]],
        rp: [x[14], x[15], x[16], x[17]],
        beta: [x[18], x[19], x[20], x[21]],
    };
    assert(x@ =~= grouped(c));
    Some(c)
}

/// Read an interleaved decision vector; `None` where it is too short.
pub fn decode_interleaved(p: &Vec<Scalar>) -> (r: Option<Cassini2>)
    ensures
        match r {
            Some(c) => interleaves(p@, c),
            None => p@.len() < CASSINI2_LEN,
        },
{
    if p.len() < CASSINI2_LEN {
        return None;
    }
    Some(
        Cassini2 {
            t0: p[0],
            vinf: p[1],
            u: p[2],
            v: p[3],
            tof: [p[4], p[6], p[8], p[10], p[12]],
            eta: [p[5], p[7], p[9], p[11], p[13]],
            rp: [p[14], p[16], p[18], p[20]],
            beta: [p[15], p[17], p[19], p[21]],
        },
    )
}

/// Write a decision vector in the grouped layout.
pub fn encode_grouped(c: &Cassini2) -> (r: Vec<Scalar>)
    ensures
        r@ == grouped(*c),
        r@.len() == CASSINI2_LEN,
{
    let v: Vec<Scalar> = vec![
        c.t0,
        c.vinf,
        c.u,
        c.v,
        c.tof[0],
        c.tof[1],
        c.tof[2],
        c.tof[3],
        c.tof[4],
        c.eta[0],
        c.eta[1],
        c.eta[2],
        c.eta[3],
        c.eta[4],
        c.rp[0],
        c.rp[1],
        c.rp[2],
        c.rp[3],
        c.beta[0],
        c.beta[1],
        c.beta[2],
        c.beta[3],
    ];
    assert(v@ =~= grouped(*c));
    v
}

/// The pairs one after the other.
pub open spec fn flat(pairs: Seq<(Scalar, Scalar)>) -> Seq<Scalar> {
    Seq::new(
        2 * pairs.len(),
        |i: int|
            if i % 2 == 0 {
                pairs[i / 2].0
            } else {
                pairs[i / 2].1
            },
    )
}

fn push_pairs(out: &mut Vec<Scalar>, pairs: &Vec<(Scalar, Scalar)>)
    ensures
        final(out)@ == old(out)@ + flat(pairs@),
{
    let ghost start = out@;
    let mut i: usize = 0;
    assert(flat(pairs@).take(0) =~= seq![]);
    while i < pairs.len()
        invariant
            i <= pairs@.len(),
            out@ == start + flat(pairs@).take(2 * i),
        decreases pairs@.len() - i,
    {
        let p: (Scalar, Scalar) = pairs[i];
        out.push(p.0);
        out.push(p.1);
        i = i + 1;
        assert(out@ =~= start + flat(pairs@).take(2 * i));
    }
    assert(out@ =~= start + flat(pairs@));
}

/// Write a decision vector of any number of legs in the interleaved layout:
/// launch, then time of flight and fraction of each leg, then radius and angle
/// of each flyby.
pub fn encode_interleaved(
    launch: [Scalar; 4],
    legs: &Vec<(Scalar, Scalar)>,
    flybys: &Vec<(Scalar, Scalar)>,
) -> (r: Vec<Scalar>)
    ensures
        r@ == launch@ + flat(legs@) + flat(flybys@),
{
    let mut out: Vec<Scalar> = vec![launch[0], launch[1], launch[2], launch[3]];
    assert(out@ =~= launch@);
    push_pairs(&mut out, legs);
    push_pairs(&mut out, flybys);
    out
}

/// The interleaved layout gives back what was written in it.
pub proof fn interleaved_layout_is_read_back(
    c: Cassini2,
    launch: Seq<Scalar>,
    legs: Seq<(Scalar, Scalar)>,
    flybys: Seq<(Scalar, Scalar)>,
)
    requires
        launch == seq![c.t0, c.vinf, c.u, c.v],
        legs.len() == 5,
        forall|k: int| 0 <= k < 5 ==> (#[trigger] legs[k]) == (c.tof@[k], c.eta@[k]),
        flybys.len() == 4,
        forall|k: int| 0 <= k < 4 ==> (#[trigger] flybys[k]) == (c.rp@[k], c.beta@[k]),
    ensures
        interleaves(launch + flat(legs) + flat(flybys), c),
{
    let p = launch + flat(legs) + flat(flybys);
    assert forall|k: int| 0 <= k < 5 implies p[4 + 2 * k] == (#[trigger] c.tof@[k]) && p[5 + 2 * k]
        == c.eta@[k] by {
        assert(p[4 + 2 * k] == flat(legs)[2 * k] && p[5 + 2 * k] == flat(legs)[2 * k + 1]);
        assert(legs[k] == (c.tof@[k], c.eta@[k]));
    }
    assert forall|k: int| 0 <= k < 5 implies p[5 + 2 * k] == (#[trigger] c.eta@[k]) by {
        assert(c.tof@[k] == p[4 + 2 * k]);
    }
    assert forall|k: int| 0 <= k < 4 implies p[14 + 2 * k] == (#[trigger] c.rp@[k]) && p[15 + 2 * k]
        == c.beta@[k] by {
        assert(p[14 + 2 * k] == flat(flybys)[2 * k] && p[15 + 2 * k] == flat(flybys)[2 * k + 1]);
        assert(flybys[k] == (c.rp@[k], c.beta@[k]));
    }
    assert forall|k: int| 0 <= k < 4 implies p[15 + 2 * k] == (#[trigger] c.beta@[k]) by {
        assert(c.rp@[k] == p[14 + 2 * k]);
    }
}

/// Convert a decision vector between the two conventions: the departure and
/// the flyby angles are re-expressed, everything else carries over.
pub fn convert_seed(
    c: &Cassini2,
    t0: Scalar,
    vinf: Scalar,
    u: Scalar,
    v: Scalar,
    beta: [Scalar; 4],
) -> (r: Cassini2)
    ensures
        r == (Cassini2 { t0, vinf, u, v, beta, ..*c }),
{
    Cassini2 { t0, vinf, u, v, tof: c.tof, eta: c.eta, rp: c.rp, beta }
}

/// Two decision vectors with the same grouped layout are the same, so that
/// reading what was written gives it back.
pub proof fn grouped_layout_is_faithful(a: Cassini2, b: Cassini2)
    requires
        grouped(a) == grouped(b),
    ensures
        a.t0 == b.t0,
        a.vinf == b.vinf,
        a.u == b.u,
        a.v == b.v,
        a.tof@ == b.tof@,
        a.eta@ == b.eta@,
        a.rp@ == b.rp@,
        a.beta@ == b.beta@,
{
    let (x, y) = (grouped(a), grouped(b));
    assert(x[0] == y[0] && x[1] == y[1] && x[2] == y[2] && x[3] == y[3]);
    assert forall|k: int| 0 <= k < 5 implies a.tof@[k] == b.tof@[k] by {
        assert(x[4 + k] == y[4 + k]);
    }
    assert forall|k: int| 0 <= k < 5 implies a.eta@[k] == b.eta@[k] by {
        assert(x[9 + k] == y[9 + k]);
    }
    assert forall|k: int| 0 <= k < 4 implies a.rp@[k] == b.rp@[k] by {
        assert(x[14 + k] == y[14 + k]);
    }
    assert forall|k: int| 0 <= k < 4 implies a.beta@[k] == b.beta@[k] by {
        assert(x[18 + k] == y[18 + k]);
    }
    assert(a.tof@ =~= b.tof@);
    assert(a.eta@ =~= b.eta@);
    assert(a.rp@ =~= b.rp@);
    assert(a.beta@ =~= b.beta@);
}

/// Bodies of the encounter sequence.
#[derive(Clone, Copy, Debug, PartialEq, Eq, Structural)]
pub enum Body {
    Venus,
    Earth,
    Jupiter,
    Saturn,
}

/// The encounter sequence, launch first.
pub open spec fn encounter(k: int) -> Body {
    if k == 1 || k == 2 {
        Body::Venus
    } else if k == 4 {
        Body::Jupiter
    } else if k == 5 {
        Body::Saturn
    } else {
        Body::Earth
    }
}

/// The body that leg `k` arrives at.
pub fn leg_target(k: usize) -> (r: Body)
    requires
        k < 5,
    ensures
        r == encounter(k + 1),
{
    match k {
        0 => Body::Venus,
        1 => Body::Venus,
        2 => Body::Earth,
        3 => Body::Jupiter,
        _ => Body::Saturn,
    }
}

/// The flyby that follows leg `k`, if it is not the last.
pub fn flyby_after(k: usize) -> (r: Option<usize>)
    requires
        k < 5,
    ensures
        r == (if k < 4 {
            Some(k)
        } else {
            None
        }),
{
    if k < 4 {
        Some(k)
    } else {
        None
    }
}

/// Smallest periapsis radius of flyby `i`, in metres.
pub fn flyby_floor_m(i: usize) -> (r: u32)
    requires
        i < 4,
    ensures
        r == (if i < 2 {
            6_351_800u32
        } else if i == 2 {
            6_778_100
        } else {
            600_000_000
        }),
{
    if i < 2 {
        6_351_800
    } else if i == 2 {
        6_778_100
    } else {
        600_000_000
    }
}

/// Does a flyby keep its floor?
pub fn keeps_floor(rp: Scalar, floor: Scalar) -> (r: bool)
    ensures
        r == floor.at_most(rp),
{
    rp.ge(floor)
}

/// The connection that a leg takes among the solutions found for it, given the
/// cost of each, absent where the flyby before it cannot be flown: the cheapest
/// that can be. There is none where the leg has no duration, or no solution that
/// can be flown.
pub fn choose_connection(tof_s: Scalar, costs: &Vec<Option<Scalar>>) -> (r: Option<usize>)
    ensures
        match r {
            Some(k) => {
                &&& !tof_s.at_most(lit(0))
                &&& leader(costs@, costs@.len() as int) == Some(k as int)
                &&& k < costs@.len()
                &&& costs@[k as int] is Some
            },
            None => tof_s.at_most(lit(0)) || leader(costs@, costs@.len() as int) is None,
        },
{
    if tof_s.le(Scalar::from_bits(0)) {
        return None;
    }
    best_choice(costs)
}

/// Is a total printed as a number? Otherwise the vector counts as infeasible.
pub fn is_printable(total: Option<Scalar>) -> (r: bool)
    ensures
        r == (total is Some && total->Some_0.finite()),
{
    match total {
        Some(f) => f.is_finite(),
        None => false,
    }
}

/// The comma-separated words of a line, once its ends are trimmed.
pub fn vector_words(line: &str) -> (r: Vec<String>)
    ensures
        string_views(r@) == pieces_of(trimmed(line@), ','),
{
    let chars: Vec<char> = chars_of(line);
    let t: Vec<char> = trim(&chars);
    let ps: Vec<Vec<char>> = pieces(&t, ',');
    let r: Vec<String> = strings_from(&ps, 0);
    assert(string_views(r@) =~= pieces_of(trimmed(line@), ','));
    r
}

fn strings_from(ps: &Vec<Vec<char>>, from: usize) -> (r: Vec<String>)
    requires
        from <= ps@.len(),
    ensures
        r@.len() == ps@.len() - from,
        forall|i: int| 0 <= i < r@.len() ==> (#[trigger] r@[i])@ == views(ps@)[i + from],
{
    let mut out: Vec<String> = Vec::new();
    let mut i: usize = from;
    while i < ps.len()
        invariant
            from <= i <= ps@.len(),
            out@.len() == i - from,
            forall|k: int| 0 <= k < out@.len() ==> (#[trigger] out@[k])@ == views(ps@)[k + from],
        decreases ps@.len() - i,
    {
        let ghost piece = ps@[i as int]@;
        assert(piece.subrange(0, piece.len() as int) =~= piece);
        out.push(string_of(&ps[i], 0, ps[i].len()));
        i = i + 1;
    }
    out
}

/// Why a seed table gives no decision vector.
#[derive(Clone, Copy, Debug, PartialEq, Eq, Structural)]
pub enum SeedError {
    Empty,
    NoDataRow,
}

/// The words of a seed table: those of its second line, less the first.
pub fn seed_words(text: &str) -> (r: Result<Vec<String>, SeedError>)
    ensures
        match r {
            Ok(words) => {
                let ls = lines_of(text@);
                &&& ls.len() >= 2
                &&& string_views(words@) == pieces_of(ls[1], ',').drop_first()
            },
            Err(SeedError::Empty) => lines_of(text@).len() == 0,
            Err(SeedError::NoDataRow) => lines_of(text@).len() == 1,
        },
{
    let chars: Vec<char> = chars_of(text);
    let ls: Vec<Vec<char>> = lines(&chars);
    assert(views(ls@).len() == ls@.len());
    if ls.len() == 0 {
        return Err(SeedError::Empty);
    }
    if ls.len() == 1 {
        return Err(SeedError::NoDataRow);
    }
    let ps: Vec<Vec<char>> = pieces(&ls[1], ',');
    assert(views(ls@)[1] == ls@[1]@);
    let r: Vec<String> = strings_from(&ps, 1);
    assert(views(ps@).len() == ps@.len());
    assert(string_views(r@) =~= pieces_of(lines_of(text@)[1], ',').drop_first());
    Ok(r)
}

/// Header of a table that holds a decision vector of `n` values.
pub open spec fn header_of(n: nat) -> Seq<char>
    decreases n,
{
    if n == 0 {
        "flyby_bodies"@
    } else {
        header_of((n - 1) as nat) + ",p"@ + decimal((n - 1) as nat)
    }
}

/// The data row of a decision vector: the flyby bodies, and its values.
pub open spec fn row_of(bodies: Seq<Seq<char>>, words: Seq<Seq<char>>) -> Seq<char> {
    joined(bodies, ';').push(',') + joined(words, ',')
}

/// Table that holds a decision vector.
pub open spec fn table_of(bodies: Seq<Seq<char>>, words: Seq<Seq<char>>) -> Seq<char> {
    header_of(words.len()).push('\n') + row_of(bodies, words).push('\n')
}

/// Write the table that holds a decision vector, given its values in decimal
/// notation.
pub fn vector_table(bodies: &Vec<String>, words: &Vec<String>) -> (r: String)
    ensures
        r@ == table_of(string_views(bodies@), string_views(words@)),
{
    let mut s: String = String::new();
    s.append("flyby_bodies");
    let mut i: usize = 0;
    assert(s@ =~= header_of(0));
    while i < words.len()
        invariant
            i <= words@.len(),
            s@ == header_of(i as nat),
        decreases words@.len() - i,
    {
        s.append(",p");
        push_decimal(&mut s, i as u64);
        i = i + 1;
    }
    s.push('\n');
    push_joined(&mut s, bodies, ';');
    s.push(',');
    push_joined(&mut s, words, ',');
    s.push('\n');
    assert(s@ =~= table_of(string_views(bodies@), string_views(words@)));
    s
}

/// A table gives back the values that were written to it: its second line holds
/// them after the first comma.
pub proof fn table_gives_back_its_words(bodies: Seq<Seq<char>>, words: Seq<Seq<char>>)
    requires
        words.len() > 0,
        free_of(joined(bodies, ';'), ','),
        free_of(joined(bodies, ';'), '\n'),
        forall|i: int| 0 <= i < words.len() ==> free_of(#[trigger] words[i], ','),
        free_of(joined(words, ','), '\n'),
        free_of(joined(words, ','), '\r'),
    ensures
        lines_of(table_of(bodies, words)).len() == 2,
        pieces_of(lines_of(table_of(bodies, words))[1], ',').drop_first() == words,
{
    let row = row_of(bodies, words);
    let first = joined(bodies, ';');
    let all = seq![first] + words;
    lemma_header(words.len());
    assert forall|i: int| 0 <= i < row.len() implies #[trigger] row[i] != '\n' by {
        if i < first.len() {
            assert(row[i] == first[i]);
        } else if i > first.len() {
            assert(row[i] == joined(words, ',')[i - first.len() - 1]);
        }
    }
    assert(row.last() != '\r') by {
        let t = joined(words, ',');
        if t.len() > 0 {
            assert(row.last() == t[t.len() - 1]);
        } else {
            assert(row.last() == ',');
        }
    }
    two_lines_are_two(header_of(words.len()), row);
    assert(all.drop_first() =~= words);
    assert(joined(all, ',') == row);
    assert forall|i: int| 0 <= i < all.len() implies free_of(#[trigger] all[i], ',') by {
        if i > 0 {
            assert(free_of(words[i - 1], ','));
        }
    }
    splitting_undoes_joining(all, ',');
}

proof fn lemma_header(n: nat)
    ensures
        header_of(n).len() > 0,
        free_of(header_of(n), '\n'),
        header_of(n).last() != '\r',
    decreases n,
{
    reveal_strlit("flyby_bodies");
    reveal_strlit(",p");
    if n > 0 {
        let m = (n - 1) as nat;
        lemma_header(m);
        lemma_decimal(m);
        let h = header_of(n);
        let a = header_of(m);
        let d = decimal(m);
        assert forall|i: int| 0 <= i < h.len() implies #[trigger] h[i] != '\n' by {
            if i < a.len() {
                assert(h[i] == a[i]);
            } else if i >= a.len() + 2 {
                assert(h[i] == d[i - a.len() - 2]);
                assert(crate::text::is_digit(d[i - a.len() - 2]));
            }
        }
        assert(h.last() == d[d.len() - 1]);
        assert(crate::text::is_digit(d[d.len() - 1]));
    }
}

/// `c` in lower case, where it is an ASCII letter.
pub open spec fn lowered(c: char) -> char {
    if 'A' <= c <= 'Z' {
        ((c as u32) + 32) as char
    } else {
        c
    }
}

/// The two names differ at most in the case of ASCII letters.
pub open spec fn same_name(a: Seq<char>, b: Seq<char>) -> bool {
    a.len() == b.len() && forall|i: int| 0 <= i < a.len() ==> lowered(#[trigger] a[i]) == lowered(b[i])
}

fn same_letter(a: char, b: char) -> (r: bool)
    ensures
        r == (lowered(a) == lowered(b)),
{
    let (x, y): (u32, u32) = (a as u32, b as u32);
    let p: u32 = if 'A' <= a && a <= 'Z' {
        x + 32
    } else {
        x
    };
    let q: u32 = if 'A' <= b && b <= 'Z' {
        y + 32
    } else {
        y
    };
    p == q
}

/// Do the two names differ at most in the case of ASCII letters?
pub fn names_agree(a: &str, b: &str) -> (r: bool)
    ensures
        r == same_name(a@, b@),
{
    let x: Vec<char> = chars_of(a);
    let y: Vec<char> = chars_of(b);
    if x.len() != y.len() {
        return false;
    }
    let mut i: usize = 0;
    while i < x.len()
        invariant
            i <= x@.len(),
            x@ == a@,
            y@ == b@,
            x@.len() == y@.len(),
            forall|k: int| 0 <= k < i ==> lowered(#[trigger] x@[k]) == lowered(y@[k]),
        decreases x@.len() - i,
    {
        if !same_letter(x[i], y[i]) {
            return false;
        }
        i = i + 1;
    }
    true
}

/// The bodies of a tour: departure, flybys in order, target.
pub fn tour(departure: &String, flybys: &Vec<String>, target: &String) -> (r: Vec<String>)
    ensures
        string_views(r@) == seq![departure@] + string_views(flybys@) + seq![target@],
{
    let mut out: Vec<String> = Vec::new();
    out.push(departure.clone());
    let mut i: usize = 0;
    while i < flybys.len()
        invariant
            i <= flybys@.len(),
            out@.len() == i + 1,
            out@[0]@ == departure@,
            forall|k: int| 0 <= k < i ==> (#[trigger] out@[k + 1])@ == flybys@[k]@,
        decreases flybys@.len() - i,
    {
        out.push(flybys[i].clone());
        i = i + 1;
        assert forall|k: int| 0 <= k < i implies (#[trigger] out@[k + 1])@ == flybys@[k]@ by {}
    }
    out.push(target.clone());
    let ghost want = seq![departure@] + string_views(flybys@) + seq![target@];
    assert forall|k: int| 0 <= k < want.len() implies string_views(out@)[k] == want[k] by {
        if 1 <= k < want.len() - 1 {
            assert(out@[(k - 1) + 1]@ == flybys@[k - 1]@);
        }
    }
    assert(string_views(out@) =~= want);
    out
}

/// Legs that return to the body they left, among the first `n`, in order.
pub open spec fn resonant_among(bodies: Seq<Seq<char>>, n: int) -> Seq<int>
    decreases n,
{
    if n <= 0 {
        seq![]
    } else if same_name(bodies[n - 1], bodies[n]) {
        resonant_among(bodies, n - 1).push(n - 1)
    } else {
        resonant_among(bodies, n - 1)
    }
}

/// Legs of a tour that return to the body they left, in order.
pub fn resonant_legs(bodies: &Vec<String>) -> (r: Vec<usize>)
    requires
        bodies@.len() >= 1,
    ensures
        r@.map_values(|i: usize| i as int) == resonant_among(string_views(bodies@), bodies@.len() - 1),
{
    let mut out: Vec<usize> = Vec::new();
    let mut i: usize = 0;
    let ghost as_int = |i: usize| i as int;
    let ghost names = string_views(bodies@);
    assert(out@.map_values(as_int) =~= seq![]);
    while i < bodies.len() - 1
        invariant
            bodies@.len() >= 1,
            i <= bodies@.len() - 1,
            names == string_views(bodies@),
            as_int == (|i: usize| i as int),
            out@.map_values(as_int) == resonant_among(names, i as int),
        decreases bodies@.len() - i,
    {
        assert(names[i as int] == bodies@[i as int]@ && names[i + 1] == bodies@[i + 1]@);
        if names_agree(bodies[i].as_str(), bodies[i + 1].as_str()) {
            let ghost before = out@;
            out.push(i);
            assert(out@.map_values(as_int) =~= before.map_values(as_int).push(i as int));
        }
        i = i + 1;
    }
    out
}

/// What is known of the velocity at one end of a leg.
#[derive(Clone, Copy, Debug, PartialEq, Eq, Structural)]
pub enum LegBoundary {
    /// An impulse of known direction: launch, or arrival with a capture burn.
    FixedImpulse,
    /// A flyby, which fixes a direction alone.
    FlybyDirection,
}

/// Boundary at the start of leg `k`.
pub fn start_boundary(k: usize) -> (r: LegBoundary)
    ensures
        r == (if k == 0 {
            LegBoundary::FixedImpulse
        } else {
            LegBoundary::FlybyDirection
        }),
{
    if k == 0 {
        LegBoundary::FixedImpulse
    } else {
        LegBoundary::FlybyDirection
    }
}

/// Boundary at the end of leg `k` of `n`: a mission that flies past its target
/// has no arrival impulse.
pub fn end_boundary(k: usize, n: usize, flyby_mission: bool) -> (r: LegBoundary)
    requires
        k < n,
    ensures
        r == (if k == n - 1 && !flyby_mission {
            LegBoundary::FixedImpulse
        } else {
            LegBoundary::FlybyDirection
        }),
{
    if k == n - 1 && !flyby_mission {
        LegBoundary::FixedImpulse
    } else {
        LegBoundary::FlybyDirection
    }
}

/// What the primer vector says of a leg.
#[derive(Clone, Copy, Debug, PartialEq, Eq, Structural)]
pub enum LegStatus {
    /// No impulse to examine.
    Ballistic,
    /// The primer vector could not be found.
    Unsolved,
    /// No violation was seen; this proves nothing.
    Inconclusive,
    /// A second impulse would reduce the cost.
    Violation,
}

/// Diagnose a leg: a violation only where the primer exceeds its bound.
pub fn diagnose_leg(dv_ms: Scalar, primer: Option<Scalar>) -> (r: LegStatus)
    ensures
        r == (if dv_ms.below(lit(BALLISTIC_MS)) {
            LegStatus::Ballistic
        } else {
            match primer {
                None => LegStatus::Unsolved,
                Some(p) => if lit(PRIMER_BOUND).below(p) {
                    LegStatus::Violation
                } else {
                    LegStatus::Inconclusive
                },
            }
        }),
{
    if dv_ms.lt(Scalar::from_bits(BALLISTIC_MS)) {
        return LegStatus::Ballistic;
    }
    match primer {
        None => LegStatus::Unsolved,
        Some(p) => if p.gt(Scalar::from_bits(PRIMER_BOUND)) {
            LegStatus::Violation
        } else {
            LegStatus::Inconclusive
        },
    }
}

/// Is a leg worth refining with a second impulse? Not where the primer stays
/// within its bound.
pub fn worth_refining(primer: Scalar) -> (r: bool)
    ensures
        r == !primer.at_most(lit(PRIMER_BOUND)),
{
    !primer.le(Scalar::from_bits(PRIMER_BOUND))
}

/// Judgement on a refinement with two impulses.
#[derive(Clone, Copy, Debug, PartialEq, Eq, Structural)]
pub enum Verdict {
    GenuineGain,
    JustReoptimised,
    NoMeaningfulGain,
}

impl Verdict {
    pub open spec fn text_of(self) -> Seq<char> {
        match self {
            Verdict::GenuineGain => "GENUINE 2-DSM GAIN"@,
            Verdict::JustReoptimised => "no gain — just eta re-optimization"@,
            Verdict::NoMeaningfulGain => "no meaningful gain"@,
        }
    }

    pub fn text(self) -> (r: &'static str)
        ensures
            r@ == self.text_of(),
    {
        match self {
            Verdict::GenuineGain => "GENUINE 2-DSM GAIN",
            Verdict::JustReoptimised => "no gain — just eta re-optimization",
            Verdict::NoMeaningfulGain => "no meaningful gain",
        }
    }
}

/// Judge a refinement by what it saves over the best single impulse, and by the
/// size of its first impulse.
pub fn judge(saved_ms: Scalar, first_ms: Scalar) -> (r: Verdict)
    ensures
        r == (if lit(MIN_REAL_IMPROVEMENT_MS).below(saved_ms) {
            Verdict::GenuineGain
        } else if first_ms.below(lit(BALLISTIC_MS)) {
            Verdict::JustReoptimised
        } else {
            Verdict::NoMeaningfulGain
        }),
{
    if saved_ms.gt(Scalar::from_bits(MIN_REAL_IMPROVEMENT_MS)) {
        Verdict::GenuineGain
    } else if first_ms.lt(Scalar::from_bits(BALLISTIC_MS)) {
        Verdict::JustReoptimised
    } else {
        Verdict::NoMeaningfulGain
    }
}

/// Two seeds in increasing order.
pub fn ordered_seeds(a: Scalar, b: Scalar) -> (r: (Scalar, Scalar))
    requires
        !a.nan(),
        !b.nan(),
    ensures
        r == (if b.below(a) {
            (b, a)
        } else {
            (a, b)
        }),
        r.0.at_most(r.1),
{
    if b.lt(a) {
        (b, a)
    } else {
        (a, b)
    }
}

/// Do two seeds coincide, so that they have to be moved apart?
pub fn seeds_coincide(gap: Scalar) -> (r: bool)
    ensures
        r == gap.absolute().below(lit(SEED_GAP)),
{
    gap.abs().lt(Scalar::from_bits(SEED_GAP))
}

/// One attempt to solve a leg.
#[derive(Clone, Copy, Debug, PartialEq, Eq, Structural)]
pub enum Attempt {
    /// The direct arc.
    Direct { prograde: bool },
    /// The direct arc with transfer angles close to a full turn allowed.
    Relaxed { prograde: bool },
    /// An arc with this many full revolutions.
    MultiRev { n_rev: u32, prograde: bool },
}

/// The `i`-th attempt: direct arcs first, then relaxed ones, then one and two
/// revolutions; prograde before retrograde.
pub open spec fn attempt_at(i: int) -> Option<Attempt> {
    if i == 0 || i == 1 {
        Some(Attempt::Direct { prograde: i == 0 })
    } else if i == 2 || i == 3 {
        Some(Attempt::Relaxed { prograde: i == 2 })
    } else if i == 4 || i == 5 {
        Some(Attempt::MultiRev { n_rev: 1, prograde: i == 4 })
    } else if i == 6 || i == 7 {
        Some(Attempt::MultiRev { n_rev: 2, prograde: i == 6 })
    } else {
        None
    }
}

/// The next attempt after `i` have failed, if any is left.
pub fn solve_leg(i: usize) -> (r: Option<Attempt>)
    ensures
        r == attempt_at(i as int),
{
    if i == 0 || i == 1 {
        Some(Attempt::Direct { prograde: i == 0 })
    } else if i == 2 || i == 3 {
        Some(Attempt::Relaxed { prograde: i == 2 })
    } else if i == 4 || i == 5 {
        Some(Attempt::MultiRev { n_rev: 1, prograde: i == 4 })
    } else if i == 6 || i == 7 {
        Some(Attempt::MultiRev { n_rev: 2, prograde: i == 6 })
    } else {
        None
    }
}

impl Attempt {
    /// Revolutions of the arc that an attempt finds.
    pub fn revolutions(self) -> (r: u32)
        ensures
            r == (match self {
                Attempt::MultiRev { n_rev, .. } => n_rev,
                _ => 0,
            }),
    {
        match self {
            Attempt::MultiRev { n_rev, .. } => n_rev,
            _ => 0,
        }
    }
}

/// No attempt is repeated, and fewer revolutions always come first.
pub proof fn attempts_are_ordered(i: int, j: int)
    requires
        0 <= i < j < 8,
    ensures
        attempt_at(i) is Some,
        attempt_at(j) is Some,
        attempt_at(i) != attempt_at(j),
        attempt_at(8) is None,
        attempt_at(i) matches Some(Attempt::MultiRev { n_rev: a, .. }) ==> (attempt_at(j) matches Some(
            Attempt::MultiRev { n_rev: b, .. },
        ) && a <= b),
{
}

/// Arc of a leveraging transfer.
#[derive(Clone, Copy, Debug, PartialEq, Eq, Structural)]
pub struct VilmChoice {
    pub exterior: bool,
    pub k_low: u32,
    pub k_high: u32,
    pub upper: bool,
}

/// The `i`-th choice of the leveraging sweep.
pub open spec fn vilm_choice_at(i: int) -> VilmChoice {
    VilmChoice {
        exterior: i >= 8,
        k_low: if i % 8 >= 4 { 1 } else { 0 },
        k_high: if i % 4 >= 2 { 1 } else { 0 },
        upper: i % 2 == 1,
    }
}

/// The choices of the leveraging sweep: domain outermost, then the two
/// revolution counts, then the solution branch.
pub fn vilm_choice(i: usize) -> (r: VilmChoice)
    requires
        i < 16,
    ensures
        r == vilm_choice_at(i as int),
{
    VilmChoice {
        exterior: i >= 8,
        k_low: if i % 8 >= 4 { 1 } else { 0 },
        k_high: if i % 4 >= 2 { 1 } else { 0 },
        upper: i % 2 == 1,
    }
}

/// The sweep tries sixteen different choices.
pub proof fn vilm_choices_differ(i: int, j: int)
    requires
        0 <= i < j < 16,
    ensures
        vilm_choice_at(i) != vilm_choice_at(j),
{
}

/// Path of a saved decision vector: the output directory, less its closing
/// slashes, and the file's name.
pub open spec fn without_slashes(s: Seq<char>, n: int) -> int
    decreases n,
{
    if n <= 0 {
        0
    } else if s[n - 1] == '/' {
        without_slashes(s, n - 1)
    } else {
        n
    }
}

/// Path of a saved decision vector.
pub fn chromosome_path(output_dir: &str) -> (r: String)
    ensures
        r@ == output_dir@.subrange(0, without_slashes(output_dir@, output_dir@.len() as int))
            + "/mga_best_chromosome.csv"@,
{
    let s: Vec<char> = chars_of(output_dir);
    let mut n: usize = s.len();
    while n > 0 && s[n - 1] == '/'
        invariant
            n <= s@.len(),
            s@ == output_dir@,
            without_slashes(s@, n as int) == without_slashes(s@, s@.len() as int),
        decreases n,
    {
        n = n - 1;
    }
    let mut r: String = string_of(&s, 0, n);
    r.append("/mga_best_chromosome.csv");
    r
}

/// Times of flight of the resonance sweep: 250 to 900 days, every second day.
pub const SWEEP_FIRST_DAY: u32 = 250;

/// Rows of the resonance sweep.
pub const SWEEP_ROWS: usize = 326;

/// The `i`-th time of flight of the resonance sweep, in days.
pub fn sweep_tof_days(i: usize) -> (r: u32)
    requires
        i < SWEEP_ROWS,
    ensures
        r == 250 + 2 * i,
        250 <= r <= 900,
{
    SWEEP_FIRST_DAY + 2 * (i as u32)
}

/// Days between a time of flight and the 731-day resonance.
pub open spec fn off_resonance(tof_days: int) -> int {
    if tof_days >= 731 {
        tof_days - 731
    } else {
        731 - tof_days
    }
}

/// Is the time of flight within `days` of the 731-day resonance?
pub fn near_resonance(tof_days: u32, days: u32) -> (r: bool)
    ensures
        r == (off_resonance(tof_days as int) < days),
{
    let off: u32 = if tof_days >= 731 {
        tof_days - 731
    } else {
        731 - tof_days
    };
    off < days
}

/// Is row `i` of the sweep printed? Every tenth, and those within fifteen days
/// of the resonance.
pub fn row_is_printed(i: usize, tof_days: u32) -> (r: bool)
    ensures
        r == (i as int % 10 == 0 || off_resonance(tof_days as int) < 15),
{
    i % 10 == 0 || near_resonance(tof_days, 15)
}

/// Is the time of flight within five days of 545.6 days?
pub fn near_optimizer(tof_days: u32) -> (r: bool)
    ensures
        r == (-50 < 10 * tof_days - 5_456 < 50),
{
    let tenths: u64 = 10 * (tof_days as u64);
    5_406 < tenths && tenths < 5_506
}

/// Is a moon's distance from its planet close to the catalogued one?
pub fn moon_distance_ok(rel_err: Scalar) -> (r: bool)
    ensures
        r == rel_err.below(lit(MOON_TOLERANCE)),
{
    rel_err.lt(Scalar::from_bits(MOON_TOLERANCE))
}

/// Is the time left for the resonant leg within its window?
pub fn resonant_tof_ok(tof_days: Scalar) -> (r: bool)
    ensures
        r == !(tof_days.below(lit(MIN_RESONANT_DAYS)) || lit(MAX_RESONANT_DAYS).below(tof_days)),
{
    !(tof_days.lt(Scalar::from_bits(MIN_RESONANT_DAYS)) || tof_days.gt(Scalar::from_bits(MAX_RESONANT_DAYS)))
}

/// Does a flyby turn so little that its plane angle means nothing?
pub fn turn_is_degenerate(sin_turn: Scalar) -> (r: bool)
    ensures
        r == sin_turn.absolute().below(lit(MIN_SIN_TURN)),
{
    sin_turn.abs().lt(Scalar::from_bits(MIN_SIN_TURN))
}

/// Is a whole turn added to a departure angle, to bring it to zero or above?
pub fn angle_wraps(fraction: Scalar) -> (r: bool)
    ensures
        r == fraction.below(lit(0)),
{
    fraction.lt(Scalar::from_bits(0))
}

/// Is the first axis far enough from the approach to serve as a reference?
pub fn first_axis_serves(s_hat_x: Scalar) -> (r: bool)
    ensures
        r == s_hat_x.absolute().below(lit(MAX_AXIS_ALIGNMENT)),
{
    s_hat_x.abs().lt(Scalar::from_bits(MAX_AXIS_ALIGNMENT))
}

/// The grouped layout holds the launch first, then the five times of flight, the five
/// fractions, the four radii and the four angles, each in its own order.
pub proof fn grouped_layout_has_its_places(c: Cassini2)
    ensures
        grouped(c).len() == 22,
        grouped(c)[0] == c.t0 && grouped(c)[1] == c.vinf && grouped(c)[2] == c.u && grouped(c)[3] == c.v,
        grouped(c).subrange(4, 9) == c.tof@,
        grouped(c).subrange(9, 14) == c.eta@,
        grouped(c).subrange(14, 18) == c.rp@,
        grouped(c).subrange(18, 22) == c.beta@,
{
    assert(grouped(c).subrange(4, 9) =~= c.tof@);
    assert(grouped(c).subrange(9, 14) =~= c.eta@);
    assert(grouped(c).subrange(14, 18) =~= c.rp@);
    assert(grouped(c).subrange(18, 22) =~= c.beta@);
}

/// The interleaved layout holds the launch first, then leg by leg the time of flight
/// and the fraction, then flyby by flyby the radius and the angle.
pub proof fn interleaved_layout_has_its_places(p: Seq<Scalar>, c: Cassini2)
    requires
        interleaves(p, c),
    ensures
        p.len() >= 22,
        p.take(4) == seq![c.t0, c.vinf, c.u, c.v],
        p[4] == c.tof@[0] && p[5] == c.eta@[0] && p[6] == c.tof@[1] && p[7] == c.eta@[1] && p[8] == c.tof@[2] && p[9]
            == c.eta@[2] && p[10] == c.tof@[3] && p[11] == c.eta@[3] && p[12] == c.tof@[4] && p[13] == c.eta@[4],
        p[14] == c.rp@[0] && p[15] == c.beta@[0] && p[16] == c.rp@[1] && p[17] == c.beta@[1] && p[18] == c.rp@[2]
            && p[19] == c.beta@[2] && p[20] == c.rp@[3] && p[21] == c.beta@[3],
{
    assert(p.take(4) =~= seq![c.t0, c.vinf, c.u, c.v]);
}

/// Pairs are laid out one after the other, the first of each before the second.
pub proof fn pairs_are_laid_out_in_order(pairs: Seq<(Scalar, Scalar)>, k: int)
    requires
        0 <= k < pairs.len(),
    ensures
        flat(pairs).len() == 2 * pairs.len(),
        flat(pairs)[2 * k] == pairs[k].0,
        flat(pairs)[2 * k + 1] == pairs[k].1,
{
}

/// The encounters, launch first: Earth, Venus twice, Earth again, Jupiter, Saturn.
pub proof fn encounters_are_in_order()
    ensures
        Seq::new(6, |k: int| encounter(k)) == seq![
            Body::Earth,
            Body::Venus,
            Body::Venus,
            Body::Earth,
            Body::Jupiter,
            Body::Saturn,
        ],
{
    assert(Seq::new(6, |k: int| encounter(k)) =~= seq![
        Body::Earth,
        Body::Venus,
        Body::Venus,
        Body::Earth,
        Body::Jupiter,
        Body::Saturn,
    ]);
}

/// The data row of a table is the bodies, with semicolons between them, and then the
/// values, each after a comma.
pub proof fn row_lists_bodies_and_values(bodies: Seq<Seq<char>>, words: Seq<Seq<char>>)
    requires
        words.len() > 0,
    ensures
        row_of(bodies, words) == joined(seq![joined(bodies, ';')] + words, ','),
        table_of(bodies, words) == header_of(words.len()).push('\n') + row_of(bodies, words).push('\n'),
{
    let all = seq![joined(bodies, ';')] + words;
    assert(all.drop_first() =~= words);
}

/// The header names one column for the bodies and then one for each value, numbered
/// from 0; a further value adds its column at the end.
pub proof fn header_numbers_its_columns(n: nat)
    ensures
        pieces_of(header_of(n), ',') == seq!["flyby_bodies"@] + Seq::new(n, |i: int| "p"@ + decimal(i as nat)),
    decreases n,
{
    let names = seq!["flyby_bodies"@] + Seq::new(n, |i: int| "p"@ + decimal(i as nat));
    reveal_strlit("flyby_bodies");
    reveal_strlit(",p");
    reveal_strlit("p");
    lemma_header_joined(n);
    assert forall|i: int| 0 <= i < names.len() implies free_of(#[trigger] names[i], ',') by {
        if i > 0 {
            lemma_decimal((i - 1) as nat);
            let d = decimal((i - 1) as nat);
            assert forall|k: int| 0 <= k < names[i].len() implies #[trigger] names[i][k] != ',' by {
                if k > 0 {
                    assert(names[i][k] == d[k - 1]);
                    assert(crate::text::is_digit(d[k - 1]));
                }
            }
        } else {
            assert(free_of("flyby_bodies"@, ','));
        }
    }
    splitting_undoes_joining(names, ',');
}

proof fn lemma_header_joined(n: nat)
    ensures
        joined(seq!["flyby_bodies"@] + Seq::new(n, |i: int| "p"@ + decimal(i as nat)), ',') == header_of(n),
    decreases n,
{
    reveal_strlit(",p");
    reveal_strlit("p");
    let names = seq!["flyby_bodies"@] + Seq::new(n, |i: int| "p"@ + decimal(i as nat));
    if n > 0 {
        let m = (n - 1) as nat;
        let before = seq!["flyby_bodies"@] + Seq::new(m, |i: int| "p"@ + decimal(i as nat));
        let last = "p"@ + decimal(m);
        lemma_header_joined(m);
        assert(names =~= before.push(last));
        lemma_joined_push(before, last, ',');
        assert(joined(before, ',').push(',') + last =~= header_of(m) + ",p"@ + decimal(m));
    } else {
        assert(names =~= seq!["flyby_bodies"@]);
    }
}

proof fn lemma_joined_push(words: Seq<Seq<char>>, w: Seq<char>, sep: char)
    requires
        words.len() > 0,
    ensures
        joined(words.push(w), sep) == joined(words, sep).push(sep) + w,
    decreases words.len(),
{
    let all = words.push(w);
    if words.len() == 1 {
        reveal_with_fuel(joined, 2);
        assert(all.drop_first() =~= seq![w]);
        assert(joined(all, sep) =~= joined(words, sep).push(sep) + w);
    } else {
        let rest = words.drop_first();
        assert(all.drop_first() =~= rest.push(w));
        lemma_joined_push(rest, w, sep);
        assert(joined(all, sep) =~= joined(words, sep).push(sep) + w);
    }
}

/// Names agree whatever the case of their ASCII letters and in nothing else: agreement
/// is an equivalence, and two characters agree exactly where they are the same, or the
/// two cases of one letter.
pub proof fn agreement_ignores_case_alone(a: Seq<char>, b: Seq<char>, c: Seq<char>, x: char, y: char)
    ensures
        same_name(a, a),
        same_name(a, b) ==> same_name(b, a),
        same_name(a, b) && same_name(b, c) ==> same_name(a, c),
        same_name(a, b) ==> a.len() == b.len(),
        lowered(x) == lowered(y) <==> x == y || ('A' <= x <= 'Z' && y as u32 == x as u32 + 32) || ('A' <= y <= 'Z'
            && x as u32 == y as u32 + 32),
        same_name(seq![x], seq![y]) <==> lowered(x) == lowered(y),
{
    if same_name(a, b) {
        assert forall|i: int| 0 <= i < b.len() implies lowered(#[trigger] b[i]) == lowered(a[i]) by {
            assert(lowered(a[i]) == lowered(b[i]));
        }
        if same_name(b, c) {
            assert forall|i: int| 0 <= i < a.len() implies lowered(#[trigger] a[i]) == lowered(c[i]) by {
                assert(lowered(b[i]) == lowered(c[i]));
            }
        }
    }
    assert(seq![x][0] == x && seq![y][0] == y);
}

/// The resonant legs are exactly those that return to the body they left, each once
/// and in order.
pub proof fn resonant_legs_return(bodies: Seq<Seq<char>>, n: int)
    requires
        0 <= n < bodies.len(),
    ensures
        forall|i: int|
            #![trigger resonant_among(bodies, n).contains(i)]
            resonant_among(bodies, n).contains(i) <==> 0 <= i < n && same_name(bodies[i], bodies[i + 1]),
        forall|a: int, b: int|
            0 <= a < b < resonant_among(bodies, n).len() ==> resonant_among(bodies, n)[a] < resonant_among(bodies, n)[b],
    decreases n,
{
    if n > 0 {
        resonant_legs_return(bodies, n - 1);
        let s = resonant_among(bodies, n - 1);
        let t = resonant_among(bodies, n);
        assert forall|i: int|
            #![trigger t.contains(i)]
            t.contains(i) <==> 0 <= i < n && same_name(bodies[i], bodies[i + 1]) by {
            if t.contains(i) {
                let k = t.index_of(i);
                if k < s.len() {
                    assert(s.contains(s[k]));
                }
            }
            if 0 <= i < n && same_name(bodies[i], bodies[i + 1]) {
                if i < n - 1 {
                    assert(s.contains(i));
                    let k = s.index_of(i);
                    assert(t[k] == i);
                } else {
                    assert(t[s.len() as int] == i);
                }
            }
        }
        assert forall|a: int, b: int| 0 <= a < b < t.len() implies t[a] < t[b] by {
            if b == s.len() {
                assert(s.contains(s[a]));
            }
        }
    }
}

/// Direct arcs are tried first, then relaxed ones, then one revolution and then two;
/// of each the prograde before the retrograde; and there are eight attempts in all.
pub proof fn attempts_go_from_simple_to_wound(k: int)
    ensures
        0 <= k < 2 ==> attempt_at(k) == Some(Attempt::Direct { prograde: k % 2 == 0 }),
        2 <= k < 4 ==> attempt_at(k) == Some(Attempt::Relaxed { prograde: k % 2 == 0 }),
        4 <= k < 8 ==> attempt_at(k) == Some(Attempt::MultiRev { n_rev: (k / 2 - 1) as u32, prograde: k % 2 == 0 }),
        k >= 8 ==> attempt_at(k) is None,
{
}

/// The leveraging sweep counts through its choices: the branch changes fastest, then
/// the upper revolutions, then the lower, and the domain last.
pub proof fn sweep_counts_through_its_choices(i: int)
    requires
        0 <= i < 16,
    ensures
        ({
            let c = vilm_choice_at(i);
            i == (if c.exterior {
                8int
            } else {
                0
            }) + 4 * c.k_low + 2 * c.k_high + (if c.upper {
                1int
            } else {
                0
            })
        }),
        vilm_choice_at(i).k_low <= 1 && vilm_choice_at(i).k_high <= 1,
{
}

/// Dropping closing slashes drops all of them and nothing else.
pub proof fn closing_slashes_are_dropped(s: Seq<char>, n: int)
    requires
        0 <= n <= s.len(),
    ensures
        0 <= without_slashes(s, n) <= n,
        forall|i: int| without_slashes(s, n) <= i < n ==> #[trigger] s[i] == '/',
        without_slashes(s, n) > 0 ==> s[without_slashes(s, n) - 1] != '/',
    decreases n,
{
    if n > 0 && s[n - 1] == '/' {
        closing_slashes_are_dropped(s, n - 1);
    }
}

/// The distance from the resonance is the same on both sides of 731 days, and none at
/// the resonance alone.
pub proof fn resonance_is_at_731_days(d: int)
    requires
        d >= 0,
    ensures
        off_resonance(731 + d) == d,
        off_resonance(731 - d) == d,
{
}

/// A flyby keeps its floor from the floor itself upwards, and the floors are those of
/// Venus twice, of the Earth and of Jupiter.
pub proof fn floors_are_kept_from_above(rp: Scalar, floor: Scalar, i: usize, kept: bool, floor_m: u32)
    requires
        i < 4,
        call_ensures(keeps_floor, (rp, floor), kept),
        call_ensures(flyby_floor_m, (i,), floor_m),
    ensures
        floor.at_most(rp) ==> kept,
        rp.below(floor) ==> !kept,
        i == 0 || i == 1 <==> floor_m == 6_351_800,
        i == 2 <==> floor_m == 6_778_100,
        i == 3 <==> floor_m == 600_000_000,
{
}

/// Impulses stand at the launch and, unless the mission flies past, at the arrival;
/// every boundary in between is a flyby.
pub proof fn impulses_stand_at_the_ends(
    k: usize,
    n: usize,
    flyby_mission: bool,
    start: LegBoundary,
    end: LegBoundary,
)
    requires
        k < n,
        call_ensures(start_boundary, (k,), start),
        call_ensures(end_boundary, (k, n, flyby_mission), end),
    ensures
        start == LegBoundary::FixedImpulse <==> k == 0,
        end == LegBoundary::FixedImpulse <==> k + 1 == n && !flyby_mission,
{
}

/// A violation is found exactly on a leg with an impulse whose primer vector exceeds
/// its bound; and such a leg is worth refining.
pub proof fn violations_are_worth_refining(dv_ms: Scalar, primer: Scalar, status: LegStatus, worth: bool)
    requires
        call_ensures(diagnose_leg, (dv_ms, Some(primer)), status),
        call_ensures(worth_refining, (primer,), worth),
    ensures
        status == LegStatus::Violation <==> !dv_ms.below(lit(BALLISTIC_MS)) && lit(PRIMER_BOUND).below(primer),
        status == LegStatus::Ballistic <==> dv_ms.below(lit(BALLISTIC_MS)),
        status != LegStatus::Unsolved,
        status == LegStatus::Violation ==> worth,
        primer.at_most(lit(PRIMER_BOUND)) ==> !worth,
{
}

/// A leg whose primer vector was not found is unsolved, unless it has no impulse.
pub proof fn missing_primer_is_unsolved(dv_ms: Scalar, status: LegStatus)
    requires
        call_ensures(diagnose_leg, (dv_ms, None), status),
    ensures
        status == LegStatus::Ballistic <==> dv_ms.below(lit(BALLISTIC_MS)),
        status == LegStatus::Unsolved <==> !dv_ms.below(lit(BALLISTIC_MS)),
{
}

/// A refinement is a genuine gain exactly where it saves more than the noise; without
/// a gain, a first impulse of no size shows that only the old one was moved.
pub proof fn gains_are_judged_by_what_they_save(saved_ms: Scalar, first_ms: Scalar, r: Verdict)
    requires
        call_ensures(judge, (saved_ms, first_ms), r),
    ensures
        r == Verdict::GenuineGain <==> lit(MIN_REAL_IMPROVEMENT_MS).below(saved_ms),
        r == Verdict::JustReoptimised ==> first_ms.below(lit(BALLISTIC_MS)),
        r == Verdict::NoMeaningfulGain ==> !first_ms.below(lit(BALLISTIC_MS)),
{
}

/// Two seeds come out in order, both of them, and count as one where they are closer
/// than the gap, from either side.
pub proof fn seeds_come_in_order(a: Scalar, b: Scalar, gap: Scalar, r: (Scalar, Scalar), one: bool)
    requires
        !a.nan(),
        !b.nan(),
        call_ensures(ordered_seeds, (a, b), r),
        call_ensures(seeds_coincide, (gap,), one),
    ensures
        r.0.at_most(r.1),
        r == (a, b) || r == (b, a),
        a.at_most(b) ==> r == (a, b),
        gap.absolute().below(lit(SEED_GAP)) ==> one,
        lit(SEED_GAP).at_most(gap.absolute()) ==> !one,
{
}

/// A converted vector keeps the times of flight, the fractions and the radii, and takes
/// over the launch and the angles in the other convention.
pub proof fn conversion_keeps_the_tour(
    c: &Cassini2,
    t0: Scalar,
    vinf: Scalar,
    u: Scalar,
    v: Scalar,
    beta: [Scalar; 4],
    r: Cassini2,
)
    requires
        call_ensures(convert_seed, (c, t0, vinf, u, v, beta), r),
    ensures
        r.tof@ == c.tof@ && r.eta@ == c.eta@ && r.rp@ == c.rp@,
        r.t0 == t0 && r.vinf == vinf && r.u == u && r.v == v && r.beta@ == beta@,
{
}

/// The resonance sweep goes from 250 to 900 days by two, prints every tenth row, and
/// all of those close to the resonance.
pub proof fn sweep_shows_the_resonance(i: usize, tof: u32, shown: bool, near: bool, days: u32)
    requires
        i < SWEEP_ROWS,
        call_ensures(sweep_tof_days, (i,), tof),
        call_ensures(row_is_printed, (i, tof), shown),
        call_ensures(near_resonance, (tof, days), near),
    ensures
        tof == 250 + 2 * i,
        i as int % 10 == 0 ==> shown,
        716 < tof < 746 ==> shown,
        i as int % 10 != 0 && (tof <= 716 || tof >= 746) ==> !shown,
        near <==> 731 - days < tof < 731 + days,
        SWEEP_ROWS == 326,
{
}

/// Values are accepted up to their limit: a moon's distance to within its tolerance, a
/// resonant leg inside its window, and a total that is a finite number.
pub proof fn values_are_accepted_within_limits(
    rel_err: Scalar,
    tof_days: Scalar,
    total: Option<Scalar>,
    moon: bool,
    window: bool,
    printable: bool,
)
    requires
        call_ensures(moon_distance_ok, (rel_err,), moon),
        call_ensures(resonant_tof_ok, (tof_days,), window),
        call_ensures(is_printable, (total,), printable),
    ensures
        moon <==> rel_err.below(lit(MOON_TOLERANCE)),
        lit(MIN_RESONANT_DAYS).at_most(tof_days) && tof_days.at_most(lit(MAX_RESONANT_DAYS)) ==> window,
        tof_days.below(lit(MIN_RESONANT_DAYS)) || lit(MAX_RESONANT_DAYS).below(tof_days) ==> !window,
        printable <==> (total matches Some(t) && t.finite()),
{
}

/// A turn is degenerate below its limit in either sense, an angle is brought up from
/// below zero, and the first axis serves unless the approach lies along it, either
/// way.
pub proof fn angles_are_judged_by_size(
    sin_turn: Scalar,
    fraction: Scalar,
    s_hat_x: Scalar,
    degenerate: bool,
    wraps: bool,
    serves: bool,
)
    requires
        call_ensures(turn_is_degenerate, (sin_turn,), degenerate),
        call_ensures(angle_wraps, (fraction,), wraps),
        call_ensures(first_axis_serves, (s_hat_x,), serves),
    ensures
        degenerate <==> sin_turn.absolute().below(lit(MIN_SIN_TURN)),
        wraps <==> fraction.below(lit(0)),
        serves <==> s_hat_x.absolute().below(lit(MAX_AXIS_ALIGNMENT)),
{
}

/// A leg is connected by the first of its cheapest solutions, and by none where it has
/// no duration.
pub proof fn leg_takes_its_cheapest_solution(tof_s: Scalar, costs: &Vec<Option<Scalar>>, r: Option<usize>)
    requires
        call_ensures(choose_connection, (tof_s, costs), r),
        forall|i: int| 0 <= i < costs@.len() && (#[trigger] costs@[i]) is Some ==> !costs@[i]->Some_0.nan(),
    ensures
        tof_s.at_most(lit(0)) ==> r is None,
        r matches Some(k) ==> k < costs@.len() && costs@[k as int] is Some && forall|i: int|
            0 <= i < costs@.len() && (#[trigger] costs@[i]) is Some ==> costs@[k as int]->Some_0.at_most(
                costs@[i]->Some_0,
            ),
        !tof_s.at_most(lit(0)) && r is None ==> forall|i: int| 0 <= i < costs@.len() ==> (#[trigger] costs@[i]) is None,
{
    leader_is_first_minimum(costs@, costs@.len() as int);
}

/// The numbers that decisions are taken by, in decimal notation.
pub proof fn numbers_are_as_documented()
    ensures
        lit(BALLISTIC_MS).is_about(1, 1),
        lit(PRIMER_BOUND).is_about(1, 1),
        lit(MIN_REAL_IMPROVEMENT_MS).is_about(5, 1),
        lit(SEED_GAP).is_about(1, 10_000),
        lit(MOON_TOLERANCE).is_about(3, 10),
        lit(MIN_RESONANT_DAYS).is_about(400, 1),
        lit(MAX_RESONANT_DAYS).is_about(1_000, 1),
        lit(MIN_SIN_TURN).is_about(1, 1_000_000_000),
        lit(MAX_AXIS_ALIGNMENT).is_about(9, 10),
{
    lemma_powers_of_two();
}

} // verus!
