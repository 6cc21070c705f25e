//! Text splitting: lines, comma-separated fields, trimming and tokens.

use vstd::prelude::*;

verus! {

/// `String::push` appends one character to the end of the string.
pub assume_specification[ String::push ](s: &mut String, c: char)
    ensures
        final(s)@ == old(s)@.push(c),
;

/// Characters with the Unicode `White_Space` property.
pub open spec fn is_space(c: char) -> bool {
    ||| 0x09 <= c as u32 <= 0x0d
    ||| c as u32 == 0x20
    ||| c as u32 == 0x85
    ||| c as u32 == 0xa0
    ||| c as u32 == 0x1680
    ||| 0x2000 <= c as u32 <= 0x200a
    ||| c as u32 == 0x2028
    ||| c as u32 == 0x2029
    ||| c as u32 == 0x202f
    ||| c as u32 == 0x205f
    ||| c as u32 == 0x3000
}

/// First index at or after `from` that holds `c`, or the length of `s`.
pub open spec fn next_at(s: Seq<char>, from: int, c: char) -> int
    decreases s.len() - from,
{
    if from >= s.len() {
        s.len() as int
    } else if s[from] == c {
        from
    } else {
        next_at(s, from + 1, c)
    }
}

/// First index at or after `from` that holds no white space, or the length.
pub open spec fn skip_space(s: Seq<char>, from: int) -> int
    decreases s.len() - from,
{
    if from >= s.len() {
        s.len() as int
    } else if !is_space(s[from]) {
        from
    } else {
        skip_space(s, from + 1)
    }
}

/// First index at or after `from` that holds white space, or the length.
pub open spec fn skip_word(s: Seq<char>, from: int) -> int
    decreases s.len() - from,
{
    if from >= s.len() {
        s.len() as int
    } else if is_space(s[from]) {
        from
    } else {
        skip_word(s, from + 1)
    }
}

/// End of `s[from..to]` once its trailing white space is dropped.
pub open spec fn drop_space(s: Seq<char>, from: int, to: int) -> int
    decreases to - from,
{
    if to <= from {
        from
    } else if !is_space(s[to - 1]) {
        to
    } else {
        drop_space(s, from, to - 1)
    }
}

/// `s` without leading and trailing white space.
pub open spec fn trimmed(s: Seq<char>) -> Seq<char> {
    let a = skip_space(s, 0);
    s.subrange(a, drop_space(s, a, s.len() as int))
}

/// The first white-space-separated word of `s`, if there is one.
pub open spec fn first_word(s: Seq<char>) -> Option<Seq<char>> {
    let a = skip_space(s, 0);
    if a < s.len() {
        Some(s.subrange(a, skip_word(s, a)))
    } else {
        None
    }
}

/// The line `s[from..to]`, less the carriage return of a `\r\n` ending.
pub open spec fn line_of(s: Seq<char>, from: int, to: int) -> Seq<char> {
    if to < s.len() && from < to && s[to - 1] == '\r' {
        s.subrange(from, to - 1)
    } else {
        s.subrange(from, to)
    }
}

/// The lines of `s` from index `from` on. A final line ending adds no line.
pub open spec fn lines_from(s: Seq<char>, from: int) -> Seq<Seq<char>>
    decreases s.len() + 1 - from,
    via lines_from_decreases
{
    if from < 0 || from >= s.len() {
        seq![]
    } else {
        let e = next_at(s, from, '\n');
        seq![line_of(s, from, e)] + lines_from(s, e + 1)
    }
}

#[via_fn]
proof fn lines_from_decreases(s: Seq<char>, from: int) {
    lemma_next_at(s, from, '\n');
}

/// The lines of `s`, ended by `\n` or `\r\n`.
pub open spec fn lines_of(s: Seq<char>) -> Seq<Seq<char>> {
    lines_from(s, 0)
}

/// The pieces of `s` from index `from` on, between occurrences of `sep`.
pub open spec fn pieces_from(s: Seq<char>, from: int, sep: char) -> Seq<Seq<char>>
    decreases s.len() - from,
    via pieces_from_decreases
{
    if from < 0 || from > s.len() {
        seq![]
    } else {
        let e = next_at(s, from, sep);
        if e < s.len() {
            seq![s.subrange(from, e)] + pieces_from(s, e + 1, sep)
        } else {
            seq![s.subrange(from, e)]
        }
    }
}

#[via_fn]
proof fn pieces_from_decreases(s: Seq<char>, from: int, sep: char) {
    lemma_next_at(s, from, sep);
}

/// The pieces of `s` between occurrences of `sep`: one more than those.
pub open spec fn pieces_of(s: Seq<char>, sep: char) -> Seq<Seq<char>> {
    pieces_from(s, 0, sep)
}

/// `pat` stands in `s` at index `at`.
pub open spec fn stands_at(s: Seq<char>, pat: Seq<char>, at: int) -> bool {
    0 <= at && at + pat.len() <= s.len() && s.subrange(at, at + pat.len()) == pat
}

/// First index at or after `from` where `pat` stands in `s`.
pub open spec fn find_from(s: Seq<char>, pat: Seq<char>, from: int) -> Option<int>
    decreases s.len() + 1 - from,
{
    if from + pat.len() > s.len() {
        None
    } else if stands_at(s, pat, from) {
        Some(from)
    } else {
        find_from(s, pat, from + 1)
    }
}

/// `s` begins with `pat`.
pub open spec fn begins_with(s: Seq<char>, pat: Seq<char>) -> bool {
    stands_at(s, pat, 0)
}

/// `next_at` stops at the first occurrence, or at the end.
pub proof fn lemma_next_at(s: Seq<char>, from: int, c: char)
    ensures
        from < s.len() ==> from <= next_at(s, from, c) <= s.len(),
        from >= s.len() ==> next_at(s, from, c) == s.len(),
        0 <= from && next_at(s, from, c) < s.len() ==> s[next_at(s, from, c)] == c,
        forall|i: int| 0 <= from <= i < next_at(s, from, c) ==> s[i] != c,
    decreases s.len() - from,
{
    if from < s.len() && s[from] != c {
        lemma_next_at(s, from + 1, c);
    }
}

/// `skip_space` stops at the first character that is no white space.
pub proof fn lemma_skip_space(s: Seq<char>, from: int)
    requires
        0 <= from <= s.len(),
    ensures
        from <= skip_space(s, from) <= s.len(),
        skip_space(s, from) < s.len() ==> !is_space(s[skip_space(s, from)]),
        forall|i: int| from <= i < skip_space(s, from) ==> is_space(s[i]),
    decreases s.len() - from,
{
    if from < s.len() && is_space(s[from]) {
        lemma_skip_space(s, from + 1);
    }
}

/// `skip_word` stops at the first white space.
pub proof fn lemma_skip_word(s: Seq<char>, from: int)
    requires
        0 <= from <= s.len(),
    ensures
        from <= skip_word(s, from) <= s.len(),
        skip_word(s, from) < s.len() ==> is_space(s[skip_word(s, from)]),
        forall|i: int| from <= i < skip_word(s, from) ==> !is_space(s[i]),
    decreases s.len() - from,
{
    if from < s.len() && !is_space(s[from]) {
        lemma_skip_word(s, from + 1);
    }
}

proof fn lemma_drop_space(s: Seq<char>, from: int, to: int)
    requires
        0 <= from <= to <= s.len(),
    ensures
        from <= drop_space(s, from, to) <= to,
        from < drop_space(s, from, to) ==> !is_space(s[drop_space(s, from, to) - 1]),
        forall|i: int| drop_space(s, from, to) <= i < to ==> is_space(s[i]),
    decreases to - from,
{
    if from < to && is_space(s[to - 1]) {
        lemma_drop_space(s, from, to - 1);
    }
}

/// Trimming drops white space only, and leaves none at either end.
pub proof fn trimmed_is_maximal(s: Seq<char>)
    ensures
        exists|a: int, b: int|
            0 <= a <= b <= s.len() && trimmed(s) == #[trigger] s.subrange(a, b) && (forall|i: int|
                (0 <= i < a || b <= i < s.len()) ==> is_space(#[trigger] s[i])),
        trimmed(s).len() > 0 ==> !is_space(trimmed(s)[0]) && !is_space(trimmed(s).last()),
{
    let a = skip_space(s, 0);
    lemma_skip_space(s, 0);
    let b = drop_space(s, a, s.len() as int);
    lemma_drop_space(s, a, s.len() as int);
    assert(trimmed(s) == s.subrange(a, b));
}

/// The characters of `s`.
pub fn chars_of(s: &str) -> (r: Vec<char>)
    ensures
        r@ == s@,
{
    let mut r: Vec<char> = Vec::new();
    for c in it: s.chars()
        invariant
            it.seq() == s@,
            r@ == it.seq().take(it.index() as int),
    {
        r.push(c);
        assert(r@ =~= it.seq().take(it.index() as int + 1));
    }
    assert(r@ =~= s@);
    r
}

/// The string that holds `s[from..to]`.
pub fn string_of(s: &Vec<char>, from: usize, to: usize) -> (r: String)
    requires
        from <= to <= s@.len(),
    ensures
        r@ == s@.subrange(from as int, to as int),
{
    let mut r: String = String::new();
    let mut i: usize = from;
    while i < to
        invariant
            from <= i <= to <= s@.len(),
            r@ == s@.subrange(from as int, i as int),
        decreases to - i,
    {
        r.push(s[i]);
        i = i + 1;
        assert(r@ =~= s@.subrange(from as int, i as int));
    }
    r
}

/// The vector that holds `s[from..to]`.
pub fn slice_of(s: &Vec<char>, from: usize, to: usize) -> (r: Vec<char>)
    requires
        from <= to <= s@.len(),
    ensures
        r@ == s@.subrange(from as int, to as int),
{
    let mut r: Vec<char> = Vec::new();
    let mut i: usize = from;
    while i < to
        invariant
            from <= i <= to <= s@.len(),
            r@ == s@.subrange(from as int, i as int),
        decreases to - i,
    {
        r.push(s[i]);
        i = i + 1;
        assert(r@ =~= s@.subrange(from as int, i as int));
    }
    r
}

pub fn is_white_space(c: char) -> (r: bool)
    ensures
        r == is_space(c),
{
    let n: u32 = c as u32;
    (0x09 <= n && n <= 0x0d) || n == 0x20 || n == 0x85 || n == 0xa0 || n == 0x1680 || (0x2000 <= n && n
        <= 0x200a) || n == 0x2028 || n == 0x2029 || n == 0x202f || n == 0x205f || n == 0x3000
}

/// First index at or after `from` that holds `c`, or the length of `s`.
pub fn position(s: &Vec<char>, from: usize, c: char) -> (r: usize)
    requires
        from <= s@.len(),
    ensures
        r == next_at(s@, from as int, c),
        from <= r <= s@.len(),
{
    let mut i: usize = from;
    while i < s.len() && s[i] != c
        invariant
            from <= i <= s@.len(),
            next_at(s@, i as int, c) == next_at(s@, from as int, c),
        decreases s@.len() - i,
    {
        i = i + 1;
    }
    i
}

/// The lines of `s`, ended by `\n` or `\r\n`.
pub fn lines(s: &Vec<char>) -> (r: Vec<Vec<char>>)
    ensures
        views(r@) == lines_of(s@),
{
    let mut r: Vec<Vec<char>> = Vec::new();
    let mut from: usize = 0;
    assert(views(r@) + lines_from(s@, 0) =~= lines_of(s@));
    while from < s.len()
        invariant
            from <= s@.len(),
            views(r@) + lines_from(s@, from as int) == lines_of(s@),
        decreases s@.len() - from,
    {
        let e: usize = position(s, from, '\n');
        let ghost before = views(r@);
        let line: Vec<char> = if e < s.len() && from < e && s[e - 1] == '\r' {
            slice_of(s, from, e - 1)
        } else {
            slice_of(s, from, e)
        };
        let ghost line_view = line@;
        r.push(line);
        assert(views(r@) =~= before.push(line_view));
        assert(line_view == line_of(s@, from as int, e as int));
        assert(before + lines_from(s@, from as int) =~= before.push(line_view) + lines_from(
            s@,
            e as int + 1,
        ));
        if e < s.len() {
            from = e + 1;
        } else {
            assert(lines_from(s@, e as int + 1) =~= lines_from(s@, e as int));
            from = e;
        }
    }
    assert(views(r@) + lines_from(s@, from as int) =~= views(r@));
    r
}

/// The contents of the inner vectors.
pub open spec fn views(v: Seq<Vec<char>>) -> Seq<Seq<char>> {
    Seq::new(v.len(), |i: int| v[i]@)
}

/// The pieces of `s` between occurrences of `sep`.
pub fn pieces(s: &Vec<char>, sep: char) -> (r: Vec<Vec<char>>)
    ensures
        views(r@) == pieces_of(s@, sep),
        r@.len() >= 1,
{
    let mut r: Vec<Vec<char>> = Vec::new();
    let mut from: usize = 0;
    let mut open: bool = true;
    assert(views(r@) + pieces_from(s@, 0, sep) =~= pieces_of(s@, sep));
    while open
        invariant
            from <= s@.len(),
            open ==> views(r@) + pieces_from(s@, from as int, sep) == pieces_of(s@, sep),
            !open ==> views(r@) == pieces_of(s@, sep) && r@.len() >= 1,
        decreases s@.len() - from, if open { 1int } else { 0int },
    {
        let e: usize = position(s, from, sep);
        let ghost before = views(r@);
        let piece: Vec<char> = slice_of(s, from, e);
        let ghost piece_view = piece@;
        r.push(piece);
        assert(views(r@) =~= before.push(piece_view));
        if e < s.len() {
            assert(before + pieces_from(s@, from as int, sep) =~= before.push(piece_view) + pieces_from(
                s@,
                e as int + 1,
                sep,
            ));
            from = e + 1;
        } else {
            assert(before + pieces_from(s@, from as int, sep) =~= before.push(piece_view));
            open = false;
        }
    }
    r
}

/// First index at or after `from` that holds no white space, or the length.
pub fn past_space(s: &Vec<char>, from: usize) -> (r: usize)
    requires
        from <= s@.len(),
    ensures
        r == skip_space(s@, from as int),
        from <= r <= s@.len(),
{
    let mut i: usize = from;
    while i < s.len() && is_white_space(s[i])
        invariant
            from <= i <= s@.len(),
            skip_space(s@, i as int) == skip_space(s@, from as int),
        decreases s@.len() - i,
    {
        i = i + 1;
    }
    i
}

/// First index at or after `from` that holds white space, or the length.
pub fn past_word(s: &Vec<char>, from: usize) -> (r: usize)
    requires
        from <= s@.len(),
    ensures
        r == skip_word(s@, from as int),
        from <= r <= s@.len(),
{
    let mut i: usize = from;
    while i < s.len() && !is_white_space(s[i])
        invariant
            from <= i <= s@.len(),
            skip_word(s@, i as int) == skip_word(s@, from as int),
        decreases s@.len() - i,
    {
        i = i + 1;
    }
    i
}

/// `s` without leading and trailing white space.
pub fn trim(s: &Vec<char>) -> (r: Vec<char>)
    ensures
        r@ == trimmed(s@),
{
    let a: usize = past_space(s, 0);
    let mut b: usize = s.len();
    while b > a && is_white_space(s[b - 1])
        invariant
            a <= b <= s@.len(),
            drop_space(s@, a as int, b as int) == drop_space(s@, a as int, s@.len() as int),
        decreases b - a,
    {
        b = b - 1;
    }
    slice_of(s, a, b)
}

/// The first white-space-separated word at or after `from`.
pub fn word_after(s: &Vec<char>, from: usize) -> (r: Option<String>)
    requires
        from <= s@.len(),
    ensures
        match r {
            Some(w) => skip_space(s@, from as int) < s@.len() && w@ == s@.subrange(
                skip_space(s@, from as int),
                skip_word(s@, skip_space(s@, from as int)),
            ),
            None => skip_space(s@, from as int) == s@.len(),
        },
{
    let a: usize = past_space(s, from);
    if a < s.len() {
        let b: usize = past_word(s, a);
        Some(string_of(s, a, b))
    } else {
        None
    }
}

/// Does `pat` stand in `s` at index `at`?
pub fn stands(s: &Vec<char>, pat: &Vec<char>, at: usize) -> (r: bool)
    requires
        at <= s@.len(),
    ensures
        r == stands_at(s@, pat@, at as int),
{
    let n: usize = s.len();
    if pat.len() > n - at {
        return false;
    }
    let mut i: usize = 0;
    while i < pat.len()
        invariant
            i <= pat@.len(),
            n == s@.len(),
            at + pat@.len() <= n,
            forall|j: int| 0 <= j < i ==> s@[at + j] == pat@[j],
        decreases pat@.len() - i,
    {
        if s[at + i] != pat[i] {
            assert(s@.subrange(at as int, at + pat@.len())[i as int] != pat@[i as int]);
            return false;
        }
        i = i + 1;
    }
    assert(s@.subrange(at as int, at + pat@.len()) =~= pat@);
    true
}

/// First index where `pat` stands in `s`.
pub fn find(s: &Vec<char>, pat: &Vec<char>) -> (r: Option<usize>)
    ensures
        match r {
            Some(i) => find_from(s@, pat@, 0) == Some(i as int) && i + pat@.len() <= s@.len(),
            None => find_from(s@, pat@, 0) is None,
        },
{
    let n: usize = s.len();
    let mut i: usize = 0;
    while pat.len() <= n - i
        invariant
            n == s@.len(),
            i <= n,
            find_from(s@, pat@, i as int) == find_from(s@, pat@, 0),
        decreases n - i,
    {
        if stands(s, pat, i) {
            return Some(i);
        }
        if i == n {
            assert(find_from(s@, pat@, n + 1) is None);
            return None;
        }
        i = i + 1;
    }
    None
}

/// Do the two vectors hold the same characters?
pub fn same_text(a: &Vec<char>, b: &Vec<char>) -> (r: bool)
    ensures
        r == (a@ == b@),
{
    if a.len() != b.len() {
        return false;
    }
    let r: bool = stands(a, b, 0);
    assert(a@.subrange(0, a@.len() as int) =~= a@);
    r
}

/// Do the two strings hold the same characters?
pub fn is_text(a: &str, b: &str) -> (r: bool)
    ensures
        r == (a@ == b@),
{
    let x: Vec<char> = chars_of(a);
    let y: Vec<char> = chars_of(b);
    same_text(&x, &y)
}

/// `find_from` stops at the first place where `pat` stands.
pub proof fn lemma_find_from(s: Seq<char>, pat: Seq<char>, from: int)
    requires
        0 <= from,
    ensures
        match find_from(s, pat, from) {
            Some(i) => from <= i && stands_at(s, pat, i) && forall|j: int|
                from <= j < i ==> !stands_at(s, pat, j),
            None => forall|j: int| from <= j ==> !stands_at(s, pat, j),
        },
    decreases s.len() + 1 - from,
{
    if from + pat.len() <= s.len() && !stands_at(s, pat, from) {
        lemma_find_from(s, pat, from + 1);
    }
}

/// The decimal digit of `d`.
pub open spec fn digit(d: int) -> char {
    (('0' as u32) + d) as char
}

pub open spec fn is_digit(c: char) -> bool {
    '0' <= c <= '9'
}

/// Decimal notation of a number, without leading zeros.
pub open spec fn decimal(n: nat) -> Seq<char>
    decreases n,
{
    if n < 10 {
        seq![digit(n as int)]
    } else {
        decimal(n / 10).push(digit((n % 10) as int))
    }
}

/// Append a number in decimal notation.
pub fn push_decimal(s: &mut String, n: u64)
    ensures
        final(s)@ == old(s)@ + decimal(n as nat),
    decreases n,
{
    if n >= 10 {
        push_decimal(s, n / 10);
    }
    let d: u8 = 48u8 + (n % 10) as u8;
    s.push(d as char);
    assert(d as char == digit((n % 10) as int));
    assert(s@ =~= old(s)@ + decimal(n as nat));
}

/// Decimal notation holds digits only, and at least one.
pub proof fn lemma_decimal(n: nat)
    ensures
        decimal(n).len() > 0,
        forall|i: int| 0 <= i < decimal(n).len() ==> is_digit(#[trigger] decimal(n)[i]),
    decreases n,
{
    if n >= 10 {
        lemma_decimal(n / 10);
    }
}

/// The contents of the strings.
pub open spec fn string_views(v: Seq<String>) -> Seq<Seq<char>> {
    Seq::new(v.len(), |i: int| v[i]@)
}

/// The words with `sep` between each two.
pub open spec fn joined(words: Seq<Seq<char>>, sep: char) -> Seq<char>
    decreases words.len(),
{
    if words.len() == 0 {
        seq![]
    } else if words.len() == 1 {
        words[0]
    } else {
        words[0].push(sep) + joined(words.drop_first(), sep)
    }
}

/// Append the words, with `sep` between each two.
pub fn push_joined(s: &mut String, words: &Vec<String>, sep: char)
    ensures
        final(s)@ == old(s)@ + joined(string_views(words@), sep),
{
    let ghost all = string_views(words@);
    let ghost start = s@;
    let n: usize = words.len();
    if n == 0 {
        assert(s@ =~= start + joined(all, sep));
        return;
    }
    let mut i: usize = 0;
    assert(all.skip(0) =~= all);
    while i + 1 < n
        invariant
            n == words@.len(),
            i < n,
            all == string_views(words@),
            s@ + joined(all.skip(i as int), sep) == start + joined(all, sep),
        decreases n - i,
    {
        let ghost before = s@;
        let ghost rest = all.skip(i as int);
        s.append(words[i].as_str());
        s.push(sep);
        assert(rest.drop_first() =~= all.skip(i as int + 1));
        assert(rest[0] == words@[i as int]@);
        assert(s@ + joined(rest.drop_first(), sep) =~= before + joined(rest, sep));
        i = i + 1;
    }
    s.append(words[i].as_str());
    assert(all.skip(i as int)[0] == words@[i as int]@);
    assert(s@ =~= start + joined(all, sep));
}

/// `c` does not occur in `s`.
pub open spec fn free_of(s: Seq<char>, c: char) -> bool {
    forall|i: int| 0 <= i < s.len() ==> #[trigger] s[i] != c
}

/// Splitting at a separator undoes joining by it, for words that do not hold it.
pub proof fn splitting_undoes_joining(words: Seq<Seq<char>>, sep: char)
    requires
        words.len() > 0,
        forall|i: int| 0 <= i < words.len() ==> free_of(#[trigger] words[i], sep),
    ensures
        pieces_of(joined(words, sep), sep) == words,
{
    lemma_pieces_of_joined(seq![], words, sep);
    assert(Seq::<char>::empty() + joined(words, sep) =~= joined(words, sep));
}

proof fn lemma_next_is(s: Seq<char>, from: int, c: char, at: int)
    requires
        0 <= from <= at <= s.len(),
        forall|i: int| from <= i < at ==> s[i] != c,
        at < s.len() ==> s[at] == c,
    ensures
        next_at(s, from, c) == at,
    decreases at - from,
{
    if from < at {
        lemma_next_is(s, from + 1, c, at);
    }
}

proof fn lemma_pieces_of_joined(before: Seq<char>, words: Seq<Seq<char>>, sep: char)
    requires
        words.len() > 0,
        forall|i: int| 0 <= i < words.len() ==> free_of(#[trigger] words[i], sep),
    ensures
        pieces_from(before + joined(words, sep), before.len() as int, sep) == words,
    decreases words.len(),
{
    let s = before + joined(words, sep);
    let from = before.len() as int;
    let w = words[0];
    let at = from + w.len();
    assert(free_of(w, sep));
    if words.len() == 1 {
        assert forall|i: int| from <= i < at implies s[i] != sep by {
            assert(s[i] == w[i - from]);
        }
        lemma_next_is(s, from, sep, at);
        assert(s.subrange(from, at) =~= w);
        assert(words =~= seq![w]);
    } else {
        let rest = words.drop_first();
        assert forall|i: int| 0 <= i < rest.len() implies free_of(#[trigger] rest[i], sep) by {
            assert(free_of(words[i + 1], sep));
        }
        let head = before + w.push(sep);
        assert(head + joined(rest, sep) =~= s);
        assert forall|i: int| from <= i < at implies s[i] != sep by {
            assert(s[i] == w[i - from]);
        }
        assert(s[at] == sep);
        lemma_next_is(s, from, sep, at);
        assert(s.subrange(from, at) =~= w);
        lemma_pieces_of_joined(head, rest, sep);
        assert(words =~= seq![w] + rest);
    }
}

/// A text of two lines, each ended by `\n`, has those two lines.
pub proof fn two_lines_are_two(a: Seq<char>, b: Seq<char>)
    requires
        free_of(a, '\n'),
        free_of(b, '\n'),
        a.len() > 0 ==> a.last() != '\r',
        b.len() > 0 ==> b.last() != '\r',
    ensures
        lines_of(a.push('\n') + b.push('\n')) == seq![a, b],
{
    let s = a.push('\n') + b.push('\n');
    let m = a.len() as int;
    let n = m + 1 + b.len();
    assert forall|i: int| 0 <= i < m implies s[i] != '\n' by {
        assert(s[i] == a[i]);
    }
    assert forall|i: int| m + 1 <= i < n implies s[i] != '\n' by {
        assert(s[i] == b[i - m - 1]);
    }
    lemma_next_is(s, 0, '\n', m);
    lemma_next_is(s, m + 1, '\n', n);
    assert(s.subrange(0, m) =~= a);
    assert(s.subrange(m + 1, n) =~= b);
    if m > 0 {
        assert(s[m - 1] == a.last());
    }
    if b.len() > 0 {
        assert(s[n - 1] == b.last());
    }
    assert(line_of(s, 0, m) == a);
    assert(line_of(s, m + 1, n) == b);
    assert(lines_from(s, n + 1) =~= seq![]);
    assert(lines_from(s, m + 1) =~= seq![b]);
    assert(lines_from(s, 0) =~= seq![a, b]);
}

/// Among ASCII characters white space is the tab, the line and page breaks up to the
/// carriage return, and the blank; nothing that prints is white space.
pub proof fn ascii_white_space(c: char)
    requires
        (c as u32) < 0x80,
    ensures
        is_space(c) <==> c == ' ' || c == '\t' || c == '\n' || c == '\r' || c as u32 == 0x0b || c as u32 == 0x0c,
        is_digit(c) ==> !is_space(c),
        0x21 <= c as u32 <= 0x7e ==> !is_space(c),
{
}

/// The first word of a text is the first run of characters that are no white space,
/// as long as it can be; there is none exactly where the text is all white space.
pub proof fn first_word_is_maximal(s: Seq<char>)
    ensures
        first_word(s) is None <==> forall|i: int| 0 <= i < s.len() ==> is_space(#[trigger] s[i]),
        first_word(s) matches Some(w) ==> w.len() > 0 && exists|a: int, b: int|
            0 <= a < b <= s.len() && w == #[trigger] s.subrange(a, b) && (forall|i: int|
                0 <= i < a ==> is_space(#[trigger] s[i])) && (forall|i: int|
                a <= i < b ==> !is_space(#[trigger] s[i])) && (b < s.len() ==> is_space(s[b])),
{
    let a = skip_space(s, 0);
    lemma_skip_space(s, 0);
    if a < s.len() {
        assert(!is_space(s[a]));
        lemma_skip_word(s, a);
        let b = skip_word(s, a);
        assert(first_word(s) == Some(s.subrange(a, b)));
    }
}

/// Joining undoes splitting: the pieces, with the separator between each two, are the
/// text again, and no piece holds a separator.
pub proof fn joining_undoes_splitting(s: Seq<char>, sep: char)
    ensures
        joined(pieces_of(s, sep), sep) == s,
        pieces_of(s, sep).len() >= 1,
        forall|i: int| 0 <= i < pieces_of(s, sep).len() ==> free_of(#[trigger] pieces_of(s, sep)[i], sep),
{
    lemma_joined_pieces(s, 0, sep);
    assert(s.subrange(0, s.len() as int) =~= s);
}

proof fn lemma_joined_pieces(s: Seq<char>, from: int, sep: char)
    requires
        0 <= from <= s.len(),
    ensures
        joined(pieces_from(s, from, sep), sep) == s.subrange(from, s.len() as int),
        pieces_from(s, from, sep).len() >= 1,
        forall|i: int|
            0 <= i < pieces_from(s, from, sep).len() ==> free_of(#[trigger] pieces_from(s, from, sep)[i], sep),
    decreases s.len() - from,
{
    let e = next_at(s, from, sep);
    lemma_next_at(s, from, sep);
    let first = s.subrange(from, e);
    assert(free_of(first, sep)) by {
        assert forall|i: int| 0 <= i < first.len() implies #[trigger] first[i] != sep by {
            assert(s[from + i] != sep);
        }
    }
    let all = pieces_from(s, from, sep);
    if e < s.len() {
        lemma_joined_pieces(s, e + 1, sep);
        let rest = pieces_from(s, e + 1, sep);
        assert(all.drop_first() =~= rest);
        assert(first.push(sep) + s.subrange(e + 1, s.len() as int) =~= s.subrange(from, s.len() as int));
        assert forall|i: int| 0 <= i < all.len() implies free_of(#[trigger] all[i], sep) by {
            if i > 0 {
                assert(all[i] == rest[i - 1]);
            }
        }
    }
}

/// Lines end at a newline, and with it goes one carriage return before it; what
/// follows is split by itself. A last line needs no ending, and an empty text has no
/// line.
pub proof fn lines_end_at_newlines(a: Seq<char>, rest: Seq<char>)
    requires
        free_of(a, '\n'),
    ensures
        lines_of(a.push('\n') + rest) == seq![
            if a.len() > 0 && a.last() == '\r' {
                a.drop_last()
            } else {
                a
            },
        ] + lines_of(rest),
        a.len() > 0 ==> lines_of(a) == seq![a],
        lines_of(Seq::<char>::empty()) == Seq::<Seq<char>>::empty(),
{
    let head = a.push('\n');
    let s = head + rest;
    let m = a.len() as int;
    assert forall|i: int| 0 <= i < m implies s[i] != '\n' by {
        assert(s[i] == a[i]);
    }
    lemma_next_is(s, 0, '\n', m);
    if m > 0 {
        assert(s[m - 1] == a.last());
    }
    assert(s.subrange(0, m) =~= a);
    if m > 0 && a.last() == '\r' {
        assert(s.subrange(0, m - 1) =~= a.drop_last());
    }
    lemma_lines_shift(head, rest, 0);
    if m > 0 {
        lemma_next_is(a, 0, '\n', m);
        assert(a.subrange(0, m) =~= a);
        assert(lines_from(a, m + 1) =~= seq![]);
        assert(lines_of(a) =~= seq![a]);
    }
}

proof fn lemma_next_shift(head: Seq<char>, rest: Seq<char>, from: int, c: char)
    requires
        0 <= from <= rest.len(),
    ensures
        next_at(head + rest, head.len() + from, c) == head.len() + next_at(rest, from, c),
    decreases rest.len() - from,
{
    let s = head + rest;
    if from < rest.len() {
        assert(s[head.len() + from] == rest[from]);
        if rest[from] != c {
            lemma_next_shift(head, rest, from + 1, c);
        }
    }
}

proof fn lemma_lines_shift(head: Seq<char>, rest: Seq<char>, from: int)
    requires
        0 <= from,
    ensures
        lines_from(head + rest, head.len() + from) == lines_from(rest, from),
    decreases rest.len() + 1 - from,
{
    let s = head + rest;
    let n = head.len() as int;
    if from < rest.len() {
        let e = next_at(rest, from, '\n');
        lemma_next_at(rest, from, '\n');
        lemma_next_shift(head, rest, from, '\n');
        assert(line_of(s, n + from, n + e) == line_of(rest, from, e)) by {
            assert(s.subrange(n + from, n + e) =~= rest.subrange(from, e));
            if from < e {
                assert(s[n + e - 1] == rest[e - 1]);
                assert(s.subrange(n + from, n + e - 1) =~= rest.subrange(from, e - 1));
            }
        }
        lemma_lines_shift(head, rest, e + 1);
        assert(n + e + 1 == n + (e + 1));
    }
}

/// Decimal notation has no leading zero, but for zero itself, and its digits are the
/// ten decimal ones.
pub proof fn decimal_has_no_leading_zero(n: nat)
    ensures
        n > 0 ==> decimal(n)[0] != '0',
        decimal(0) == seq!['0'],
        n < 10 ==> digit(n as int) as int == '0' as int + n,
    decreases n,
{
    if n >= 10 {
        decimal_has_no_leading_zero(n / 10);
        lemma_decimal(n / 10);
        assert(decimal(n)[0] == decimal(n / 10)[0]);
    }
}

/// A text begins with whatever it was made to begin with, and with nothing longer
/// than itself.
pub proof fn beginning_is_recognised(pat: Seq<char>, rest: Seq<char>)
    ensures
        begins_with(pat + rest, pat),
        rest.len() > 0 ==> !begins_with(pat, pat + rest),
        begins_with(rest, pat) ==> rest == pat + rest.skip(pat.len() as int),
{
    assert((pat + rest).subrange(0, pat.len() as int) =~= pat);
    if begins_with(rest, pat) {
        assert forall|i: int| 0 <= i < pat.len() implies rest[i] == pat[i] by {
            assert(rest.subrange(0, pat.len() as int)[i] == pat[i]);
        }
        assert(rest =~= pat + rest.skip(pat.len() as int));
    }
}

} // verus!
