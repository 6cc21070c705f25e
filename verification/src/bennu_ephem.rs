//! State-vector tables in JPL Horizons text form.
//!
//! A table is a run of four-line records between a `$$SOE` and a `$$EOE` line:
//! the epoch, whose first word is the Julian date; the position, as `X =`,
//! `Y =`, `Z =`; the velocity, as `VX =`, `VY =`, `VZ =`; and a light-time line
//! that is not read. Numbers are handed out as the words that the table holds.

use crate::text::{
    chars_of, find, find_from, first_word, is_space, lemma_find_from, lemma_skip_space, lemma_skip_word, lines,
    lines_of, same_text, skip_space, skip_word, stands_at, trim, trimmed, views, word_after,
};
use vstd::prelude::*;

verus! {

/// Line that opens the table.
pub const START_OF_TABLE: &'static str = "$$SOE";

/// Line that closes the table.
pub const END_OF_TABLE: &'static str = "$$EOE";

/// The label of one state-vector component.
#[derive(Clone, Copy, Debug, PartialEq, Eq, Structural)]
pub enum Component {
    X,
    Y,
    Z,
    Vx,
    Vy,
    Vz,
}

/// Why a labelled value could not be read.
#[derive(Clone, Copy, Debug, PartialEq, Eq, Structural)]
pub enum LabelError {
    /// Neither `L =` nor `L=` stands in the line.
    NoLabel,
    /// No word follows the label.
    NoValue,
}

/// Why a table could not be read.
#[derive(Clone, Copy, Debug, PartialEq, Eq, Structural)]
pub enum HorizonsError {
    /// The text ends after an epoch line.
    EndsAfterEpoch,
    /// The text ends after a position line.
    EndsAfterPosition,
    /// A component is not given in its line.
    Component(Component, LabelError),
    /// The table holds no record.
    NoRecords,
}

impl Component {
    /// The label as it stands in a table.
    pub fn label(self) -> (r: &'static str)
        ensures
            r@ == label_of(self),
    {
        proof {
            reveal_strlit("X");
            reveal_strlit("Y");
            reveal_strlit("Z");
            reveal_strlit("VX");
            reveal_strlit("VY");
            reveal_strlit("VZ");
        }
        let r: &'static str = match self {
            Component::X => "X",
            Component::Y => "Y",
            Component::Z => "Z",
            Component::Vx => "VX",
            Component::Vy => "VY",
            Component::Vz => "VZ",
        };
        assert(r@ =~= label_of(self));
        r
    }
}

impl HorizonsError {
    pub open spec fn message_of(self) -> Seq<char> {
        match self {
            HorizonsError::EndsAfterEpoch => "File ended after JD line"@,
            HorizonsError::EndsAfterPosition => "File ended after XYZ line"@,
            HorizonsError::Component(c, LabelError::NoLabel) => "Label '"@ + label_of(c) + "' not found"@,
            HorizonsError::Component(c, LabelError::NoValue) => "No value after '"@ + label_of(c) + "'"@,
            HorizonsError::NoRecords => "No records parsed"@,
        }
    }

    /// Append the message of an error.
    pub fn push_message(self, s: &mut String)
        ensures
            final(s)@ == old(s)@ + self.message_of(),
    {
        match self {
            HorizonsError::EndsAfterEpoch => {
                s.append("File ended after JD line");
            },
            HorizonsError::EndsAfterPosition => {
                s.append("File ended after XYZ line");
            },
            HorizonsError::Component(c, LabelError::NoLabel) => {
                s.append("Label '");
                s.append(c.label());
                s.append("' not found");
            },
            HorizonsError::Component(c, LabelError::NoValue) => {
                s.append("No value after '");
                s.append(c.label());
                s.append("'");
            },
            HorizonsError::NoRecords => {
                s.append("No records parsed");
            },
        }
        assert(s@ =~= old(s)@ + self.message_of());
    }
}

/// One record, as the words of the table.
#[derive(Debug)]
pub struct HorizonsRecord {
    pub epoch: String,
    pub x: String,
    pub y: String,
    pub z: String,
    pub vx: String,
    pub vy: String,
    pub vz: String,
}

/// The contents of a [`HorizonsRecord`].
pub ghost struct RecordView {
    pub epoch: Seq<char>,
    pub x: Seq<char>,
    pub y: Seq<char>,
    pub z: Seq<char>,
    pub vx: Seq<char>,
    pub vy: Seq<char>,
    pub vz: Seq<char>,
}

impl View for HorizonsRecord {
    type V = RecordView;

    open spec fn view(&self) -> RecordView {
        RecordView {
            epoch: self.epoch@,
            x: self.x@,
            y: self.y@,
            z: self.z@,
            vx: self.vx@,
            vy: self.vy@,
            vz: self.vz@,
        }
    }
}

/// The word that follows `label =` or, failing that, `label=` in `line`.
pub open spec fn labeled(line: Seq<char>, label: Seq<char>) -> Result<Seq<char>, LabelError> {
    let spaced = label + seq![' ', '='];
    let tight = label + seq!['='];
    match find_from(line, spaced, 0) {
        Some(i) => word_at(line, i + spaced.len()),
        None => match find_from(line, tight, 0) {
            Some(i) => word_at(line, i + tight.len()),
            None => Err(LabelError::NoLabel),
        },
    }
}

/// The first word of `line` at or after index `from`.
pub open spec fn word_at(line: Seq<char>, from: int) -> Result<Seq<char>, LabelError> {
    let a = skip_space(line, from);
    if a < line.len() {
        Ok(line.subrange(a, skip_word(line, a)))
    } else {
        Err(LabelError::NoValue)
    }
}

/// The letters of a component's label.
pub open spec fn label_of(c: Component) -> Seq<char> {
    match c {
        Component::X => seq!['X'],
        Component::Y => seq!['Y'],
        Component::Z => seq!['Z'],
        Component::Vx => seq!['V', 'X'],
        Component::Vy => seq!['V', 'Y'],
        Component::Vz => seq!['V', 'Z'],
    }
}

/// A component's word in `line`.
pub open spec fn component(line: Seq<char>, c: Component) -> Result<Seq<char>, HorizonsError> {
    match labeled(line, label_of(c)) {
        Ok(w) => Ok(w),
        Err(e) => Err(HorizonsError::Component(c, e)),
    }
}

/// The three components of one line, or the first of them that fails.
pub open spec fn triple(
    line: Seq<char>,
    a: Component,
    b: Component,
    c: Component,
) -> Result<(Seq<char>, Seq<char>, Seq<char>), HorizonsError> {
    match component(line, a) {
        Err(e) => Err(e),
        Ok(x) => match component(line, b) {
            Err(e) => Err(e),
            Ok(y) => match component(line, c) {
                Err(e) => Err(e),
                Ok(z) => Ok((x, y, z)),
            },
        },
    }
}

/// The record in an epoch, a position and a velocity line.
pub open spec fn record(
    epoch: Seq<char>,
    position: Seq<char>,
    velocity: Seq<char>,
) -> Result<RecordView, HorizonsError> {
    match triple(position, Component::X, Component::Y, Component::Z) {
        Err(e) => Err(e),
        Ok((x, y, z)) => match triple(velocity, Component::Vx, Component::Vy, Component::Vz) {
            Err(e) => Err(e),
            Ok((vx, vy, vz)) => Ok(
                RecordView { epoch: first_word(epoch).unwrap_or(seq![]), x, y, z, vx, vy, vz },
            ),
        },
    }
}

/// Does the line, trimmed, begin with an ASCII digit?
pub open spec fn is_epoch(line: Seq<char>) -> bool {
    let t = trimmed(line);
    t.len() > 0 && '0' <= t[0] <= '9'
}

/// Index of the first line after the opening line, or the number of lines.
pub open spec fn table_start(text: Seq<Seq<char>>, from: int) -> int
    decreases text.len() - from,
{
    if from >= text.len() {
        text.len() as int
    } else if trimmed(text[from]) == START_OF_TABLE@ {
        from + 1
    } else {
        table_start(text, from + 1)
    }
}

/// Index of the next epoch line before the closing line.
pub open spec fn next_epoch(text: Seq<Seq<char>>, from: int) -> Option<int>
    decreases text.len() - from,
{
    if from >= text.len() || trimmed(text[from]) == END_OF_TABLE@ {
        None
    } else if is_epoch(text[from]) {
        Some(from)
    } else {
        next_epoch(text, from + 1)
    }
}

/// The records from line `from` on, or the first error among them.
pub open spec fn records_from(text: Seq<Seq<char>>, from: int) -> Result<Seq<RecordView>, HorizonsError>
    decreases text.len() + 4 - from,
    via records_from_decreases
{
    match next_epoch(text, from) {
        None => Ok(seq![]),
        Some(k) => if k + 1 >= text.len() {
            Err(HorizonsError::EndsAfterEpoch)
        } else if k + 2 >= text.len() {
            Err(HorizonsError::EndsAfterPosition)
        } else {
            match record(text[k], text[k + 1], text[k + 2]) {
                Err(e) => Err(e),
                Ok(r) => match records_from(text, k + 4) {
                    Err(e) => Err(e),
                    Ok(rest) => Ok(seq![r] + rest),
                },
            }
        },
    }
}

#[via_fn]
proof fn records_from_decreases(text: Seq<Seq<char>>, from: int) {
    lemma_next_epoch(text, from);
}

proof fn lemma_next_epoch(text: Seq<Seq<char>>, from: int)
    ensures
        next_epoch(text, from) matches Some(k) ==> from <= k < text.len() && is_epoch(text[k]) && trimmed(text[k])
            != END_OF_TABLE@,
    decreases text.len() - from,
{
    if from < text.len() && trimmed(text[from]) != END_OF_TABLE@ && !is_epoch(text[from]) {
        lemma_next_epoch(text, from + 1);
    }
}

/// The records of a table.
pub open spec fn table(text: Seq<char>) -> Result<Seq<RecordView>, HorizonsError> {
    let ls = lines_of(text);
    match records_from(ls, table_start(ls, 0)) {
        Err(e) => Err(e),
        Ok(r) => if r.len() == 0 {
            Err(HorizonsError::NoRecords)
        } else {
            Ok(r)
        },
    }
}

/// A state-vector table: at least one record, in the order of the text.
#[derive(Debug)]
pub struct BennuEphem {
    pub records: Vec<HorizonsRecord>,
}

/// The contents of the records.
pub open spec fn record_views(v: Seq<HorizonsRecord>) -> Seq<RecordView> {
    Seq::new(v.len(), |i: int| v[i]@)
}

impl BennuEphem {
    pub open spec fn wf(self) -> bool {
        self.records@.len() > 0
    }

    /// Read the table of a text.
    pub fn load(text: &str) -> (r: Result<BennuEphem, HorizonsError>)
        ensures
            match r {
                Ok(e) => e.wf() && table(text@) == Ok::<Seq<RecordView>, HorizonsError>(
                    record_views(e.records@),
                ),
                Err(e) => table(text@) == Err::<Seq<RecordView>, HorizonsError>(e),
            },
    {
        let chars: Vec<char> = chars_of(text);
        let ls: Vec<Vec<char>> = lines(&chars);
        let start: usize = start_of_table(&ls);
        match read_records(&ls, start) {
            Err(e) => Err(e),
            Ok(records) => if records.len() == 0 {
                Err(HorizonsError::NoRecords)
            } else {
                Ok(BennuEphem { records })
            },
        }
    }

    /// First and last epoch.
    pub fn coverage(&self) -> (r: (&String, &String))
        requires
            self.wf(),
        ensures
            r.0 == self.records@[0].epoch,
            r.1 == self.records@.last().epoch,
    {
        (&self.records[0].epoch, &self.records[self.records.len() - 1].epoch)
    }
}

fn start_of_table(ls: &Vec<Vec<char>>) -> (r: usize)
    ensures
        r == table_start(views(ls@), 0),
        r <= ls@.len(),
{
    let marker: Vec<char> = chars_of(START_OF_TABLE);
    let mut i: usize = 0;
    while i < ls.len()
        invariant
            i <= ls@.len(),
            marker@ == START_OF_TABLE@,
            table_start(views(ls@), i as int) == table_start(views(ls@), 0),
        decreases ls@.len() - i,
    {
        let t: Vec<char> = trim(&ls[i]);
        if same_text(&t, &marker) {
            return i + 1;
        }
        i = i + 1;
    }
    i
}

fn epoch_after(ls: &Vec<Vec<char>>, from: usize) -> (r: Option<usize>)
    requires
        from <= ls@.len(),
    ensures
        match r {
            Some(k) => next_epoch(views(ls@), from as int) == Some(k as int) && from <= k < ls@.len(),
            None => next_epoch(views(ls@), from as int) is None,
        },
{
    let marker: Vec<char> = chars_of(END_OF_TABLE);
    let mut i: usize = from;
    while i < ls.len()
        invariant
            from <= i <= ls@.len(),
            marker@ == END_OF_TABLE@,
            next_epoch(views(ls@), i as int) == next_epoch(views(ls@), from as int),
        decreases ls@.len() - i,
    {
        let t: Vec<char> = trim(&ls[i]);
        if same_text(&t, &marker) {
            return None;
        }
        if t.len() > 0 && '0' <= t[0] && t[0] <= '9' {
            return Some(i);
        }
        i = i + 1;
    }
    None
}

/// Read one labelled value: the word that follows `label =`, or `label=` where
/// the spaced form is absent.
pub fn parse_labeled(line: &Vec<char>, label: &str) -> (r: Result<String, LabelError>)
    ensures
        match r {
            Ok(w) => labeled(line@, label@) == Ok::<Seq<char>, LabelError>(w@),
            Err(e) => labeled(line@, label@) == Err::<Seq<char>, LabelError>(e),
        },
{
    let mut spaced: Vec<char> = chars_of(label);
    spaced.push(' ');
    spaced.push('=');
    let mut tight: Vec<char> = chars_of(label);
    tight.push('=');
    assert(spaced@ =~= label@ + seq![' ', '=']);
    assert(tight@ =~= label@ + seq!['=']);
    let n: usize = line.len();
    assert(n == line@.len());
    let from: usize = match find(line, &spaced) {
        Some(i) => i + spaced.len(),
        None => match find(line, &tight) {
            Some(i) => i + tight.len(),
            None => {
                return Err(LabelError::NoLabel);
            },
        },
    };
    match word_after(line, from) {
        Some(w) => Ok(w),
        None => Err(LabelError::NoValue),
    }
}

fn read_component(line: &Vec<char>, c: Component) -> (r: Result<String, HorizonsError>)
    ensures
        match r {
            Ok(w) => component(line@, c) == Ok::<Seq<char>, HorizonsError>(w@),
            Err(e) => component(line@, c) == Err::<Seq<char>, HorizonsError>(e),
        },
{
    match parse_labeled(line, c.label()) {
        Ok(w) => Ok(w),
        Err(e) => Err(HorizonsError::Component(c, e)),
    }
}

fn read_triple(line: &Vec<char>, a: Component, b: Component, c: Component) -> (r: Result<
    (String, String, String),
    HorizonsError,
>)
    ensures
        match r {
            Ok((x, y, z)) => triple(line@, a, b, c) == Ok::<
                (Seq<char>, Seq<char>, Seq<char>),
                HorizonsError,
            >((x@, y@, z@)),
            Err(e) => triple(line@, a, b, c) == Err::<(Seq<char>, Seq<char>, Seq<char>), HorizonsError>(
                e,
            ),
        },
{
    let x: String = match read_component(line, a) {
        Ok(w) => w,
        Err(e) => {
            return Err(e);
        },
    };
    let y: String = match read_component(line, b) {
        Ok(w) => w,
        Err(e) => {
            return Err(e);
        },
    };
    match read_component(line, c) {
        Ok(z) => Ok((x, y, z)),
        Err(e) => Err(e),
    }
}

fn read_record(epoch: &Vec<char>, position: &Vec<char>, velocity: &Vec<char>) -> (r: Result<
    HorizonsRecord,
    HorizonsError,
>)
    ensures
        match r {
            Ok(w) => record(epoch@, position@, velocity@) == Ok::<RecordView, HorizonsError>(w@),
            Err(e) => record(epoch@, position@, velocity@) == Err::<RecordView, HorizonsError>(e),
        },
{
    let (x, y, z) = match read_triple(position, Component::X, Component::Y, Component::Z) {
        Ok(t) => t,
        Err(e) => {
            return Err(e);
        },
    };
    let (vx, vy, vz) = match read_triple(velocity, Component::Vx, Component::Vy, Component::Vz) {
        Ok(t) => t,
        Err(e) => {
            return Err(e);
        },
    };
    let epoch_word: String = match word_after(epoch, 0) {
        Some(w) => w,
        None => String::new(),
    };
    proof {
        reveal_strlit("");
        assert(epoch_word@ =~= first_word(epoch@).unwrap_or(seq![]));
    }
    Ok(HorizonsRecord { epoch: epoch_word, x, y, z, vx, vy, vz })
}

/// Outcome of the whole table, given the records read so far.
pub open spec fn prefixed(
    done: Seq<RecordView>,
    rest: Result<Seq<RecordView>, HorizonsError>,
) -> Result<Seq<RecordView>, HorizonsError> {
    match rest {
        Ok(r) => Ok(done + r),
        Err(e) => Err(e),
    }
}

fn read_records(ls: &Vec<Vec<char>>, start: usize) -> (r: Result<Vec<HorizonsRecord>, HorizonsError>)
    requires
        start <= ls@.len(),
    ensures
        match r {
            Ok(v) => records_from(views(ls@), start as int) == Ok::<Seq<RecordView>, HorizonsError>(
                record_views(v@),
            ),
            Err(e) => records_from(views(ls@), start as int) == Err::<Seq<RecordView>, HorizonsError>(e),
        },
{
    let ghost text = views(ls@);
    let n: usize = ls.len();
    let mut records: Vec<HorizonsRecord> = Vec::new();
    let mut from: usize = start;
    proof {
        match records_from(text, start as int) {
            Ok(all) => {
                assert(record_views(records@) + all =~= all);
            },
            Err(_) => {},
        }
    }
    loop
        invariant
            n == ls@.len(),
            text == views(ls@),
            from <= n,
            prefixed(record_views(records@), records_from(text, from as int)) == records_from(
                text,
                start as int,
            ),
        decreases n - from,
    {
        let k: usize = match epoch_after(ls, from) {
            Some(k) => k,
            None => {
                assert(record_views(records@) + Seq::<RecordView>::empty() =~= record_views(records@));
                return Ok(records);
            },
        };
        if n - k <= 1 {
            return Err(HorizonsError::EndsAfterEpoch);
        }
        if n - k <= 2 {
            return Err(HorizonsError::EndsAfterPosition);
        }
        match read_record(&ls[k], &ls[k + 1], &ls[k + 2]) {
            Err(e) => {
                return Err(e);
            },
            Ok(rec) => {
                let ghost done = record_views(records@);
                let ghost view = rec@;
                records.push(rec);
                proof {
                    assert(record_views(records@) =~= done.push(view));
                    match records_from(text, k + 4) {
                        Ok(rest) => {
                            assert(done + (seq![view] + rest) =~= done.push(view) + rest);
                        },
                        Err(_) => {},
                    }
                }
            },
        }
        if n - k <= 4 {
            assert(records_from(text, k + 4) == records_from(text, n as int));
            from = n;
        } else {
            from = k + 4;
        }
    }
}

/// The four lines of one record.
pub ghost struct RecordLines {
    pub epoch: Seq<char>,
    pub position: Seq<char>,
    pub velocity: Seq<char>,
    pub light_time: Seq<char>,
}

impl RecordLines {
    /// The epoch line is recognised as one, and the other two give `r`.
    pub open spec fn holds(self, r: RecordView) -> bool {
        &&& is_epoch(self.epoch)
        &&& record(self.epoch, self.position, self.velocity) == Ok::<RecordView, HorizonsError>(r)
    }
}

/// The lines of a run of records.
pub open spec fn layout(blocks: Seq<RecordLines>) -> Seq<Seq<char>>
    decreases blocks.len(),
{
    if blocks.len() == 0 {
        seq![]
    } else {
        seq![blocks[0].epoch, blocks[0].position, blocks[0].velocity, blocks[0].light_time] + layout(
            blocks.drop_first(),
        )
    }
}

/// A table gives back exactly the records that stand between its opening and
/// its closing line, whatever stands before and after them.
pub proof fn table_gives_back_its_records(
    header: Seq<Seq<char>>,
    open: Seq<char>,
    blocks: Seq<RecordLines>,
    recs: Seq<RecordView>,
    close: Seq<char>,
    trailer: Seq<Seq<char>>,
)
    requires
        forall|i: int| 0 <= i < header.len() ==> trimmed(#[trigger] header[i]) != START_OF_TABLE@,
        trimmed(open) == START_OF_TABLE@,
        blocks.len() == recs.len(),
        forall|i: int| 0 <= i < blocks.len() ==> (#[trigger] blocks[i]).holds(recs[i]),
        trimmed(close) == END_OF_TABLE@,
    ensures
        ({
            let text = header + seq![open] + layout(blocks) + seq![close] + trailer;
            records_from(text, table_start(text, 0)) == Ok::<Seq<RecordView>, HorizonsError>(recs)
        }),
{
    let before = header + seq![open];
    let text = before + layout(blocks) + seq![close] + trailer;
    lemma_table_start(text, header.len() as int, 0);
    lemma_records_of_layout(before, blocks, recs, seq![close] + trailer);
    assert(before + layout(blocks) + (seq![close] + trailer) =~= text);
}

proof fn lemma_table_start(text: Seq<Seq<char>>, at: int, from: int)
    requires
        0 <= from <= at < text.len(),
        forall|i: int| from <= i < at ==> trimmed(#[trigger] text[i]) != START_OF_TABLE@,
        trimmed(text[at]) == START_OF_TABLE@,
    ensures
        table_start(text, from) == at + 1,
    decreases at - from,
{
    if from < at {
        lemma_table_start(text, at, from + 1);
    }
}

proof fn lemma_records_of_layout(
    before: Seq<Seq<char>>,
    blocks: Seq<RecordLines>,
    recs: Seq<RecordView>,
    after: Seq<Seq<char>>,
)
    requires
        blocks.len() == recs.len(),
        forall|i: int| 0 <= i < blocks.len() ==> (#[trigger] blocks[i]).holds(recs[i]),
        after.len() > 0,
        trimmed(after[0]) == END_OF_TABLE@,
    ensures
        records_from(before + layout(blocks) + after, before.len() as int) == Ok::<
            Seq<RecordView>,
            HorizonsError,
        >(recs),
    decreases blocks.len(),
{
    let text = before + layout(blocks) + after;
    let n = before.len() as int;
    if blocks.len() == 0 {
        assert(text[n] == after[0]);
        assert(recs =~= seq![]);
    } else {
        let b = blocks[0];
        let four = seq![b.epoch, b.position, b.velocity, b.light_time];
        let rest = blocks.drop_first();
        assert(b.holds(recs[0]));
        assert forall|i: int| 0 <= i < rest.len() implies (#[trigger] rest[i]).holds(recs.drop_first()[i]) by {
            assert(blocks[i + 1].holds(recs[i + 1]));
        }
        lemma_records_of_layout(before + four, rest, recs.drop_first(), after);
        assert((before + four) + layout(rest) + after =~= text);
        assert(text[n] == b.epoch && text[n + 1] == b.position && text[n + 2] == b.velocity);
        lemma_digit_is_not_end(b.epoch);
        assert(next_epoch(text, n) == Some(n));
        assert(seq![recs[0]] + recs.drop_first() =~= recs);
    }
}

/// An epoch line is not the closing line.
proof fn lemma_digit_is_not_end(line: Seq<char>)
    requires
        is_epoch(line),
    ensures
        trimmed(line) != END_OF_TABLE@,
{
    reveal_strlit("$$EOE");
    assert(END_OF_TABLE@[0] == '$');
}

/// `w` is the first word of `line` at or after `from`: only white space comes before
/// it, it holds none, and it ends at white space or with the line.
pub open spec fn is_next_word(line: Seq<char>, from: int, w: Seq<char>) -> bool {
    exists|a: int, b: int|
        from <= a < b <= line.len() && w == #[trigger] line.subrange(a, b) && (forall|i: int|
            from <= i < a ==> is_space(#[trigger] line[i])) && (forall|i: int|
            a <= i < b ==> !is_space(#[trigger] line[i])) && (b < line.len() ==> is_space(line[b]))
}

proof fn lemma_word_at(line: Seq<char>, from: int)
    requires
        0 <= from <= line.len(),
    ensures
        word_at(line, from) matches Ok(w) ==> is_next_word(line, from, w),
        word_at(line, from) is Err <==> forall|i: int| from <= i < line.len() ==> is_space(#[trigger] line[i]),
        word_at(line, from) matches Err(e) ==> e == LabelError::NoValue,
{
    let a = skip_space(line, from);
    lemma_skip_space(line, from);
    if a < line.len() {
        lemma_skip_word(line, a);
        let b = skip_word(line, a);
        assert(!is_space(line[a]));
        assert(a < b);
        assert(is_next_word(line, from, line.subrange(a, b)));
    }
}

/// A labelled value is the word behind the first `label =` of its line; it is missing
/// where nothing but white space follows there.
pub proof fn labelled_value_follows_its_label(line: Seq<char>, label: Seq<char>, i: int)
    requires
        stands_at(line, label.push(' ').push('='), i),
        forall|j: int| 0 <= j < i ==> !(#[trigger] stands_at(line, label.push(' ').push('='), j)),
    ensures
        match labeled(line, label) {
            Ok(w) => is_next_word(line, i + label.len() + 2, w),
            Err(e) => e == LabelError::NoValue && forall|k: int|
                i + label.len() + 2 <= k < line.len() ==> is_space(#[trigger] line[k]),
        },
{
    let spaced = label.push(' ').push('=');
    assert(label + seq![' ', '='] =~= spaced);
    lemma_find_from(line, spaced, 0);
    assert(find_from(line, spaced, 0) == Some(i)) by {
        match find_from(line, spaced, 0) {
            Some(k) => {
                if i < k {
                    assert(!stands_at(line, spaced, i));
                } else if k < i {
                    assert(!stands_at(line, spaced, k));
                }
            },
            None => {
                assert(!stands_at(line, spaced, i));
            },
        }
    }
    lemma_word_at(line, i + spaced.len());
}

/// In a line without `label =`, it is the word behind the first `label=`.
pub proof fn labelled_value_follows_a_tight_label(line: Seq<char>, label: Seq<char>, i: int)
    requires
        forall|j: int| 0 <= j ==> !(#[trigger] stands_at(line, label.push(' ').push('='), j)),
        stands_at(line, label.push('='), i),
        forall|j: int| 0 <= j < i ==> !(#[trigger] stands_at(line, label.push('='), j)),
    ensures
        match labeled(line, label) {
            Ok(w) => is_next_word(line, i + label.len() + 1, w),
            Err(e) => e == LabelError::NoValue && forall|k: int|
                i + label.len() + 1 <= k < line.len() ==> is_space(#[trigger] line[k]),
        },
{
    let spaced = label.push(' ').push('=');
    assert(label + seq![' ', '='] =~= spaced);
    let tight = label.push('=');
    assert(label + seq!['='] =~= tight);
    lemma_find_from(line, spaced, 0);
    lemma_find_from(line, tight, 0);
    assert(find_from(line, tight, 0) == Some(i)) by {
        match find_from(line, tight, 0) {
            Some(k) => {
                if i < k {
                    assert(!stands_at(line, tight, i));
                } else if k < i {
                    assert(!stands_at(line, tight, k));
                }
            },
            None => {
                assert(!stands_at(line, tight, i));
            },
        }
    }
    lemma_word_at(line, i + tight.len());
}

/// A label is reported as missing exactly where it stands in the line in neither form.
pub proof fn missing_label_is_reported(line: Seq<char>, label: Seq<char>)
    ensures
        labeled(line, label) == Err::<Seq<char>, LabelError>(LabelError::NoLabel) <==> (forall|i: int|
            0 <= i ==> !(#[trigger] stands_at(line, label.push(' ').push('='), i))) && (forall|i: int|
            0 <= i ==> !(#[trigger] stands_at(line, label.push('='), i))),
{
    let spaced = label.push(' ').push('=');
    assert(label + seq![' ', '='] =~= spaced);
    let tight = label.push('=');
    assert(label + seq!['='] =~= tight);
    lemma_find_from(line, spaced, 0);
    lemma_find_from(line, tight, 0);
    if let Some(k) = find_from(line, spaced, 0) {
        assert(stands_at(line, spaced, k));
        lemma_word_at(line, k + spaced.len());
    } else if let Some(k) = find_from(line, tight, 0) {
        assert(stands_at(line, tight, k));
        lemma_word_at(line, k + tight.len());
    }
}

/// The six labels are the axes, with a V before those of the velocity.
pub proof fn labels_name_their_component(c: Component, d: Component)
    ensures
        label_of(c) == label_of(d) <==> c == d,
        label_of(Component::X) == "X"@ && label_of(Component::Y) == "Y"@ && label_of(Component::Z) == "Z"@,
        label_of(Component::Vx) == "VX"@ && label_of(Component::Vy) == "VY"@ && label_of(Component::Vz) == "VZ"@,
{
    reveal_strlit("X");
    reveal_strlit("Y");
    reveal_strlit("Z");
    reveal_strlit("VX");
    reveal_strlit("VY");
    reveal_strlit("VZ");
    assert(label_of(Component::X) =~= "X"@);
    assert(label_of(Component::Y) =~= "Y"@);
    assert(label_of(Component::Z) =~= "Z"@);
    assert(label_of(Component::Vx) =~= "VX"@);
    assert(label_of(Component::Vy) =~= "VY"@);
    assert(label_of(Component::Vz) =~= "VZ"@);
    assert(label_of(Component::X)[0] == 'X' && label_of(Component::Y)[0] == 'Y' && label_of(Component::Z)[0] == 'Z');
    assert(label_of(Component::Vx)[1] == 'X' && label_of(Component::Vy)[1] == 'Y' && label_of(Component::Vz)[1]
        == 'Z');
}

/// A record takes its epoch from the first word of the epoch line, its position from
/// the three labels of the position line, and its velocity from those of the velocity
/// line. It is read exactly where all six are there.
pub proof fn record_takes_each_value_from_its_label(
    epoch: Seq<char>,
    position: Seq<char>,
    velocity: Seq<char>,
)
    ensures
        record(epoch, position, velocity) matches Ok(r) ==> {
            &&& labeled(position, seq!['X']) == Ok::<Seq<char>, LabelError>(r.x)
            &&& labeled(position, seq!['Y']) == Ok::<Seq<char>, LabelError>(r.y)
            &&& labeled(position, seq!['Z']) == Ok::<Seq<char>, LabelError>(r.z)
            &&& labeled(velocity, seq!['V', 'X']) == Ok::<Seq<char>, LabelError>(r.vx)
            &&& labeled(velocity, seq!['V', 'Y']) == Ok::<Seq<char>, LabelError>(r.vy)
            &&& labeled(velocity, seq!['V', 'Z']) == Ok::<Seq<char>, LabelError>(r.vz)
            &&& first_word(epoch) matches Some(w) ==> r.epoch == w
        },
        record(epoch, position, velocity) is Ok <==> labeled(position, seq!['X']) is Ok && labeled(
            position,
            seq!['Y'],
        ) is Ok && labeled(position, seq!['Z']) is Ok && labeled(velocity, seq!['V', 'X']) is Ok && labeled(
            velocity,
            seq!['V', 'Y'],
        ) is Ok && labeled(velocity, seq!['V', 'Z']) is Ok,
{
}

/// What is wrong with a record is the first component that cannot be read, position
/// before velocity and axis by axis, and why it cannot.
pub proof fn first_bad_component_is_reported(epoch: Seq<char>, position: Seq<char>, velocity: Seq<char>)
    ensures
        record(epoch, position, velocity) matches Err(e) ==> (e matches HorizonsError::Component(c, why) && {
            let line = if c == Component::X || c == Component::Y || c == Component::Z {
                position
            } else {
                velocity
            };
            &&& labeled(line, label_of(c)) == Err::<Seq<char>, LabelError>(why)
            &&& c != Component::X ==> labeled(position, label_of(Component::X)) is Ok
            &&& c != Component::X && c != Component::Y ==> labeled(position, label_of(Component::Y)) is Ok
            &&& line == velocity && line != position ==> labeled(position, label_of(Component::Z)) is Ok
            &&& c == Component::Vy || c == Component::Vz ==> labeled(velocity, label_of(Component::Vx)) is Ok
            &&& c == Component::Vz ==> labeled(velocity, label_of(Component::Vy)) is Ok
        }),
{
}

/// An epoch line begins with a digit once it is trimmed, and with nothing else.
pub proof fn epochs_begin_with_a_digit(line: Seq<char>)
    ensures
        is_epoch(line) <==> trimmed(line).len() > 0 && crate::text::is_digit(trimmed(line)[0]),
{
}

/// A table that breaks off after an epoch or a position line is an error that says
/// which, and so is one without a record; nothing of it is handed out.
pub proof fn broken_table_is_an_error(text: Seq<Seq<char>>, from: int)
    requires
        0 <= from < text.len(),
        is_epoch(text[from]),
    ensures
        from + 1 == text.len() ==> records_from(text, from) == Err::<Seq<RecordView>, HorizonsError>(
            HorizonsError::EndsAfterEpoch,
        ),
        from + 2 == text.len() ==> records_from(text, from) == Err::<Seq<RecordView>, HorizonsError>(
            HorizonsError::EndsAfterPosition,
        ),
        from + 3 <= text.len() ==> (record(text[from], text[from + 1], text[from + 2]) matches Err(e)
            ==> records_from(text, from) == Err::<Seq<RecordView>, HorizonsError>(e)),
        from + 3 <= text.len() ==> (record(text[from], text[from + 1], text[from + 2]) matches Ok(r) ==> (
        records_from(text, from + 4) matches Ok(rest) ==> records_from(text, from) == Ok::<
            Seq<RecordView>,
            HorizonsError,
        >(seq![r] + rest))),
{
    lemma_digit_is_not_end(text[from]);
    assert(next_epoch(text, from) == Some(from));
}

/// Lines that are neither an epoch nor the closing line are passed over between
/// records, and the closing line ends the table.
pub proof fn other_lines_are_passed_over(text: Seq<Seq<char>>, from: int)
    requires
        0 <= from < text.len(),
        !is_epoch(text[from]),
    ensures
        trimmed(text[from]) == END_OF_TABLE@ ==> records_from(text, from) == Ok::<
            Seq<RecordView>,
            HorizonsError,
        >(seq![]),
        trimmed(text[from]) != END_OF_TABLE@ ==> records_from(text, from) == records_from(text, from + 1),
        records_from(text, text.len() as int) == Ok::<Seq<RecordView>, HorizonsError>(seq![]),
{
    assert(next_epoch(text, text.len() as int) is None);
    if trimmed(text[from]) != END_OF_TABLE@ {
        assert(next_epoch(text, from) == next_epoch(text, from + 1));
    }
}

/// A table is never empty: without a record there is an error instead, and with one
/// the table is what the records are.
pub proof fn tables_hold_a_record(text: Seq<char>)
    ensures
        ({
            let ls = lines_of(text);
            let found = records_from(ls, table_start(ls, 0));
            &&& table(text) matches Ok(r) ==> r.len() > 0 && found == Ok::<Seq<RecordView>, HorizonsError>(r)
            &&& found matches Ok(r) ==> r.len() == 0 ==> table(text) == Err::<Seq<RecordView>, HorizonsError>(
                HorizonsError::NoRecords,
            )
            &&& found matches Ok(r) ==> r.len() > 0 ==> table(text) == found
            &&& found is Err ==> table(text) == found
        }),
{
}

/// The marker lines of a table.
pub proof fn markers_open_and_close()
    ensures
        START_OF_TABLE@ == "$$SOE"@,
        END_OF_TABLE@ == "$$EOE"@,
        START_OF_TABLE@ != END_OF_TABLE@,
{
    reveal_strlit("$$SOE");
    reveal_strlit("$$EOE");
    assert("$$SOE"@[2] == 'S' && "$$EOE"@[2] == 'E');
}

} // verus!
