//! Handover from cruise to proximity operations: the tables that cruise leaves
//! behind, the approach coast, and the conditions on its result.

use crate::bennu_ephem::HorizonsError;
use crate::scalar::{lemma_powers_of_two, lit, Scalar};
use crate::text::{
    begins_with, chars_of, decimal, lines, lines_of, pieces, pieces_of, push_decimal, stands, string_of,
    string_views, trim, trimmed, views,
};
use vstd::prelude::*;

verus! {

/// Largest position error of the cruise solution that is handed over, 100 km.
pub const MAX_OD_ERROR_M: u64 = 0x40F8_6A00_0000_0000;

/// Largest range at which proximity operations can start, 35 km.
pub const MAX_START_RANGE_M: u64 = 0x40E1_1700_0000_0000;

/// Range at which the approach coast ends, 30 km.
pub const PROXIMITY_START_RANGE_M: u64 = 0x40DD_4C00_0000_0000;

/// Smallest position uncertainty that the filter starts with, 5 km.
pub const BENNU_EPHEM_SIGMA_M: u64 = 0x40B3_8800_0000_0000;

/// Sixty-second steps of the approach coast: thirty days.
pub const MAX_APPROACH_STEPS: usize = 43_200;

/// Columns of a heliocentric state row: time, position and velocity.
pub const HELIO_COLUMNS: usize = 7;

/// Departure day and time of flight, as the words of the summary table: the
/// first two fields of its second line. A missing second field reads as empty.
pub open spec fn solution_words(text: Seq<char>) -> Option<(Seq<char>, Seq<char>)> {
    let ls = lines_of(text);
    if ls.len() < 2 {
        None
    } else {
        let fields = pieces_of(ls[1], ',');
        Some(
            (
                trimmed(fields[0]),
                if fields.len() > 1 {
                    trimmed(fields[1])
                } else {
                    seq![]
                },
            ),
        )
    }
}

/// Read the words of the summary table; `None` where it has no data row.
pub fn best_solution_fields(text: &str) -> (r: Option<(String, String)>)
    ensures
        match r {
            Some((dep, tof)) => solution_words(text@) == Some((dep@, tof@)),
            None => solution_words(text@) is None,
        },
{
    let chars: Vec<char> = chars_of(text);
    let ls: Vec<Vec<char>> = lines(&chars);
    assert(views(ls@).len() == ls@.len());
    if ls.len() < 2 {
        return None;
    }
    let fields: Vec<Vec<char>> = pieces(&ls[1], ',');
    assert(views(ls@)[1] == ls@[1]@);
    assert(views(fields@).len() == fields@.len());
    assert(views(fields@)[0] == fields@[0]@);
    let dep: Vec<char> = trim(&fields[0]);
    let tof: Vec<char> = if fields.len() > 1 {
        assert(views(fields@)[1] == fields@[1]@);
        trim(&fields[1])
    } else {
        Vec::new()
    };
    assert(dep@.subrange(0, dep@.len() as int) =~= dep@);
    assert(tof@.subrange(0, tof@.len() as int) =~= tof@);
    assert(fields@.len() <= 1 ==> tof@ =~= seq![]);
    Some((string_of(&dep, 0, dep.len()), string_of(&tof, 0, tof.len())))
}

/// Why the summary table gives no solution.
#[derive(Clone, Copy, Debug, PartialEq, Eq, Structural)]
pub enum SolutionError {
    NoDataRow,
    DepartureDay,
    TimeOfFlight,
}

/// The solution, from what its two words denote as numbers.
pub fn load_best_solution(row: bool, dep: Option<Scalar>, tof: Option<Scalar>) -> (r: Result<
    (Scalar, Scalar),
    SolutionError,
>)
    ensures
        r == (if !row {
            Err::<(Scalar, Scalar), SolutionError>(SolutionError::NoDataRow)
        } else {
            match (dep, tof) {
                (Some(d), Some(t)) => Ok((d, t)),
                (None, _) => Err(SolutionError::DepartureDay),
                (Some(_), None) => Err(SolutionError::TimeOfFlight),
            }
        }),
{
    if !row {
        return Err(SolutionError::NoDataRow);
    }
    match dep {
        None => Err(SolutionError::DepartureDay),
        Some(d) => match tof {
            None => Err(SolutionError::TimeOfFlight),
            Some(t) => Ok((d, t)),
        },
    }
}

/// Is the line a data row? Blank lines and the heading are not.
pub open spec fn is_data_row(line: Seq<char>) -> bool {
    trimmed(line).len() > 0 && !begins_with(trimmed(line), "time"@)
}

/// Index of the last data row among the first `n` lines.
pub open spec fn last_data_row(ls: Seq<Seq<char>>, n: int) -> Option<int>
    decreases n,
{
    if n <= 0 {
        None
    } else if is_data_row(ls[n - 1]) {
        Some(n - 1)
    } else {
        last_data_row(ls, n - 1)
    }
}

/// The trimmed fields of the last data row.
pub open spec fn last_row_words(text: Seq<char>) -> Option<Seq<Seq<char>>> {
    let ls = lines_of(text);
    match last_data_row(ls, ls.len() as int) {
        None => None,
        Some(k) => Some(pieces_of(ls[k], ',').map_values(|f: Seq<char>| trimmed(f))),
    }
}

/// Read the fields of the last data row; `None` where there is none.
pub fn last_helio_fields(text: &str) -> (r: Option<Vec<String>>)
    ensures
        match r {
            Some(words) => last_row_words(text@) == Some(string_views(words@)),
            None => last_row_words(text@) is None,
        },
{
    let chars: Vec<char> = chars_of(text);
    let ls: Vec<Vec<char>> = lines(&chars);
    let heading: Vec<char> = chars_of("time");
    let ghost text_lines = views(ls@);
    assert(text_lines.len() == ls@.len());
    let mut n: usize = ls.len();
    while n > 0
        invariant
            n <= ls@.len(),
            text_lines == views(ls@),
            heading@ == "time"@,
            last_data_row(text_lines, n as int) == last_data_row(text_lines, ls@.len() as int),
        ensures
            n <= ls@.len(),
            n == 0 ==> last_data_row(text_lines, ls@.len() as int) is None,
            n > 0 ==> last_data_row(text_lines, ls@.len() as int) == Some(n - 1),
        decreases n,
    {
        let t: Vec<char> = trim(&ls[n - 1]);
        assert(text_lines[n - 1] == ls@[n - 1]@);
        if t.len() > 0 && !stands(&t, &heading, 0) {
            break;
        }
        n = n - 1;
    }
    if n == 0 {
        return None;
    }
    let fields: Vec<Vec<char>> = pieces(&ls[n - 1], ',');
    assert(text_lines[n - 1] == ls@[n - 1]@);
    let ghost row = pieces_of(text_lines[n - 1], ',');
    let mut words: Vec<String> = Vec::new();
    let mut i: usize = 0;
    while i < fields.len()
        invariant
            i <= fields@.len(),
            views(fields@) == row,
            words@.len() == i,
            forall|k: int| 0 <= k < i ==> (#[trigger] words@[k])@ == trimmed(row[k]),
        decreases fields@.len() - i,
    {
        let t: Vec<char> = trim(&fields[i]);
        assert(views(fields@)[i as int] == fields@[i as int]@);
        assert(t@.subrange(0, t@.len() as int) =~= t@);
        words.push(string_of(&t, 0, t.len()));
        i = i + 1;
    }
    assert(views(fields@).len() == fields@.len());
    assert(string_views(words@) =~= row.map_values(|f: Seq<char>| trimmed(f)));
    Some(words)
}

/// Why the last row gives no state.
#[derive(Clone, Copy, Debug, PartialEq, Eq, Structural)]
pub enum HelioError {
    /// A field is no number.
    Parse,
    /// There are only this many columns.
    Columns(usize),
}

/// Heliocentric position and velocity.
#[derive(Clone, Copy, Debug)]
pub struct HelioState {
    pub r: [Scalar; 3],
    pub v: [Scalar; 3],
}

/// The state in a row, from what its fields denote as numbers: columns one to
/// six behind the time.
pub fn read_last_helio(cols: &Vec<Option<Scalar>>) -> (r: Result<HelioState, HelioError>)
    ensures
        match r {
            Ok(s) => {
                &&& cols@.len() >= HELIO_COLUMNS
                &&& forall|i: int| 0 <= i < cols@.len() ==> (#[trigger] cols@[i]) is Some
                &&& forall|i: int| 0 <= i < 3 ==> cols@[i + 1] == Some(#[trigger] s.r@[i])
                &&& forall|i: int| 0 <= i < 3 ==> cols@[i + 4] == Some(#[trigger] s.v@[i])
            },
            Err(HelioError::Parse) => exists|i: int| 0 <= i < cols@.len() && (#[trigger] cols@[i]) is None,
            Err(HelioError::Columns(n)) => {
                &&& n == cols@.len() < HELIO_COLUMNS
                &&& forall|i: int| 0 <= i < cols@.len() ==> (#[trigger] cols@[i]) is Some
            },
        },
{
    let mut i: usize = 0;
    while i < cols.len()
        invariant
            i <= cols@.len(),
            forall|k: int| 0 <= k < i ==> (#[trigger] cols@[k]) is Some,
        decreases cols@.len() - i,
    {
        if cols[i].is_none() {
            return Err(HelioError::Parse);
        }
        i = i + 1;
    }
    if cols.len() < HELIO_COLUMNS {
        return Err(HelioError::Columns(cols.len()));
    }
    let r: [Scalar; 3] = [cols[1].unwrap(), cols[2].unwrap(), cols[3].unwrap()];
    let v: [Scalar; 3] = [cols[4].unwrap(), cols[5].unwrap(), cols[6].unwrap()];
    Ok(HelioState { r, v })
}

/// Why a handover is refused; the caller then starts from defaults.
#[derive(Clone, Copy, Debug, PartialEq, Eq, Structural)]
pub enum HandoffRefusal {
    /// The cruise solution is off by more than the filter can take up.
    OdDiverged,
    /// The approach never came close enough.
    TooFar,
}

/// Check the state at the end of the approach coast.
pub fn accept_handoff(od_error_m: Scalar, range_m: Scalar) -> (r: Result<(), HandoffRefusal>)
    ensures
        r == (if lit(MAX_OD_ERROR_M).below(od_error_m) {
            Err::<(), HandoffRefusal>(HandoffRefusal::OdDiverged)
        } else if lit(MAX_START_RANGE_M).below(range_m) {
            Err(HandoffRefusal::TooFar)
        } else {
            Ok(())
        }),
{
    if od_error_m.gt(Scalar::from_bits(MAX_OD_ERROR_M)) {
        return Err(HandoffRefusal::OdDiverged);
    }
    if range_m.gt(Scalar::from_bits(MAX_START_RANGE_M)) {
        return Err(HandoffRefusal::TooFar);
    }
    Ok(())
}

/// Does the approach coast go on after `steps` steps? It ends at the start
/// range, or once the range has grown past `turning`, the previous range plus
/// one metre, or when its time is up.
pub fn approach_continues(steps: usize, range_m: Scalar, turning: Scalar) -> (r: bool)
    ensures
        r == (steps < MAX_APPROACH_STEPS && !range_m.at_most(lit(PROXIMITY_START_RANGE_M))
            && !turning.below(range_m)),
{
    if steps >= MAX_APPROACH_STEPS {
        return false;
    }
    if range_m.le(Scalar::from_bits(PROXIMITY_START_RANGE_M)) {
        return false;
    }
    if range_m.gt(turning) {
        return false;
    }
    true
}

/// A coast that ends at the start range ends inside the largest range that a
/// handover accepts.
pub proof fn approach_ends_within_handoff_range(range_m: Scalar)
    requires
        range_m.at_most(lit(PROXIMITY_START_RANGE_M)),
    ensures
        !lit(MAX_START_RANGE_M).below(range_m),
{
}

/// Position uncertainty that the filter starts with: never under that of the
/// asteroid's own ephemeris.
pub fn initial_sigma(sigma_r0_m: Scalar) -> (r: Scalar)
    ensures
        r == sigma_r0_m.larger(lit(BENNU_EPHEM_SIGMA_M)),
        lit(BENNU_EPHEM_SIGMA_M).at_most(r),
{
    sigma_r0_m.max(Scalar::from_bits(BENNU_EPHEM_SIGMA_M))
}

/// Sixty-second steps over a coast, given its length in steps, rounded up: at
/// least one.
pub fn coast_steps(rounded_up: usize) -> (r: usize)
    ensures
        r == (if rounded_up == 0 {
            1
        } else {
            rounded_up
        }),
{
    if rounded_up == 0 {
        1
    } else {
        rounded_up
    }
}

/// State tables that cruise leaves behind.
#[derive(Clone, Copy, Debug, PartialEq, Eq, Structural)]
pub enum CruiseTable {
    Truth,
    GroundOd,
}

impl CruiseTable {
    pub open spec fn path_of(self) -> Seq<char> {
        match self {
            CruiseTable::Truth => "out/cruise_ops/truth.csv"@,
            CruiseTable::GroundOd => "out/cruise_ops/ground_od.csv"@,
        }
    }

    pub fn path(self) -> (r: &'static str)
        ensures
            r@ == self.path_of(),
    {
        match self {
            CruiseTable::Truth => "out/cruise_ops/truth.csv",
            CruiseTable::GroundOd => "out/cruise_ops/ground_od.csv",
        }
    }
}

/// Why there is no handover; the caller then starts from defaults.
#[derive(Clone, Copy, Debug, PartialEq, Eq, Structural)]
pub enum HandoffError {
    NoSolutionFile,
    Solution(SolutionError),
    NoTable(CruiseTable),
    NoRows(CruiseTable),
    Row(CruiseTable, HelioError),
    NoEphemeris,
    Ephemeris(HorizonsError),
    Refused(HandoffRefusal),
}

/// What was found in the place of a state table.
#[derive(Clone, Copy, Debug)]
pub enum TableFound {
    Missing,
    Empty,
    LastRow(Result<HelioState, HelioError>),
}

impl TableFound {
    pub open spec fn state_of(self, table: CruiseTable) -> Result<HelioState, HandoffError> {
        match self {
            TableFound::Missing => Err(HandoffError::NoTable(table)),
            TableFound::Empty => Err(HandoffError::NoRows(table)),
            TableFound::LastRow(Ok(s)) => Ok(s),
            TableFound::LastRow(Err(e)) => Err(HandoffError::Row(table, e)),
        }
    }

    fn state(self, table: CruiseTable) -> (r: Result<HelioState, HandoffError>)
        ensures
            r == self.state_of(table),
    {
        match self {
            TableFound::Missing => Err(HandoffError::NoTable(table)),
            TableFound::Empty => Err(HandoffError::NoRows(table)),
            TableFound::LastRow(Ok(s)) => Ok(s),
            TableFound::LastRow(Err(e)) => Err(HandoffError::Row(table, e)),
        }
    }
}

/// What a handover is computed from.
#[derive(Clone, Copy, Debug)]
pub struct ProximityHandoff {
    pub dep_days: Scalar,
    pub tof_days: Scalar,
    pub truth: HelioState,
    pub ground_od: HelioState,
}

/// The inputs of a handover, or the first thing that is wrong with them: the
/// summary table is looked at first, then the true states, then those of ground
/// orbit determination, then the asteroid's ephemeris.
pub open spec fn handoff_of(
    solution: Option<Result<(Scalar, Scalar), SolutionError>>,
    truth: TableFound,
    ground_od: TableFound,
    ephemeris: Option<Result<(), HorizonsError>>,
) -> Result<ProximityHandoff, HandoffError> {
    match solution {
        None => Err(HandoffError::NoSolutionFile),
        Some(Err(e)) => Err(HandoffError::Solution(e)),
        Some(Ok((dep_days, tof_days))) => match truth.state_of(CruiseTable::Truth) {
            Err(e) => Err(e),
            Ok(t) => match ground_od.state_of(CruiseTable::GroundOd) {
                Err(e) => Err(e),
                Ok(g) => match ephemeris {
                    None => Err(HandoffError::NoEphemeris),
                    Some(Err(e)) => Err(HandoffError::Ephemeris(e)),
                    Some(Ok(())) => Ok(ProximityHandoff { dep_days, tof_days, truth: t, ground_od: g }),
                },
            },
        },
    }
}

/// Without one of the four files there is no handover: its absence, or an earlier
/// fault, is reported.
pub proof fn missing_file_is_an_error(
    solution: Option<Result<(Scalar, Scalar), SolutionError>>,
    truth: TableFound,
    ground_od: TableFound,
    ephemeris: Option<Result<(), HorizonsError>>,
)
    requires
        solution is None || truth is Missing || ground_od is Missing || ephemeris is None,
    ensures
        handoff_of(solution, truth, ground_od, ephemeris) is Err,
{
}

impl ProximityHandoff {
    /// Gather the inputs of a handover from what was found on file. A file that
    /// is missing, or cannot be read as it should be, is an error.
    pub fn load(
        solution: Option<Result<(Scalar, Scalar), SolutionError>>,
        truth: TableFound,
        ground_od: TableFound,
        ephemeris: Option<Result<(), HorizonsError>>,
    ) -> (r: Result<ProximityHandoff, HandoffError>)
        ensures
            r == handoff_of(solution, truth, ground_od, ephemeris),
    {
        let (dep_days, tof_days): (Scalar, Scalar) = match solution {
            None => {
                return Err(HandoffError::NoSolutionFile);
            },
            Some(Err(e)) => {
                return Err(HandoffError::Solution(e));
            },
            Some(Ok(pair)) => pair,
        };
        let t: HelioState = match truth.state(CruiseTable::Truth) {
            Err(e) => {
                return Err(e);
            },
            Ok(t) => t,
        };
        let g: HelioState = match ground_od.state(CruiseTable::GroundOd) {
            Err(e) => {
                return Err(e);
            },
            Ok(g) => g,
        };
        match ephemeris {
            None => {
                return Err(HandoffError::NoEphemeris);
            },
            Some(Err(e)) => {
                return Err(HandoffError::Ephemeris(e));
            },
            Some(Ok(())) => {},
        }
        Ok(ProximityHandoff { dep_days, tof_days, truth: t, ground_od: g })
    }
}

impl HandoffError {
    /// The message of an error. `km` is the distance that a refusal is about, in
    /// kilometres and decimal notation.
    pub open spec fn message_of(self, km: Seq<char>) -> Seq<char> {
        match self {
            HandoffError::NoSolutionFile => "Cannot read 'out/cruise/best_solution.csv' — run cruise_design first"@,
            HandoffError::Solution(SolutionError::NoDataRow) => "'out/cruise/best_solution.csv' has no data row"@,
            HandoffError::Solution(
                SolutionError::DepartureDay,
            ) => "Cannot parse dep_day in 'out/cruise/best_solution.csv'"@,
            HandoffError::Solution(
                SolutionError::TimeOfFlight,
            ) => "Cannot parse tof_day in 'out/cruise/best_solution.csv'"@,
            HandoffError::NoTable(t) => "Cannot read '"@ + t.path_of() + "' — run cruise_operations first"@,
            HandoffError::NoRows(t) => "No data rows in '"@ + t.path_of() + "'"@,
            HandoffError::Row(t, HelioError::Parse) => "Parse error in last row of '"@ + t.path_of() + "'"@,
            HandoffError::Row(t, HelioError::Columns(n)) => "Expected ≥7 columns, got "@ + decimal(n as nat)
                + " in '"@ + t.path_of() + "'"@,
            HandoffError::NoEphemeris => "Cannot read 'horizons_results_bennu.txt'"@,
            HandoffError::Ephemeris(e) => e.message_of() + " in 'horizons_results_bennu.txt'"@,
            HandoffError::Refused(HandoffRefusal::OdDiverged) => "Cruise OD position error "@ + km
                + " km at proximity start — falling back to standalone defaults (3 km circular orbit)"@,
            HandoffError::Refused(HandoffRefusal::TooFar) => "Proximity start range "@ + km
                + " km > 35 km — falling back to standalone defaults (3 km circular orbit)"@,
        }
    }

    /// The message of an error, given the distance that a refusal is about.
    pub fn message(self, km: &str) -> (r: String)
        ensures
            r@ == self.message_of(km@),
    {
        let mut s: String = String::new();
        match self {
            HandoffError::NoSolutionFile => {
                s.append("Cannot read 'out/cruise/best_solution.csv' — run cruise_design first");
            },
            HandoffError::Solution(SolutionError::NoDataRow) => {
                s.append("'out/cruise/best_solution.csv' has no data row");
            },
            HandoffError::Solution(SolutionError::DepartureDay) => {
                s.append("Cannot parse dep_day in 'out/cruise/best_solution.csv'");
            },
            HandoffError::Solution(SolutionError::TimeOfFlight) => {
                s.append("Cannot parse tof_day in 'out/cruise/best_solution.csv'");
            },
            HandoffError::NoTable(t) => {
                s.append("Cannot read '");
                s.append(t.path());
                s.append("' — run cruise_operations first");
            },
            HandoffError::NoRows(t) => {
                s.append("No data rows in '");
                s.append(t.path());
                s.append("'");
            },
            HandoffError::Row(t, HelioError::Parse) => {
                s.append("Parse error in last row of '");
                s.append(t.path());
                s.append("'");
            },
            HandoffError::Row(t, HelioError::Columns(n)) => {
                s.append("Expected ≥7 columns, got ");
                push_decimal(&mut s, n as u64);
                s.append(" in '");
                s.append(t.path());
                s.append("'");
            },
            HandoffError::NoEphemeris => {
                s.append("Cannot read 'horizons_results_bennu.txt'");
            },
            HandoffError::Ephemeris(e) => {
                e.push_message(&mut s);
                s.append(" in 'horizons_results_bennu.txt'");
            },
            HandoffError::Refused(HandoffRefusal::OdDiverged) => {
                s.append("Cruise OD position error ");
                s.append(km);
                s.append(
                    " km at proximity start — falling back to standalone defaults (3 km circular orbit)",
                );
            },
            HandoffError::Refused(HandoffRefusal::TooFar) => {
                s.append("Proximity start range ");
                s.append(km);
                s.append(" km > 35 km — falling back to standalone defaults (3 km circular orbit)");
            },
        }
        assert(s@ =~= self.message_of(km@));
        s
    }
}

/// The row taken is the last data row: it is one, and none comes after it. Without a
/// data row there is none.
pub proof fn last_row_is_the_last(ls: Seq<Seq<char>>, n: int)
    requires
        0 <= n <= ls.len(),
    ensures
        match last_data_row(ls, n) {
            Some(k) => 0 <= k < n && is_data_row(ls[k]) && forall|i: int|
                k < i < n ==> !is_data_row(#[trigger] ls[i]),
            None => forall|i: int| 0 <= i < n ==> !is_data_row(#[trigger] ls[i]),
        },
    decreases n,
{
    if n > 0 {
        last_row_is_the_last(ls, n - 1);
    }
}

/// Blank lines and headings hold no data; every other line does, whatever white space
/// stands around it.
pub proof fn data_rows_are_neither_blank_nor_heading(line: Seq<char>)
    ensures
        trimmed(line).len() == 0 ==> !is_data_row(line),
        begins_with(trimmed(line), "time"@) ==> !is_data_row(line),
        trimmed(line).len() > 0 && !begins_with(trimmed(line), "time"@) ==> is_data_row(line),
{
}

/// The words of the last row are its fields between commas, each trimmed, and as many.
pub proof fn last_row_gives_its_fields(text: Seq<char>)
    ensures
        ({
            let ls = lines_of(text);
            last_data_row(ls, ls.len() as int) matches Some(k) ==> (last_row_words(text) matches Some(words) && {
                let fields = pieces_of(ls[k], ',');
                &&& words.len() == fields.len()
                &&& forall|i: int| 0 <= i < words.len() ==> (#[trigger] words[i]) == trimmed(fields[i])
            })
        }),
        last_row_words(text) is None <==> forall|i: int|
            0 <= i < lines_of(text).len() ==> !is_data_row(#[trigger] lines_of(text)[i]),
{
    let ls = lines_of(text);
    last_row_is_the_last(ls, ls.len() as int);
}

/// The solution stands in the second line: the departure day in its first field, the
/// time of flight in its second, both trimmed. Without a second line there is none.
pub proof fn solution_stands_in_the_second_line(text: Seq<char>)
    ensures
        solution_words(text) is None <==> lines_of(text).len() < 2,
        solution_words(text) matches Some((dep, tof)) ==> {
            let fields = pieces_of(lines_of(text)[1], ',');
            &&& dep == trimmed(fields[0])
            &&& fields.len() > 1 ==> tof == trimmed(fields[1])
            &&& fields.len() <= 1 ==> tof.len() == 0
        },
{
}

/// A handover takes place exactly where all four files are there and can be read, and
/// it is computed from what they hold: the departure and the flight time in this
/// order, the true states and those of ground orbit determination each in its place.
pub proof fn handover_needs_all_four(
    solution: Option<Result<(Scalar, Scalar), SolutionError>>,
    truth: TableFound,
    ground_od: TableFound,
    ephemeris: Option<Result<(), HorizonsError>>,
)
    ensures
        ({
            let h = handoff_of(solution, truth, ground_od, ephemeris);
            &&& h is Ok <==> (solution matches Some(Ok(_))) && (truth matches TableFound::LastRow(Ok(_))) && (
            ground_od matches TableFound::LastRow(Ok(_))) && (ephemeris matches Some(Ok(_)))
            &&& h matches Ok(p) ==> {
                &&& solution == Some(Ok::<(Scalar, Scalar), SolutionError>((p.dep_days, p.tof_days)))
                &&& truth == TableFound::LastRow(Ok(p.truth))
                &&& ground_od == TableFound::LastRow(Ok(p.ground_od))
            }
        }),
{
}

/// What is wrong with the files is reported in the order in which they are looked at,
/// with the file that it is about.
pub proof fn first_fault_is_reported(
    solution: Option<Result<(Scalar, Scalar), SolutionError>>,
    truth: TableFound,
    ground_od: TableFound,
    ephemeris: Option<Result<(), HorizonsError>>,
)
    ensures
        ({
            let h = handoff_of(solution, truth, ground_od, ephemeris);
            let a = solution matches Some(Ok(_));
            let b = a && (truth matches TableFound::LastRow(Ok(_)));
            let c = b && (ground_od matches TableFound::LastRow(Ok(_)));
            &&& solution is None ==> h->Err_0 == HandoffError::NoSolutionFile && h is Err
            &&& solution matches Some(Err(e)) ==> h->Err_0 == HandoffError::Solution(e) && h is Err
            &&& a && truth is Missing ==> h is Err && h->Err_0 == HandoffError::NoTable(CruiseTable::Truth)
            &&& a && truth is Empty ==> h is Err && h->Err_0 == HandoffError::NoRows(CruiseTable::Truth)
            &&& a ==> (truth matches TableFound::LastRow(Err(e)) ==> h is Err && h->Err_0 == HandoffError::Row(
                CruiseTable::Truth,
                e,
            ))
            &&& b && ground_od is Missing ==> h is Err && h->Err_0 == HandoffError::NoTable(CruiseTable::GroundOd)
            &&& b && ground_od is Empty ==> h is Err && h->Err_0 == HandoffError::NoRows(CruiseTable::GroundOd)
            &&& b ==> (ground_od matches TableFound::LastRow(Err(e)) ==> h is Err && h->Err_0
                == HandoffError::Row(CruiseTable::GroundOd, e))
            &&& c && ephemeris is None ==> h is Err && h->Err_0 == HandoffError::NoEphemeris
            &&& c ==> (ephemeris matches Some(Err(e)) ==> h is Err && h->Err_0 == HandoffError::Ephemeris(e))
        }),
{
}

/// A handover is accepted exactly where the cruise solution is off by no more than the
/// filter can take up and the approach came close enough; a solution that diverged is
/// the reason given even where the range is too large as well.
pub proof fn handover_is_refused_for_a_reason(
    od_error_m: Scalar,
    range_m: Scalar,
    r: Result<(), HandoffRefusal>,
)
    requires
        call_ensures(accept_handoff, (od_error_m, range_m), r),
    ensures
        r is Ok <==> !lit(MAX_OD_ERROR_M).below(od_error_m) && !lit(MAX_START_RANGE_M).below(range_m),
        r matches Err(HandoffRefusal::OdDiverged) <==> lit(MAX_OD_ERROR_M).below(od_error_m),
        r matches Err(HandoffRefusal::TooFar) ==> lit(MAX_START_RANGE_M).below(range_m),
{
}

/// The approach coast goes on only while it is getting closer: never past its time,
/// never once it is close enough, and never once the range grows again; until one of
/// these comes, it goes on.
pub proof fn approach_goes_on_while_closing(steps: usize, range_m: Scalar, turning: Scalar, r: bool)
    requires
        call_ensures(approach_continues, (steps, range_m, turning), r),
    ensures
        steps >= MAX_APPROACH_STEPS ==> !r,
        range_m.at_most(lit(PROXIMITY_START_RANGE_M)) ==> !r,
        turning.below(range_m) ==> !r,
        steps < MAX_APPROACH_STEPS && lit(PROXIMITY_START_RANGE_M).below(range_m) && range_m.at_most(turning) ==> r,
{
}

/// The filter starts with the uncertainty handed over, or with that of the ephemeris
/// where this is larger.
pub proof fn initial_sigma_covers_both(sigma: Scalar, r: Scalar)
    requires
        call_ensures(initial_sigma, (sigma,), r),
    ensures
        lit(BENNU_EPHEM_SIGMA_M).at_most(r),
        !sigma.nan() ==> sigma.at_most(r),
        r == sigma || r == lit(BENNU_EPHEM_SIGMA_M),
{
}

/// A solution is read exactly where its row is there and both words are numbers, and
/// it is those two, the departure first. What is missing first is what is reported.
pub proof fn solution_needs_both_numbers(
    row: bool,
    dep: Option<Scalar>,
    tof: Option<Scalar>,
    r: Result<(Scalar, Scalar), SolutionError>,
)
    requires
        call_ensures(load_best_solution, (row, dep, tof), r),
    ensures
        r is Ok <==> row && dep is Some && tof is Some,
        r matches Ok((d, t)) ==> dep == Some(d) && tof == Some(t),
        r matches Err(SolutionError::NoDataRow) <==> !row,
        r matches Err(SolutionError::DepartureDay) <==> row && dep is None,
        r matches Err(SolutionError::TimeOfFlight) <==> row && dep is Some && tof is None,
{
}

/// A coast has at least one step, and otherwise as many as its length gives.
pub proof fn coasts_have_a_step(rounded_up: usize, r: usize)
    requires
        call_ensures(coast_steps, (rounded_up,), r),
    ensures
        r >= 1,
        rounded_up > 0 ==> r == rounded_up,
        rounded_up == 0 ==> r == 1,
{
}

/// The numbers that decisions are taken by, in decimal notation.
pub proof fn numbers_are_as_documented()
    ensures
        lit(MAX_OD_ERROR_M).is_about(100_000, 1),
        lit(MAX_START_RANGE_M).is_about(35_000, 1),
        lit(PROXIMITY_START_RANGE_M).is_about(30_000, 1),
        lit(BENNU_EPHEM_SIGMA_M).is_about(5_000, 1),
        60 * MAX_APPROACH_STEPS == 30 * 86_400,
        HELIO_COLUMNS == 7,
{
    lemma_powers_of_two();
}

/// The state of a row is read behind its time: three columns of position and then
/// three of velocity. It takes seven columns at least, all of them numbers.
pub proof fn row_gives_position_and_velocity(cols: &Vec<Option<Scalar>>, r: Result<HelioState, HelioError>)
    requires
        call_ensures(read_last_helio, (cols,), r),
    ensures
        r is Ok <==> cols@.len() >= 7 && forall|i: int| 0 <= i < cols@.len() ==> (#[trigger] cols@[i]) is Some,
        r matches Ok(s) ==> cols@[1] == Some(s.r@[0]) && cols@[2] == Some(s.r@[1]) && cols@[3] == Some(s.r@[2]),
        r matches Ok(s) ==> cols@[4] == Some(s.v@[0]) && cols@[5] == Some(s.v@[1]) && cols@[6] == Some(s.v@[2]),
{
}

} // verus!
