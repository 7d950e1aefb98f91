//! The settings columns of the task registry. An operator may edit them by
//! hand, and a column may hold a value of any type: what does not read counts
//! as unset, and is kept as it is.
use crate::catalog::TaskSettings;
use crate::moment;
use crate::moment::{clock_read, clock_spelled, clock_text, write_clock, ClockTime};
use crate::paths::copy_bytes;
use crate::schedule::{
    law_recurrence_text_reads_back, recurrence_spelled, recurrence_text, Recurrence,
};
use crate::text;
use vstd::prelude::*;

verus! {

// ---------------------------------------------------------------- cells
/// A value of a column, with its type. A real number is held by its bits.
#[derive(Clone, Debug)]
pub enum Cell {
    Null,
    Integer(i64),
    Real(u64),
    Text(String),
    Blob(Vec<u8>),
}

/// What a cell holds.
#[verifier::ext_equal]
pub enum CellState {
    Null,
    Integer(int),
    Real(u64),
    Text(Seq<char>),
    Blob(Seq<u8>),
}

impl View for Cell {
    type V = CellState;

    open spec fn view(&self) -> CellState {
        match *self {
            Cell::Null => CellState::Null,
            Cell::Integer(n) => CellState::Integer(n as int),
            Cell::Real(bits) => CellState::Real(bits),
            Cell::Text(t) => CellState::Text(t@),
            Cell::Blob(bytes) => CellState::Blob(bytes@),
        }
    }
}

impl Cell {
    /// The same value again.
    pub fn copied(&self) -> (same: Cell)
        ensures
            same@ == self@,
    {
        match self {
            Cell::Null => Cell::Null,
            Cell::Integer(n) => Cell::Integer(*n),
            Cell::Real(bits) => Cell::Real(*bits),
            Cell::Text(t) => Cell::Text(t.clone()),
            Cell::Blob(bytes) => Cell::Blob(copy_bytes(bytes)),
        }
    }

    fn is_null(&self) -> (yes: bool)
        ensures
            yes == (self@ is Null),
    {
        matches!(self, Cell::Null)
    }
}

/// An optional cell's value.
pub open spec fn opt_cell(cell: Option<Cell>) -> Option<CellState> {
    match cell {
        Some(c) => Some(c@),
        None => None,
    }
}

fn copy_cell(cell: &Option<Cell>) -> (same: Option<Cell>)
    ensures
        opt_cell(same) == opt_cell(*cell),
{
    match cell {
        Some(c) => Some(c.copied()),
        None => None,
    }
}

// ---------------------------------------------------------------- columns
/// The settings columns as they are persisted.
#[derive(Clone, Debug)]
pub struct SettingsColumns {
    pub period_secs: Cell,
    pub at_local: Cell,
    pub recurrence: Cell,
    pub cooldown_secs: Cell,
    pub max_backfill_days: Cell,
}

/// A number column read leniently: anything but a whole number in range
/// counts as unset.
pub open spec fn lenient_number(raw: CellState) -> Option<u32> {
    match raw {
        CellState::Integer(n) => if 0 <= n <= u32::MAX {
            Some(n as u32)
        } else {
            None
        },
        _ => None,
    }
}

pub fn lenient_u32(raw: &Cell) -> (value: Option<u32>)
    ensures
        value == lenient_number(raw@),
{
    match raw {
        Cell::Integer(n) => if 0 <= *n && *n <= u32::MAX as i64 {
            Some(*n as u32)
        } else {
            None
        },
        _ => None,
    }
}

/// A time column read leniently: what does not parse counts as unset.
pub open spec fn lenient_clock(raw: CellState) -> Option<ClockTime> {
    match raw {
        CellState::Text(t) => match clock_read(t) {
            Ok((hour, minute)) => Some(ClockTime { hour: hour as u32, minute: minute as u32 }),
            Err(_) => None,
        },
        _ => None,
    }
}

/// Whether a time column holds a time spelled `HH:MM`.
pub open spec fn spells_clock(raw: CellState) -> Option<ClockTime> {
    match raw {
        CellState::Text(t) => clock_spelled(t),
        _ => None,
    }
}

pub fn lenient_at_local(raw: &Cell) -> (at: Option<ClockTime>)
    ensures
        at == lenient_clock(raw@),
        at matches Some(a) ==> a.wf(),
        spells_clock(raw@) is Some ==> at == spells_clock(raw@),
{
    match raw {
        Cell::Text(t) => match moment::read_clock(t.as_str()) {
            Ok(at) => Some(at),
            Err(_) => None,
        },
        _ => None,
    }
}

/// A recurrence column read leniently.
pub open spec fn lenient_recurring(raw: CellState) -> Option<Recurrence> {
    match raw {
        CellState::Text(t) => recurrence_spelled(t),
        _ => None,
    }
}

pub fn lenient_recurrence(raw: &Cell) -> (recurrence: Option<Recurrence>)
    ensures
        recurrence == lenient_recurring(raw@),
{
    match raw {
        Cell::Text(t) => Recurrence::from_text(t.as_str()),
        _ => None,
    }
}

/// What settings columns read as: a value broken by hand counts as unset, so
/// that the code's default applies. A time spelled `HH:MM` is that time.
pub open spec fn reads_as_settings(row: SettingsColumns, settings: TaskSettings) -> bool {
    &&& settings.period_secs == lenient_number(row.period_secs@)
    &&& settings.at_local == lenient_clock(row.at_local@)
    &&& spells_clock(row.at_local@) is Some ==> settings.at_local == spells_clock(row.at_local@)
    &&& settings.recurrence == lenient_recurring(row.recurrence@)
    &&& settings.cooldown_secs == lenient_number(row.cooldown_secs@)
    &&& settings.max_backfill_days == lenient_number(row.max_backfill_days@)
}

/// Reads the settings columns leniently: no value makes the row unreadable.
pub fn settings_from_row(row: &SettingsColumns) -> (settings: TaskSettings)
    ensures
        reads_as_settings(*row, settings),
        settings.wf(),
{
    TaskSettings {
        period_secs: lenient_u32(&row.period_secs),
        at_local: lenient_at_local(&row.at_local),
        recurrence: lenient_recurrence(&row.recurrence),
        cooldown_secs: lenient_u32(&row.cooldown_secs),
        max_backfill_days: lenient_u32(&row.max_backfill_days),
    }
}

// ---------------------------------------------------------------- broken ones
/// The values of the settings columns that do not read. They count as unset,
/// but the columns are not empty: no default takes their place.
#[derive(Clone, Debug)]
pub struct BrokenSettings {
    pub period_secs: Option<Cell>,
    pub at_local: Option<Cell>,
    pub recurrence: Option<Cell>,
    pub cooldown_secs: Option<Cell>,
    pub max_backfill_days: Option<Cell>,
}

/// Which columns do not read, and what they hold.
#[verifier::ext_equal]
pub struct BrokenState {
    pub period_secs: Option<CellState>,
    pub at_local: Option<CellState>,
    pub recurrence: Option<CellState>,
    pub cooldown_secs: Option<CellState>,
    pub max_backfill_days: Option<CellState>,
}

impl View for BrokenSettings {
    type V = BrokenState;

    open spec fn view(&self) -> BrokenState {
        BrokenState {
            period_secs: opt_cell(self.period_secs),
            at_local: opt_cell(self.at_local),
            recurrence: opt_cell(self.recurrence),
            cooldown_secs: opt_cell(self.cooldown_secs),
            max_backfill_days: opt_cell(self.max_backfill_days),
        }
    }
}

impl BrokenState {
    /// Every column reads.
    pub open spec fn none() -> BrokenState {
        BrokenState {
            period_secs: None,
            at_local: None,
            recurrence: None,
            cooldown_secs: None,
            max_backfill_days: None,
        }
    }
}

impl BrokenSettings {
    /// Every column reads.
    pub fn none() -> (broken: BrokenSettings)
        ensures
            broken@ == BrokenState::none(),
    {
        BrokenSettings {
            period_secs: None,
            at_local: None,
            recurrence: None,
            cooldown_secs: None,
            max_backfill_days: None,
        }
    }

    /// The same values again.
    pub fn copied(&self) -> (same: BrokenSettings)
        ensures
            same@ == self@,
    {
        BrokenSettings {
            period_secs: copy_cell(&self.period_secs),
            at_local: copy_cell(&self.at_local),
            recurrence: copy_cell(&self.recurrence),
            cooldown_secs: copy_cell(&self.cooldown_secs),
            max_backfill_days: copy_cell(&self.max_backfill_days),
        }
    }
}

/// What a column holds where it is neither empty nor readable.
pub open spec fn unread(raw: CellState, reads: bool) -> Option<CellState> {
    if raw is Null || reads {
        None
    } else {
        Some(raw)
    }
}

fn keep_unread(raw: &Cell, reads: bool) -> (kept: Option<Cell>)
    ensures
        opt_cell(kept) == unread(raw@, reads),
{
    if raw.is_null() || reads {
        None
    } else {
        Some(raw.copied())
    }
}

/// The columns that do not read.
pub open spec fn broken_of(row: SettingsColumns) -> BrokenState {
    BrokenState {
        period_secs: unread(row.period_secs@, lenient_number(row.period_secs@) is Some),
        at_local: unread(row.at_local@, lenient_clock(row.at_local@) is Some),
        recurrence: unread(row.recurrence@, lenient_recurring(row.recurrence@) is Some),
        cooldown_secs: unread(row.cooldown_secs@, lenient_number(row.cooldown_secs@) is Some),
        max_backfill_days: unread(
            row.max_backfill_days@,
            lenient_number(row.max_backfill_days@) is Some,
        ),
    }
}

/// Collects the columns that do not read.
pub fn broken_from_row(row: &SettingsColumns) -> (broken: BrokenSettings)
    ensures
        broken@ == broken_of(*row),
{
    let settings = settings_from_row(row);
    BrokenSettings {
        period_secs: keep_unread(&row.period_secs, settings.period_secs.is_some()),
        at_local: keep_unread(&row.at_local, settings.at_local.is_some()),
        recurrence: keep_unread(&row.recurrence, settings.recurrence.is_some()),
        cooldown_secs: keep_unread(&row.cooldown_secs, settings.cooldown_secs.is_some()),
        max_backfill_days: keep_unread(
            &row.max_backfill_days,
            settings.max_backfill_days.is_some(),
        ),
    }
}

// ---------------------------------------------------------------- writing
/// The time column: `HH:MM`.
pub fn at_local_as_str(at: Option<ClockTime>) -> (column: Option<String>)
    requires
        at matches Some(a) ==> a.wf(),
    ensures
        column is Some <==> at is Some,
        column matches Some(c) ==> c@ == clock_text(at->0),
{
    match at {
        Some(at) => Some(write_clock(at)),
        None => None,
    }
}

/// The recurrence column.
pub fn recurrence_as_str(recurrence: Option<Recurrence>) -> (column: Option<String>)
    ensures
        column is Some <==> recurrence is Some,
        column matches Some(c) ==> c@ == recurrence_text(recurrence->0),
{
    match recurrence {
        Some(r) => Some(r.to_text()),
        None => None,
    }
}

/// What stays in a column without a value: what did not read, or nothing.
pub open spec fn left(broken: Option<CellState>) -> CellState {
    match broken {
        Some(c) => c,
        None => CellState::Null,
    }
}

/// A number column.
pub open spec fn number_cell(n: Option<u32>, broken: Option<CellState>) -> CellState {
    match n {
        Some(n) => CellState::Integer(n as int),
        None => left(broken),
    }
}

/// A text column.
pub open spec fn text_cell(text: Option<Seq<char>>, broken: Option<CellState>) -> CellState {
    match text {
        Some(t) => CellState::Text(t),
        None => left(broken),
    }
}

fn write_left(broken: &Option<Cell>) -> (cell: Cell)
    ensures
        cell@ == left(opt_cell(*broken)),
{
    match broken {
        Some(c) => c.copied(),
        None => Cell::Null,
    }
}

fn write_number(n: Option<u32>, broken: &Option<Cell>) -> (cell: Cell)
    ensures
        cell@ == number_cell(n, opt_cell(*broken)),
{
    match n {
        Some(n) => Cell::Integer(n as i64),
        None => write_left(broken),
    }
}

fn write_text(text: Option<String>, broken: &Option<Cell>) -> (cell: Cell)
    ensures
        cell@ == text_cell(crate::cursor::opt_text(text), opt_cell(*broken)),
{
    match text {
        Some(t) => Cell::Text(t),
        None => write_left(broken),
    }
}

/// What the columns of some settings hold.
pub open spec fn settings_written(
    settings: TaskSettings,
    broken: BrokenState,
    columns: SettingsColumns,
) -> bool {
    &&& columns.period_secs@ == number_cell(settings.period_secs, broken.period_secs)
    &&& columns.at_local@ == text_cell(
        match settings.at_local {
            Some(at) => Some(clock_text(at)),
            None => None,
        },
        broken.at_local,
    )
    &&& columns.recurrence@ == text_cell(
        match settings.recurrence {
            Some(r) => Some(recurrence_text(r)),
            None => None,
        },
        broken.recurrence,
    )
    &&& columns.cooldown_secs@ == number_cell(settings.cooldown_secs, broken.cooldown_secs)
    &&& columns.max_backfill_days@ == number_cell(
        settings.max_backfill_days,
        broken.max_backfill_days,
    )
}

/// Writes the settings columns.
pub fn settings_to_row(settings: &TaskSettings, broken: &BrokenSettings) -> (columns:
    SettingsColumns)
    requires
        settings.wf(),
    ensures
        settings_written(*settings, broken@, columns),
{
    SettingsColumns {
        period_secs: write_number(settings.period_secs, &broken.period_secs),
        at_local: write_text(at_local_as_str(settings.at_local), &broken.at_local),
        recurrence: write_text(recurrence_as_str(settings.recurrence), &broken.recurrence),
        cooldown_secs: write_number(settings.cooldown_secs, &broken.cooldown_secs),
        max_backfill_days: write_number(settings.max_backfill_days, &broken.max_backfill_days),
    }
}

// ---------------------------------------------------------------- laws
/// Whether a value counts as broken in a column that holds no setting.
pub open spec fn is_broken(raw: Option<CellState>, set: bool, reads: bool) -> bool {
    raw is Some ==> !set && !(raw->0 is Null) && !reads
}

/// Whether what is kept as broken stands where no setting does, and does not
/// read.
pub open spec fn broken_wf(settings: TaskSettings, broken: BrokenState) -> bool {
    &&& is_broken(
        broken.period_secs,
        settings.period_secs is Some,
        lenient_number(left(broken.period_secs)) is Some,
    )
    &&& is_broken(
        broken.at_local,
        settings.at_local is Some,
        lenient_clock(left(broken.at_local)) is Some,
    )
    &&& is_broken(
        broken.recurrence,
        settings.recurrence is Some,
        lenient_recurring(left(broken.recurrence)) is Some,
    )
    &&& is_broken(
        broken.cooldown_secs,
        settings.cooldown_secs is Some,
        lenient_number(left(broken.cooldown_secs)) is Some,
    )
    &&& is_broken(
        broken.max_backfill_days,
        settings.max_backfill_days is Some,
        lenient_number(left(broken.max_backfill_days)) is Some,
    )
}

/// Settings that are written and read back are the same settings, and what
/// was broken is still there.
pub proof fn law_settings_read_back(
    settings: TaskSettings,
    broken: BrokenState,
    columns: SettingsColumns,
    read: TaskSettings,
)
    requires
        settings.wf(),
        broken_wf(settings, broken),
        settings_written(settings, broken, columns),
        reads_as_settings(columns, read),
    ensures
        read == settings,
        broken_of(columns) == broken,
{
    if let Some(at) = settings.at_local {
        law_clock_column_reads_back(at);
    }
    if let Some(r) = settings.recurrence {
        law_recurrence_text_reads_back(r);
    }
    assert(broken_of(columns) =~= broken);
}

/// What is read from a row is kept apart: a column is a setting, or broken,
/// or empty.
pub proof fn law_a_column_is_set_or_broken_or_empty(row: SettingsColumns, read: TaskSettings)
    requires
        reads_as_settings(row, read),
    ensures
        broken_wf(read, broken_of(row)),
        row.period_secs@ is Null <==> read.period_secs is None && broken_of(row).period_secs is None,
        row.at_local@ is Null <==> read.at_local is None && broken_of(row).at_local is None,
        row.recurrence@ is Null <==> read.recurrence is None && broken_of(row).recurrence is None,
        row.cooldown_secs@ is Null <==> read.cooldown_secs is None && broken_of(
            row,
        ).cooldown_secs is None,
        row.max_backfill_days@ is Null <==> read.max_backfill_days is None && broken_of(
            row,
        ).max_backfill_days is None,
{
}

/// A time of day is spelled by its own column text.
pub proof fn law_clock_column_reads_back(at: ClockTime)
    requires
        at.wf(),
    ensures
        clock_spelled(clock_text(at)) == Some(at),
{
    let t = clock_text(at);
    assert(t.len() == 5);
    let h = at.hour as int;
    let m = at.minute as int;
    assert(t[0] == text::digit_char((h / 10) as nat));
    assert(t[1] == text::digit_char((h % 10) as nat));
    assert(t[2] == ':');
    assert(t[3] == text::digit_char((m / 10) as nat));
    assert(t[4] == text::digit_char((m % 10) as nat));
}

} // verus!
