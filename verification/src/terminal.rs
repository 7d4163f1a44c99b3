//! Terminal-side logic of the Motor OS backend.
//!
//! Motor OS has no termios, no `ioctl`, no `/dev/tty` and no signals. A console
//! is always raw: a program reads input bytes exactly as they arrive and drives
//! the display entirely with ANSI escape sequences. Everything the backend needs
//! from the platform therefore reduces to "is there a terminal on the other end
//! of stdio, and how big is it".

use vstd::prelude::*;

verus! {

/// The number of columns reported when nothing better is known: VT100's
/// geometry, and the same guess `tput` makes for an unknown terminal.
pub const FALLBACK_COLUMNS: u16 = 80;

/// The number of rows reported when nothing better is known.
pub const FALLBACK_ROWS: u16 = 24;

/// `CSI ? 2048 $ p`: asks whether the terminal supports in-band resize
/// notifications (DEC private mode 2048).
pub open spec fn resize_mode_query() -> Seq<u8> {
    seq![0x1bu8, 0x5b, 0x3f, 0x32, 0x30, 0x34, 0x38, 0x24, 0x70]
}

/// `CSI ? 2048 h`: turns in-band resize notifications on.
pub open spec fn resize_mode_enable() -> Seq<u8> {
    seq![0x1bu8, 0x5b, 0x3f, 0x32, 0x30, 0x34, 0x38, 0x68]
}

/// `CSI ? 2048 l`: turns in-band resize notifications off.
pub open spec fn resize_mode_disable() -> Seq<u8> {
    seq![0x1bu8, 0x5b, 0x3f, 0x32, 0x30, 0x34, 0x38, 0x6c]
}

fn resize_mode_query_bytes() -> (bytes: Vec<u8>)
    ensures
        bytes@ == resize_mode_query(),
{
    let bytes: Vec<u8> = vec![0x1bu8, 0x5b, 0x3f, 0x32, 0x30, 0x34, 0x38, 0x24, 0x70];
    assert(bytes@ == resize_mode_query());
    bytes
}

fn resize_mode_enable_bytes() -> (bytes: Vec<u8>)
    ensures
        bytes@ == resize_mode_enable(),
{
    let bytes: Vec<u8> = vec![0x1bu8, 0x5b, 0x3f, 0x32, 0x30, 0x34, 0x38, 0x68];
    assert(bytes@ == resize_mode_enable());
    bytes
}

fn resize_mode_disable_bytes() -> (bytes: Vec<u8>)
    ensures
        bytes@ == resize_mode_disable(),
{
    let bytes: Vec<u8> = vec![0x1bu8, 0x5b, 0x3f, 0x32, 0x30, 0x34, 0x38, 0x6c];
    assert(bytes@ == resize_mode_disable());
    bytes
}

/// Appends `bytes` to `output`.
fn write_all(output: &mut Vec<u8>, bytes: Vec<u8>)
    ensures
        final(output)@ == old(output)@ + bytes@,
{
    let mut bytes = bytes;
    output.append(&mut bytes);
}

/// Whether the application has asked for raw mode, and how far in-band resize
/// notifications have got.
///
/// Motor OS consoles are always raw, so the raw-mode flag only records the
/// request: it exists so that the question "is raw mode enabled" gets the
/// answer the application expects.
#[derive(Debug, Clone, Copy)]
pub struct TerminalState {
    raw_mode: bool,
    resize_mode_started: bool,
    resize_mode_active: bool,
}

impl TerminalState {
    /// Whether the application has asked for raw mode.
    pub closed spec fn raw_mode(&self) -> bool {
        self.raw_mode
    }

    /// Whether in-band resize notifications have been asked for.
    pub closed spec fn resize_mode_started(&self) -> bool {
        self.resize_mode_started
    }

    /// Whether in-band resize notifications are currently switched on.
    pub closed spec fn resize_mode_active(&self) -> bool {
        self.resize_mode_active
    }

    /// Whether two states agree on everything they record.
    pub open spec fn same_as(&self, other: Self) -> bool {
        &&& self.raw_mode() == other.raw_mode()
        &&& self.resize_mode_started() == other.resize_mode_started()
        &&& self.resize_mode_active() == other.resize_mode_active()
    }

    /// What starting in-band resize notifications writes: the query and the
    /// switch, once; nothing after that.
    pub open spec fn start_resize_mode_output(&self) -> Seq<u8> {
        if self.resize_mode_started() {
            Seq::empty()
        } else {
            resize_mode_query() + resize_mode_enable()
        }
    }

    /// What asking for raw mode on or off writes: the resize-mode switch that
    /// follows the request, once resize mode has been started and only when
    /// it is not already in that position.
    pub open spec fn set_raw_mode_output(&self, enabled: bool) -> Seq<u8> {
        if self.resize_mode_started() && self.resize_mode_active() != enabled {
            if enabled {
                resize_mode_enable()
            } else {
                resize_mode_disable()
            }
        } else {
            Seq::empty()
        }
    }

    /// The state after starting in-band resize notifications.
    pub closed spec fn after_start_resize_mode(self) -> Self {
        if self.resize_mode_started {
            self
        } else {
            TerminalState { resize_mode_started: true, resize_mode_active: true, ..self }
        }
    }

    /// The state after a request for raw mode on (`enabled`) or off.
    pub closed spec fn after_set_raw_mode(self, enabled: bool) -> Self {
        TerminalState {
            raw_mode: enabled,
            resize_mode_active: if self.resize_mode_started {
                enabled
            } else {
                self.resize_mode_active
            },
            ..self
        }
    }

    /// A program's state at start: no raw mode, no resize notifications.
    pub fn new() -> (state: Self)
        ensures
            !state.raw_mode(),
            !state.resize_mode_started(),
            !state.resize_mode_active(),
    {
        TerminalState { raw_mode: false, resize_mode_started: false, resize_mode_active: false }
    }

    /// Whether the application has asked for raw mode.
    pub fn is_raw_mode_enabled(&self) -> (enabled: bool)
        ensures
            enabled == self.raw_mode(),
    {
        self.raw_mode
    }

    /// Starts in-band resize notifications, writing the query and the switch to
    /// `output`, unless they were started before.
    pub fn start_resize_mode(&mut self, output: &mut Vec<u8>)
        ensures
            final(output)@ == old(output)@ + old(self).start_resize_mode_output(),
            *final(self) == old(self).after_start_resize_mode(),
            final(self).raw_mode() == old(self).raw_mode(),
            final(self).resize_mode_started(),
            final(self).resize_mode_active() == (old(self).resize_mode_started() ==> old(
                self,
            ).resize_mode_active()),
    {
        if self.resize_mode_started {
            assert(old(output)@ + Seq::<u8>::empty() == old(output)@);
            return ;
        }
        let query = resize_mode_query_bytes();
        let enable = resize_mode_enable_bytes();
        write_all(output, query);
        write_all(output, enable);
        assert(old(output)@ + resize_mode_query() + resize_mode_enable() == old(output)@ + (
        resize_mode_query() + resize_mode_enable()));
        self.resize_mode_started = true;
        self.resize_mode_active = true;
    }

    /// Records a request for raw mode on or off. Once resize notifications
    /// have been started they follow the request: they are on while the
    /// application is in raw mode and off outside it.
    pub fn set_raw_mode(&mut self, enabled: bool, output: &mut Vec<u8>)
        ensures
            final(output)@ == old(output)@ + old(self).set_raw_mode_output(enabled),
            *final(self) == old(self).after_set_raw_mode(enabled),
            final(self).raw_mode() == enabled,
            final(self).resize_mode_started() == old(self).resize_mode_started(),
            final(self).resize_mode_active() == if old(self).resize_mode_started() {
                enabled
            } else {
                old(self).resize_mode_active()
            },
    {
        if self.resize_mode_started && self.resize_mode_active != enabled {
            let bytes = if enabled {
                resize_mode_enable_bytes()
            } else {
                resize_mode_disable_bytes()
            };
            write_all(output, bytes);
            self.resize_mode_active = enabled;
        } else {
            assert(old(output)@ + Seq::<u8>::empty() == old(output)@);
        }
        self.raw_mode = enabled;
    }
}

/// Starting in-band resize notifications a second time writes nothing and
/// changes nothing.
pub proof fn lemma_resize_mode_starts_once(state: TerminalState)
    ensures
        state.after_start_resize_mode().start_resize_mode_output() == Seq::<u8>::empty(),
        state.after_start_resize_mode().after_start_resize_mode()
            == state.after_start_resize_mode(),
{
}

/// Asking for the raw mode that was just asked for writes nothing and changes
/// nothing.
pub proof fn lemma_raw_mode_request_is_idempotent(state: TerminalState, enabled: bool)
    ensures
        state.after_set_raw_mode(enabled).set_raw_mode_output(enabled) == Seq::<u8>::empty(),
        state.after_set_raw_mode(enabled).after_set_raw_mode(enabled) == state.after_set_raw_mode(
            enabled,
        ),
{
}

/// Once started, resize notifications are on exactly while raw mode is
/// requested; before they are started, a raw-mode request writes nothing.
pub proof fn lemma_resize_mode_follows_raw_mode(state: TerminalState, enabled: bool)
    ensures
        state.resize_mode_started() ==> state.after_set_raw_mode(enabled).resize_mode_active()
            == enabled,
        !state.resize_mode_started() ==> state.set_raw_mode_output(enabled) == Seq::<u8>::empty(),
        state.after_set_raw_mode(enabled).raw_mode() == enabled,
        state.after_start_resize_mode().raw_mode() == state.raw_mode(),
{
}

/// What is written, in plain terms: starting resize notifications writes
/// `CSI ? 2048 $ p` then `CSI ? 2048 h` the first time; once started, a
/// request for raw mode on writes `CSI ? 2048 h` and one for raw mode off
/// writes `CSI ? 2048 l`, exactly when notifications are not already in that
/// position, and nothing otherwise.
pub proof fn lemma_what_is_written(state: TerminalState, enabled: bool)
    ensures
        !state.resize_mode_started() ==> state.start_resize_mode_output() == seq![
            0x1bu8, 0x5b, 0x3f, 0x32, 0x30, 0x34, 0x38, 0x24, 0x70,
            0x1b, 0x5b, 0x3f, 0x32, 0x30, 0x34, 0x38, 0x68,
        ],
        state.resize_mode_started() && !state.resize_mode_active() ==> state.set_raw_mode_output(
            true,
        ) == seq![0x1bu8, 0x5b, 0x3f, 0x32, 0x30, 0x34, 0x38, 0x68],
        state.resize_mode_started() && state.resize_mode_active() ==> state.set_raw_mode_output(
            false,
        ) == seq![0x1bu8, 0x5b, 0x3f, 0x32, 0x30, 0x34, 0x38, 0x6c],
        state.resize_mode_active() == enabled ==> state.set_raw_mode_output(enabled)
            == Seq::<u8>::empty(),
        state.after_set_raw_mode(enabled).resize_mode_started() == state.resize_mode_started(),
        state.after_start_resize_mode().resize_mode_started(),
        !state.resize_mode_started() ==> state.after_start_resize_mode().resize_mode_active(),
{
    assert(resize_mode_query() + resize_mode_enable() =~= seq![
        0x1bu8, 0x5b, 0x3f, 0x32, 0x30, 0x34, 0x38, 0x24, 0x70,
        0x1b, 0x5b, 0x3f, 0x32, 0x30, 0x34, 0x38, 0x68,
    ]);
}

/// Whether the application has asked for raw mode.
pub fn is_raw_mode_enabled(state: &TerminalState) -> (enabled: bool)
    ensures
        enabled == state.raw_mode(),
{
    state.is_raw_mode_enabled()
}

/// Asks for raw mode; see [`TerminalState::set_raw_mode`].
pub fn enable_raw_mode(state: &mut TerminalState, output: &mut Vec<u8>)
    ensures
        final(output)@ == old(output)@ + old(state).set_raw_mode_output(true),
        final(state).raw_mode(),
        final(state).resize_mode_started() == old(state).resize_mode_started(),
        final(state).resize_mode_active() == (old(state).resize_mode_started() || old(
            state,
        ).resize_mode_active()),
{
    state.set_raw_mode(true, output)
}

/// Leaves raw mode; see [`TerminalState::set_raw_mode`].
pub fn disable_raw_mode(state: &mut TerminalState, output: &mut Vec<u8>)
    ensures
        final(output)@ == old(output)@ + old(state).set_raw_mode_output(false),
        !final(state).raw_mode(),
        final(state).resize_mode_started() == old(state).resize_mode_started(),
        final(state).resize_mode_active() == (!old(state).resize_mode_started() && old(
            state,
        ).resize_mode_active()),
{
    state.set_raw_mode(false, output)
}

/// Starts in-band resize notifications when stdout is a terminal; with no
/// terminal there is nobody to notify, and nothing is written.
pub fn start_resize_mode(is_terminal: bool, state: &mut TerminalState, output: &mut Vec<u8>)
    ensures
        is_terminal ==> final(output)@ == old(output)@ + old(state).start_resize_mode_output(),
        is_terminal ==> final(state).resize_mode_started(),
        is_terminal ==> final(state).raw_mode() == old(state).raw_mode(),
        is_terminal ==> final(state).resize_mode_active() == (old(state).resize_mode_started()
            ==> old(state).resize_mode_active()),
        !is_terminal ==> final(output)@ == old(output)@ && final(state).same_as(*old(state)),
{
    if is_terminal {
        state.start_resize_mode(output);
    }
}

/// The last valid terminal size report, as the event source leaves it.
///
/// Only the event source owns stdin and can read either a mode 2048 report or a
/// fallback probe reply, so this is where it leaves the latest one.
#[derive(Debug, Clone, Copy)]
pub struct ProbedSize {
    reported: Option<(u16, u16)>,
}

impl View for ProbedSize {
    type V = Option<(u16, u16)>;

    closed spec fn view(&self) -> Option<(u16, u16)> {
        self.reported
    }
}

impl ProbedSize {
    /// How a program starts: nothing reported yet.
    pub fn new() -> (probed: Self)
        ensures
            probed@ == None::<(u16, u16)>,
    {
        ProbedSize { reported: None }
    }

    /// The last size reported, in columns and rows, if any.
    pub fn reported(&self) -> (size: Option<(u16, u16)>)
        ensures
            size == self@,
    {
        self.reported
    }
}

/// Records a validated size report, and says whether it is news: whether it
/// differs from the last one recorded.
pub fn set_probed_size(probed: &mut ProbedSize, columns: u16, rows: u16) -> (news: bool)
    ensures
        final(probed)@ == Some((columns, rows)),
        news == is_news(old(probed)@, columns, rows),
{
    let news = match probed.reported {
        Some((c, r)) => !(c == columns && r == rows),
        None => true,
    };
    probed.reported = Some((columns, rows));
    news
}

/// Puts the size record back to how a program starts: nothing reported yet.
pub fn forget_probed_size(probed: &mut ProbedSize)
    ensures
        final(probed)@ == None::<(u16, u16)>,
{
    probed.reported = None;
}

/// Whether a report of `columns` by `rows` is news after `before`.
pub open spec fn is_news(before: Option<(u16, u16)>, columns: u16, rows: u16) -> bool {
    before != Some((columns, rows))
}

/// A report is news exactly when it differs from the last one; once recorded,
/// the same report again is not news, and a different one is.
pub proof fn lemma_same_report_is_not_news(
    columns: u16,
    rows: u16,
    next_columns: u16,
    next_rows: u16,
)
    ensures
        !is_news(Some((columns, rows)), columns, rows),
        is_news(Some((columns, rows)), next_columns, next_rows) <==> (next_columns != columns
            || next_rows != rows),
        is_news(None, columns, rows),
{
}

/// Whether `c` is one of the ASCII digits `0` to `9`.
pub open spec fn is_decimal_digit(c: char) -> bool {
    48 <= c as int <= 57
}

/// The value of a string of decimal digits, most significant first.
pub open spec fn decimal_value(digits: Seq<char>) -> int
    decreases digits.len(),
{
    if digits.len() == 0 {
        0
    } else {
        decimal_value(digits.drop_last()) * 10 + (digits.last() as int - 48)
    }
}

/// The `u16` that `text` spells in decimal: an optional `+` sign followed by
/// one or more digits and nothing else, whose value fits in a `u16`.
pub open spec fn decimal_u16(text: Seq<char>) -> Option<u16> {
    let digits = if text.len() > 0 && text[0] == '+' {
        text.drop_first()
    } else {
        text
    };
    if digits.len() > 0 && (forall|i: int| 0 <= i < digits.len() ==> is_decimal_digit(digits[i]))
        && decimal_value(digits) <= u16::MAX {
        Some(decimal_value(digits) as u16)
    } else {
        None
    }
}

/// `str::parse::<u16>` from the standard library. Its documentation says what
/// it accepts: an optional `+` sign followed by only the digits `0`-`9` (no
/// whitespace, no underscores, at least one digit), whose value fits in a
/// `u16`. This contract claims that, and that anything else gives `None`.
#[verifier::external_body]
fn parse_u16(text: &str) -> (number: Option<u16>)
    ensures
        number == decimal_u16(text@),
{
    text.parse::<u16>().ok()
}

/// What a size variable such as `COLUMNS` contributes: its value when it is a
/// positive decimal number that fits in a `u16`, and nothing otherwise.
pub open spec fn env_size_of(value: Option<Seq<char>>) -> Option<u16> {
    match value {
        Some(text) => match decimal_u16(text) {
            Some(n) => if n > 0 {
                Some(n)
            } else {
                None
            },
            None => None,
        },
        None => None,
    }
}

/// The contents of an optional string, as characters.
pub open spec fn text_of(value: Option<&str>) -> Option<Seq<char>> {
    match value {
        Some(text) => Some(text@),
        None => None,
    }
}

/// Reads a size variable's value; `None` is an unset variable (or one whose
/// value is not Unicode), and nonsense is ignored.
pub fn env_size(value: Option<&str>) -> (size: Option<u16>)
    ensures
        size == env_size_of(text_of(value)),
{
    match value {
        Some(text) => match parse_u16(text) {
            Some(n) => if n > 0 {
                Some(n)
            } else {
                None
            },
            None => None,
        },
        None => None,
    }
}

/// The terminal size in precedence order: the last valid report; then the
/// `COLUMNS` and `LINES` variables, each on its own; then 80x24.
pub open spec fn terminal_size(
    probed: Option<(u16, u16)>,
    columns: Option<u16>,
    lines: Option<u16>,
) -> (u16, u16) {
    match probed {
        Some(size) => size,
        None => (
            match columns {
                Some(c) => c,
                None => FALLBACK_COLUMNS,
            },
            match lines {
                Some(r) => r,
                None => FALLBACK_ROWS,
            },
        ),
    }
}

/// With a size recorded, that is the size; with none, the columns come from
/// `COLUMNS` alone and the rows from `LINES` alone, each falling back to
/// 80 or 24 on its own.
pub proof fn lemma_each_size_variable_counts_on_its_own(
    probed: Option<(u16, u16)>,
    columns: Option<u16>,
    lines: Option<u16>,
)
    ensures
        probed is Some ==> terminal_size(probed, columns, lines) == probed.unwrap(),
        probed is None && lines is Some ==> terminal_size(probed, columns, lines).1
            == lines.unwrap(),
        probed is None && columns is Some ==> terminal_size(probed, columns, lines).0
            == columns.unwrap(),
        probed is None && lines is None ==> terminal_size(probed, columns, lines).1 == 24,
        probed is None && columns is None ==> terminal_size(probed, columns, lines).0 == 80,
{
}

/// A size variable counts exactly when it spells a positive number that fits
/// in a `u16`; an unset one, zero or nonsense counts for nothing.
pub proof fn lemma_size_variables_count_when_positive(value: Option<Seq<char>>)
    ensures
        value is None ==> env_size_of(value) is None,
        value is Some ==> (env_size_of(value) is Some <==> decimal_u16(value.unwrap()) is Some
            && decimal_u16(value.unwrap()).unwrap() > 0),
        env_size_of(value) is Some ==> env_size_of(value).unwrap() > 0 && env_size_of(value)
            == decimal_u16(value.unwrap()),
{
}

/// The terminal size, in columns and rows. In precedence order:
///
/// 1. what the last valid in-band report or fallback probe reported;
/// 2. `COLUMNS` and `LINES` (their values are passed in), which a terminal
///    multiplexer sets for the programs it starts in a pane;
/// 3. 80x24.
///
/// Nothing here blocks or writes to the terminal.
pub fn size(probed: &ProbedSize, columns: Option<&str>, lines: Option<&str>) -> (size: (u16, u16))
    ensures
        size == terminal_size(probed@, env_size_of(text_of(columns)), env_size_of(text_of(lines))),
{
    match probed.reported() {
        Some(size) => size,
        None => {
            let c = match env_size(columns) {
                Some(c) => c,
                None => FALLBACK_COLUMNS,
            };
            let r = match env_size(lines) {
                Some(r) => r,
                None => FALLBACK_ROWS,
            };
            (c, r)
        },
    }
}

/// The size of a terminal window in cells and in pixels.
#[derive(Debug, Clone, Copy, PartialEq, Eq)]
pub struct WindowSize {
    pub rows: u16,
    pub columns: u16,
    pub width: u16,
    pub height: u16,
}

/// The window size: the cells of [`size`]; Motor OS reports no pixel
/// geometry, so `width` and `height` are 0.
pub fn window_size(probed: &ProbedSize, columns: Option<&str>, lines: Option<&str>) -> (window:
    WindowSize)
    ensures
        window.columns == terminal_size(
            probed@,
            env_size_of(text_of(columns)),
            env_size_of(text_of(lines)),
        ).0,
        window.rows == terminal_size(
            probed@,
            env_size_of(text_of(columns)),
            env_size_of(text_of(lines)),
        ).1,
        window.width == 0,
        window.height == 0,
{
    let (columns, rows) = size(probed, columns, lines);
    WindowSize { rows, columns, width: 0, height: 0 }
}

/// Motor OS never reports support for the progressive keyboard enhancement
/// protocol: nothing there answers the primary device attributes query that
/// the detection relies on.
pub fn supports_keyboard_enhancement() -> (supported: bool)
    ensures
        !supported,
{
    false
}

} // verus!
