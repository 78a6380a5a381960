//! Line-oriented ASCII commands arriving byte by byte over a serial link.
//!
//! Bytes collect in a small ring buffer; a carriage return triggers parsing.
//! A command is a keyword token, possibly followed by a decimal value token;
//! tokens are separated by any byte that is not printable ASCII (letters,
//! digits and punctuation).
use vstd::prelude::*;

verus! {

/// Bytes kept by the ring buffer.
pub const BUFFER_SIZE: usize = 20;

/// Carriage return: ends a command line.
pub const ASCII_CR: u8 = 13;

/// A parsed command.
#[derive(Debug, Clone, Copy, PartialEq, Eq, Structural)]
pub enum Command {
    Enable,
    Disable,
    Run { speed: i32 },
    Hold,
    Cur { current: i32 },
    P(i32),
    I(i32),
    D(i32),
}

/// Bytes that separate tokens: all but printable ASCII.
pub open spec fn is_separator(b: u8) -> bool {
    !(0x21 <= b <= 0x7e)
}

/// End of the token starting at `i`: the first separator at or after `i`, or the end.
pub open spec fn token_end(s: Seq<u8>, i: int) -> int
    decreases s.len() - i,
{
    if i >= s.len() || is_separator(s[i]) {
        i
    } else {
        token_end(s, i + 1)
    }
}

pub open spec fn is_digit(b: u8) -> bool {
    0x30 <= b <= 0x39
}

/// Every byte is a decimal digit.
pub open spec fn all_digits(t: Seq<u8>) -> bool {
    forall|k: int| 0 <= k < t.len() ==> is_digit(#[trigger] t[k])
}

/// Value of a string of decimal digits.
pub open spec fn digits_value(t: Seq<u8>) -> int
    decreases t.len(),
{
    if t.len() == 0 {
        0
    } else {
        digits_value(t.drop_last()) * 10 + (t.last() - 0x30)
    }
}

/// A decimal `i32`: an optional `+` or `-`, then at least one digit, and
/// nothing else; `None` when malformed or out of range.
pub open spec fn parse_i32(t: Seq<u8>) -> Option<i32> {
    let signed = t.len() > 0 && (t[0] == 0x2b || t[0] == 0x2d);
    let digits = if signed {
        t.subrange(1, t.len() as int)
    } else {
        t
    };
    let magnitude = digits_value(digits);
    let v = if signed && t[0] == 0x2d {
        -magnitude
    } else {
        magnitude
    };
    if digits.len() == 0 || !all_digits(digits) {
        None
    } else if i32::MIN <= v <= i32::MAX {
        Some(v as i32)
    } else {
        None
    }
}

pub open spec fn word_e() -> Seq<u8> {
    seq![0x65u8]
}

pub open spec fn word_enable() -> Seq<u8> {
    seq![0x65u8, 0x6e, 0x61, 0x62, 0x6c, 0x65]
}

pub open spec fn word_d() -> Seq<u8> {
    seq![0x64u8]
}

pub open spec fn word_disable() -> Seq<u8> {
    seq![0x64u8, 0x69, 0x73, 0x61, 0x62, 0x6c, 0x65]
}

pub open spec fn word_r() -> Seq<u8> {
    seq![0x72u8]
}

pub open spec fn word_run() -> Seq<u8> {
    seq![0x72u8, 0x75, 0x6e]
}

pub open spec fn word_h() -> Seq<u8> {
    seq![0x68u8]
}

pub open spec fn word_hold() -> Seq<u8> {
    seq![0x68u8, 0x6f, 0x6c, 0x64]
}

pub open spec fn word_c() -> Seq<u8> {
    seq![0x63u8]
}

pub open spec fn word_cur() -> Seq<u8> {
    seq![0x63u8, 0x75, 0x72]
}

pub open spec fn word_mp() -> Seq<u8> {
    seq![0x6du8, 0x70]
}

pub open spec fn word_mi() -> Seq<u8> {
    seq![0x6du8, 0x69]
}

pub open spec fn word_md() -> Seq<u8> {
    seq![0x6du8, 0x64]
}

/// The command named by `keyword` (short or long form), with `value` for
/// those that take one.
pub open spec fn command_for(keyword: Seq<u8>, value: Option<i32>) -> Option<Command> {
    if keyword == word_e() || keyword == word_enable() {
        Some(Command::Enable)
    } else if keyword == word_d() || keyword == word_disable() {
        Some(Command::Disable)
    } else if keyword == word_h() || keyword == word_hold() {
        Some(Command::Hold)
    } else {
        match value {
            Some(v) => if keyword == word_r() || keyword == word_run() {
                Some(Command::Run { speed: v })
            } else if keyword == word_c() || keyword == word_cur() {
                Some(Command::Cur { current: v })
            } else if keyword == word_mp() {
                Some(Command::P(v))
            } else if keyword == word_mi() {
                Some(Command::I(v))
            } else if keyword == word_md() {
                Some(Command::D(v))
            } else {
                None
            },
            None => None,
        }
    }
}

/// The command whose keyword token starts at `i`; its value is the token
/// after the next separator.
pub open spec fn command_at(s: Seq<u8>, i: int) -> Option<Command> {
    let e = token_end(s, i);
    let value = if e < s.len() {
        parse_i32(s.subrange(e + 1, token_end(s, e + 1)))
    } else {
        None
    };
    command_for(s.subrange(i, e), value)
}

/// The first command at a token start from `p` on. A token start is a
/// position just after a separator: the text before the first separator may
/// be a fragment and is never read as a keyword.
pub open spec fn command_from(s: Seq<u8>, p: int) -> Option<Command>
    decreases s.len() + 1 - p,
{
    if p < 1 || p > s.len() {
        None
    } else if is_separator(s[p - 1]) && command_at(s, p) is Some {
        command_at(s, p)
    } else {
        command_from(s, p + 1)
    }
}

/// Whether the bytes are valid UTF-8.
pub uninterp spec fn is_utf8(b: Seq<u8>) -> bool;

/// What a buffer of received bytes parses to: nothing unless it is text.
pub open spec fn parsed(s: Seq<u8>) -> Option<Command> {
    if is_utf8(s) {
        command_from(s, 1)
    } else {
        None
    }
}

/// Relies on `core::str::from_utf8`, which succeeds exactly on valid UTF-8
/// (ASCII among it).
#[verifier::external_body]
fn valid_utf8(bytes: &[u8]) -> (r: bool)
    ensures
        r == is_utf8(bytes@),
        (forall|i: int| 0 <= i < bytes@.len() ==> bytes@[i] < 0x80) ==> r,
{
    core::str::from_utf8(bytes).is_ok()
}

fn separator(b: u8) -> (r: bool)
    ensures
        r == is_separator(b),
{
    !(0x21 <= b && b <= 0x7e)
}

/// End of the token that starts at `start`.
fn find_token_end(s: &[u8], start: usize) -> (r: usize)
    requires
        start <= s@.len(),
    ensures
        r == token_end(s@, start as int),
        start <= r <= s@.len(),
{
    let mut i = start;
    while i < s.len() && !separator(s[i])
        invariant
            start <= i <= s@.len(),
            token_end(s@, start as int) == token_end(s@, i as int),
        decreases s@.len() - i,
    {
        i += 1;
    }
    i
}

/// Saturation point of the digit accumulator: above every `i32` magnitude.
const DIGITS_CAP: i64 = 0x8000_0001;

/// Parses `s[start..end]` as a decimal `i32`.
fn parse_number(s: &[u8], start: usize, end: usize) -> (r: Option<i32>)
    requires
        start <= end <= s@.len(),
    ensures
        r == parse_i32(s@.subrange(start as int, end as int)),
{
    let ghost t = s@.subrange(start as int, end as int);
    let signed = start < end && (s[start] == 0x2b || s[start] == 0x2d);
    let negative = signed && s[start] == 0x2d;
    let digits_start = if signed {
        start + 1
    } else {
        start
    };
    let ghost digits = s@.subrange(digits_start as int, end as int);
    assert(digits =~= if signed {
        t.subrange(1, t.len() as int)
    } else {
        t
    });
    if digits_start == end {
        return None;
    }
    let mut acc: i64 = 0;
    let mut i = digits_start;
    while i < end
        invariant
            digits_start <= i <= end <= s@.len(),
            digits == s@.subrange(digits_start as int, end as int),
            t == s@.subrange(start as int, end as int),
            signed == (t.len() > 0 && (t[0] == 0x2b || t[0] == 0x2d)),
            digits == if signed {
                t.subrange(1, t.len() as int)
            } else {
                t
            },
            forall|k: int| digits_start <= k < i ==> is_digit(#[trigger] s@[k]),
            acc == if digits_value(s@.subrange(digits_start as int, i as int)) < DIGITS_CAP {
                digits_value(s@.subrange(digits_start as int, i as int))
            } else {
                DIGITS_CAP as int
            },
            digits_value(s@.subrange(digits_start as int, i as int)) >= 0,
        decreases end - i,
    {
        let b = s[i];
        if !(0x30 <= b && b <= 0x39) {
            assert(!is_digit(digits[i - digits_start]));
            assert(!all_digits(digits));
            return None;
        }
        let ghost prefix = s@.subrange(digits_start as int, i as int);
        let ghost longer = s@.subrange(digits_start as int, i + 1);
        assert(longer.drop_last() =~= prefix);
        let next = acc * 10 + (b - 0x30) as i64;
        acc = if next > DIGITS_CAP {
            DIGITS_CAP
        } else {
            next
        };
        i += 1;
    }
    assert(s@.subrange(digits_start as int, end as int) =~= digits);
    assert forall|k: int| 0 <= k < digits.len() implies is_digit(#[trigger] digits[k]) by {
        assert(digits[k] == s@[digits_start + k]);
    }
    assert(all_digits(digits));
    if negative {
        if acc <= 0x8000_0000 {
            Some((-acc) as i32)
        } else {
            None
        }
    } else {
        if acc <= 0x7fff_ffff {
            Some(acc as i32)
        } else {
            None
        }
    }
}

/// Whether `s[start..end]` is exactly `word`.
fn token_is(s: &[u8], start: usize, end: usize, word: &[u8]) -> (r: bool)
    requires
        start <= end <= s@.len(),
    ensures
        r == (s@.subrange(start as int, end as int) == word@),
{
    if end - start != word.len() {
        return false;
    }
    let mut k: usize = 0;
    while k < word.len()
        invariant
            k <= word@.len(),
            end - start == word@.len(),
            start <= end <= s@.len(),
            forall|j: int| 0 <= j < k ==> s@[start + j] == #[trigger] word@[j],
        decreases word@.len() - k,
    {
        if s[start + k] != word[k] {
            assert(s@.subrange(start as int, end as int)[k as int] != word@[k as int]);
            return false;
        }
        k += 1;
    }
    assert(s@.subrange(start as int, end as int) =~= word@);
    true
}

/// The command whose keyword starts at `i` in `s`.
fn command_at_exec(s: &[u8], i: usize) -> (r: Option<Command>)
    requires
        i <= s@.len(),
    ensures
        r == command_at(s@, i as int),
{
    let e = find_token_end(s, i);
    let value = if e < s.len() {
        let value_end = find_token_end(s, e + 1);
        parse_number(s, e + 1, value_end)
    } else {
        None
    };
    let w_e: [u8; 1] = [0x65];
    let w_enable: [u8; 6] = [0x65, 0x6e, 0x61, 0x62, 0x6c, 0x65];
    let w_d: [u8; 1] = [0x64];
    let w_disable: [u8; 7] = [0x64, 0x69, 0x73, 0x61, 0x62, 0x6c, 0x65];
    let w_h: [u8; 1] = [0x68];
    let w_hold: [u8; 4] = [0x68, 0x6f, 0x6c, 0x64];
    let w_r: [u8; 1] = [0x72];
    let w_run: [u8; 3] = [0x72, 0x75, 0x6e];
    let w_c: [u8; 1] = [0x63];
    let w_cur: [u8; 3] = [0x63, 0x75, 0x72];
    let w_mp: [u8; 2] = [0x6d, 0x70];
    let w_mi: [u8; 2] = [0x6d, 0x69];
    let w_md: [u8; 2] = [0x6d, 0x64];
    assert(w_e@ == word_e() && w_enable@ == word_enable() && w_d@ == word_d());
    assert(w_disable@ == word_disable() && w_h@ == word_h() && w_hold@ == word_hold());
    assert(w_r@ == word_r() && w_run@ == word_run() && w_c@ == word_c() && w_cur@ == word_cur());
    assert(w_mp@ == word_mp() && w_mi@ == word_mi() && w_md@ == word_md());
    if token_is(s, i, e, &w_e) || token_is(s, i, e, &w_enable) {
        Some(Command::Enable)
    } else if token_is(s, i, e, &w_d) || token_is(s, i, e, &w_disable) {
        Some(Command::Disable)
    } else if token_is(s, i, e, &w_h) || token_is(s, i, e, &w_hold) {
        Some(Command::Hold)
    } else {
        match value {
            Some(v) => if token_is(s, i, e, &w_r) || token_is(s, i, e, &w_run) {
                Some(Command::Run { speed: v })
            } else if token_is(s, i, e, &w_c) || token_is(s, i, e, &w_cur) {
                Some(Command::Cur { current: v })
            } else if token_is(s, i, e, &w_mp) {
                Some(Command::P(v))
            } else if token_is(s, i, e, &w_mi) {
                Some(Command::I(v))
            } else if token_is(s, i, e, &w_md) {
                Some(Command::D(v))
            } else {
                None
            },
            None => None,
        }
    }
}

/// The first command in `buffer` at a token start (see `command_from`).
pub fn find_command(buffer: &[u8]) -> (r: Option<Command>)
    ensures
        r == command_from(buffer@, 1),
{
    // `q` is the separator before the token start `q + 1`.
    let mut q: usize = 0;
    while q < buffer.len()
        invariant
            q <= buffer@.len(),
            command_from(buffer@, 1) == command_from(buffer@, q + 1),
        decreases buffer@.len() - q,
    {
        if separator(buffer[q]) {
            let command = command_at_exec(buffer, q + 1);
            if command.is_some() {
                return command;
            }
        }
        q += 1;
    }
    None
}

/// The first command in a buffer of received bytes (see `parsed`).
fn parse_commands(buffer: &[u8]) -> (r: Option<Command>)
    ensures
        r == parsed(buffer@),
{
    if !valid_utf8(buffer) {
        return None;
    }
    find_command(buffer)
}

impl Command {
    /// Parses a command line: a keyword (`e`/`enable`, `d`/`disable`,
    /// `h`/`hold`, `r`/`run`, `c`/`cur`, `mp`, `mi`, `md`) at the start of
    /// `line`, with the decimal value after it for those that take one.
    pub fn parse_from(line: &[u8]) -> (r: Option<Command>)
        ensures
            r == command_at(line@, 0),
    {
        command_at_exec(line, 0)
    }
}

/// Ring buffer of the last `BUFFER_SIZE` bytes received.
pub struct Buffer {
    buffer: [u8; BUFFER_SIZE],
    next_position: usize,
    last_position: usize,
}

/// What a `Buffer` holds.
pub struct BufferView {
    pub bytes: Seq<u8>,
    /// Where the next byte goes: the oldest byte.
    pub next_position: int,
    /// Where the newest byte is.
    pub last_position: int,
}

impl View for Buffer {
    type V = BufferView;

    closed spec fn view(&self) -> BufferView {
        BufferView {
            bytes: self.buffer@,
            next_position: self.next_position as int,
            last_position: self.last_position as int,
        }
    }
}

impl BufferView {
    pub open spec fn wf(self) -> bool {
        &&& self.bytes.len() == BUFFER_SIZE
        &&& 0 <= self.next_position < BUFFER_SIZE
        &&& 0 <= self.last_position < BUFFER_SIZE
    }

    /// The state after `add_byte(data)`.
    pub open spec fn with_byte(self, data: u8) -> BufferView {
        BufferView {
            bytes: self.bytes.update(self.next_position, data),
            last_position: self.next_position,
            next_position: (self.next_position + 1) % BUFFER_SIZE as int,
        }
    }

    /// The bytes in arrival order, oldest first.
    pub open spec fn arranged(self) -> Seq<u8> {
        self.bytes.subrange(self.next_position, BUFFER_SIZE as int) + self.bytes.subrange(
            0,
            self.next_position,
        )
    }

    /// All bytes zero; the positions stay.
    pub open spec fn cleared(self) -> BufferView {
        BufferView { bytes: Seq::new(BUFFER_SIZE as nat, |i: int| 0u8), ..self }
    }
}

impl Default for Buffer {
    fn default() -> (r: Self)
        ensures
            r@ == (BufferView {
                bytes: Seq::new(BUFFER_SIZE as nat, |i: int| 0u8),
                next_position: 0,
                last_position: 0,
            }),
    {
        let r = Self { buffer: [0; BUFFER_SIZE], next_position: 0, last_position: 0 };
        assert(r.buffer@ =~= Seq::new(BUFFER_SIZE as nat, |i: int| 0u8));
        r
    }
}

impl Buffer {
    /// Stores a byte over the oldest one.
    pub fn add_byte(&mut self, data: u8)
        requires
            old(self)@.wf(),
        ensures
            final(self)@ == old(self)@.with_byte(data),
            final(self)@.wf(),
    {
        self.buffer[self.next_position] = data;
        self.last_position = self.next_position;
        self.next_position += 1;
        if self.next_position >= BUFFER_SIZE {
            self.next_position = 0;
        }
    }

    /// The newest byte.
    pub fn last_byte(&self) -> (r: u8)
        requires
            self@.wf(),
        ensures
            r == self@.bytes[self@.last_position],
    {
        self.buffer[self.last_position]
    }

    /// The bytes in arrival order, oldest first.
    pub fn create_arranged_buffer(&self) -> (r: [u8; BUFFER_SIZE])
        requires
            self@.wf(),
        ensures
            r@ == self@.arranged(),
    {
        let mut parse_buffer: [u8; BUFFER_SIZE] = [0; BUFFER_SIZE];
        let split = self.next_position;
        let mut k: usize = 0;
        while k < BUFFER_SIZE
            invariant
                k <= BUFFER_SIZE,
                split == self@.next_position,
                self@.wf(),
                parse_buffer@.len() == BUFFER_SIZE,
                forall|j: int| 0 <= j < k ==> #[trigger] parse_buffer@[j] == self@.arranged()[j],
            decreases BUFFER_SIZE - k,
        {
            let from = if k < BUFFER_SIZE - split {
                split + k
            } else {
                k - (BUFFER_SIZE - split)
            };
            parse_buffer[k] = self.buffer[from];
            k += 1;
        }
        assert(parse_buffer@ =~= self@.arranged());
        parse_buffer
    }

    /// Zeroes the bytes; the positions stay.
    pub fn reset(&mut self)
        ensures
            final(self)@ == old(self)@.cleared(),
    {
        self.buffer = [0; BUFFER_SIZE];
        assert(self.buffer@ =~= Seq::new(BUFFER_SIZE as nat, |i: int| 0u8));
    }
}

/// Collects received bytes and hands out complete commands.
pub struct SerialCommands {
    buffer: Buffer,
}

impl View for SerialCommands {
    type V = BufferView;

    closed spec fn view(&self) -> BufferView {
        self.buffer@
    }
}

impl Default for SerialCommands {
    fn default() -> (r: Self)
        ensures
            r@ == (BufferView {
                bytes: Seq::new(BUFFER_SIZE as nat, |i: int| 0u8),
                next_position: 0,
                last_position: 0,
            }),
    {
        Self { buffer: Buffer::default() }
    }
}

impl SerialCommands {
    /// Takes one received byte.
    pub fn add_character(&mut self, data: u8)
        requires
            old(self)@.wf(),
        ensures
            final(self)@ == old(self)@.with_byte(data),
            final(self)@.wf(),
    {
        self.buffer.add_byte(data);
    }

    /// After a carriage return, the command the buffered bytes hold, if any;
    /// a command found clears the buffer so that it is handed out once.
    pub fn get_command(&mut self) -> (r: Option<Command>)
        requires
            old(self)@.wf(),
        ensures
            ({
                let v = old(self)@;
                let found = if v.bytes[v.last_position] == ASCII_CR {
                    parsed(v.arranged())
                } else {
                    None
                };
                &&& r == found
                &&& final(self)@ == if found is Some {
                    v.cleared()
                } else {
                    v
                }
            }),
            final(self)@.wf(),
    {
        if self.buffer.last_byte() == ASCII_CR {
            let parse_buffer = self.buffer.create_arranged_buffer();
            let command = parse_commands(&parse_buffer);
            if command.is_some() {
                self.buffer.reset();
                return command;
            }
        }
        None
    }
}

} // verus!
