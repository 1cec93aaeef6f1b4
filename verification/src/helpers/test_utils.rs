//! Data patterns and comparisons for exercising the drivers.

use core::time::Duration;

use vstd::prelude::*;

use crate::text::{decimal_text, hex2_text};

verus! {

/// Timeout of test operations, in seconds.
pub const TEST_TIMEOUT_SECS: u64 = 5;

/// Short delay between operations, in milliseconds.
pub const SHORT_DELAY_MS: u32 = 10;

/// Standard test buffer size.
pub const TEST_BUFFER_SIZE: usize = 64;

/// How two byte sequences differ.
#[derive(Debug, Clone, Copy, PartialEq, Eq, Structural)]
pub enum Mismatch {
    /// The lengths differ.
    Length {
        /// Length expected.
        expected_len: usize,
        /// Length found.
        actual_len: usize,
    },
    /// The bytes at `index` differ (the first such index).
    Byte {
        /// Position of the first difference.
        index: usize,
        /// Byte expected.
        expected: u8,
        /// Byte found.
        actual: u8,
    },
    /// The byte at `index` breaks the expected run of bytes (the first such
    /// index).
    Pattern {
        /// Position of the first difference.
        index: usize,
        /// Byte the run calls for.
        expected: u8,
        /// Byte found.
        actual: u8,
    },
}

/// The text of a length difference after `context`, as the message's
/// `format!` writes it: "Length mismatch" with the expected and the actual
/// length in decimal.
pub open spec fn length_mismatch_text(
    context: Seq<char>,
    expected_len: usize,
    actual_len: usize,
) -> Seq<char> {
    context + ": Length mismatch. Expected "@ + decimal_text(expected_len as nat) + " bytes, got "@
        + decimal_text(actual_len as nat)
}

/// The text of a byte difference after `context`, as the message's
/// `format!` writes it: `kind` followed by " mismatch", the index in decimal
/// and the two bytes as two uppercase hexadecimal digits.
pub open spec fn byte_mismatch_text(
    context: Seq<char>,
    kind: Seq<char>,
    index: usize,
    expected: u8,
    actual: u8,
) -> Seq<char> {
    context + ": "@ + kind + " mismatch at index "@ + decimal_text(index as nat) + ". Expected 0x"@
        + hex2_text(expected) + ", got 0x"@ + hex2_text(actual)
}

/// Formats the message of a length difference with `format!`, which writes
/// the fixed words, `context` and the numbers in decimal.
#[verifier::external_body]
fn format_length_mismatch(context: &str, expected_len: usize, actual_len: usize) -> (res: String)
    ensures
        res@ == length_mismatch_text(context@, expected_len, actual_len),
{
    format!("{}: Length mismatch. Expected {} bytes, got {}", context, expected_len, actual_len)
}

/// Formats the message of a byte difference with `format!`, which writes
/// the fixed words, `context`, `kind`, the index in decimal and the bytes
/// with `{:02X}`.
#[verifier::external_body]
fn format_byte_mismatch(context: &str, kind: &str, index: usize, expected: u8, actual: u8) -> (res:
    String)
    ensures
        res@ == byte_mismatch_text(context@, kind@, index, expected, actual),
{
    format!(
        "{}: {} mismatch at index {}. Expected 0x{:02X}, got 0x{:02X}",
        context,
        kind,
        index,
        expected,
        actual
    )
}

/// The message of a failed comparison in `context`.
pub open spec fn mismatch_text(mismatch: Mismatch, context: Seq<char>) -> Seq<char> {
    match mismatch {
        Mismatch::Length { expected_len, actual_len } => length_mismatch_text(
            context,
            expected_len,
            actual_len,
        ),
        Mismatch::Byte { index, expected, actual } => byte_mismatch_text(
            context,
            "Byte"@,
            index,
            expected,
            actual,
        ),
        Mismatch::Pattern { index, expected, actual } => byte_mismatch_text(
            context,
            "Pattern"@,
            index,
            expected,
            actual,
        ),
    }
}

impl Mismatch {
    /// The message describing the difference, after `context`: "Length
    /// mismatch", "Byte mismatch" or "Pattern mismatch" with the numbers.
    pub fn message(&self, context: &str) -> (res: String)
        ensures
            res@ == mismatch_text(*self, context@),
    {
        match *self {
            Mismatch::Length { expected_len, actual_len } => format_length_mismatch(
                context,
                expected_len,
                actual_len,
            ),
            Mismatch::Byte { index, expected, actual } => format_byte_mismatch(
                context,
                "Byte",
                index,
                expected,
                actual,
            ),
            Mismatch::Pattern { index, expected, actual } => format_byte_mismatch(
                context,
                "Pattern",
                index,
                expected,
                actual,
            ),
        }
    }
}

/// Compares `actual` with `expected`: equal lengths first, then byte by
/// byte, reporting the first difference.
pub fn compare_bytes(actual: &[u8], expected: &[u8]) -> (res: Result<(), Mismatch>)
    ensures
        res is Ok <==> actual@ == expected@,
        actual@.len() != expected@.len() ==> res == Err::<(), Mismatch>(
            Mismatch::Length { expected_len: expected@.len() as usize, actual_len: actual@.len() as usize },
        ),
        actual@.len() == expected@.len() && res is Err ==> res->Err_0 is Byte,
        res matches Err(Mismatch::Byte { index, expected: e, actual: a }) ==> {
            &&& actual@.len() == expected@.len()
            &&& index < actual@.len()
            &&& a == actual@[index as int]
            &&& e == expected@[index as int]
            &&& a != e
            &&& actual@.take(index as int) == expected@.take(index as int)
        },
{
    if actual.len() != expected.len() {
        return Err(Mismatch::Length { expected_len: expected.len(), actual_len: actual.len() });
    }
    let mut i: usize = 0;
    while i < actual.len()
        invariant
            i <= actual@.len(),
            actual@.len() == expected@.len(),
            actual@.take(i as int) == expected@.take(i as int),
        decreases actual@.len() - i,
    {
        if actual[i] != expected[i] {
            return Err(Mismatch::Byte { index: i, expected: expected[i], actual: actual[i] });
        }
        assert(actual@.take(i + 1) =~= actual@.take(i as int).push(actual@[i as int]));
        assert(expected@.take(i + 1) =~= expected@.take(i as int).push(expected@[i as int]));
        i = i + 1;
    }
    assert(actual@ =~= actual@.take(i as int));
    assert(expected@ =~= expected@.take(i as int));
    Ok(())
}

/// Asserts that `actual` equals `expected`, in `context`. The assertion
/// holds only for equal bytes, which callers must pass; [`compare_bytes`]
/// reports how other bytes differ, and [`Mismatch::message`] gives the
/// message of the failed assertion.
pub fn assert_bytes_equal(actual: &[u8], expected: &[u8], _context: &str)
    requires
        actual@ == expected@,
{
    let res = compare_bytes(actual, expected);
    vstd::pervasive::runtime_assert(res.is_ok());
}

/// The byte `start + i`, wrapping at 256.
pub open spec fn seq_byte(start: u8, i: int) -> u8 {
    ((start + i) % 256) as u8
}

/// `start, start + 1, ...` (wrapping), `count` bytes long.
pub open spec fn sequential(start: u8, count: nat) -> Seq<u8> {
    Seq::new(count, |i: int| seq_byte(start, i))
}

/// Generates `0, 1, 2, ...` (wrapping at 256), `size` bytes long.
pub fn generate_test_pattern(size: usize) -> (v: Vec<u8>)
    ensures
        v@ == sequential(0, size as nat),
{
    let mut v: Vec<u8> = Vec::new();
    let mut i: usize = 0;
    while i < size
        invariant
            i <= size,
            v@ == sequential(0, i as nat),
        decreases size - i,
    {
        let byte: u8 = (i & 0xFF) as u8;
        assert(byte == seq_byte(0, i as int)) by (bit_vector)
            requires
                byte == (i & 0xFF) as u8,
        ;
        v.push(byte);
        assert(v@ =~= sequential(0, (i + 1) as nat));
        i = i + 1;
    }
    v
}

/// Generates `start, start + 1, ...` (wrapping at 256), `count` bytes long.
pub fn generate_sequential(start: u8, count: usize) -> (v: Vec<u8>)
    ensures
        v@ == sequential(start, count as nat),
{
    let mut v: Vec<u8> = Vec::new();
    let mut i: usize = 0;
    while i < count
        invariant
            i <= count,
            v@ == sequential(start, i as nat),
        decreases count - i,
    {
        let low: u8 = (i & 0xFF) as u8;
        let byte = start.wrapping_add(low);
        assert(byte == seq_byte(start, i as int)) by (bit_vector)
            requires
                low == (i & 0xFF) as u8,
                byte == (if start + low > 255 {
                    (start + low - 256) as u8
                } else {
                    (start + low) as u8
                }),
        ;
        v.push(byte);
        assert(v@ =~= sequential(start, (i + 1) as nat));
        i = i + 1;
    }
    v
}

/// The `k`-th value of the generator `x -> 13 x + 7 (mod 256)` from `seed`.
pub open spec fn prng(seed: u8, k: nat) -> u8
    decreases k,
{
    if k == 0 {
        seed
    } else {
        ((prng(seed, (k - 1) as nat) * 13 + 7) % 256) as u8
    }
}

/// Generates `count` deterministic pseudo-random bytes from `seed`: the
/// successive values of `x -> 13 x + 7 (mod 256)` after the seed.
pub fn generate_pseudo_random(seed: u8, count: usize) -> (v: Vec<u8>)
    ensures
        v@ == Seq::new(count as nat, |i: int| prng(seed, (i + 1) as nat)),
{
    let mut data: Vec<u8> = Vec::with_capacity(count);
    let mut value = seed;
    let mut i: usize = 0;
    while i < count
        invariant
            i <= count,
            value == prng(seed, i as nat),
            data@ == Seq::new(i as nat, |j: int| prng(seed, (j + 1) as nat)),
        decreases count - i,
    {
        let next = value.wrapping_mul(13).wrapping_add(7);
        assert(next == ((value * 13 + 7) % 256) as u8) by (nonlinear_arith)
            requires
                next == (if ((value as nat * 13) % 256) as u8 + 7 > 255 {
                    (((value as nat * 13) % 256) as u8 + 7 - 256) as u8
                } else {
                    (((value as nat * 13) % 256) as u8 + 7) as u8
                }),
        ;
        value = next;
        data.push(value);
        assert(data@ =~= Seq::new((i + 1) as nat, |j: int| prng(seed, (j + 1) as nat)));
        i = i + 1;
    }
    data
}

/// Compares `buffer` with the run `start, start + 1, ...` (wrapping),
/// reporting the first byte that differs.
pub fn compare_pattern(buffer: &[u8], start: u8) -> (res: Result<(), Mismatch>)
    ensures
        res is Ok <==> buffer@ == sequential(start, buffer@.len()),
        res matches Err(m) ==> m matches Mismatch::Pattern { index, expected: e, actual: a } && {
            &&& index < buffer@.len()
            &&& a == buffer@[index as int]
            &&& e == seq_byte(start, index as int)
            &&& a != e
            &&& buffer@.take(index as int) == sequential(start, index as nat)
        },
{
    let mut i: usize = 0;
    while i < buffer.len()
        invariant
            i <= buffer@.len(),
            buffer@.take(i as int) == sequential(start, i as nat),
        decreases buffer@.len() - i,
    {
        let low: u8 = (i & 0xFF) as u8;
        let expected = start.wrapping_add(low);
        assert(expected == seq_byte(start, i as int)) by (bit_vector)
            requires
                low == (i & 0xFF) as u8,
                expected == (if start + low > 255 {
                    (start + low - 256) as u8
                } else {
                    (start + low) as u8
                }),
        ;
        if buffer[i] != expected {
            proof {
                if buffer@ == sequential(start, buffer@.len()) {
                    assert(buffer@[i as int] == sequential(start, buffer@.len())[i as int]);
                }
            }
            return Err(Mismatch::Pattern { index: i, expected, actual: buffer[i] });
        }
        assert(buffer@.take(i + 1) =~= sequential(start, (i + 1) as nat));
        i = i + 1;
    }
    assert(buffer@ =~= buffer@.take(i as int));
    Ok(())
}

/// Checks, in `context`, that `buffer` holds `start, start + 1, ...`
/// (wrapping), which callers must pass; the check then gives `true`.
/// [`compare_pattern`] reports where another buffer breaks the run, and
/// [`Mismatch::message`] gives the message of the failed check.
pub fn verify_pattern(buffer: &[u8], start: u8, _context: &str) -> (b: bool)
    requires
        buffer@ == sequential(start, buffer@.len()),
    ensures
        b,
{
    let res = compare_pattern(buffer, start);
    vstd::pervasive::runtime_assert(res.is_ok());
    true
}

/// The duration that `Duration::from_millis` makes of `ms` milliseconds.
pub uninterp spec fn duration_of_millis(ms: u64) -> Duration;

/// Makes a duration of `ms` milliseconds with `Duration::from_millis`, which
/// depends on `ms` alone and never fails; the contract names the result.
#[verifier::external_body]
fn duration_from_millis(ms: u64) -> (d: Duration)
    ensures
        d == duration_of_millis(ms),
{
    Duration::from_millis(ms)
}

/// Timing helper for performance tests.
pub struct Timer {
    start: Option<Duration>,
}

impl Timer {
    /// The timer has been started and not reset since.
    pub closed spec fn started(&self) -> bool {
        self.start is Some
    }

    /// The time the timer was started at, if it was.
    pub closed spec fn start_time(&self) -> Option<Duration> {
        self.start
    }

    /// A timer that has not started.
    pub fn new() -> (t: Self)
        ensures
            !t.started(),
            t.start_time() is None,
    {
        Timer { start: None }
    }

    /// Starts the timer, at time zero.
    pub fn start(&mut self)
        ensures
            final(self).started(),
            final(self).start_time() == Some(duration_of_millis(0)),
    {
        self.start = Some(duration_from_millis(0));
    }

    /// Time elapsed since the start; this timer measures none, so it is
    /// always zero milliseconds.
    pub fn elapsed(&self) -> (d: Duration)
        ensures
            d == duration_of_millis(0),
    {
        duration_from_millis(0)
    }

    /// Stops the timer.
    pub fn reset(&mut self)
        ensures
            !final(self).started(),
            final(self).start_time() is None,
    {
        self.start = None;
    }
}

/// A pattern generated from `start` passes the check from the same start:
/// it is the run that the check expects for its own length, and its `i`-th
/// byte is `start + i`, wrapping.
pub proof fn lemma_generated_pattern_verifies(start: u8, count: nat)
    ensures
        sequential(start, count) == sequential(start, sequential(start, count).len()),
        forall|i: int| 0 <= i < count ==> #[trigger] sequential(start, count)[i] == seq_byte(start, i),
{
}

} // verus!
