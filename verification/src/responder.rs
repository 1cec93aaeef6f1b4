//! The command protocols of the test firmware: how a slave answers the
//! commands a master sends, what the master checks in the answers, and when
//! a master retries a failed transfer.

use vstd::prelude::*;

use crate::helpers::test_utils::{generate_sequential, sequential};
use crate::slave::error::Error;

verus! {

/// Echo the message back.
pub const CMD_ECHO: u8 = 0x01;

/// Answer one fixed byte.
pub const CMD_SIMPLE: u8 = 0x10;

/// Answer one fixed byte, within a write-read.
pub const CMD_WRITE_READ: u8 = 0x20;

/// Answer several bytes.
pub const CMD_MULTI_BYTE: u8 = 0x30;

/// Report status (deferred-processing slave).
pub const CMD_STATUS: u8 = 0x40;

/// Answer a run of bytes that nearly fills the FIFO (interrupt-driven
/// slave).
pub const CMD_MAX_FIFO: u8 = 0x40;

/// Report status (polling slave).
pub const CMD_STATUS_REPORT: u8 = 0x00;

/// Largest message the polling slave receives.
pub const BLOCKING_BUFFER_SIZE: usize = 32;

/// Largest message the deferred-processing slave receives.
pub const DEFERRED_BUFFER_SIZE: usize = 64;

/// Attempts a master makes at one transfer.
pub const MAX_RETRIES: u32 = 3;

/// Pause between two attempts, in milliseconds.
pub const RETRY_DELAY_MS: u64 = 50;

/// The answer of the deferred-processing slave to the message `msg`, whose
/// first byte is the command: fixed answers for the known commands, the
/// message itself for an echo or an unknown command.
pub open spec fn deferred_reply(msg: Seq<u8>) -> Seq<u8> {
    let c = msg[0];
    if c == CMD_SIMPLE {
        seq![0x42u8]
    } else if c == CMD_WRITE_READ {
        seq![0x43u8]
    } else if c == CMD_MULTI_BYTE {
        seq![0x44u8, 0x45u8, 0x46u8, 0x47u8]
    } else if c == CMD_STATUS {
        seq![0xFFu8]
    } else {
        msg
    }
}

/// The test number the deferred-processing slave reports for command `c`;
/// an unknown command keeps the previous one.
pub open spec fn deferred_test_number(c: u8, previous: u32) -> u32 {
    if c == CMD_ECHO {
        1
    } else if c == CMD_SIMPLE {
        2
    } else if c == CMD_WRITE_READ {
        3
    } else if c == CMD_MULTI_BYTE {
        4
    } else if c == CMD_STATUS {
        5
    } else {
        previous
    }
}

/// The name the deferred-processing slave reports for command `c`.
pub open spec fn deferred_test_name(c: u8) -> Seq<char> {
    if c == CMD_ECHO {
        "Echo"@
    } else if c == CMD_SIMPLE {
        "Simple"@
    } else if c == CMD_WRITE_READ {
        "Write-Read"@
    } else if c == CMD_MULTI_BYTE {
        "Multi-byte"@
    } else if c == CMD_STATUS {
        "Status"@
    } else {
        "Unknown"@
    }
}

/// What the deferred-processing slave does with one message.
#[derive(Debug, Clone, PartialEq, Eq)]
pub struct DeferredReply {
    /// The bytes to load for the master.
    pub data: Vec<u8>,
    /// The test number to report.
    pub test_nbr: u32,
    /// The name of the test.
    pub name: &'static str,
}

/// Copies `bytes` into a new vector.
fn copy_bytes(bytes: &[u8]) -> (v: Vec<u8>)
    ensures
        v@ == bytes@,
{
    let mut v: Vec<u8> = Vec::new();
    let mut i: usize = 0;
    while i < bytes.len()
        invariant
            i <= bytes@.len(),
            v@ == bytes@.take(i as int),
        decreases bytes@.len() - i,
    {
        v.push(bytes[i]);
        assert(bytes@.take(i + 1) =~= bytes@.take(i as int).push(bytes@[i as int]));
        i = i + 1;
    }
    assert(bytes@.take(i as int) =~= bytes@);
    v
}

/// Answers a message received by the deferred-processing slave; the test
/// number of the last known command is `test_nbr`. Messages are at most
/// [`DEFERRED_BUFFER_SIZE`] bytes, as its receive buffer.
pub fn deferred_respond(test_nbr: u32, msg: &[u8]) -> (r: DeferredReply)
    requires
        0 < msg@.len() <= DEFERRED_BUFFER_SIZE,
    ensures
        r.data@ == deferred_reply(msg@),
        r.test_nbr == deferred_test_number(msg@[0], test_nbr),
        r.name@ == deferred_test_name(msg@[0]),
{
    let command = msg[0];
    if command == CMD_ECHO {
        DeferredReply { data: copy_bytes(msg), test_nbr: 1, name: "Echo" }
    } else if command == CMD_SIMPLE {
        DeferredReply { data: vec![0x42], test_nbr: 2, name: "Simple" }
    } else if command == CMD_WRITE_READ {
        DeferredReply { data: vec![0x43], test_nbr: 3, name: "Write-Read" }
    } else if command == CMD_MULTI_BYTE {
        let data = vec![0x44, 0x45, 0x46, 0x47];
        assert(data@ =~= seq![0x44u8, 0x45u8, 0x46u8, 0x47u8]);
        DeferredReply { data, test_nbr: 4, name: "Multi-byte" }
    } else if command == CMD_STATUS {
        DeferredReply { data: vec![0xFF], test_nbr: 5, name: "Status" }
    } else {
        DeferredReply { data: copy_bytes(msg), test_nbr, name: "Unknown" }
    }
}

/// How long the command processor works on command `c`, in milliseconds.
pub open spec fn work_time(c: u8) -> u64 {
    if c == CMD_ECHO {
        100
    } else if c == CMD_WRITE_READ {
        200
    } else if c == CMD_MULTI_BYTE {
        150
    } else {
        50
    }
}

/// How long the command processor works on command `cmd`, in milliseconds:
/// the echo, write-read and multi-byte commands take longer than the rest.
pub fn work_ms(cmd: u8) -> (ms: u64)
    ensures
        ms == work_time(cmd),
{
    if cmd == CMD_ECHO {
        100
    } else if cmd == CMD_WRITE_READ {
        200
    } else if cmd == CMD_MULTI_BYTE {
        150
    } else {
        50
    }
}

/// A failed read is reported unless it merely timed out, which is what an
/// idle bus gives.
pub fn should_report(error: Error) -> (b: bool)
    ensures
        b == (error != Error::Timeout),
{
    !matches!(error, Error::Timeout)
}

/// The answer of the interrupt-driven slave to command `c` whose message is
/// `msg`: none for an unknown command.
pub open spec fn basic_reply(c: u8, msg: Seq<u8>) -> Option<Seq<u8>> {
    if c == CMD_ECHO {
        Some(msg)
    } else if c == CMD_SIMPLE {
        Some(seq![0x42u8])
    } else if c == CMD_WRITE_READ {
        Some(seq![0x43u8])
    } else if c == CMD_MULTI_BYTE {
        Some(sequential(0, 16))
    } else if c == CMD_MAX_FIFO {
        Some(sequential(0, 31))
    } else {
        None
    }
}

/// Answers a read of `len` bytes into `buffer` by the interrupt-driven slave;
/// the command is the buffer's first byte.
pub fn basic_respond(buffer: &[u8], len: usize) -> (r: Option<Vec<u8>>)
    requires
        buffer@.len() > 0,
        len <= buffer@.len(),
    ensures
        r is None <==> basic_reply(buffer@[0], buffer@.take(len as int)) is None,
        r matches Some(v) ==> basic_reply(buffer@[0], buffer@.take(len as int)) == Some(v@),
{
    let command = buffer[0];
    if command == CMD_ECHO {
        let mut v: Vec<u8> = Vec::new();
        let mut i: usize = 0;
        while i < len
            invariant
                i <= len,
                len <= buffer@.len(),
                v@ == buffer@.take(i as int),
            decreases len - i,
        {
            v.push(buffer[i]);
            assert(buffer@.take(i + 1) =~= buffer@.take(i as int).push(buffer@[i as int]));
            i = i + 1;
        }
        Some(v)
    } else if command == CMD_SIMPLE {
        Some(vec![0x42])
    } else if command == CMD_WRITE_READ {
        Some(vec![0x43])
    } else if command == CMD_MULTI_BYTE {
        Some(generate_sequential(0, 16))
    } else if command == CMD_MAX_FIFO {
        Some(generate_sequential(0, 31))
    } else {
        None
    }
}

/// The answer of the polling slave to the message `msg`, whose first byte is
/// the command: fixed answers and runs of bytes for the known commands, the
/// message itself for an echo or an unknown command.
pub open spec fn blocking_reply(msg: Seq<u8>) -> Seq<u8> {
    let c = msg[0];
    if c == CMD_SIMPLE {
        seq![0x42u8]
    } else if c == CMD_WRITE_READ {
        seq![0x43u8]
    } else if c == CMD_MULTI_BYTE {
        sequential(0, 16)
    } else if c == CMD_MAX_FIFO {
        sequential(0, 31)
    } else if c == CMD_STATUS_REPORT {
        seq![0x00u8, 0x12u8, 0x34u8, 0x56u8]
    } else {
        msg
    }
}

/// The slaves echo whole messages: for an echo command, and for any command
/// the polling or deferred-processing slave does not know, the answer is the
/// whole received message, byte for byte and of its length; the
/// interrupt-driven slave echoes the whole message for an echo command.
pub proof fn lemma_echo_is_whole_message(msg: Seq<u8>)
    requires
        msg.len() > 0,
    ensures
        msg[0] == CMD_ECHO ==> blocking_reply(msg) == msg && deferred_reply(msg) == msg
            && basic_reply(msg[0], msg) == Some(msg),
        msg[0] != CMD_SIMPLE && msg[0] != CMD_WRITE_READ && msg[0] != CMD_MULTI_BYTE && msg[0]
            != CMD_MAX_FIFO && msg[0] != CMD_STATUS_REPORT ==> blocking_reply(msg) == msg,
        msg[0] != CMD_SIMPLE && msg[0] != CMD_WRITE_READ && msg[0] != CMD_MULTI_BYTE && msg[0]
            != CMD_STATUS ==> deferred_reply(msg) == msg,
{
}

/// The fixed answers of the polling slave: one byte `0x42` or `0x43`, the
/// runs `0..16` and `0..31`, and `00 12 34 56` for a status report; each is
/// the same whatever follows the command byte.
pub proof fn lemma_blocking_fixed_answers(msg: Seq<u8>)
    requires
        msg.len() > 0,
    ensures
        msg[0] == CMD_SIMPLE ==> blocking_reply(msg) == seq![0x42u8],
        msg[0] == CMD_WRITE_READ ==> blocking_reply(msg) == seq![0x43u8],
        msg[0] == CMD_MULTI_BYTE ==> blocking_reply(msg).len() == 16 && forall|i: int|
            0 <= i < 16 ==> #[trigger] blocking_reply(msg)[i] == i,
        msg[0] == CMD_MAX_FIFO ==> blocking_reply(msg).len() == 31 && forall|i: int|
            0 <= i < 31 ==> #[trigger] blocking_reply(msg)[i] == i,
        msg[0] == CMD_STATUS_REPORT ==> blocking_reply(msg) == seq![0x00u8, 0x12u8, 0x34u8, 0x56u8],
{
}

/// Answers a message received by the polling slave; messages are at most
/// [`BLOCKING_BUFFER_SIZE`] bytes, as its receive buffer.
pub fn blocking_respond(msg: &[u8]) -> (r: Vec<u8>)
    requires
        0 < msg@.len() <= BLOCKING_BUFFER_SIZE,
    ensures
        r@ == blocking_reply(msg@),
{
    let command = msg[0];
    if command == CMD_SIMPLE {
        vec![0x42]
    } else if command == CMD_WRITE_READ {
        vec![0x43]
    } else if command == CMD_MULTI_BYTE {
        generate_sequential(0, 16)
    } else if command == CMD_MAX_FIFO {
        generate_sequential(0, 31)
    } else if command == CMD_STATUS_REPORT {
        let v = vec![0x00, 0x12, 0x34, 0x56];
        assert(v@ =~= seq![0x00u8, 0x12u8, 0x34u8, 0x56u8]);
        v
    } else {
        copy_bytes(msg)
    }
}

/// The checks that the master runs against a slave.
#[derive(Debug, Clone, Copy, PartialEq, Eq, Structural)]
pub enum MasterTest {
    /// Write an echo command with data, then read the echo.
    SimpleWrite,
    /// Write the simple command, then read one byte.
    SimpleRead,
    /// Write-read of one byte.
    WriteReadSingle,
    /// Write-read of several bytes.
    WriteReadMulti,
    /// Write-read of nearly a FIFO's worth of bytes.
    WriteReadMaxFifo,
    /// A long write, then a one-byte read, in one write-read.
    BigWriteReadSingle,
    /// Write the multi-byte command, then read four bytes.
    MultiByteRead,
    /// Write the status command, then read one byte.
    StatusRead,
}

/// The bytes the master writes for `test`.
pub open spec fn test_request(test: MasterTest) -> Seq<u8> {
    match test {
        MasterTest::SimpleWrite => seq![CMD_ECHO, 0xAAu8, 0xBBu8, 0xCCu8],
        MasterTest::SimpleRead => seq![CMD_SIMPLE],
        MasterTest::WriteReadSingle => seq![CMD_WRITE_READ],
        MasterTest::WriteReadMulti => seq![CMD_MULTI_BYTE],
        MasterTest::WriteReadMaxFifo => seq![CMD_MAX_FIFO],
        MasterTest::BigWriteReadSingle => sequential(0, 31).update(0, CMD_WRITE_READ),
        MasterTest::MultiByteRead => seq![CMD_MULTI_BYTE],
        MasterTest::StatusRead => seq![CMD_STATUS],
    }
}

/// The answer the master expects for `test`.
pub open spec fn test_expected(test: MasterTest) -> Seq<u8> {
    match test {
        MasterTest::SimpleWrite => test_request(MasterTest::SimpleWrite),
        MasterTest::SimpleRead => seq![0x42u8],
        MasterTest::WriteReadSingle => seq![0x43u8],
        MasterTest::WriteReadMulti => sequential(0, 16),
        MasterTest::WriteReadMaxFifo => sequential(0, 31),
        MasterTest::BigWriteReadSingle => seq![0x43u8],
        MasterTest::MultiByteRead => seq![0x44u8, 0x45u8, 0x46u8, 0x47u8],
        MasterTest::StatusRead => seq![0xFFu8],
    }
}

/// The check sends its request and reads the answer in one write-read;
/// otherwise it writes, then reads.
pub open spec fn test_is_write_read(test: MasterTest) -> bool {
    match test {
        MasterTest::WriteReadSingle => true,
        MasterTest::WriteReadMulti => true,
        MasterTest::WriteReadMaxFifo => true,
        MasterTest::BigWriteReadSingle => true,
        _ => false,
    }
}

/// The checks of the polling master, in the order it runs them.
pub open spec fn blocking_suite() -> Seq<MasterTest> {
    seq![
        MasterTest::SimpleWrite,
        MasterTest::SimpleRead,
        MasterTest::WriteReadSingle,
        MasterTest::WriteReadMulti,
        MasterTest::WriteReadMaxFifo,
        MasterTest::BigWriteReadSingle,
    ]
}

/// The checks of the asynchronous master, in the order it runs them.
pub open spec fn async_suite() -> Seq<MasterTest> {
    seq![
        MasterTest::SimpleWrite,
        MasterTest::SimpleRead,
        MasterTest::WriteReadSingle,
        MasterTest::MultiByteRead,
        MasterTest::StatusRead,
    ]
}

impl MasterTest {
    /// The bytes the master writes.
    pub fn request(self) -> (v: Vec<u8>)
        ensures
            v@ == test_request(self),
    {
        match self {
            MasterTest::SimpleWrite => {
                let v = vec![CMD_ECHO, 0xAA, 0xBB, 0xCC];
                assert(v@ =~= seq![CMD_ECHO, 0xAAu8, 0xBBu8, 0xCCu8]);
                v
            },
            MasterTest::SimpleRead => vec![CMD_SIMPLE],
            MasterTest::WriteReadSingle => vec![CMD_WRITE_READ],
            MasterTest::WriteReadMulti => vec![CMD_MULTI_BYTE],
            MasterTest::WriteReadMaxFifo => vec![CMD_MAX_FIFO],
            MasterTest::BigWriteReadSingle => {
                let mut v = generate_sequential(0, 31);
                v.set(0, CMD_WRITE_READ);
                v
            },
            MasterTest::MultiByteRead => vec![CMD_MULTI_BYTE],
            MasterTest::StatusRead => vec![CMD_STATUS],
        }
    }

    /// The answer the master expects.
    pub fn expected(self) -> (v: Vec<u8>)
        ensures
            v@ == test_expected(self),
    {
        match self {
            MasterTest::SimpleWrite => MasterTest::SimpleWrite.request(),
            MasterTest::SimpleRead => vec![0x42],
            MasterTest::WriteReadSingle => vec![0x43],
            MasterTest::WriteReadMulti => generate_sequential(0, 16),
            MasterTest::WriteReadMaxFifo => generate_sequential(0, 31),
            MasterTest::BigWriteReadSingle => vec![0x43],
            MasterTest::MultiByteRead => {
                let v = vec![0x44, 0x45, 0x46, 0x47];
                assert(v@ =~= seq![0x44u8, 0x45u8, 0x46u8, 0x47u8]);
                v
            },
            MasterTest::StatusRead => vec![0xFF],
        }
    }

    /// Whether the check uses one write-read rather than a write and a read.
    pub fn is_write_read(self) -> (b: bool)
        ensures
            b == test_is_write_read(self),
    {
        matches!(
            self,
            MasterTest::WriteReadSingle | MasterTest::WriteReadMulti | MasterTest::WriteReadMaxFifo
                | MasterTest::BigWriteReadSingle
        )
    }

    /// The checks of the polling master, in order.
    pub fn blocking_suite() -> (v: Vec<MasterTest>)
        ensures
            v@ == blocking_suite(),
    {
        let v = vec![
            MasterTest::SimpleWrite,
            MasterTest::SimpleRead,
            MasterTest::WriteReadSingle,
            MasterTest::WriteReadMulti,
            MasterTest::WriteReadMaxFifo,
            MasterTest::BigWriteReadSingle,
        ];
        assert(v@ =~= blocking_suite());
        v
    }

    /// The checks of the asynchronous master, in order.
    pub fn async_suite() -> (v: Vec<MasterTest>)
        ensures
            v@ == async_suite(),
    {
        let v = vec![
            MasterTest::SimpleWrite,
            MasterTest::SimpleRead,
            MasterTest::WriteReadSingle,
            MasterTest::MultiByteRead,
            MasterTest::StatusRead,
        ];
        assert(v@ =~= async_suite());
        v
    }

    /// Whether `received` is the expected answer.
    pub fn passes(self, received: &[u8]) -> (b: bool)
        ensures
            b == (received@ == test_expected(self)),
    {
        let expected = self.expected();
        if received.len() != expected.len() {
            return false;
        }
        let mut i: usize = 0;
        while i < received.len()
            invariant
                i <= received@.len(),
                received@.len() == expected@.len(),
                expected@ == test_expected(self),
                received@.take(i as int) == expected@.take(i as int),
            decreases received@.len() - i,
        {
            if received[i] != expected[i] {
                assert(received@[i as int] != expected@[i as int]);
                return false;
            }
            assert(received@.take(i + 1) =~= received@.take(i as int).push(received@[i as int]));
            assert(expected@.take(i + 1) =~= expected@.take(i as int).push(expected@[i as int]));
            i = i + 1;
        }
        assert(received@ =~= received@.take(i as int));
        assert(expected@ =~= expected@.take(i as int));
        true
    }
}

/// What a master does after an attempt at a transfer.
#[derive(Debug, PartialEq, Eq)]
pub enum RetryStep<E> {
    /// The transfer is over, with this outcome.
    Finish(Result<(), E>),
    /// Wait `delay_ms`, then make attempt `attempt`.
    Retry {
        /// The number of the next attempt.
        attempt: u32,
        /// The pause before it, in milliseconds.
        delay_ms: u64,
    },
}

/// The step after attempt number `attempt` (from 1) ended with `outcome`:
/// success ends the transfer, a failure is retried after [`RETRY_DELAY_MS`]
/// until [`MAX_RETRIES`] attempts were made, and the last failure is
/// returned.
pub open spec fn retry_next<E>(attempt: u32, outcome: Result<(), E>) -> RetryStep<E> {
    match outcome {
        Ok(()) => RetryStep::Finish(Ok(())),
        Err(e) => if attempt < MAX_RETRIES {
            RetryStep::Retry { attempt: (attempt + 1) as u32, delay_ms: RETRY_DELAY_MS }
        } else {
            RetryStep::Finish(Err(e))
        },
    }
}

/// Decides what follows attempt number `attempt` (see [`retry_next`]).
pub fn retry_step<E>(attempt: u32, outcome: Result<(), E>) -> (s: RetryStep<E>)
    requires
        1 <= attempt <= MAX_RETRIES,
    ensures
        s == retry_next(attempt, outcome),
{
    match outcome {
        Ok(()) => RetryStep::Finish(Ok(())),
        Err(e) => {
            if attempt < MAX_RETRIES {
                RetryStep::Retry { attempt: attempt + 1, delay_ms: RETRY_DELAY_MS }
            } else {
                RetryStep::Finish(Err(e))
            }
        },
    }
}

/// A master that follows [`retry_next`] from attempt 1 makes at most
/// [`MAX_RETRIES`] attempts: a retry names the next attempt, within the
/// bound, and after the last attempt a failure is returned as it came.
pub proof fn lemma_retries_bounded<E>(attempt: u32, outcome: Result<(), E>)
    requires
        1 <= attempt <= MAX_RETRIES,
    ensures
        retry_next(attempt, outcome) matches RetryStep::Retry { attempt: next, .. } ==> next
            == attempt + 1 && next <= MAX_RETRIES,
        attempt == MAX_RETRIES ==> retry_next(attempt, outcome) == RetryStep::<E>::Finish(
            outcome,
        ),
{
    if let Ok(u) = outcome {
        assert(u == ());
    }
}

/// Each check of the polling master, sent to the interrupt-driven slave or
/// to the polling slave, draws the answer that the check expects (for the
/// echo, with the whole request read).
pub proof fn lemma_slaves_pass_blocking_suite(test: MasterTest)
    requires
        blocking_suite().contains(test),
    ensures
        basic_reply(test_request(test)[0], test_request(test)) == Some(test_expected(test)),
        blocking_reply(test_request(test)) == test_expected(test),
{
    let i = choose|i: int| 0 <= i < blocking_suite().len() && blocking_suite()[i] == test;
    assert(0 <= i < 6);
    if test == MasterTest::BigWriteReadSingle {
        assert(test_request(test)[0] == CMD_WRITE_READ);
    }
}

/// Each check of the asynchronous master, sent to the deferred-processing
/// slave, draws the answer that the check expects.
pub proof fn lemma_deferred_slave_passes_async_suite(test: MasterTest)
    requires
        async_suite().contains(test),
    ensures
        deferred_reply(test_request(test)) == test_expected(test),
{
    let i = choose|i: int| 0 <= i < async_suite().len() && async_suite()[i] == test;
    assert(0 <= i < 5);
}

} // verus!
