//! The messages exchanged between controller and worker, and their byte encoding.
//!
//! Each message travels as one self-describing byte string: a tag byte naming
//! the variant, followed by the variant's fields in little-endian order
//! (`i32` as its two's-complement `u32`, `u64` as eight bytes). The channel
//! delivers whole messages, so no length prefix is needed.
use vstd::prelude::*;
use vstd::bytes::{
    spec_u32_from_le_bytes, spec_u32_to_le_bytes, spec_u64_from_le_bytes, spec_u64_to_le_bytes,
    u32_from_le_bytes, u32_to_le_bytes, u64_from_le_bytes, u64_to_le_bytes,
    lemma_auto_spec_u32_to_from_le_bytes, lemma_auto_spec_u64_to_from_le_bytes,
};
use vstd::slice::slice_subrange;
use crate::types::TPrecision;

verus! {

/// A command from the controller to the worker.
#[derive(Debug, Clone, Copy, PartialEq, Eq, Structural)]
pub enum WorkerCommand {
    Initialize,
    CalculatePi(TPrecision),
    Multiply(i32, i32),
    Add(i32, i32),
    Ping,
}

/// A double-precision approximation, carried as its IEEE-754 binary64 bit pattern.
#[derive(Debug, Clone, Copy, PartialEq, Eq, Structural)]
pub struct Approximation {
    pub bits: u64,
}

/// A value computed by the worker and the iteration it belongs to.
#[derive(Debug, Clone, Copy, PartialEq, Eq, Structural)]
pub struct WorkerResult {
    pub result: Approximation,
    pub iteration: TPrecision,
}

/// A response from the worker to the controller.
#[derive(Debug, Clone, Copy, PartialEq, Eq, Structural)]
pub enum WorkerResponse {
    Ready,
    Result(WorkerResult),
    Pong,
}

impl WorkerResult {
    pub fn new(result: Approximation, iteration: TPrecision) -> (r: Self)
        ensures
            r.result == result,
            r.iteration == iteration,
    {
        WorkerResult { result, iteration }
    }
}

pub const TAG_INITIALIZE: u8 = 0;
pub const TAG_CALCULATE_PI: u8 = 1;
pub const TAG_MULTIPLY: u8 = 2;
pub const TAG_ADD: u8 = 3;
pub const TAG_PING: u8 = 4;

pub const TAG_READY: u8 = 0;
pub const TAG_RESULT: u8 = 1;
pub const TAG_PONG: u8 = 2;

/// The four bytes of an `i32`: its two's-complement `u32`, little-endian.
pub open spec fn i32_bytes(x: i32) -> Seq<u8> {
    spec_u32_to_le_bytes(x as u32)
}

/// The bytes of a command on the wire.
pub open spec fn command_bytes(c: WorkerCommand) -> Seq<u8> {
    match c {
        WorkerCommand::Initialize => seq![TAG_INITIALIZE],
        WorkerCommand::CalculatePi(p) => seq![TAG_CALCULATE_PI] + spec_u64_to_le_bytes(p),
        WorkerCommand::Multiply(a, b) => seq![TAG_MULTIPLY] + i32_bytes(a) + i32_bytes(b),
        WorkerCommand::Add(a, b) => seq![TAG_ADD] + i32_bytes(a) + i32_bytes(b),
        WorkerCommand::Ping => seq![TAG_PING],
    }
}

/// The bytes of a response on the wire.
pub open spec fn response_bytes(r: WorkerResponse) -> Seq<u8> {
    match r {
        WorkerResponse::Ready => seq![TAG_READY],
        WorkerResponse::Result(w) => seq![TAG_RESULT] + spec_u64_to_le_bytes(w.result.bits)
            + spec_u64_to_le_bytes(w.iteration),
        WorkerResponse::Pong => seq![TAG_PONG],
    }
}

/// The `i32` read from four bytes.
pub open spec fn i32_of(s: Seq<u8>) -> i32 {
    spec_u32_from_le_bytes(s) as i32
}

/// The command that a byte string holds, if any.
pub open spec fn parse_command(s: Seq<u8>) -> Option<WorkerCommand> {
    if s.len() == 1 && s[0] == TAG_INITIALIZE {
        Some(WorkerCommand::Initialize)
    } else if s.len() == 1 && s[0] == TAG_PING {
        Some(WorkerCommand::Ping)
    } else if s.len() == 9 && s[0] == TAG_CALCULATE_PI {
        Some(WorkerCommand::CalculatePi(spec_u64_from_le_bytes(s.subrange(1, 9))))
    } else if s.len() == 9 && s[0] == TAG_MULTIPLY {
        Some(WorkerCommand::Multiply(i32_of(s.subrange(1, 5)), i32_of(s.subrange(5, 9))))
    } else if s.len() == 9 && s[0] == TAG_ADD {
        Some(WorkerCommand::Add(i32_of(s.subrange(1, 5)), i32_of(s.subrange(5, 9))))
    } else {
        None
    }
}

/// The response that a byte string holds, if any.
pub open spec fn parse_response(s: Seq<u8>) -> Option<WorkerResponse> {
    if s.len() == 1 && s[0] == TAG_READY {
        Some(WorkerResponse::Ready)
    } else if s.len() == 1 && s[0] == TAG_PONG {
        Some(WorkerResponse::Pong)
    } else if s.len() == 17 && s[0] == TAG_RESULT {
        Some(
            WorkerResponse::Result(
                WorkerResult {
                    result: Approximation { bits: spec_u64_from_le_bytes(s.subrange(1, 9)) },
                    iteration: spec_u64_from_le_bytes(s.subrange(9, 17)),
                },
            ),
        )
    } else {
        None
    }
}

proof fn lemma_i32_round_trip(x: i32)
    ensures
        (x as u32) as i32 == x,
{
    assert((x as u32) as i32 == x) by (bit_vector);
}

proof fn lemma_i32_canonical(s: Seq<u8>)
    requires
        s.len() == 4,
    ensures
        i32_bytes(i32_of(s)) == s,
{
    lemma_auto_spec_u32_to_from_le_bytes();
    let u = spec_u32_from_le_bytes(s);
    assert((u as i32) as u32 == u) by (bit_vector);
}

/// Decoding the encoding of a command gives the command back.
pub proof fn lemma_command_round_trip(c: WorkerCommand)
    ensures
        parse_command(command_bytes(c)) == Some(c),
{
    lemma_auto_spec_u32_to_from_le_bytes();
    lemma_auto_spec_u64_to_from_le_bytes();
    let s = command_bytes(c);
    match c {
        WorkerCommand::CalculatePi(p) => {
            assert(s.subrange(1, 9) =~= spec_u64_to_le_bytes(p));
        },
        WorkerCommand::Multiply(a, b) | WorkerCommand::Add(a, b) => {
            assert(s.subrange(1, 5) =~= i32_bytes(a));
            assert(s.subrange(5, 9) =~= i32_bytes(b));
            lemma_i32_round_trip(a);
            lemma_i32_round_trip(b);
        },
        _ => {},
    }
}

/// A byte string decodes to a command only if it is that command's encoding.
pub proof fn lemma_command_canonical(s: Seq<u8>)
    ensures
        parse_command(s) matches Some(c) ==> command_bytes(c) == s,
{
    lemma_auto_spec_u32_to_from_le_bytes();
    lemma_auto_spec_u64_to_from_le_bytes();
    if let Some(c) = parse_command(s) {
        match c {
            WorkerCommand::CalculatePi(p) => {
                assert(command_bytes(c) =~= s);
            },
            WorkerCommand::Multiply(a, b) | WorkerCommand::Add(a, b) => {
                lemma_i32_canonical(s.subrange(1, 5));
                lemma_i32_canonical(s.subrange(5, 9));
                assert(command_bytes(c) =~= s);
            },
            _ => {
                assert(command_bytes(c) =~= s);
            },
        }
    }
}

/// Decoding the encoding of a response gives the response back.
pub proof fn lemma_response_round_trip(r: WorkerResponse)
    ensures
        parse_response(response_bytes(r)) == Some(r),
{
    lemma_auto_spec_u64_to_from_le_bytes();
    if let WorkerResponse::Result(w) = r {
        let s = response_bytes(r);
        assert(s.subrange(1, 9) =~= spec_u64_to_le_bytes(w.result.bits));
        assert(s.subrange(9, 17) =~= spec_u64_to_le_bytes(w.iteration));
    }
}

/// A byte string decodes to a response only if it is that response's encoding.
pub proof fn lemma_response_canonical(s: Seq<u8>)
    ensures
        parse_response(s) matches Some(r) ==> response_bytes(r) == s,
{
    lemma_auto_spec_u64_to_from_le_bytes();
    if let Some(r) = parse_response(s) {
        assert(response_bytes(r) =~= s);
    }
}

fn push_i32(out: &mut Vec<u8>, x: i32)
    ensures
        final(out)@ == old(out)@ + i32_bytes(x),
{
    let mut b = u32_to_le_bytes(x as u32);
    out.append(&mut b);
}

fn read_i32(s: &[u8], at: usize) -> (r: i32)
    requires
        at + 4 <= s@.len(),
    ensures
        r == i32_of(s@.subrange(at as int, at + 4)),
{
    // the slice's length, a usize, bounds `at + 4`
    let _len = s.len();
    let w = slice_subrange(s, at, at + 4);
    #[verifier::truncate]
    (u32_from_le_bytes(w) as i32)
}

fn read_u64(s: &[u8], at: usize) -> (r: u64)
    requires
        at + 8 <= s@.len(),
    ensures
        r == spec_u64_from_le_bytes(s@.subrange(at as int, at + 8)),
{
    // the slice's length, a usize, bounds `at + 8`
    let _len = s.len();
    let w = slice_subrange(s, at, at + 8);
    u64_from_le_bytes(w)
}

/// Encodes a command for the channel.
pub fn encode_command(c: WorkerCommand) -> (r: Vec<u8>)
    ensures
        r@ == command_bytes(c),
{
    let mut out: Vec<u8> = Vec::new();
    match c {
        WorkerCommand::Initialize => {
            out.push(TAG_INITIALIZE);
        },
        WorkerCommand::CalculatePi(p) => {
            out.push(TAG_CALCULATE_PI);
            let mut b = u64_to_le_bytes(p);
            out.append(&mut b);
        },
        WorkerCommand::Multiply(a, b) => {
            out.push(TAG_MULTIPLY);
            push_i32(&mut out, a);
            push_i32(&mut out, b);
        },
        WorkerCommand::Add(a, b) => {
            out.push(TAG_ADD);
            push_i32(&mut out, a);
            push_i32(&mut out, b);
        },
        WorkerCommand::Ping => {
            out.push(TAG_PING);
        },
    }
    assert(out@ =~= command_bytes(c));
    out
}

/// Decodes a command from the channel; `None` when the bytes encode no command.
pub fn decode_command(s: &[u8]) -> (r: Option<WorkerCommand>)
    ensures
        r == parse_command(s@),
        r matches Some(c) ==> command_bytes(c) == s@,
        r is None ==> forall|c: WorkerCommand| command_bytes(c) != s@,
{
    proof {
        lemma_command_canonical(s@);
        assert forall|c: WorkerCommand| parse_command(s@) is None implies command_bytes(c) != s@ by {
            lemma_command_round_trip(c);
        }
    }
    let n = s.len();
    if n == 1 && s[0] == TAG_INITIALIZE {
        Some(WorkerCommand::Initialize)
    } else if n == 1 && s[0] == TAG_PING {
        Some(WorkerCommand::Ping)
    } else if n == 9 && s[0] == TAG_CALCULATE_PI {
        Some(WorkerCommand::CalculatePi(read_u64(s, 1)))
    } else if n == 9 && s[0] == TAG_MULTIPLY {
        Some(WorkerCommand::Multiply(read_i32(s, 1), read_i32(s, 5)))
    } else if n == 9 && s[0] == TAG_ADD {
        Some(WorkerCommand::Add(read_i32(s, 1), read_i32(s, 5)))
    } else {
        None
    }
}

/// Encodes a response for the channel.
pub fn encode_response(r: WorkerResponse) -> (out: Vec<u8>)
    ensures
        out@ == response_bytes(r),
{
    let mut out: Vec<u8> = Vec::new();
    match r {
        WorkerResponse::Ready => {
            out.push(TAG_READY);
        },
        WorkerResponse::Result(w) => {
            out.push(TAG_RESULT);
            let mut v = u64_to_le_bytes(w.result.bits);
            out.append(&mut v);
            let mut i = u64_to_le_bytes(w.iteration);
            out.append(&mut i);
        },
        WorkerResponse::Pong => {
            out.push(TAG_PONG);
        },
    }
    assert(out@ =~= response_bytes(r));
    out
}

/// Decodes a response from the channel; `None` when the bytes encode no response.
pub fn decode_response(s: &[u8]) -> (r: Option<WorkerResponse>)
    ensures
        r == parse_response(s@),
        r matches Some(x) ==> response_bytes(x) == s@,
        r is None ==> forall|x: WorkerResponse| response_bytes(x) != s@,
{
    proof {
        lemma_response_canonical(s@);
        assert forall|x: WorkerResponse| parse_response(s@) is None implies response_bytes(x) != s@ by {
            lemma_response_round_trip(x);
        }
    }
    let n = s.len();
    if n == 1 && s[0] == TAG_READY {
        Some(WorkerResponse::Ready)
    } else if n == 1 && s[0] == TAG_PONG {
        Some(WorkerResponse::Pong)
    } else if n == 17 && s[0] == TAG_RESULT {
        let bits = read_u64(s, 1);
        let iteration = read_u64(s, 9);
        Some(WorkerResponse::Result(WorkerResult::new(Approximation { bits }, iteration)))
    } else {
        None
    }
}

} // verus!
