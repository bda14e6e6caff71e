use pi_cake::protocol::{
    decode_command, decode_response, encode_command, encode_response, Approximation, WorkerCommand,
    WorkerResponse, WorkerResult,
};

fn all_commands() -> Vec<WorkerCommand> {
    vec![
        WorkerCommand::Initialize,
        WorkerCommand::Ping,
        WorkerCommand::Add(2, 3),
        WorkerCommand::Add(i32::MIN, i32::MAX),
        WorkerCommand::Multiply(-7, 6),
        WorkerCommand::Multiply(i32::MAX, -1),
        WorkerCommand::CalculatePi(0),
        WorkerCommand::CalculatePi(5),
        WorkerCommand::CalculatePi(u64::MAX),
    ]
}

#[test]
fn worker_command_serializes() {
    let command = WorkerCommand::Add(1, 2);
    assert_eq!(format!("{:?}", command), "Add(1, 2)");
}

#[test]
fn every_command_round_trips() {
    for c in all_commands() {
        let bytes = encode_command(c);
        assert_eq!(decode_command(&bytes), Some(c));
    }
}

#[test]
fn every_response_round_trips() {
    let responses = vec![
        WorkerResponse::Ready,
        WorkerResponse::Pong,
        WorkerResponse::Result(WorkerResult::new(Approximation { bits: 4.0f64.to_bits() }, 10)),
        WorkerResponse::Result(WorkerResult::new(Approximation { bits: (-0.0f64).to_bits() }, 0)),
        WorkerResponse::Result(WorkerResult::new(Approximation { bits: u64::MAX }, u64::MAX)),
    ];
    for r in responses {
        let bytes = encode_response(r);
        assert_eq!(decode_response(&bytes), Some(r));
    }
}

#[test]
fn command_bytes_are_exact() {
    assert_eq!(encode_command(WorkerCommand::Initialize), vec![0u8]);
    assert_eq!(encode_command(WorkerCommand::Ping), vec![4u8]);
    assert_eq!(encode_command(WorkerCommand::CalculatePi(0x0102)), vec![1u8, 2, 1, 0, 0, 0, 0, 0, 0]);
    assert_eq!(encode_command(WorkerCommand::Add(-1, 2)), vec![3u8, 255, 255, 255, 255, 2, 0, 0, 0]);
    assert_eq!(encode_command(WorkerCommand::Multiply(1, 256)), vec![2u8, 1, 0, 0, 0, 0, 1, 0, 0]);
}

#[test]
fn response_bytes_are_exact() {
    assert_eq!(encode_response(WorkerResponse::Ready), vec![0u8]);
    assert_eq!(encode_response(WorkerResponse::Pong), vec![2u8]);
    let r = WorkerResponse::Result(WorkerResult::new(Approximation { bits: 1 }, 0x0100));
    assert_eq!(encode_response(r), vec![1u8, 1, 0, 0, 0, 0, 0, 0, 0, 0, 1, 0, 0, 0, 0, 0, 0]);
}

#[test]
fn malformed_bytes_do_not_decode() {
    assert_eq!(decode_command(&[]), None);
    assert_eq!(decode_command(&[9u8]), None);
    assert_eq!(decode_command(&[0u8, 0]), None);
    assert_eq!(decode_command(&[1u8, 0, 0]), None);
    assert_eq!(decode_response(&[]), None);
    assert_eq!(decode_response(&[1u8]), None);
    assert_eq!(decode_response(&[3u8]), None);
}
