use pi_cake::laborer::{logger, DispatchError, Laborer, WorkerState};
use pi_cake::protocol::{encode_command, encode_response, Approximation, WorkerCommand, WorkerResponse, WorkerResult};
use pi_cake::types::ConfigurationError;

fn result_bytes(iteration: u64) -> Vec<u8> {
    encode_response(WorkerResponse::Result(WorkerResult::new(Approximation { bits: 0 }, iteration)))
}

#[test]
fn lifecycle_of_a_computation() {
    let mut h = Laborer::new();
    assert!(!h.is_ready());
    assert_eq!(h.state(), WorkerState::Unknown);
    assert_eq!(h.receive(&encode_response(WorkerResponse::Ready)), Some(WorkerResponse::Ready));
    assert!(h.is_ready());
    let sent = h.send_command(WorkerCommand::CalculatePi(2));
    assert_eq!(sent, Ok(encode_command(WorkerCommand::CalculatePi(2))));
    assert_eq!(h.state(), WorkerState::Busy);
    for n in 0..1024u64 {
        h.receive(&result_bytes(n));
        assert_eq!(h.state(), WorkerState::Busy);
    }
    h.receive(&result_bytes(1024));
    assert!(h.is_ready());
}

#[test]
fn second_computation_is_refused_while_busy() {
    let mut h = Laborer::new();
    h.receive(&encode_response(WorkerResponse::Ready));
    assert!(h.send_command(WorkerCommand::CalculatePi(2)).is_ok());
    assert_eq!(h.send_command(WorkerCommand::CalculatePi(2)), Err(DispatchError::Busy));
    assert_eq!(h.send_command(WorkerCommand::Ping), Ok(vec![4u8]));
    assert_eq!(h.state(), WorkerState::Busy);
}

#[test]
fn unusable_precision_is_refused() {
    let mut h = Laborer::new();
    assert_eq!(
        h.send_command(WorkerCommand::CalculatePi(100)),
        Err(DispatchError::Configuration(ConfigurationError::IterationCountOverflow))
    );
    assert_eq!(h.state(), WorkerState::Unknown);
}

#[test]
fn other_commands_keep_the_state() {
    let mut h = Laborer::new();
    h.receive(&encode_response(WorkerResponse::Ready));
    assert_eq!(h.send_command(WorkerCommand::Add(2, 3)), Ok(encode_command(WorkerCommand::Add(2, 3))));
    assert!(h.send_command(WorkerCommand::Multiply(2, 3)).is_ok());
    assert!(h.send_command(WorkerCommand::Initialize).is_ok());
    assert!(h.is_ready());
    assert_eq!(h.receive(&encode_response(WorkerResponse::Pong)), Some(WorkerResponse::Pong));
    assert!(h.is_ready());
}

#[test]
fn undecodable_message_is_logged_once() {
    let mut h = Laborer::new();
    assert_eq!(h.receive(&[7u8, 7]), None);
    assert_eq!(h.diagnostics().len(), 1);
    assert_eq!(h.state(), WorkerState::Unknown);
}

#[test]
fn logger_appends_one_entry() {
    let mut log = vec![String::from("first")];
    logger(&mut log, "second");
    assert_eq!(log, vec![String::from("first"), String::from("second")]);
}

#[test]
fn computation_before_ready_is_refused() {
    let mut h = Laborer::new();
    assert_eq!(h.send_command(WorkerCommand::CalculatePi(1)), Err(DispatchError::NotReady));
    assert_eq!(h.state(), WorkerState::Unknown);
    assert_eq!(h.receive(&result_bytes(1)), Some(WorkerResponse::Result(WorkerResult::new(Approximation { bits: 0 }, 1))));
    assert!(!h.is_ready());
    assert_eq!(h.state(), WorkerState::Unknown);
}

#[test]
fn ready_while_busy_changes_nothing() {
    let mut h = Laborer::new();
    h.receive(&encode_response(WorkerResponse::Ready));
    assert!(h.send_command(WorkerCommand::CalculatePi(1)).is_ok());
    h.receive(&encode_response(WorkerResponse::Ready));
    assert_eq!(h.state(), WorkerState::Busy);
    assert_eq!(h.send_command(WorkerCommand::CalculatePi(1)), Err(DispatchError::Busy));
    h.receive(&result_bytes(0));
    assert_eq!(h.state(), WorkerState::Busy);
    h.receive(&result_bytes(1));
    assert!(h.is_ready());
}

#[test]
fn integer_answer_ahead_of_an_empty_run_is_not_its_end() {
    let mut h = Laborer::new();
    h.receive(&encode_response(WorkerResponse::Ready));
    assert!(h.send_command(WorkerCommand::Add(2, 3)).is_ok());
    assert!(h.send_command(WorkerCommand::CalculatePi(0)).is_ok());
    // the answer to Add, iteration 0
    h.receive(&result_bytes(0));
    assert_eq!(h.state(), WorkerState::Busy);
    // the final result of the run at precision 0: no iterations, iteration 0
    h.receive(&result_bytes(0));
    assert!(h.is_ready());
}
