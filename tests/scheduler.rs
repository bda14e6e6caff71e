use pi_cake::scheduler::{checkpoint_modulus, is_checkpoint, total_iterations};
use pi_cake::types::ConfigurationError;

#[test]
fn modulus_is_floored_at_small_precision() {
    assert_eq!(checkpoint_modulus(0), 1);
    assert_eq!(checkpoint_modulus(1), 1);
    assert_eq!(checkpoint_modulus(2), 1);
    for n in 0..10u64 {
        assert!(is_checkpoint(n, checkpoint_modulus(2)));
    }
}

#[test]
fn modulus_follows_precision() {
    assert_eq!(checkpoint_modulus(3), 1);
    assert_eq!(checkpoint_modulus(4), 1024);
    assert_eq!(checkpoint_modulus(5), 59049);
}

#[test]
fn first_iteration_always_reports() {
    for p in 0..=84u64 {
        assert!(is_checkpoint(0, checkpoint_modulus(p)));
    }
}

#[test]
fn checkpoints_are_multiples_of_the_modulus() {
    assert!(is_checkpoint(2048, 1024));
    assert!(!is_checkpoint(1025, 1024));
}

#[test]
fn total_iterations_is_the_tenth_power() {
    assert_eq!(total_iterations(0), Ok(0));
    assert_eq!(total_iterations(1), Ok(1));
    assert_eq!(total_iterations(2), Ok(1024));
    assert_eq!(total_iterations(5), Ok(9765625));
    assert_eq!(total_iterations(84), Ok(84u64.pow(10)));
}

#[test]
fn total_iterations_overflow_is_rejected() {
    assert_eq!(total_iterations(85), Err(ConfigurationError::IterationCountOverflow));
    assert_eq!(total_iterations(u64::MAX), Err(ConfigurationError::IterationCountOverflow));
}
