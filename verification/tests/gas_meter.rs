use wasm_runtime::error::Error;
use wasm_runtime::gas::GasMeter;

#[test]
fn charge_success_increments_consumed() {
    let mut m = GasMeter::new(100);
    assert!(m.charge_gas(40));
    assert_eq!(m.consumed, 40);
    assert_eq!(m.ceiling, 100);
    assert_eq!(m.gas_left(), Ok(60));
}

#[test]
fn charge_failure_leaves_consumed_unchanged() {
    let mut m = GasMeter::new(100);
    assert!(!m.charge_gas(150));
    assert_eq!(m.consumed, 0);
    assert_eq!(m.gas_left(), Ok(100));
}

#[test]
fn charge_boundary_exact_then_one_more() {
    let mut m = GasMeter::new(100);
    assert!(m.charge_gas(60));
    // charging exactly the remaining gas succeeds and brings gas_left to 0
    assert!(m.charge_gas(40));
    assert_eq!(m.gas_left(), Ok(0));
    // one more unit fails and the consumed counter stays put
    assert!(!m.charge_gas(1));
    assert_eq!(m.consumed, 100);
    assert_eq!(m.gas_left(), Ok(0));
}

#[test]
fn sequence_of_charges_sums_up() {
    let mut m = GasMeter::new(100);
    assert!(m.charge_gas(10));
    assert!(m.charge_gas(20));
    assert!(m.charge_gas(30));
    assert_eq!(m.consumed, 60);
    assert_eq!(m.gas_left(), Ok(40));
}

#[test]
fn corrupted_counter_reports_invalid_gas_state() {
    let mut m = GasMeter::new(10);
    m.consumed = 11;
    assert_eq!(m.gas_left(), Err(Error::InvalidGasState));
}

#[test]
fn charge_never_wraps_on_overflow() {
    let mut m = GasMeter::new(10);
    assert!(m.charge_gas(5));
    assert!(!m.charge_gas(u64::MAX));
    assert_eq!(m.consumed, 5);

    let mut full = GasMeter::new(u64::MAX);
    assert!(full.charge_gas(u64::MAX));
    assert_eq!(full.gas_left(), Ok(0));
    assert!(!full.charge_gas(1));
}
