use calc_contract::{CalcError, Counter, LogLine};

#[test]
fn multiply() {
    let mut contract = Counter { result: 0 };
    contract.mul(5, 20);
    println!("Result after multiply: {}", contract.get_result());
    assert_eq!(100, contract.get_result());
}

#[test]
fn divide() {
    let mut contract = Counter { result: 0 };
    contract.div(20, 10).unwrap();
    println!("Result after divide: {}", contract.get_result());
    assert_eq!(2, contract.get_result());
}

#[test]
fn divide_and_reset() {
    let mut contract = Counter { result: 0 };
    contract.div(10, 5).unwrap();
    contract.reset();
    println!("Result after reset: {}", contract.get_result());
    assert_eq!(0, contract.get_result());
}

#[test]
fn multiply_wraps_out_of_range_products() {
    let mut contract = Counter::default();
    contract.mul(20, 20);
    assert_eq!(-112, contract.get_result());
    contract.mul(-128, -1);
    assert_eq!(-128, contract.get_result());
    contract.mul(-20, 10);
    assert_eq!(56, contract.get_result());
    contract.mul(127, 127);
    assert_eq!(1, contract.get_result());
}

#[test]
fn multiply_logs_result_then_warning() {
    let mut contract = Counter::default();
    let logs = contract.mul(5, 20);
    assert_eq!(logs, vec![LogLine::Multiplied(100), LogLine::WrapWarning]);
}

#[test]
fn divide_rounds_toward_zero() {
    let mut contract = Counter::default();
    contract.div(-7, 2).unwrap();
    assert_eq!(-3, contract.get_result());
    contract.div(7, -2).unwrap();
    assert_eq!(-3, contract.get_result());
    contract.div(-7, -2).unwrap();
    assert_eq!(3, contract.get_result());
}

#[test]
fn divide_min_by_minus_one_wraps() {
    let mut contract = Counter::default();
    let logs = contract.div(-128, -1).unwrap();
    assert_eq!(-128, contract.get_result());
    assert_eq!(logs, vec![LogLine::Divided(-128), LogLine::WrapWarning]);
}

#[test]
fn divide_by_zero_fails_and_keeps_result() {
    let mut contract = Counter::default();
    contract.mul(5, 20);
    assert_eq!(Err(CalcError::DivideByZero), contract.div(7, 0));
    assert_eq!(100, contract.get_result());
    assert_eq!(Err(CalcError::DivideByZero), contract.div(0, 0));
    assert_eq!(100, contract.get_result());
}

#[test]
fn calculator_reset_logs_once_without_warning() {
    let mut contract = Counter { result: -5 };
    let logs = contract.reset();
    assert_eq!(0, contract.get_result());
    assert_eq!(logs, vec![LogLine::ResultReset]);
}

#[test]
fn get_result_is_repeatable() {
    let mut contract = Counter::default();
    contract.mul(3, 4);
    assert_eq!(12, contract.get_result());
    assert_eq!(12, contract.get_result());
    assert_eq!(12, contract.result);
}
