use soda_core::money::Money;
use soda_core::money::MoneyError;

#[test]
fn test_from_dollars_cents() {
    let money = Money::from_dollars_cents(5, 25).unwrap();
    assert_eq!(money.cents(), 525);
    assert_eq!(money.dollars(), 5);
    assert_eq!(money.cents_portion(), 25);
}

#[test]
fn test_from_dollars_cents_negative() {
    let money = Money::from_dollars_cents(-2, 50).unwrap();
    assert_eq!(money.cents(), -250);
    assert_eq!(money.dollars(), -2);
    assert_eq!(money.cents_portion(), 50);
}

#[test]
fn test_from_dollars_cents_invalid_cents() {
    let result = Money::from_dollars_cents(5, 100);
    assert!(result.is_err());
    assert_eq!(
        result.unwrap_err(),
        MoneyError::InvalidAmount("Cents must be between 0 and 99".to_string())
    );
}

#[test]
fn test_from_cents() {
    let money = Money::from_cents(1234);
    assert_eq!(money.cents(), 1234);
    assert_eq!(money.dollars(), 12);
    assert_eq!(money.cents_portion(), 34);
}

#[test]
fn test_zero() {
    let money = Money::zero();
    assert_eq!(money.cents(), 0);
    assert!(money.is_zero());
    assert!(!money.is_positive());
    assert!(!money.is_negative());
}

#[test]
fn test_is_positive_negative() {
    let positive = Money::from_cents(100);
    let negative = Money::from_cents(-100);
    let zero = Money::zero();

    assert!(positive.is_positive());
    assert!(!positive.is_negative());
    assert!(!positive.is_zero());

    assert!(!negative.is_positive());
    assert!(negative.is_negative());
    assert!(!negative.is_zero());

    assert!(!zero.is_positive());
    assert!(!zero.is_negative());
    assert!(zero.is_zero());
}

#[test]
fn test_abs() {
    let positive = Money::from_cents(100);
    let negative = Money::from_cents(-100);

    assert_eq!(positive.abs().cents(), 100);
    assert_eq!(negative.abs().cents(), 100);
}

#[test]
fn test_neg() {
    let positive = Money::from_cents(100);
    let negative = Money::from_cents(-100);

    assert_eq!(positive.neg().cents(), -100);
    assert_eq!(negative.neg().cents(), 100);
}

#[test]
fn test_add() {
    let money1 = Money::from_cents(100);
    let money2 = Money::from_cents(250);
    let result = money1.checked_add(money2).unwrap();

    assert_eq!(result.cents(), 350);
}

#[test]
fn test_add_negative() {
    let money1 = Money::from_cents(100);
    let money2 = Money::from_cents(-50);
    let result = money1.checked_add(money2).unwrap();

    assert_eq!(result.cents(), 50);
}

#[test]
fn test_sub() {
    let money1 = Money::from_cents(350);
    let money2 = Money::from_cents(100);
    let result = money1.checked_sub(money2).unwrap();

    assert_eq!(result.cents(), 250);
}

#[test]
fn test_mul() {
    let money = Money::from_cents(100);
    let result = money.checked_mul(3).unwrap();

    assert_eq!(result.cents(), 300);
}

#[test]
fn test_div() {
    let money = Money::from_cents(300);
    let result = money.checked_div(3).unwrap();

    assert_eq!(result.cents(), 100);
}

#[test]
fn test_div_by_zero() {
    let money = Money::from_cents(100);
    let result = money.checked_div(0);

    assert!(result.is_err());
    assert_eq!(result.unwrap_err(), MoneyError::DivisionByZero);
}

#[test]
fn money_test_display() {
    let positive = Money::from_cents(525);
    let negative = Money::from_cents(-250);
    let zero = Money::zero();

    assert_eq!(positive.to_string(), "$5.25");
    assert_eq!(negative.to_string(), "-$2.50");
    assert_eq!(zero.to_string(), "$0.00");
}

#[test]
fn test_ordering() {
    let money1 = Money::from_cents(100);
    let money2 = Money::from_cents(200);
    let money3 = Money::from_cents(100);

    assert!(money1 < money2);
    assert!(money2 > money1);
    assert_eq!(money1, money3);
}

#[test]
fn test_add_overflow() {
    let a = Money::from_cents(i64::MAX);
    let b = Money::from_cents(1);
    assert_eq!(a.checked_add(b).unwrap_err(), MoneyError::Overflow);
}

#[test]
fn test_sub_underflow() {
    let a = Money::from_cents(i64::MIN);
    let b = Money::from_cents(1);
    assert_eq!(a.checked_sub(b).unwrap_err(), MoneyError::Underflow);
}

#[test]
fn test_mul_overflow() {
    let a = Money::from_cents(i64::MAX / 2 + 1);
    assert_eq!(a.checked_mul(2).unwrap_err(), MoneyError::Overflow);
}

#[test]
fn test_from_dollars_cents_overflow() {
    assert_eq!(
        Money::from_dollars_cents(i64::MAX / 100 + 1, 0).unwrap_err(),
        MoneyError::Overflow
    );
    assert_eq!(
        Money::from_dollars_cents(i64::MAX / 100, 99).unwrap_err(),
        MoneyError::Overflow
    );
    assert_eq!(
        Money::from_dollars_cents(i64::MIN / 100, 99).unwrap_err(),
        MoneyError::Underflow
    );
}

#[test]
fn test_dollars_cents_formula() {
    // The cents of a dollars/cents pair: the dollar part scaled by one
    // hundred, moved further from zero by the cent part.
    for dollars in [-3i64, -1, 0, 1, 7] {
        for cents in [0u8, 1, 50, 99] {
            let m = Money::from_dollars_cents(dollars, cents).unwrap();
            let expected = if dollars >= 0 {
                dollars * 100 + cents as i64
            } else {
                dollars * 100 - cents as i64
            };
            assert_eq!(m.cents(), expected);
        }
    }
}

#[test]
fn test_add_sub_round_trip() {
    let pairs = [(150i64, 275i64), (-40, 90), (0, 0), (123456, -654321)];
    for (x, y) in pairs {
        let a = Money::from_cents(x);
        let b = Money::from_cents(y);
        let sum = a.checked_add(b).unwrap();
        let back = sum.checked_sub(b).unwrap();
        assert_eq!(back, a);
    }
}

#[test]
fn test_div_truncates_toward_zero() {
    assert_eq!(Money::from_cents(7).checked_div(2).unwrap().cents(), 3);
    assert_eq!(Money::from_cents(-7).checked_div(2).unwrap().cents(), -3);
    assert_eq!(Money::from_cents(7).checked_div(-2).unwrap().cents(), -3);
    assert_eq!(Money::from_cents(-7).checked_div(-2).unwrap().cents(), 3);
}

#[test]
fn test_decimal_string() {
    assert_eq!(Money::from_cents(150).to_decimal_string(), "1.50");
    assert_eq!(Money::from_cents(5).to_decimal_string(), "0.05");
    assert_eq!(Money::zero().to_decimal_string(), "0.00");
}

#[test]
fn test_money_error_messages() {
    assert_eq!(MoneyError::DivisionByZero.to_string(), "Division by zero");
    assert_eq!(MoneyError::Overflow.to_string(), "Arithmetic overflow");
    assert_eq!(MoneyError::Underflow.to_string(), "Arithmetic underflow");
    assert_eq!(MoneyError::CurrencyMismatch.to_string(), "Currency mismatch");
    assert_eq!(
        MoneyError::InvalidAmount("Cents must be between 0 and 99".to_string()).to_string(),
        "Invalid amount: Cents must be between 0 and 99"
    );
}
