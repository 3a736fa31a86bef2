use toy_payments::money::Money;

#[test]
fn parses_plain_integers() {
    assert_eq!(Money::parse("5").unwrap().unwrap(), Money::from_str("5/1").unwrap());
    assert_eq!(Money::parse("0").unwrap().unwrap(), Money::zero());
    assert_eq!(Money::parse("-3").unwrap().unwrap(), Money::from_str("-3/1").unwrap());
    assert_eq!(Money::parse("+7").unwrap().unwrap(), Money::from_str("7/1").unwrap());
    assert_eq!(Money::parse("5").unwrap().unwrap().to_units(), 50000);
}

#[test]
fn parses_decimals_exactly() {
    assert_eq!(Money::parse("1.5").unwrap().unwrap().to_units(), 15000);
    assert_eq!(Money::parse("2.0").unwrap().unwrap().to_units(), 20000);
    assert_eq!(Money::parse("0.0001").unwrap().unwrap().to_units(), 1);
    assert_eq!(Money::parse("1.1001").unwrap().unwrap().to_units(), 11001);
}

#[test]
fn truncates_the_fifth_fractional_digit() {
    // the format's precision cap: excess digits are dropped, not rounded
    assert_eq!(
        Money::parse("1.10015").unwrap().unwrap(),
        Money::from_str("11001/10000").unwrap()
    );
    assert_eq!(Money::parse("0.99999").unwrap().unwrap().to_units(), 9999);
    // characters past the fourth fractional digit are never read
    assert_eq!(Money::parse("1.1001xyz").unwrap().unwrap().to_units(), 11001);
}

#[test]
fn empty_field_means_no_amount() {
    assert_eq!(Money::parse(""), Ok(None));
}

#[test]
fn rejects_malformed_literals() {
    assert!(Money::parse("abc").is_err());
    assert!(Money::parse(".5").is_err());
    assert!(Money::parse("5.").is_err());
    assert!(Money::parse(".").is_err());
    assert!(Money::parse("-").is_err());
    assert!(Money::parse("1.x5").is_err());
    assert!(Money::parse("1,5").is_err());
    assert!(Money::parse("99999999999999999999").is_err());
}

#[test]
fn fractional_part_is_added_to_the_integer_part() {
    // the two parts are summed, so the fraction always contributes
    // positively, also under a negative integer part
    assert_eq!(Money::parse("-1.5").unwrap().unwrap().to_units(), -5000);
}

#[test]
fn ratio_literals() {
    assert_eq!(Money::from_str("3/2").unwrap().to_units(), 15000);
    assert_eq!(Money::from_str("1/10").unwrap().to_units(), 1000);
    assert_eq!(Money::from_str("-1/2").unwrap().to_units(), -5000);
    assert_eq!(Money::from_str("4").unwrap().to_units(), 40000);
    assert!(Money::from_str("1/0").is_err());
    assert!(Money::from_str("1/3").is_err());
    assert!(Money::from_str("a/2").is_err());
    assert!(Money::from_str("").is_err());
}

#[test]
fn exact_arithmetic_and_order() {
    let a = Money::parse("0.1").unwrap().unwrap();
    let b = Money::parse("0.2").unwrap().unwrap();
    let c = a.checked_add(b).unwrap();
    assert_eq!(c, Money::parse("0.3").unwrap().unwrap());
    assert_eq!(c.checked_sub(b).unwrap(), a);
    assert!(a.lt(&b));
    assert!(!b.lt(&a));
    assert!(!a.lt(&a));
}
