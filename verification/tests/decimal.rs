use otss::decimal::Decimal;

fn p(text: &str) -> Decimal {
    Decimal::parse(text).unwrap()
}

#[test]
fn parse_and_display() {
    let x = p("150.25");
    assert_eq!(x.mantissa(), 15025);
    assert_eq!(x.scale(), 2);
    assert_eq!(x.to_string(), "150.25");
    assert_eq!(p("-0.5").to_string(), "-0.5");
    assert_eq!(p("7").to_string_two_places(), "7.00");
    assert!(Decimal::parse("abc").is_err());
    assert!(Decimal::parse("").is_err());
    assert_eq!(Decimal::new(12345, 3).to_string(), "12.345");
}

#[test]
fn arithmetic_is_exact_when_it_fits() {
    assert_eq!(p("100.50").plus(p("50.25")), p("150.75"));
    assert_eq!(p("100.50").minus(p("50.25")).to_string(), "50.25");
    assert_eq!(p("1.5").times(p("-2.25")).to_string(), "-3.375");
    assert_eq!(p("1").over(p("4")).to_string(), "0.25");
    assert_eq!(p("10").over(p("3")).to_string(), "3.3333333333333333333333333333");
    assert_eq!(Decimal::zero().plus(p("2.50")).to_string(), "2.50");
    assert_eq!(Decimal::one().neg(), Decimal::negative_one());
}

#[test]
fn comparisons_and_signs() {
    assert!(p("1.0").lt(&p("1.01")));
    assert!(p("2").gt(&p("1.999")));
    assert!(p("2.00").le(&p("2")));
    assert!(p("2.00").ge(&p("2")));
    assert_eq!(p("2.00"), p("2"));
    assert!(p("-3").abs().is_sign_positive());
    assert!(p("-3").is_sign_negative());
    assert!(p("0.000").is_zero());
    assert_eq!(p("3").min(p("-4")), p("-4"));
    assert_eq!(p("3").max(p("-4")), p("3"));
    assert_eq!(Decimal::from_i64(-42).to_string(), "-42");
}

#[test]
fn display_pads_and_cuts_fraction_digits() {
    assert_eq!(Decimal::new(5, 3).to_string(), "0.005");
    assert_eq!(Decimal::new(5, 3).to_string_two_places(), "0.00");
    assert_eq!(Decimal::new(-5, 3).to_string_two_places(), "-0.00");
    assert_eq!(Decimal::new(0, 2).to_string(), "0.00");
    assert_eq!(Decimal::zero().to_string(), "0");
    assert_eq!(Decimal::new(123456, 2).to_string_two_places(), "1234.56");
    assert_eq!(Decimal::new(7, 0).to_string_two_places(), "7.00");
    assert_eq!(Decimal::new(100, 0).over(Decimal::new(4, 0)).to_string(), "25");
}
