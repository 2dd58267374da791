use treatviewers_backend::money::Money;

#[test]
fn money_add_is_component_wise() {
    let m = Money::new(3, 4).add(Money::new(10, 1));
    assert_eq!(m, Money::new(13, 5));
}

#[test]
fn money_subtract_clamps_each_part_at_zero() {
    let m = Money::new(3, 10).subtract(Money::new(5, 4));
    assert_eq!(m, Money::new(0, 6));
    let m = Money::new(7, 2).subtract(Money::new(7, 9));
    assert_eq!(m, Money::new(0, 0));
}

#[test]
fn money_default_is_zero() {
    assert_eq!(Money::default(), Money::new(0, 0));
}

#[test]
fn money_describe_writes_both_parts() {
    assert_eq!(Money::new(3, 0).describe(), "{real: 3, bonus: 0}");
    assert_eq!(Money::new(1234567890, 18446744073709551615).describe(), "{real: 1234567890, bonus: 18446744073709551615}");
}
