use layered::pure;

#[test]
fn adds() {
    let actual = pure::add(1, 2);
    let expected = 3;
    assert_eq!(actual, expected);
}

#[test]
fn adds_negative_operands() {
    assert_eq!(pure::add(-4, 9), 5);
    assert_eq!(pure::add(-4, -9), -13);
}

#[test]
fn sum_is_commutative_on_examples() {
    assert_eq!(pure::add(12, -30), pure::add(-30, 12));
    assert_eq!(pure::add(0, 5), pure::add(5, 0));
}

#[test]
fn sum_is_associative_on_examples() {
    let left = pure::add(pure::add(3, 4), 5);
    let right = pure::add(3, pure::add(4, 5));
    assert_eq!(left, 12);
    assert_eq!(left, right);
}

#[test]
fn zero_is_neutral() {
    assert_eq!(pure::add(42, 0), 42);
    assert_eq!(pure::add(0, -42), -42);
}

#[test]
fn adds_at_the_limits_of_i32() {
    assert_eq!(pure::add(i32::MAX, 0), i32::MAX);
    assert_eq!(pure::add(i32::MIN, i32::MAX), -1);
    assert_eq!(pure::add(i32::MAX - 1, 1), i32::MAX);
}
