use guessing_game::{adder, defining_enums, error_handling, writing_automated_tests, Rectangle};

#[test]
fn it_works() {
    let result = 2 + 2;
    assert_eq!(result, 4);
}

#[test]
fn it_works_as_well() {
    let result = 3 * 3;
    assert_eq!(result, 9);
}

#[test]
fn adder_should_add_two_numbers_and_return_result() {
    let result: i32 = adder(2, 2);
    assert_eq!(2 + 2, 4)
}

#[test]
fn can_hold_should_return_true_when_passing_smaller_rectangle_param() {
    let larger = Rectangle {
        length: 8,
        width: 7,
    };
    let smaller = Rectangle {
        length: 5,
        width: 1,
    };

    assert!(larger.can_hold(&smaller));
}

#[test]
fn adder_sums_negative_numbers() {
    assert_eq!(adder(2, 2), 4);
    assert_eq!(adder(-7, 3), -4);
    assert_eq!(adder(i32::MAX, 0), i32::MAX);
}

#[test]
fn can_hold_is_false_for_a_larger_or_equal_side() {
    let a = Rectangle { length: 30, width: 50 };
    let b = Rectangle { length: 10, width: 40 };
    let c = Rectangle { length: 60, width: 45 };
    let d = Rectangle { length: 30, width: 10 };
    assert!(a.can_hold(&b));
    assert!(!a.can_hold(&c));
    assert!(!a.can_hold(&d));
    assert!(!b.can_hold(&a));
}

#[test]
fn walkthrough_functions_return() {
    defining_enums();
    error_handling();
    writing_automated_tests();
}
