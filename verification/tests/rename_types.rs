use seximal::Si332;
use std::cmp::Ordering;
use std::cmp::Ordering::{Equal, Greater, Less};

fn ordering_to_string(ord: Ordering) -> String {
    match ord {
        Greater => String::from("Greater"),
        Less => String::from("Less"),
        Equal => String::from("Equal"),
    }
}

#[test]
fn rename_si332_new() {
    let num = Si332::new(13);
    assert_eq!(
        num.to_string(),
        "21",
        "to_string failed, expected 21, got {}",
        num.to_string()
    );

    let num = Si332::new(0);
    assert_eq!(
        num.to_string(),
        "0",
        "to_string failed, expected 0, got {}",
        num.to_string()
    );

    let num = Si332::new(-36);
    assert_eq!(
        num.to_string(),
        "-100",
        "to_string failed, expected -100, got {}",
        num.to_string()
    );
}

#[test]
fn rename_si332_from() {
    let num = Si332::from("21").unwrap();
    assert_eq!(
        num.value(),
        13,
        "from failed, expected 13, got {}",
        num.to_string()
    );

    let num = Si332::from("0").unwrap();
    assert_eq!(
        num.value(),
        0,
        "from failed, expected 0, got {}",
        num.to_string()
    );

    let num = Si332::from("-100").unwrap();
    assert_eq!(
        num.value(),
        -36,
        "from failed, expected -36, got {}",
        num.to_string()
    );
}

#[test]
#[should_panic]
fn rename_si332_from_panics() {
    let _num = Si332::from("9").unwrap();
}

#[test]
fn rename_si332_native_arithmetic() {
    let mut num = Si332::new(13);
    num = num + Si332::new(2);
    assert_eq!(
        num.to_string(),
        "23",
        "21 + 2 failed, expected 23, got {}",
        num.to_string()
    );

    num = num - Si332::new(2);
    assert_eq!(
        num.to_string(),
        "21",
        "23 - 2 failed, expected 21, got {}",
        num.to_string()
    );

    num = num * Si332::new(2);
    assert_eq!(
        num.to_string(),
        "42",
        "21 * 2 failed, expected 42, got {}",
        num.to_string()
    );

    num = num / Si332::new(2);
    assert_eq!(
        num.to_string(),
        "21",
        "42 / 2 failed, expected 21, got {}",
        num.to_string()
    );

    num = num % Si332::new(3);
    assert_eq!(
        num.to_string(),
        "1",
        "21 % 3 failed, expected 1, got {}",
        num.to_string()
    );
}

#[test]
fn rename_si332_decimal_arithmetic() {
    let mut num = Si332::new(13);
    num = num + 2;
    assert_eq!(
        num.to_string(),
        "23",
        "21 + 2 failed, expected 23, got {}",
        num.to_string()
    );

    num = num - 2;
    assert_eq!(
        num.to_string(),
        "21",
        "23 - 2 failed, expected 21, got {}",
        num.to_string()
    );

    num = num * 2;
    assert_eq!(
        num.to_string(),
        "42",
        "21 * 2 failed, expected 42, got {}",
        num.to_string()
    );

    num = num / 2;
    assert_eq!(
        num.to_string(),
        "21",
        "42 / 2 failed, expected 21, got {}",
        num.to_string()
    );

    num = num % 3;
    assert_eq!(
        num.to_string(),
        "1",
        "21 % 3 failed, expected 1, got {}",
        num.to_string()
    );
}

#[test]
fn rename_si332_cmp() {
    let a = Si332::new(3);
    let b = Si332::new(5);
    let mut result;

    result = a.cmp(&b);
    assert_eq!(
        result,
        Less,
        "{}.cmp(&{}) failed, expected Less, got {}",
        a.to_string(),
        b.to_string(),
        ordering_to_string(result)
    );

    result = b.cmp(&a);
    assert_eq!(
        result,
        Greater,
        "{}.cmp(&{}) failed, expected Greater, got {}",
        b.to_string(),
        a.to_string(),
        ordering_to_string(result)
    );

    let c = Si332::new(3);
    result = a.cmp(&c);
    assert_eq!(
        result,
        Equal,
        "{}.cmp({}) failed, expected Equal, got {}",
        a.to_string(),
        c.to_string(),
        ordering_to_string(result)
    );
}
