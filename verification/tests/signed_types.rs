use seximal::{Si12, Si144, Si24, Si332, Si52, Sisize};
use std::cmp::Ordering;
use std::cmp::Ordering::{Equal, Greater, Less};

fn ordering_to_string(ord: Ordering) -> String {
    match ord {
        Greater => String::from("Greater"),
        Less => String::from("Less"),
        Equal => String::from("Equal"),
    }
}

#[test]
fn si12_new() {
    let num = Si12::new(13);
    assert_eq!(
        num.to_string(),
        "21",
        "to_string failed, expected 21, got {}",
        num.to_string()
    );

    let num = Si12::new(0);
    assert_eq!(
        num.to_string(),
        "0",
        "to_string failed, expected 0, got {}",
        num.to_string()
    );

    let num = Si12::new(-36);
    assert_eq!(
        num.to_string(),
        "-100",
        "to_string failed, expected -100, got {}",
        num.to_string()
    );
}

#[test]
fn si12_from() {
    let num = Si12::from("21").unwrap();
    assert_eq!(
        num.value(),
        13,
        "from failed, expected 13, got {}",
        num.to_string()
    );

    let num = Si12::from("0").unwrap();
    assert_eq!(
        num.value(),
        0,
        "from failed, expected 0, got {}",
        num.to_string()
    );

    let num = Si12::from("-100").unwrap();
    assert_eq!(
        num.value(),
        -36,
        "from failed, expected -36, got {}",
        num.to_string()
    );
}

#[test]
#[should_panic]
fn si12_from_panics() {
    let _num = Si12::from("9").unwrap();
}

#[test]
fn si12_native_arithmetic() {
    let mut num = Si12::new(13);
    num = num + Si12::new(2);
    assert_eq!(
        num.to_string(),
        "23",
        "21 + 2 failed, expected 23, got {}",
        num.to_string()
    );

    num = num - Si12::new(2);
    assert_eq!(
        num.to_string(),
        "21",
        "23 - 2 failed, expected 21, got {}",
        num.to_string()
    );

    num = num * Si12::new(2);
    assert_eq!(
        num.to_string(),
        "42",
        "21 * 2 failed, expected 42, got {}",
        num.to_string()
    );

    num = num / Si12::new(2);
    assert_eq!(
        num.to_string(),
        "21",
        "42 / 2 failed, expected 21, got {}",
        num.to_string()
    );

    num = num % Si12::new(3);
    assert_eq!(
        num.to_string(),
        "1",
        "21 % 3 failed, expected 1, got {}",
        num.to_string()
    );
}

#[test]
fn si12_decimal_arithmetic() {
    let mut num = Si12::new(13);
    num = num + 2;
    assert_eq!(
        num.to_string(),
        "23",
        "21 + 2 failed, expected 23, got {}",
        num.to_string()
    );

    num = num - 2;
    assert_eq!(
        num.to_string(),
        "21",
        "23 - 2 failed, expected 21, got {}",
        num.to_string()
    );

    num = num * 2;
    assert_eq!(
        num.to_string(),
        "42",
        "21 * 2 failed, expected 42, got {}",
        num.to_string()
    );

    num = num / 2;
    assert_eq!(
        num.to_string(),
        "21",
        "42 / 2 failed, expected 21, got {}",
        num.to_string()
    );

    num = num % 3;
    assert_eq!(
        num.to_string(),
        "1",
        "21 % 3 failed, expected 1, got {}",
        num.to_string()
    );
}

#[test]
fn si12_cmp() {
    let a = Si12::new(3);
    let b = Si12::new(5);
    let mut result;

    result = a.cmp(&b);
    assert_eq!(
        result,
        Less,
        "{}.cmp(&{}) failed, expected Less, got {}",
        a.to_string(),
        b.to_string(),
        ordering_to_string(result)
    );

    result = b.cmp(&a);
    assert_eq!(
        result,
        Greater,
        "{}.cmp(&{}) failed, expected Greater, got {}",
        b.to_string(),
        a.to_string(),
        ordering_to_string(result)
    );

    let c = Si12::new(3);
    result = a.cmp(&c);
    assert_eq!(
        result,
        Equal,
        "{}.cmp({}) failed, expected Equal, got {}",
        a.to_string(),
        c.to_string(),
        ordering_to_string(result)
    );
}

#[test]
fn si24_new() {
    let num = Si24::new(13);
    assert_eq!(
        num.to_string(),
        "21",
        "to_string failed, expected 21, got {}",
        num.to_string()
    );

    let num = Si24::new(0);
    assert_eq!(
        num.to_string(),
        "0",
        "to_string failed, expected 0, got {}",
        num.to_string()
    );

    let num = Si24::new(-36);
    assert_eq!(
        num.to_string(),
        "-100",
        "to_string failed, expected -100, got {}",
        num.to_string()
    );
}

#[test]
fn si24_from() {
    let num = Si24::from("21").unwrap();
    assert_eq!(
        num.value(),
        13,
        "from failed, expected 13, got {}",
        num.to_string()
    );

    let num = Si24::from("0").unwrap();
    assert_eq!(
        num.value(),
        0,
        "from failed, expected 0, got {}",
        num.to_string()
    );

    let num = Si24::from("-100").unwrap();
    assert_eq!(
        num.value(),
        -36,
        "from failed, expected -36, got {}",
        num.to_string()
    );
}

#[test]
#[should_panic]
fn si24_from_panics() {
    let _num = Si24::from("9").unwrap();
}

#[test]
fn si24_native_arithmetic() {
    let mut num = Si24::new(13);
    num = num + Si24::new(2);
    assert_eq!(
        num.to_string(),
        "23",
        "21 + 2 failed, expected 23, got {}",
        num.to_string()
    );

    num = num - Si24::new(2);
    assert_eq!(
        num.to_string(),
        "21",
        "23 - 2 failed, expected 21, got {}",
        num.to_string()
    );

    num = num * Si24::new(2);
    assert_eq!(
        num.to_string(),
        "42",
        "21 * 2 failed, expected 42, got {}",
        num.to_string()
    );

    num = num / Si24::new(2);
    assert_eq!(
        num.to_string(),
        "21",
        "42 / 2 failed, expected 21, got {}",
        num.to_string()
    );

    num = num % Si24::new(3);
    assert_eq!(
        num.to_string(),
        "1",
        "21 % 3 failed, expected 1, got {}",
        num.to_string()
    );
}

#[test]
fn si24_decimal_arithmetic() {
    let mut num = Si24::new(13);
    num = num + 2;
    assert_eq!(
        num.to_string(),
        "23",
        "21 + 2 failed, expected 23, got {}",
        num.to_string()
    );

    num = num - 2;
    assert_eq!(
        num.to_string(),
        "21",
        "23 - 2 failed, expected 21, got {}",
        num.to_string()
    );

    num = num * 2;
    assert_eq!(
        num.to_string(),
        "42",
        "21 * 2 failed, expected 42, got {}",
        num.to_string()
    );

    num = num / 2;
    assert_eq!(
        num.to_string(),
        "21",
        "42 / 2 failed, expected 21, got {}",
        num.to_string()
    );

    num = num % 3;
    assert_eq!(
        num.to_string(),
        "1",
        "21 % 3 failed, expected 1, got {}",
        num.to_string()
    );
}

#[test]
fn si24_cmp() {
    let a = Si24::new(3);
    let b = Si24::new(5);
    let mut result;

    result = a.cmp(&b);
    assert_eq!(
        result,
        Less,
        "{}.cmp(&{}) failed, expected Less, got {}",
        a.to_string(),
        b.to_string(),
        ordering_to_string(result)
    );

    result = b.cmp(&a);
    assert_eq!(
        result,
        Greater,
        "{}.cmp(&{}) failed, expected Greater, got {}",
        b.to_string(),
        a.to_string(),
        ordering_to_string(result)
    );

    let c = Si24::new(3);
    result = a.cmp(&c);
    assert_eq!(
        result,
        Equal,
        "{}.cmp({}) failed, expected Equal, got {}",
        a.to_string(),
        c.to_string(),
        ordering_to_string(result)
    );
}

#[test]
fn si52_new() {
    let num = Si52::new(13);
    assert_eq!(
        num.value(),
        13,
        "to_string failed, expected 21, got {}",
        num.to_string()
    );

    let num = Si52::new(0);
    assert_eq!(
        num.value(),
        0,
        "to_string failed, expected 0, got {}",
        num.to_string()
    );

    let num = Si52::new(-36);
    assert_eq!(
        num.value(),
        -36,
        "to_string failed, expected -100, got {}",
        num.to_string()
    );
}

#[test]
fn si52_from() {
    let num = Si52::from("21").unwrap();
    assert_eq!(
        num.value(),
        13,
        "from failed, expected 13, got {}",
        num.to_string()
    );

    let num = Si52::from("0").unwrap();
    assert_eq!(
        num.value(),
        0,
        "from failed, expected 0, got {}",
        num.to_string()
    );

    let num = Si52::from("-100").unwrap();
    assert_eq!(
        num.value(),
        -36,
        "from failed, expected -36, got {}",
        num.to_string()
    );
}

#[test]
#[should_panic]
fn si52_from_panics() {
    let _num = Si52::from("9").unwrap();
}

#[test]
fn si52_native_arithmetic() {
    let mut num = Si52::new(13);
    num = num + Si52::new(2);
    assert_eq!(
        num.to_string(),
        "23",
        "21 + 2 failed, expected 23, got {}",
        num.to_string()
    );

    num = num - Si52::new(2);
    assert_eq!(
        num.to_string(),
        "21",
        "23 - 2 failed, expected 21, got {}",
        num.to_string()
    );

    num = num * Si52::new(2);
    assert_eq!(
        num.to_string(),
        "42",
        "21 * 2 failed, expected 42, got {}",
        num.to_string()
    );

    num = num / Si52::new(2);
    assert_eq!(
        num.to_string(),
        "21",
        "42 / 2 failed, expected 21, got {}",
        num.to_string()
    );

    num = num % Si52::new(3);
    assert_eq!(
        num.to_string(),
        "1",
        "21 % 3 failed, expected 1, got {}",
        num.to_string()
    );
}

#[test]
fn si52_decimal_arithmetic() {
    let mut num = Si52::new(13);
    num = num + 2;
    assert_eq!(
        num.to_string(),
        "23",
        "21 + 2 failed, expected 23, got {}",
        num.to_string()
    );

    num = num - 2;
    assert_eq!(
        num.to_string(),
        "21",
        "23 - 2 failed, expected 21, got {}",
        num.to_string()
    );

    num = num * 2;
    assert_eq!(
        num.to_string(),
        "42",
        "21 * 2 failed, expected 42, got {}",
        num.to_string()
    );

    num = num / 2;
    assert_eq!(
        num.to_string(),
        "21",
        "42 / 2 failed, expected 21, got {}",
        num.to_string()
    );

    num = num % 3;
    assert_eq!(
        num.to_string(),
        "1",
        "21 % 3 failed, expected 1, got {}",
        num.to_string()
    );
}

#[test]
fn si52_cmp() {
    let a = Si52::new(3);
    let b = Si52::new(5);
    let mut result;

    result = a.cmp(&b);
    assert_eq!(
        result,
        Less,
        "{}.cmp(&{}) failed, expected Less, got {}",
        a.to_string(),
        b.to_string(),
        ordering_to_string(result)
    );

    result = b.cmp(&a);
    assert_eq!(
        result,
        Greater,
        "{}.cmp(&{}) failed, expected Greater, got {}",
        b.to_string(),
        a.to_string(),
        ordering_to_string(result)
    );

    let c = Si52::new(3);
    result = a.cmp(&c);
    assert_eq!(
        result,
        Equal,
        "{}.cmp({}) failed, expected Equal, got {}",
        a.to_string(),
        c.to_string(),
        ordering_to_string(result)
    );
}

#[test]
fn si144_new() {
    let num = Si144::new(13);
    assert_eq!(
        num.to_string(),
        "21",
        "to_string failed, expected 21, got {}",
        num.to_string()
    );

    let num = Si144::new(0);
    assert_eq!(
        num.to_string(),
        "0",
        "to_string failed, expected 0, got {}",
        num.to_string()
    );

    let num = Si144::new(-36);
    assert_eq!(
        num.to_string(),
        "-100",
        "to_string failed, expected -100, got {}",
        num.to_string()
    );
}

#[test]
fn si144_from() {
    let num = Si144::from("21").unwrap();
    assert_eq!(
        num.value(),
        13,
        "from failed, expected 13, got {}",
        num.to_string()
    );

    let num = Si144::from("0").unwrap();
    assert_eq!(
        num.value(),
        0,
        "from failed, expected 0, got {}",
        num.to_string()
    );

    let num = Si144::from("-100").unwrap();
    assert_eq!(
        num.value(),
        -36,
        "from failed, expected -36, got {}",
        num.to_string()
    );
}

#[test]
#[should_panic]
fn si144_from_panics() {
    let _num = Si144::from("9").unwrap();
}

#[test]
fn si144_native_arithmetic() {
    let mut num = Si144::new(13);
    num = num + Si144::new(2);
    assert_eq!(
        num.to_string(),
        "23",
        "21 + 2 failed, expected 23, got {}",
        num.to_string()
    );

    num = num - Si144::new(2);
    assert_eq!(
        num.to_string(),
        "21",
        "23 - 2 failed, expected 21, got {}",
        num.to_string()
    );

    num = num * Si144::new(2);
    assert_eq!(
        num.to_string(),
        "42",
        "21 * 2 failed, expected 42, got {}",
        num.to_string()
    );

    num = num / Si144::new(2);
    assert_eq!(
        num.to_string(),
        "21",
        "42 / 2 failed, expected 21, got {}",
        num.to_string()
    );

    num = num % Si144::new(3);
    assert_eq!(
        num.to_string(),
        "1",
        "21 % 3 failed, expected 1, got {}",
        num.to_string()
    );
}

#[test]
fn si144_decimal_arithmetic() {
    let mut num = Si144::new(13);
    num = num + 2;
    assert_eq!(
        num.to_string(),
        "23",
        "21 + 2 failed, expected 23, got {}",
        num.to_string()
    );

    num = num - 2;
    assert_eq!(
        num.to_string(),
        "21",
        "23 - 2 failed, expected 21, got {}",
        num.to_string()
    );

    num = num * 2;
    assert_eq!(
        num.to_string(),
        "42",
        "21 * 2 failed, expected 42, got {}",
        num.to_string()
    );

    num = num / 2;
    assert_eq!(
        num.to_string(),
        "21",
        "42 / 2 failed, expected 21, got {}",
        num.to_string()
    );

    num = num % 3;
    assert_eq!(
        num.to_string(),
        "1",
        "21 % 3 failed, expected 1, got {}",
        num.to_string()
    );
}

#[test]
fn si144_cmp() {
    let a = Si144::new(3);
    let b = Si144::new(5);
    let mut result;

    result = a.cmp(&b);
    assert_eq!(
        result,
        Less,
        "{}.cmp(&{}) failed, expected Less, got {}",
        a.to_string(),
        b.to_string(),
        ordering_to_string(result)
    );

    result = b.cmp(&a);
    assert_eq!(
        result,
        Greater,
        "{}.cmp(&{}) failed, expected Greater, got {}",
        b.to_string(),
        a.to_string(),
        ordering_to_string(result)
    );

    let c = Si144::new(3);
    result = a.cmp(&c);
    assert_eq!(
        result,
        Equal,
        "{}.cmp({}) failed, expected Equal, got {}",
        a.to_string(),
        c.to_string(),
        ordering_to_string(result)
    );
}

#[test]
fn si332_si332_new() {
    let num = Si332::new(13);
    assert_eq!(
        num.to_string(),
        "21",
        "to_string failed, expected 21, got {}",
        num.to_string()
    );

    let num = Si332::new(0);
    assert_eq!(
        num.to_string(),
        "0",
        "to_string failed, expected 0, got {}",
        num.to_string()
    );

    let num = Si332::new(-36);
    assert_eq!(
        num.to_string(),
        "-100",
        "to_string failed, expected -100, got {}",
        num.to_string()
    );
}

#[test]
fn si332_si332_from() {
    let num = Si332::from("21").unwrap();
    assert_eq!(
        num.value(),
        13,
        "from failed, expected 13, got {}",
        num.to_string()
    );

    let num = Si332::from("0").unwrap();
    assert_eq!(
        num.value(),
        0,
        "from failed, expected 0, got {}",
        num.to_string()
    );

    let num = Si332::from("-100").unwrap();
    assert_eq!(
        num.value(),
        -36,
        "from failed, expected -36, got {}",
        num.to_string()
    );
}

#[test]
#[should_panic]
fn si332_si332_from_panics() {
    let _num = Si332::from("9").unwrap();
}

#[test]
fn si332_si332_native_arithmetic() {
    let mut num = Si332::new(13);
    num = num + Si332::new(2);
    assert_eq!(
        num.to_string(),
        "23",
        "21 + 2 failed, expected 23, got {}",
        num.to_string()
    );

    num = num - Si332::new(2);
    assert_eq!(
        num.to_string(),
        "21",
        "23 - 2 failed, expected 21, got {}",
        num.to_string()
    );

    num = num * Si332::new(2);
    assert_eq!(
        num.to_string(),
        "42",
        "21 * 2 failed, expected 42, got {}",
        num.to_string()
    );

    num = num / Si332::new(2);
    assert_eq!(
        num.to_string(),
        "21",
        "42 / 2 failed, expected 21, got {}",
        num.to_string()
    );

    num = num % Si332::new(3);
    assert_eq!(
        num.to_string(),
        "1",
        "21 % 3 failed, expected 1, got {}",
        num.to_string()
    );
}

#[test]
fn si332_si332_decimal_arithmetic() {
    let mut num = Si332::new(13);
    num = num + 2;
    assert_eq!(
        num.to_string(),
        "23",
        "21 + 2 failed, expected 23, got {}",
        num.to_string()
    );

    num = num - 2;
    assert_eq!(
        num.to_string(),
        "21",
        "23 - 2 failed, expected 21, got {}",
        num.to_string()
    );

    num = num * 2;
    assert_eq!(
        num.to_string(),
        "42",
        "21 * 2 failed, expected 42, got {}",
        num.to_string()
    );

    num = num / 2;
    assert_eq!(
        num.to_string(),
        "21",
        "42 / 2 failed, expected 21, got {}",
        num.to_string()
    );

    num = num % 3;
    assert_eq!(
        num.to_string(),
        "1",
        "21 % 3 failed, expected 1, got {}",
        num.to_string()
    );
}

#[test]
fn si332_si332_cmp() {
    let a = Si332::new(3);
    let b = Si332::new(5);
    let mut result;

    result = a.cmp(&b);
    assert_eq!(
        result,
        Less,
        "{}.cmp(&{}) failed, expected Less, got {}",
        a.to_string(),
        b.to_string(),
        ordering_to_string(result)
    );

    result = b.cmp(&a);
    assert_eq!(
        result,
        Greater,
        "{}.cmp(&{}) failed, expected Greater, got {}",
        b.to_string(),
        a.to_string(),
        ordering_to_string(result)
    );

    let c = Si332::new(3);
    result = a.cmp(&c);
    assert_eq!(
        result,
        Equal,
        "{}.cmp({}) failed, expected Equal, got {}",
        a.to_string(),
        c.to_string(),
        ordering_to_string(result)
    );
}

#[test]
fn sisize_new() {
    let num = Sisize::new(13);
    assert_eq!(
        num.to_string(),
        "21",
        "to_string failed, expected 21, got {}",
        num.to_string()
    );

    let num = Sisize::new(0);
    assert_eq!(
        num.to_string(),
        "0",
        "to_string failed, expected 0, got {}",
        num.to_string()
    );

    let num = Sisize::new(-36);
    assert_eq!(
        num.to_string(),
        "-100",
        "to_string failed, expected -100, got {}",
        num.to_string()
    );
}

#[test]
fn sisize_from() {
    let num = Sisize::from("21").unwrap();
    assert_eq!(
        num.value(),
        13,
        "from failed, expected 13, got {}",
        num.to_string()
    );

    let num = Sisize::from("0").unwrap();
    assert_eq!(
        num.value(),
        0,
        "from failed, expected 0, got {}",
        num.to_string()
    );

    let num = Sisize::from("-100").unwrap();
    assert_eq!(
        num.value(),
        -36,
        "from failed, expected -36, got {}",
        num.to_string()
    );
}

#[test]
#[should_panic]
fn sisize_from_panics() {
    let _num = Sisize::from("9").unwrap();
}

#[test]
fn sisize_native_arithmetic() {
    let mut num = Sisize::new(13);
    num = num + Sisize::new(2);
    assert_eq!(
        num.to_string(),
        "23",
        "21 + 2 failed, expected 23, got {}",
        num.to_string()
    );

    num = num - Sisize::new(2);
    assert_eq!(
        num.to_string(),
        "21",
        "23 - 2 failed, expected 21, got {}",
        num.to_string()
    );

    num = num * Sisize::new(2);
    assert_eq!(
        num.to_string(),
        "42",
        "21 * 2 failed, expected 42, got {}",
        num.to_string()
    );

    num = num / Sisize::new(2);
    assert_eq!(
        num.to_string(),
        "21",
        "42 / 2 failed, expected 21, got {}",
        num.to_string()
    );

    num = num % Sisize::new(3);
    assert_eq!(
        num.to_string(),
        "1",
        "21 % 3 failed, expected 1, got {}",
        num.to_string()
    );
}

#[test]
fn sisize_decimal_arithmetic() {
    let mut num = Sisize::new(13);
    num = num + 2;
    assert_eq!(
        num.to_string(),
        "23",
        "21 + 2 failed, expected 23, got {}",
        num.to_string()
    );

    num = num - 2;
    assert_eq!(
        num.to_string(),
        "21",
        "23 - 2 failed, expected 21, got {}",
        num.to_string()
    );

    num = num * 2;
    assert_eq!(
        num.to_string(),
        "42",
        "21 * 2 failed, expected 42, got {}",
        num.to_string()
    );

    num = num / 2;
    assert_eq!(
        num.to_string(),
        "21",
        "42 / 2 failed, expected 21, got {}",
        num.to_string()
    );

    num = num % 3;
    assert_eq!(
        num.to_string(),
        "1",
        "21 % 3 failed, expected 1, got {}",
        num.to_string()
    );
}

#[test]
fn sisize_cmp() {
    let a = Sisize::new(3);
    let b = Sisize::new(5);
    let mut result;

    result = a.cmp(&b);
    assert_eq!(
        result,
        Less,
        "{}.cmp(&{}) failed, expected Less, got {}",
        a.to_string(),
        b.to_string(),
        ordering_to_string(result)
    );

    result = b.cmp(&a);
    assert_eq!(
        result,
        Greater,
        "{}.cmp(&{}) failed, expected Greater, got {}",
        b.to_string(),
        a.to_string(),
        ordering_to_string(result)
    );

    let c = Sisize::new(3);
    result = a.cmp(&c);
    assert_eq!(
        result,
        Equal,
        "{}.cmp({}) failed, expected Equal, got {}",
        a.to_string(),
        c.to_string(),
        ordering_to_string(result)
    );
}
