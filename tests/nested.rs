use validatrix::{Accumulator, Error, Failure, Key, Valid, Validate, ValidateContext};

struct A {
    avalue: u8,
    b: B,
}

impl Validate for A {
    fn validate_inner(&self, accum: &mut Accumulator) -> usize {
        let orig = accum.len();
        if self.avalue % 2 != 0 {
            accum.add_failure("value is odd".into(), &["avalue".into()]);
        }
        accum.validate_member("b".into(), &self.b);
        accum.len() - orig
    }
}

struct B {
    bvalue: u8,
    cs: Vec<C>,
}

impl Validate for B {
    fn validate_inner(&self, accum: &mut Accumulator) -> usize {
        let orig = accum.len();
        if self.bvalue % 2 != 0 {
            accum.add_failure("value is odd".into(), &["bvalue".into()]);
        }
        accum.validate_iter("cs".into(), &self.cs);
        accum.len() - orig
    }
}

struct C {
    cvalue: u8,
}

impl Validate for C {
    fn validate_inner(&self, accum: &mut Accumulator) -> usize {
        if self.cvalue % 2 != 0 {
            accum.add_failure("value is odd".into(), &["cvalue".into()]);
            1
        } else {
            0
        }
    }
}

#[derive(Debug, PartialEq)]
struct MyStruct {
    is_valid: bool,
}

impl Validate for MyStruct {
    fn validate_inner(&self, accum: &mut Accumulator) -> usize {
        if self.is_valid {
            0
        } else {
            accum.add_failure("struct marked invalid".into(), &["is_valid".into()]);
            1
        }
    }
}

/// Readings that must each stay below a threshold given from outside.
#[derive(Debug, PartialEq)]
struct Readings(Vec<usize>);

impl ValidateContext for Readings {
    type Context = usize;

    fn validate_inner(&self, context: &usize, accum: &mut Accumulator) -> usize {
        let orig = accum.len();
        for (i, r) in self.0.iter().enumerate() {
            if *r >= *context {
                accum.add_failure(format!("{r} is not below {context}").into(), &[i.into()]);
            }
        }
        accum.len() - orig
    }
}

fn odd_everywhere() -> A {
    A {
        avalue: 1,
        b: B {
            bvalue: 1,
            cs: vec![C { cvalue: 1 }, C { cvalue: 1 }],
        },
    }
}

#[test]
fn valid() {
    let valid = A {
        avalue: 0,
        b: B {
            bvalue: 0,
            cs: vec![C { cvalue: 0 }],
        },
    };
    assert!(valid.validate().is_ok());
}

#[test]
fn invalid() {
    let valid = odd_everywhere();
    let err = valid.validate().unwrap_err();
    println!("{}", err.to_string());
}

#[test]
fn test_valid() {
    assert!(Valid::try_new(MyStruct { is_valid: true }).is_ok())
}

#[test]
fn test_invalid() {
    assert!(Valid::try_new(MyStruct { is_valid: false }).is_err())
}

#[test]
fn report_lists_every_failure_with_its_path() {
    let err = odd_everywhere().validate().unwrap_err();
    assert_eq!(err.len(), 4);
    assert_eq!(
        err.to_string(),
        "Validation failure(s):\n   $.avalue: value is odd\n   $.b.bvalue: value is odd\n   $.b.cs[0].cvalue: value is odd\n   $.b.cs[1].cvalue: value is odd"
    );
}

#[test]
fn sequence_items_fail_at_their_indices_in_order() {
    let a = A {
        avalue: 0,
        b: B {
            bvalue: 0,
            cs: vec![C { cvalue: 1 }, C { cvalue: 1 }],
        },
    };
    let err = a.validate().unwrap_err();
    let lines: Vec<String> = err.failures().iter().map(|f| f.to_string()).collect();
    assert_eq!(
        lines,
        vec!["$.b.cs[0].cvalue: value is odd", "$.b.cs[1].cvalue: value is odd"]
    );
}

#[test]
fn failures_are_counted_not_merged() {
    let cs: Vec<C> = (0..7).map(|i| C { cvalue: i }).collect();
    let a = A {
        avalue: 3,
        b: B { bvalue: 2, cs },
    };
    // 1, 3 and 5 among the items, and avalue
    assert_eq!(a.validate().unwrap_err().len(), 4);
}

#[test]
fn validating_twice_gives_the_same_report() {
    let a = odd_everywhere();
    let first = a.validate().unwrap_err();
    let second = a.validate().unwrap_err();
    assert_eq!(first.to_string(), second.to_string());
    assert_eq!(first.len(), second.len());
}

#[test]
fn path_is_empty_after_top_level_calls() {
    let mut accum = Accumulator::new();
    let n = accum.validate_member("a".into(), &odd_everywhere());
    assert_eq!(n, 4);
    assert_eq!(accum.depth(), 0);
    let m = accum.validate_iter("all".into(), &[MyStruct { is_valid: false }]);
    assert_eq!(m, 1);
    assert_eq!(accum.depth(), 0);
    assert_eq!(accum.len(), 5);
    let err = accum.into_result().unwrap_err();
    assert_eq!(
        err.failures()[4].to_string(),
        "$.all[0].is_valid: struct marked invalid"
    );
}

#[test]
fn try_new_keeps_the_value() {
    let v = Valid::try_new(MyStruct { is_valid: true }).unwrap();
    assert_eq!(*v.inner(), MyStruct { is_valid: true });
    assert_eq!(*v, MyStruct { is_valid: true });
    assert_eq!(v.into_inner(), MyStruct { is_valid: true });
}

#[test]
fn try_new_returns_the_report() {
    let err = Valid::try_new(MyStruct { is_valid: false }).unwrap_err();
    assert_eq!(
        err.to_string(),
        "Validation failure(s):\n   $.is_valid: struct marked invalid"
    );
}

#[test]
fn context_decides_validity() {
    let readings = Readings(vec![0, 1, 4]);
    assert!(readings.validate(&5).is_ok());
    let err = readings.validate(&3).unwrap_err();
    assert_eq!(err.len(), 1);
    assert_eq!(
        err.to_string(),
        "Validation failure(s):\n   $[2]: 4 is not below 3"
    );
}

#[test]
fn try_new_with_context_follows_the_context() {
    let ok = Valid::try_new_with_context(Readings(vec![0, 1, 4]), &5).unwrap();
    assert_eq!(ok.into_inner(), Readings(vec![0, 1, 4]));
    let err = Valid::try_new_with_context(Readings(vec![0, 1, 4]), &3).unwrap_err();
    assert_eq!(err.failures()[0].to_string(), "$[2]: 4 is not below 3");
}

#[test]
fn empty_accumulator_is_success() {
    let accum = Accumulator::new();
    assert!(accum.is_empty());
    assert_eq!(accum.len(), 0);
    assert!(accum.into_result().is_ok());
}

#[test]
fn add_failure_puts_extra_keys_below_the_path() {
    let mut accum = Accumulator::new();
    accum.add_failure("bad".into(), &["leaf".into(), 12usize.into(), "mid".into()]);
    assert!(!accum.is_empty());
    let err = accum.into_result().unwrap_err();
    assert_eq!(err.failures()[0].to_string(), "$.mid[12].leaf: bad");
}

#[test]
fn accumulate_err_merges_a_report_under_keys() {
    let inner = Valid::try_new(MyStruct { is_valid: false }).unwrap_err();
    let mut accum = Accumulator::new();
    assert!(!accum.accumulate_err(Ok(()), &["x".into()]));
    assert!(accum.is_empty());
    assert!(accum.accumulate_err(Err(inner), &["x".into(), 3usize.into()]));
    let err = accum.into_result().unwrap_err();
    assert_eq!(err.len(), 1);
    assert_eq!(err.failures()[0].to_string(), "$[3].x.is_valid: struct marked invalid");
}

#[test]
fn with_key_adds_one_level_outside() {
    let f = Failure::from("nope").with_key("inner".into()).with_key(Key::Index(0));
    assert_eq!(f.to_string(), "$[0].inner: nope");
    let g: Failure = String::from("plain").into();
    assert_eq!(g.to_string(), "$: plain");
    let h = Failure::new(String::from("owned")).with_key(Key::Field("k"));
    assert_eq!(h.to_string(), "$.k: owned");
}

#[test]
fn error_from_one_failure() {
    let e: Error = Failure::from("lonely").with_key(Key::Field("f")).into();
    assert_eq!(e.len(), 1);
    assert_eq!(e.to_string(), "Validation failure(s):\n   $.f: lonely");
}

#[test]
fn keys_convert_from_indices_and_names() {
    let i: Key = 7usize.into();
    let f: Key = "name".into();
    assert_eq!(i, Key::Index(7));
    assert_eq!(f, Key::Field("name"));
    assert!(Key::Index(1) < Key::Index(2));
}

#[test]
fn large_indices_render_in_decimal() {
    let f = Failure::from("m").with_key(Key::Index(1_000_907));
    assert_eq!(f.to_string(), "$[1000907]: m");
    let z = Failure::from("m").with_key(Key::Index(0)).with_key(Key::Index(10));
    assert_eq!(z.to_string(), "$[10][0]: m");
}
