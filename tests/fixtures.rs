use std::cell::Cell;

use tested_fixture::{unwrap, Failure, FixtureCell, Fixer, Layer, Outcome, ReportSuccess};

struct HeavySetup(u32);

impl HeavySetup {
    fn build(v: u32) -> Self {
        HeavySetup(v)
    }
}

fn layered<T, E: std::fmt::Debug>(r: Result<T, E>) -> Layer<T> {
    Layer::from_result(r.map(|v| Fixer(v).fix()).map_err(|e| format!("{:?}", e)))
}

fn setup() -> Outcome<HeavySetup> {
    Ok(Fixer(HeavySetup::build(1)).fix())
}

fn try_setup() -> Outcome<HeavySetup> {
    let r: Result<HeavySetup, &'static str> = Ok(HeavySetup::build(2));
    Ok(layered(r))
}

fn fail_setup() -> Outcome<HeavySetup> {
    let r: Result<HeavySetup, &'static str> = Err("failed due to reticulated splines");
    Ok(layered(r))
}

#[test]
fn combine_setup() {
    let setup_1 = FixtureCell::new();
    let setup_2 = FixtureCell::new();
    let a = setup_1.read(setup, "tested_fixture::tests::setup").unwrap();
    let b = setup_2.read(try_setup, "tested_fixture::tests::try_setup").unwrap();
    let _ = HeavySetup::build(a.0 + b.0);
    assert_eq!(a.0 + b.0, 3);
}

#[test]
fn explicit_error_message() {
    let cell = FixtureCell::new();
    let r = cell.read(fail_setup, "tested_fixture::tests::fail_setup");
    assert_eq!(
        r.err().unwrap(),
        r#"tested_fixture::tests::fail_setup failed: "failed due to reticulated splines""#
    );
}

#[test]
fn plain_value_read_twice_runs_body_once() {
    let runs = Cell::new(0u32);
    let cell = FixtureCell::new();
    let body = || {
        runs.set(runs.get() + 1);
        Ok(Fixer(7u32).fix())
    };
    let first = *cell.read(body, "seven").unwrap();
    let second = *cell.read(body, "seven").unwrap();
    assert_eq!(first, 7);
    assert_eq!(second, 7);
    assert_eq!(runs.get(), 1);
}

#[test]
fn error_replayed_to_every_reader() {
    let runs = Cell::new(0u32);
    let cell: FixtureCell<u32> = FixtureCell::new();
    let body = || {
        runs.set(runs.get() + 1);
        let r: Result<u32, &str> = Err("disk full");
        Ok(layered(r))
    };
    let first = cell.read(body, "writer").err().unwrap();
    let second = cell.read(body, "writer").err().unwrap();
    assert!(first.contains("disk full"));
    assert_eq!(first, "writer failed: \"disk full\"");
    assert_eq!(first, second);
    assert_eq!(runs.get(), 1);
}

#[test]
fn panic_replaced_by_sentinel() {
    let cell: FixtureCell<HeavySetup> = FixtureCell::new();
    let m = cell
        .read(|| Err(Failure::Panicked), "tested_fixture::tests::panic_setup")
        .err()
        .unwrap();
    assert_eq!(m, r#"tested_fixture::tests::panic_setup failed: "panicked""#);
    assert!(!m.contains("normalized social network"));
}

#[test]
fn dependent_fixture_initializes_its_source() {
    let a_runs = Cell::new(0u32);
    let a: FixtureCell<u32> = FixtureCell::new();
    let b: FixtureCell<u32> = FixtureCell::new();
    let body_a = || {
        a_runs.set(a_runs.get() + 1);
        Ok(Fixer(3u32).fix())
    };
    let body_b = || {
        let x = *a.read(body_a, "a").unwrap();
        Ok(Fixer(x + 4).fix())
    };
    assert_eq!(*b.read(body_b, "b").unwrap(), 7);
    assert_eq!(*a.read(body_a, "a").unwrap(), 3);
    assert_eq!(a_runs.get(), 1);
}

#[test]
fn explicit_type_reads_like_inner_layer() {
    let r: Result<u32, &str> = Ok(5);
    let narrowed: Outcome<u32> = Ok(layered(r));
    let inner: Outcome<u32> = Ok(Fixer(5u32).fix());
    assert_eq!(unwrap(&narrowed, "c"), unwrap(&inner, "c"));
    assert_eq!(*unwrap(&narrowed, "c").unwrap(), 5);
}

#[test]
fn nested_failure_found_at_any_layer() {
    let deep: Outcome<u8> = Ok(Layer::Pass(Box::new(Layer::Pass(Box::new(Layer::Fail(
        "\"inner\"".to_string(),
    ))))));
    assert_eq!(unwrap(&deep, "f").err().unwrap(), "f failed: \"inner\"");
}

#[test]
fn depth_limit() {
    let mut l: Layer<u8> = Layer::Value(ReportSuccess(1));
    for _ in 0..4 {
        l = Layer::Pass(Box::new(l));
    }
    assert!(l.within_max_depth());
    let deeper = Layer::Pass(Box::new(l));
    assert!(!deeper.within_max_depth());
    assert!(Layer::<u8>::Fail(String::new()).within_max_depth());
}

#[test]
fn failure_representations() {
    assert_eq!(Failure::Panicked.repr(), "\"panicked\"");
    assert_eq!(Failure::Raised("\"boom\"".to_string()).repr(), "\"boom\"");
}

#[test]
fn report_success_borrows_value() {
    let s = ReportSuccess(42u64);
    assert_eq!(*s.static_borrow(), 42);
    match Fixer(9u8).fix() {
        Layer::Pass(inner) => match *inner {
            Layer::Value(v) => assert_eq!(v.0, 9),
            _ => panic!("leaf expected"),
        },
        _ => panic!("success layer expected"),
    }
}
