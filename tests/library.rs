use crab::enums::{do_it, push_decimal, Action};
use crab::generics::{cmp, Point};
use crab::nest1::nest2::{dummy_func, DummyStruct};
use crab::reader::{failure_kind, read_result, FailureKind, IoFailure, ReadResult};
use crab::strings::change;
use crab::structs::{email, User};

#[test]
fn dummy_struct_new_holds_one_and_new() {
    dummy_func();
    let d = DummyStruct::new();
    assert_eq!(d.pubint, 1);
    assert_eq!(format!("{:?}", d), "DummyStruct { pubint: 1, privstr: \"new\" }");
}

#[test]
fn change_appends_world() {
    let mut s = String::from("hello");
    change(&mut s);
    assert_eq!(s, "hello, world");
    let mut e = String::new();
    change(&mut e);
    assert_eq!(e, ", world");
}

#[test]
fn email_uses_name_and_domain() {
    let u = User { name: String::from("Doe"), age: 13 };
    assert_eq!(email(&u), "Doe@gmail.com");
}

#[test]
fn email_method_adds_tag() {
    let u = User { name: String::from("John"), age: 13 };
    assert_eq!(u.email_method(), "John+method@gmail.com");
}

#[test]
fn new_user_keeps_fields() {
    let u = User::new_user(String::from("Wick"), 39);
    assert_eq!(u.name, "Wick");
    assert_eq!(u.age, 39);
}

#[test]
fn point_x_returns_first_coordinate() {
    let p = Point { x: 5, y: 10 };
    assert_eq!(*p.x(), 5);
}

#[test]
fn cmp_is_strictly_greater() {
    assert!(cmp(15, 9));
    assert!(!cmp(9, 15));
    assert!(!cmp(7, 7));
    assert!(cmp(String::from("b"), String::from("a")));
}

#[test]
fn do_it_renders_a_move() {
    let a = Action::Move { x: 12, y: 33 };
    assert_eq!(do_it(&a), "||Move { x: 12, y: 33 }||");
}

#[test]
fn do_it_move_matches_debug_rendering() {
    let cases = [(0, 0), (-1, 10), (i32::MIN, i32::MAX), (-905, 4000)];
    for (x, y) in cases {
        let a = Action::Move { x, y };
        assert_eq!(do_it(&a), format!("||{:?}||", a));
    }
}

#[test]
fn do_it_quit_and_describe() {
    assert_eq!(do_it(&Action::Quit), "QUIT");
    assert_eq!(do_it(&Action::Describe(String::from("anything"))), "DONE");
}

#[test]
fn push_decimal_edges() {
    let mut s = String::from("v=");
    push_decimal(&mut s, 0);
    assert_eq!(s, "v=0");
    let mut t = String::new();
    push_decimal(&mut t, i32::MIN);
    assert_eq!(t, "-2147483648");
    let mut u = String::new();
    push_decimal(&mut u, i32::MAX);
    assert_eq!(u, "2147483647");
    let mut w = String::new();
    push_decimal(&mut w, -70);
    assert_eq!(w, "-70");
}

#[test]
fn greeting_file_read_gives_its_text() {
    let r = read_result(Ok(String::from("hello")));
    assert_eq!(r, ReadResult::Success(String::from("hello")));
}

#[test]
fn missing_file_gives_not_found() {
    let e = IoFailure { not_found: true, cause: String::from("No such file or directory") };
    let r = read_result(Err(e));
    assert_eq!(
        r,
        ReadResult::Failure(FailureKind::NotFound, String::from("No such file or directory"))
    );
}

#[test]
fn other_failure_gives_other_io() {
    let e = IoFailure { not_found: false, cause: String::from("Permission denied") };
    let r = read_result(Err(e));
    assert_eq!(r, ReadResult::Failure(FailureKind::OtherIO, String::from("Permission denied")));
}

#[test]
fn failure_kind_classifies() {
    assert_eq!(failure_kind(true), FailureKind::NotFound);
    assert_eq!(failure_kind(false), FailureKind::OtherIO);
}

#[test]
fn empty_file_reads_as_empty_text() {
    let r = read_result(Ok(String::new()));
    assert_eq!(r, ReadResult::Success(String::new()));
}
