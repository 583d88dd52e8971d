use sunk::query::{Arg, Query};

#[test]
fn empty_query_is_empty() {
    let q = Query::none();
    assert_eq!("", &q.to_string())
}

#[test]
fn single_query() {
    let q = Query::with("id", 64);
    assert_eq!("id=64", &q.to_string())
}

#[test]
fn two_queries() {
    let q = Query::new().arg("id", 64).arg("album", 12).build();
    assert_eq!("id=64&album=12", &q.to_string())
}

#[test]
fn optional_query() {
    let mut q = Query::with("album", Arg(None));
    assert_eq!("", &q.to_string());
    q.arg("id", 64);
    assert_eq!("id=64", &q.to_string());
}

#[test]
fn query_vec() {
    let ids = &[1, 2, 3, 4];
    let mut q = Query::new();
    q.arg_list("id", ids);
    assert_eq!("id=1&id=2&id=3&id=4", &q.to_string())
}

#[test]
fn absent_pairs_leave_no_separator() {
    let mut q = Query::new();
    q.arg("a", 1);
    q.arg("gone", Arg(None));
    q.arg("b", 2);
    assert_eq!("a=1&b=2", &q.to_string());

    let mut tail_absent = Query::new();
    tail_absent.arg("a", 1);
    tail_absent.arg("gone", Arg(None));
    assert_eq!("a=1", &tail_absent.to_string());

    let mut all_absent = Query::new();
    all_absent.arg("x", Arg(None));
    all_absent.arg("y", Arg(None));
    assert_eq!("", &all_absent.to_string());
}

#[test]
fn empty_string_value_keeps_its_key() {
    let q = Query::with("k", "");
    assert_eq!("k=", &q.to_string());
}

#[test]
fn insertion_order_is_kept() {
    let q = Query::new().arg("b", 2).arg("a", 1).build();
    assert_eq!("b=2&a=1", &q.to_string());
}

#[test]
fn extend_appends_in_order() {
    let mut q = Query::with("a", 1);
    let tail = Query::with("b", 2);
    q.extend(tail);
    assert_eq!("a=1&b=2", &q.to_string());
}

#[test]
fn typed_arguments_render_by_type() {
    let q = Query::new()
        .arg("n", -5i32)
        .arg("b", true)
        .arg("s", "text")
        .arg("o", Some(7u64))
        .arg("m", Option::<u64>::None)
        .build();
    assert_eq!("n=-5&b=true&s=text&o=7", &q.to_string());
}

#[test]
fn build_drains_the_builder() {
    let mut builder = Query::new();
    builder.arg("id", 1);
    let first = builder.build();
    assert_eq!("id=1", &first.to_string());
    let second = builder.build();
    assert_eq!("", &second.to_string());
}
