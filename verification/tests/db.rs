//! Database round trips against the model host.

use suborbital::db;
use suborbital::db::query::QueryArg;
use suborbital::Ctx;
use suborbital::MemHost;

fn ctx() -> Ctx<MemHost> {
    Ctx::new(MemHost::new())
}

fn user_args() -> Vec<QueryArg> {
    vec![
        QueryArg::new("uuid", "u-1"),
        QueryArg::new("email", "a@b.c"),
    ]
}

fn key_args() -> Vec<QueryArg> {
    vec![QueryArg::new("uuid", "u-1")]
}

#[test]
fn insert_answers_the_last_insert_id() {
    let mut c = ctx();
    let r = db::insert(&mut c, "InsertUser", user_args()).unwrap();
    assert_eq!(r, b"{\"lastInsertID\":1}".to_vec());
}

#[test]
fn insert_then_select_finds_exactly_the_inserted_row() {
    let mut c = ctx();
    db::insert(&mut c, "InsertUser", user_args()).unwrap();
    let rows = db::select(&mut c, "SelectUserWithUUID", key_args()).unwrap();
    assert_eq!(rows, b"[{\"uuid\":\"u-1\",\"email\":\"a@b.c\"}]".to_vec());
}

#[test]
fn update_counts_the_matching_rows() {
    let mut c = ctx();
    db::insert(&mut c, "InsertUser", user_args()).unwrap();
    let r = db::update(&mut c, "UpdateUserWithUUID", key_args()).unwrap();
    assert_eq!(r, b"{\"rowsAffected\":1}".to_vec());
}

#[test]
fn delete_then_select_finds_nothing() {
    let mut c = ctx();
    db::insert(&mut c, "InsertUser", user_args()).unwrap();
    let d = db::delete(&mut c, "DeleteUserWithUUID", key_args()).unwrap();
    assert_eq!(d, b"{\"rowsAffected\":1}".to_vec());
    let rows = db::select(&mut c, "SelectUserWithUUID", key_args()).unwrap();
    assert_eq!(rows, b"[]".to_vec());
}

#[test]
fn select_with_a_different_key_finds_nothing() {
    let mut c = ctx();
    db::insert(&mut c, "InsertUser", user_args()).unwrap();
    let rows = db::select(
        &mut c,
        "SelectUserWithUUID",
        vec![QueryArg::new("uuid", "other")],
    )
    .unwrap();
    assert_eq!(rows, b"[]".to_vec());
}

#[test]
fn arguments_are_staged_in_order_and_consumed() {
    let mut c = ctx();
    db::insert(&mut c, "InsertUser", user_args()).unwrap();
    let (code, name, staged) = c.host.exec_log.last().unwrap().clone();
    assert_eq!(code, 0);
    assert_eq!(name, b"InsertUser".to_vec());
    assert_eq!(
        staged,
        vec![
            (b"uuid".to_vec(), b"u-1".to_vec()),
            (b"email".to_vec(), b"a@b.c".to_vec()),
        ]
    );
    assert!(c.host.staged.is_empty());
}

#[test]
fn operation_modes_use_their_fixed_wire_codes() {
    let mut c = ctx();
    let _ = db::insert(&mut c, "S", Vec::new());
    let _ = db::select(&mut c, "S", Vec::new());
    let _ = db::update(&mut c, "S", Vec::new());
    let _ = db::delete(&mut c, "S", Vec::new());
    let codes: Vec<i32> = c.host.exec_log.iter().map(|e| e.0).collect();
    assert_eq!(codes, vec![0, 1, 2, 3]);
}

#[test]
fn a_failed_operation_surfaces_the_transport_error() {
    let mut c = ctx();
    c.host.failures_left = 1;
    c.host.error_bytes = b"db gone".to_vec();
    let e = db::select(&mut c, "S", Vec::new()).err().unwrap();
    assert_eq!(e.message, "db gone");
}
