use linkstowr::ctx::{split_identifier, Ctx};
use linkstowr::error::Error;

fn ctx(id: &str) -> Ctx {
    Ctx::new(id.to_owned())
}

#[test]
fn user_id_is_kept() {
    assert_eq!(ctx("user:abc123").user_id(), "user:abc123");
    assert_eq!(ctx("").user_id(), "");
}

#[test]
fn identifier_decomposes_into_table_and_record() {
    assert_eq!(
        ctx("user:abc123").try_user_id_tuple().ok(),
        Some(("user", "abc123"))
    );
    assert_eq!(ctx("u:1").try_user_id_tuple().ok(), Some(("u", "1")));
    assert_eq!(ctx("tëst:ü ß").try_user_id_tuple().ok(), Some(("tëst", "ü ß")));
}

#[test]
fn identifier_without_delimiter_fails() {
    assert_eq!(ctx("user").try_user_id_tuple().err(), Some(Error::SplitUserIdFail));
    assert_eq!(ctx("").try_user_id_tuple().err(), Some(Error::SplitUserIdFail));
}

#[test]
fn identifier_with_two_delimiters_fails() {
    assert_eq!(ctx("a:b:c").try_user_id_tuple().err(), Some(Error::SplitUserIdFail));
    assert_eq!(ctx("user::abc").try_user_id_tuple().err(), Some(Error::SplitUserIdFail));
}

#[test]
fn identifier_with_an_empty_part_fails() {
    assert_eq!(ctx("user:").try_user_id_tuple().err(), Some(Error::SplitUserIdFail));
    assert_eq!(ctx(":abc").try_user_id_tuple().err(), Some(Error::SplitUserIdFail));
    assert_eq!(ctx(":").try_user_id_tuple().err(), Some(Error::SplitUserIdFail));
}

#[test]
fn split_identifier_agrees_with_the_context() {
    assert_eq!(split_identifier("token:xyz"), Some(("token", "xyz")));
    assert_eq!(split_identifier("token"), None);
    assert_eq!(split_identifier("token:x:y"), None);
    assert_eq!(split_identifier("token:"), None);
}

#[test]
fn clone_keeps_the_identifier() {
    let first = ctx("user:abc123");
    assert_eq!(first.clone().user_id(), "user:abc123");
}
