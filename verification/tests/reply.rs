use onlyrust::reply::{
    create_account_reply, register_account_reply, search_user_reply, ReplyBody, StoreError,
    STATUS_CREATED, STATUS_INTERNAL_SERVER_ERROR, STATUS_NOT_FOUND, STATUS_OK,
};

fn text_of(body: &ReplyBody) -> Option<&str> {
    match body {
        ReplyBody::Text(t) => Some(t.as_str()),
        _ => None,
    }
}

#[test]
fn account_created() {
    let r = create_account_reply(&Ok(()));
    assert_eq!(r.status, 200);
    assert_eq!(r.status, STATUS_OK);
    assert_eq!(text_of(&r.body), Some("Account created successfully"));
}

#[test]
fn account_creation_failed() {
    let r = create_account_reply(&Err(StoreError));
    assert_eq!(r.status, 500);
    assert!(matches!(r.body, ReplyBody::Empty));
}

#[test]
fn user_found() {
    let r = search_user_reply(&Ok(Some(3)));
    assert_eq!(r.status, STATUS_OK);
    assert_eq!(text_of(&r.body), Some("User Found!"));
}

#[test]
fn user_not_found() {
    let r = search_user_reply(&Ok(None));
    assert_eq!(r.status, 404);
    assert_eq!(r.status, STATUS_NOT_FOUND);
    assert_eq!(text_of(&r.body), Some("User not Found"));
}

#[test]
fn user_search_failed() {
    let r = search_user_reply(&Err(StoreError));
    assert_eq!(r.status, STATUS_INTERNAL_SERVER_ERROR);
    assert_eq!(text_of(&r.body), Some("Internal Server Error"));
}

#[test]
fn registration_answers_with_id() {
    let r = register_account_reply(&Ok(17));
    assert_eq!(r.status, 201);
    assert_eq!(r.status, STATUS_CREATED);
    assert!(matches!(r.body, ReplyBody::JsonId(17)));
}

#[test]
fn registration_failed() {
    let r = register_account_reply(&Err(StoreError));
    assert_eq!(r.status, 500);
    assert!(matches!(r.body, ReplyBody::Empty));
}
