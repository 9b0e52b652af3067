use qwiz::account::routes::{id_username_list, GetAccountData};
use qwiz::account::{Account, AccountCache, AccountError, AccountType, NewAccountError};
use qwiz::crypto::{encode_password, verify_password};
use qwiz::media::MediaError;
use qwiz::{DbError, DbErrorKind};

fn account(id: i32, name: &str, password: &str) -> Account {
    Account {
        id,
        username: name.to_string(),
        password_hash: encode_password(&password.to_string()),
        profile_picture_uuid: None,
        account_type: AccountType::Student,
    }
}

#[test]
fn cache_registers_and_forgets() {
    let mut cache = AccountCache::new();
    cache.load_cache(vec![1, 2], vec!["ann".to_string(), "bob".to_string()]);
    assert!(cache.exists_id(&1));
    assert!(!cache.exists_id(&3));
    let carl = account(3, "carl", "Pw#12345");
    cache.register(&carl);
    assert!(cache.exists_id(&3));
    assert!(cache.exists_username(&"carl".to_string()));
    cache.forget(&carl);
    assert!(!cache.exists_id(&3));
    assert!(!cache.exists_username(&"carl".to_string()));
    assert!(cache.exists_username(&"bob".to_string()));
    assert_eq!(cache.ids, vec![1, 2]);
}

#[test]
fn uncache_removes_every_copy() {
    let mut cache = AccountCache::new();
    cache.load_cache(vec![4, 5, 4], vec!["x".to_string(), "y".to_string(), "x".to_string()]);
    cache.uncache_id(&4);
    cache.uncache_username(&"x".to_string());
    assert_eq!(cache.ids, vec![5]);
    assert_eq!(cache.usernames, vec!["y".to_string()]);
    cache.cache_id(&6);
    cache.cache_username(&"z".to_string());
    assert_eq!(cache.ids, vec![5, 6]);
    assert_eq!(cache.usernames, vec!["y".to_string(), "z".to_string()]);
}

#[test]
fn taken_username_is_refused() {
    let mut cache = AccountCache::new();
    cache.cache_username(&"dana".to_string());
    assert!(matches!(cache.check_new_username(&"dana".to_string()), Err(NewAccountError::UsernameTaken)));
    assert!(cache.check_new_username(&"dan".to_string()).is_ok());
}

#[test]
fn new_account_error_texts() {
    let db = NewAccountError::from(DbError { kind: DbErrorKind::Other, message: "boom".to_string() });
    assert_eq!(db.to_string(), "boom");
    assert_eq!(NewAccountError::InvalidUsername.to_string(), "invalid username");
    assert_eq!(NewAccountError::InvalidPassword.to_string(), "invalid password");
    assert_eq!(NewAccountError::UsernameTaken.to_string(), "username is taken");
    let io = NewAccountError::from(MediaError::IO("disk full".to_string()));
    assert_eq!(io.to_string(), "disk full");
    let bad = qwiz::media::NewMediaData { data: "@@@".to_string(), media_type: qwiz::media::MediaType::Image };
    match bad.plan_upload_named("id") {
        Err(e) => {
            let e = NewAccountError::from(e);
            assert!(matches!(e, NewAccountError::Base(AccountError::Base64(_))));
            assert_eq!(e.to_string(), "invalid base64");
        }
        Ok(_) => panic!("expected a base64 error"),
    }
}

#[test]
fn password_check_renews_the_hash() {
    let a = account(1, "eve", "Secret#9");
    let renewed = a.check_password(&"Secret#9".to_string()).unwrap();
    assert!(verify_password(&"Secret#9".to_string(), &renewed));
    assert!(a.check_password(&"secret#9".to_string()).is_none());
    let mut a = a;
    a.set_password_hash(renewed.clone());
    assert_eq!(a.password_hash, renewed);
    assert!(a.check_password(&"Secret#9".to_string()).is_some());
}

#[test]
fn account_data_hides_the_hash() {
    let a = account(8, "fay", "Secret#9");
    let d = GetAccountData::from_account(a, None);
    assert_eq!(d.id, 8);
    assert_eq!(d.username, "fay");
    assert_eq!(d.account_type, AccountType::Student);
    let list = id_username_list(vec![(1, "a".to_string()), (2, "b".to_string())]);
    assert_eq!(list.len(), 2);
    assert_eq!(list[1].id, 2);
    assert_eq!(list[1].username, "b");
}
