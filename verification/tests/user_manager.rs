use job_tracker::models::auth::UserCtx;
use job_tracker::models::users::{User, UserManager, UserPatch};
use job_tracker::models::Error;

fn user(supabase_id: &str, email: &str) -> User {
    User {
        supabase_id: String::from(supabase_id),
        email: String::from(email),
        first_name: String::from("a_first_name"),
        last_name: String::from("a_last_name"),
    }
}

#[test]
fn test_create_user() {
    let utx = UserCtx {
        user_id: String::from("test_123"),
    };
    let data = UserPatch {
        first_name: Some(String::from("test_first_name")),
        last_name: Some(String::from("test_last_name")),
        email: Some(String::from("test_create_email")),
    };

    let user = UserManager::create(utx, data, None).unwrap();

    assert_eq!("test_first_name", user.first_name);
    assert_eq!("test_last_name", user.last_name);
    assert_eq!("test_create_email", user.email);
}

#[test]
fn test_update_user() {
    let utx = UserCtx {
        user_id: String::from("test_token"),
    };
    let data = UserPatch {
        first_name: Some(String::from("test_first_name_udated")),
        last_name: Some(String::from("test_last_name_updated")),
        email: Some(String::from("test_email_updated")),
    };
    let current = user("test_token", "old_email");

    let user = UserManager::update(utx, current, data);
    assert_eq!("test_first_name_udated", user.first_name);
    assert_eq!("test_last_name_updated", user.last_name);
    assert_eq!("test_email_updated", user.email);
}

#[test]
fn test_delete_user() {
    let utx = UserCtx {
        user_id: String::from("test_delete"),
    };
    let current = user("test_delete", "an_email");

    UserManager::delete(utx, current);
}

#[test]
fn create_user_empty_patch_is_missing_data() {
    let utx = UserCtx {
        user_id: String::from("test_123"),
    };
    let data = UserPatch {
        first_name: None,
        last_name: None,
        email: None,
    };
    let r = UserManager::create(utx, data, None);
    assert!(matches!(r, Err(Error::MissingData)));
}

#[test]
fn create_user_taken_email_is_refused() {
    let utx = UserCtx {
        user_id: String::from("newcomer"),
    };
    let data = UserPatch {
        first_name: Some(String::from("n")),
        last_name: None,
        email: Some(String::from("shared_email")),
    };
    let holder = user("incumbent", "shared_email");
    let r = UserManager::create(utx, data, Some(holder));
    match r {
        Err(Error::EmailTaken(email)) => assert_eq!(email, "shared_email"),
        other => panic!("expected an email clash, got {:?}", other),
    }
}

#[test]
fn create_user_absent_fields_come_out_empty() {
    let utx = UserCtx {
        user_id: String::from("sparse"),
    };
    let data = UserPatch {
        first_name: Some(String::from("only_name")),
        last_name: None,
        email: None,
    };
    let created = UserManager::create(utx, data, None).unwrap();
    assert_eq!(created.supabase_id, "sparse");
    assert_eq!(created.first_name, "only_name");
    assert_eq!(created.last_name, "");
    assert_eq!(created.email, "");
}

#[test]
fn update_user_absent_fields_stay() {
    let utx = UserCtx {
        user_id: String::from("steady"),
    };
    let current = user("steady", "kept_email");
    let data = UserPatch {
        first_name: None,
        last_name: Some(String::from("new_last_name")),
        email: None,
    };
    let updated = UserManager::update(utx, current, data);
    assert_eq!(updated.supabase_id, "steady");
    assert_eq!(updated.email, "kept_email");
    assert_eq!(updated.first_name, "a_first_name");
    assert_eq!(updated.last_name, "new_last_name");
}

#[test]
fn update_single_fields_leave_the_rest() {
    let utx = UserCtx {
        user_id: String::from("steady"),
    };

    let updated = UserManager::update_email(
        utx,
        user("steady", "old_email"),
        String::from("new_email"),
    );
    assert_eq!(updated.email, "new_email");
    assert_eq!(updated.first_name, "a_first_name");
    assert_eq!(updated.last_name, "a_last_name");

    let utx = UserCtx {
        user_id: String::from("steady"),
    };
    let updated =
        UserManager::update_first_name(utx, user("steady", "an_email"), String::from("new_first"));
    assert_eq!(updated.first_name, "new_first");
    assert_eq!(updated.email, "an_email");

    let utx = UserCtx {
        user_id: String::from("steady"),
    };
    let updated =
        UserManager::update_last_name(utx, user("steady", "an_email"), String::from("new_last"));
    assert_eq!(updated.last_name, "new_last");
    assert_eq!(updated.first_name, "a_first_name");
}

#[test]
fn delete_user_returns_the_row() {
    let utx = UserCtx {
        user_id: String::from("leaver"),
    };
    let current = user("leaver", "an_email");
    let returned = UserManager::delete(utx, current);
    assert_eq!(returned.supabase_id, "leaver");
    assert_eq!(returned.email, "an_email");
}

#[test]
fn user_patch_is_empty_only_without_fields() {
    let empty = UserPatch {
        email: None,
        first_name: None,
        last_name: None,
    };
    assert!(empty.is_empty());

    let with_email = UserPatch {
        email: Some(String::from("an_email")),
        first_name: None,
        last_name: None,
    };
    assert!(!with_email.is_empty());
}
