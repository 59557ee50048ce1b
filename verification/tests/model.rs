use user_accounts::error::AppError;
use user_accounts::model::{State, Status, User, UserId};

fn restore_user() -> User {
    User::restore(
        UserId(41),
        "test@test.ru".to_string(),
        State::Active,
        Status::User,
        "123".to_string(),
        1,
    )
    .unwrap()
}

fn restore_frozen_user() -> User {
    User::restore(
        UserId(41),
        "test@test.ru".to_string(),
        State::Frozen,
        Status::User,
        "123".to_string(),
        1,
    )
    .unwrap()
}

#[test]
fn test_new_user_ok() {
    let user = User::new(UserId(7), "test@test.ru".to_string(), "123".to_string());
    assert!(user.is_ok())
}

#[test]
fn test_restore_user_ok() {
    match User::restore(
        UserId(7),
        "test@test.ru".to_string(),
        State::Active,
        Status::User,
        "123".to_string(),
        1,
    ) {
        Ok(_) => (),
        Err(e) => {
            panic!("Expected error: {e:?}")
        }
    }
}

#[test]
fn test_restore_user_version_is_0() {
    match User::restore(
        UserId(7),
        "test@test.ru".to_string(),
        State::Active,
        Status::User,
        "123".to_string(),
        0,
    ) {
        Ok(_) => panic!("didn't get error"),
        Err(AppError::Internal(_)) => (),
        Err(e) => panic!("Expected error: {e:?}"),
    }
}

#[test]
fn test_new_email_ok() {
    match restore_user().new_email("new_email@mail.com".to_string()) {
        Ok(_) => (),
        Err(e) => {
            panic!("Expected error: {e:?}")
        }
    }
}

#[test]
fn test_new_email_same() {
    let mut user = restore_user();
    match user.new_email(user.email()) {
        Ok(_) => panic!("didn't get error"),
        Err(AppError::InvalidData(_)) => (),
        Err(e) => panic!("Expected error: {e:?}"),
    }
}

#[test]
fn test_new_email_user_not_active() {
    let mut user = restore_frozen_user();
    match user.new_email("new_email@mail.com".to_string()) {
        Ok(_) => panic!("didn't get error"),
        Err(AppError::NotActive) => (),
        Err(e) => panic!("Expected error: {e:?}"),
    }
}

#[test]
fn test_new_password_hash_ok() {
    match restore_user().new_password_hash("123".to_string()) {
        Ok(_) => (),
        Err(e) => {
            panic!("Expected error: {e:?}")
        }
    }
}

#[test]
fn test_new_password_hash_user_not_active() {
    let mut user = restore_frozen_user();
    match user.new_password_hash("123".to_string()) {
        Ok(_) => panic!("didn't get error"),
        Err(AppError::NotActive) => (),
        Err(e) => panic!("Expected error: {e:?}"),
    }
}

#[test]
fn test_new_state_ok() {
    match restore_user().new_state(State::Frozen) {
        Ok(_) => (),
        Err(e) => {
            panic!("Expected error: {e:?}")
        }
    }
}

#[test]
fn test_new_state_same() {
    let mut user = restore_user();
    match user.new_state(user.state()) {
        Ok(_) => panic!("didn't get error"),
        Err(AppError::InvalidData(_)) => (),
        Err(e) => panic!("Expected error: {e:?}"),
    }
}

#[test]
fn test_new_state_user_not_active() {
    let mut user = restore_frozen_user();
    match user.new_state(State::Active) {
        Ok(_) => (),
        Err(e) => panic!("Expected error: {e:?}"),
    }
}

#[test]
fn test_new_status_ok() {
    match restore_user().new_status(Status::Admin) {
        Ok(_) => (),
        Err(e) => {
            panic!("Expected error: {e:?}")
        }
    }
}

#[test]
fn test_new_status_same() {
    let mut user = restore_user();
    match user.new_status(user.status()) {
        Ok(_) => panic!("didn't get error"),
        Err(AppError::InvalidData(_)) => (),
        Err(e) => panic!("Expected error: {e:?}"),
    }
}

#[test]
fn test_new_status_user_not_active() {
    let mut user = restore_frozen_user();
    match user.new_status(Status::Admin) {
        Ok(_) => panic!("didn't get error"),
        Err(AppError::NotActive) => (),
        Err(e) => panic!("Expected error: {e:?}"),
    }
}

#[test]
fn test_email_change_keeps_other_fields() {
    let mut user = restore_user();
    user.new_email("other@mail.com".to_string()).unwrap();
    assert_eq!(user.email(), "other@mail.com");
    assert_eq!(user.id(), UserId(41));
    assert_eq!(user.state(), State::Active);
    assert_eq!(user.status(), Status::User);
    assert_eq!(user.password_hash(), "123");
    assert_eq!(user.current_version(), 1);
}

#[test]
fn test_password_hash_same_value_accepted() {
    let mut user = restore_user();
    assert!(user.new_password_hash(user.password_hash()).is_ok());
    assert_eq!(user.password_hash(), "123");
}

#[test]
fn test_new_user_fields() {
    let user = User::new(UserId(9), "a@b.c".to_string(), "h".to_string()).unwrap();
    assert_eq!(user.current_version(), 0);
    assert_eq!(user.state(), State::Active);
    assert_eq!(user.status(), Status::User);
    assert_eq!(user.modify_version(), 1);
}

#[test]
fn test_can_edit_others() {
    let admin = User::restore(
        UserId(1),
        "a@b.c".to_string(),
        State::Active,
        Status::Admin,
        "h".to_string(),
        1,
    )
    .unwrap();
    assert!(admin.can_edit_others());
    assert!(!restore_user().can_edit_others());
    let frozen_admin = User::restore(
        UserId(1),
        "a@b.c".to_string(),
        State::Frozen,
        Status::Admin,
        "h".to_string(),
        1,
    )
    .unwrap();
    assert!(!frozen_admin.can_edit_others());
}

#[test]
fn test_state_parse_and_encode() {
    assert_eq!(State::parse(&"active".to_string()).unwrap(), State::Active);
    assert_eq!(State::parse(&"frozen".to_string()).unwrap(), State::Frozen);
    assert_eq!(State::parse(&"deleted".to_string()).unwrap(), State::Deleted);
    assert_eq!(State::Active.to_string(), "active");
    assert_eq!(State::Frozen.to_string(), "frozen");
    assert_eq!(State::Deleted.to_string(), "deleted");
    match State::parse(&"sleeping".to_string()) {
        Err(AppError::InvalidData(m)) => assert_eq!(m, "unknown state token: sleeping"),
        r => panic!("expected InvalidData, got {r:?}"),
    }
}

#[test]
fn test_status_parse_and_encode() {
    assert_eq!(Status::parse(&"user".to_string()).unwrap(), Status::User);
    assert_eq!(Status::parse(&"admin".to_string()).unwrap(), Status::Admin);
    assert_eq!(Status::User.to_string(), "user");
    assert_eq!(Status::Admin.to_string(), "admin");
    match Status::parse(&"root".to_string()) {
        Err(AppError::InvalidData(m)) => assert_eq!(m, "unknown status token: root"),
        r => panic!("expected InvalidData, got {r:?}"),
    }
}

#[test]
fn test_is_active_is_admin() {
    assert!(State::Active.is_active());
    assert!(!State::Frozen.is_active());
    assert!(!State::Deleted.is_active());
    assert!(Status::Admin.is_admin());
    assert!(!Status::User.is_admin());
}

#[test]
fn test_error_kind_names() {
    assert_eq!(AppError::NotFound("x".to_string()).kind_name(), "not found");
    assert_eq!(AppError::InvalidData("x".to_string()).kind_name(), "invalid data");
    assert_eq!(AppError::NotActive.kind_name(), "not active");
    assert_eq!(AppError::NotAllowed.kind_name(), "not allowed");
    assert_eq!(AppError::Internal("x".to_string()).kind_name(), "internal");
}

#[test]
fn test_mutator_error_messages() {
    let mut user = restore_user();
    match user.new_email(user.email()) {
        Err(AppError::InvalidData(m)) => assert_eq!(m, "the new email equals the old one"),
        r => panic!("expected InvalidData, got {r:?}"),
    }
    match user.new_state(user.state()) {
        Err(AppError::InvalidData(m)) => assert_eq!(m, "the new state equals the old one"),
        r => panic!("expected InvalidData, got {r:?}"),
    }
    match user.new_status(user.status()) {
        Err(AppError::InvalidData(m)) => assert_eq!(m, "the new status equals the old one"),
        r => panic!("expected InvalidData, got {r:?}"),
    }
    match User::restore(
        UserId(7),
        "test@test.ru".to_string(),
        State::Active,
        Status::User,
        "123".to_string(),
        0,
    ) {
        Err(AppError::Internal(m)) => assert_eq!(m, "user version must not be 0"),
        r => panic!("expected Internal, got {r:?}"),
    }
}
