use user_accounts::change_user::ChangeUserUseCase;
use user_accounts::dao::UserDAO;
use user_accounts::dto::ChangeUserCommand;
use user_accounts::error::AppError;
use user_accounts::inmemory::InMemoryUserRepository;
use user_accounts::model::UserId;
use user_accounts::repository::UserRepository;
use user_accounts::validator::{NullEmailValidator, NullPasswordHasher, NullPasswordValidator};

const ADMIN: u128 = 1;
const TARGET: u128 = 2;

fn record(id: u128, email: &str, state: &str, status: &str) -> UserDAO {
    UserDAO {
        id: UserId(id),
        email: email.to_string(),
        state: state.to_string(),
        status: status.to_string(),
        password_hash: "hash".to_string(),
        version: 1,
    }
}

fn use_case() -> ChangeUserUseCase<
    InMemoryUserRepository,
    NullEmailValidator,
    NullPasswordValidator,
    NullPasswordHasher,
> {
    let mut repo = InMemoryUserRepository::new();
    repo.save(&record(ADMIN, "a@x.com", "active", "admin")).unwrap();
    repo.save(&record(TARGET, "b@x.com", "active", "user")).unwrap();
    ChangeUserUseCase::new(repo, NullEmailValidator, NullPasswordValidator, NullPasswordHasher)
}

fn command(initiator: u128, target: u128) -> ChangeUserCommand {
    ChangeUserCommand {
        initiator_id: UserId(initiator),
        user_id: UserId(target),
        email: None,
        state: None,
        status: None,
        password: None,
    }
}

#[test]
fn test_change_email() {
    let mut uc = use_case();
    let mut cmd = command(ADMIN, TARGET);
    cmd.email = Some("new@x.com".to_string());
    uc.execute(cmd).unwrap();
    let d = uc.repo().by_id(&UserId(TARGET)).unwrap();
    assert_eq!(d.email, "new@x.com");
    assert_eq!(d.state, "active");
    assert_eq!(d.status, "user");
    assert_eq!(d.password_hash, "hash");
    assert_eq!(d.version, 1);
}

#[test]
fn test_freeze_then_status_change_fails() {
    let mut uc = use_case();
    let mut cmd = command(ADMIN, TARGET);
    cmd.state = Some("frozen".to_string());
    cmd.status = Some("admin".to_string());
    match uc.execute(cmd) {
        Err(AppError::NotActive) => (),
        r => panic!("expected NotActive, got {r:?}"),
    }
    // the aborted command persisted nothing
    let d = uc.repo().by_id(&UserId(TARGET)).unwrap();
    assert_eq!(d.state, "active");
    assert_eq!(d.status, "user");
}

#[test]
fn test_not_allowed_for_plain_user() {
    let mut uc = use_case();
    let mut cmd = command(TARGET, ADMIN);
    cmd.email = Some("new@x.com".to_string());
    match uc.execute(cmd) {
        Err(AppError::NotAllowed) => (),
        r => panic!("expected NotAllowed, got {r:?}"),
    }
}

#[test]
fn test_not_allowed_even_for_self_edit() {
    let mut uc = use_case();
    let mut cmd = command(TARGET, TARGET);
    cmd.email = Some("new@x.com".to_string());
    match uc.execute(cmd) {
        Err(AppError::NotAllowed) => (),
        r => panic!("expected NotAllowed, got {r:?}"),
    }
}

#[test]
fn test_not_allowed_for_frozen_admin() {
    let mut repo = InMemoryUserRepository::new();
    repo.save(&record(ADMIN, "a@x.com", "frozen", "admin")).unwrap();
    repo.save(&record(TARGET, "b@x.com", "active", "user")).unwrap();
    let mut uc =
        ChangeUserUseCase::new(repo, NullEmailValidator, NullPasswordValidator, NullPasswordHasher);
    let mut cmd = command(ADMIN, TARGET);
    cmd.email = Some("new@x.com".to_string());
    match uc.execute(cmd) {
        Err(AppError::NotAllowed) => (),
        r => panic!("expected NotAllowed, got {r:?}"),
    }
}

#[test]
fn test_missing_initiator_not_found() {
    let mut uc = use_case();
    let cmd = command(99, TARGET);
    match uc.execute(cmd) {
        Err(AppError::NotFound(_)) => (),
        r => panic!("expected NotFound, got {r:?}"),
    }
}

#[test]
fn test_missing_target_not_found() {
    let mut uc = use_case();
    let mut cmd = command(ADMIN, 99);
    cmd.email = Some("new@x.com".to_string());
    match uc.execute(cmd) {
        Err(AppError::NotFound(_)) => (),
        r => panic!("expected NotFound, got {r:?}"),
    }
    // nothing was stored under the unknown identifier
    assert!(!uc.repo().id_exists(&UserId(99)).unwrap());
}

#[test]
fn test_change_password() {
    let mut uc = use_case();
    let mut cmd = command(ADMIN, TARGET);
    cmd.password = Some("s3cret".to_string());
    uc.execute(cmd).unwrap();
    let d = uc.repo().by_id(&UserId(TARGET)).unwrap();
    // the null hasher stores the password itself
    assert_eq!(d.password_hash, "s3cret");
    assert_eq!(d.email, "b@x.com");
}

#[test]
fn test_change_state_alone() {
    let mut uc = use_case();
    let mut cmd = command(ADMIN, TARGET);
    cmd.state = Some("frozen".to_string());
    uc.execute(cmd).unwrap();
    let d = uc.repo().by_id(&UserId(TARGET)).unwrap();
    assert_eq!(d.state, "frozen");
}

#[test]
fn test_unknown_state_token_rejected() {
    let mut uc = use_case();
    let mut cmd = command(ADMIN, TARGET);
    cmd.state = Some("hibernating".to_string());
    match uc.execute(cmd) {
        Err(AppError::InvalidData(_)) => (),
        r => panic!("expected InvalidData, got {r:?}"),
    }
}

#[test]
fn test_same_email_rejected() {
    let mut uc = use_case();
    let mut cmd = command(ADMIN, TARGET);
    cmd.email = Some("b@x.com".to_string());
    match uc.execute(cmd) {
        Err(AppError::InvalidData(_)) => (),
        r => panic!("expected InvalidData, got {r:?}"),
    }
}

#[test]
fn test_admin_edits_self() {
    let mut uc = use_case();
    let mut cmd = command(ADMIN, ADMIN);
    cmd.email = Some("admin2@x.com".to_string());
    uc.execute(cmd).unwrap();
    let d = uc.repo().by_id(&UserId(ADMIN)).unwrap();
    assert_eq!(d.email, "admin2@x.com");
    assert_eq!(d.status, "admin");
}

#[test]
fn test_empty_command_saves_unchanged() {
    let mut uc = use_case();
    uc.execute(command(ADMIN, TARGET)).unwrap();
    let d = uc.repo().by_id(&UserId(TARGET)).unwrap();
    assert_eq!(d.email, "b@x.com");
    assert_eq!(d.state, "active");
    assert_eq!(d.status, "user");
    assert_eq!(d.version, 1);
}

#[test]
fn test_target_zero_version_internal() {
    let mut repo = InMemoryUserRepository::new();
    repo.save(&record(ADMIN, "a@x.com", "active", "admin")).unwrap();
    let mut bad = record(TARGET, "b@x.com", "active", "user");
    bad.version = 0;
    repo.save(&bad).unwrap();
    let mut uc =
        ChangeUserUseCase::new(repo, NullEmailValidator, NullPasswordValidator, NullPasswordHasher);
    let mut cmd = command(ADMIN, TARGET);
    cmd.email = Some("new@x.com".to_string());
    match uc.execute(cmd) {
        Err(AppError::Internal(_)) => (),
        r => panic!("expected Internal, got {r:?}"),
    }
}
