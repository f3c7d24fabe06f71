use stockbit_auth::account::{Account, INITIAL_BALANCE};
use stockbit_auth::config::init_config;
use stockbit_auth::error::{CustomError, EnvVar};
use stockbit_auth::model::User;
use stockbit_auth::repository::{
    map_account_insert_error, map_lookup_error, map_user_insert_error, AuthRepository, DbConnection,
    MemoryStore, PoolStats, StoreError,
};

fn user(name: &str) -> User {
    User {
        user_id: None,
        username: name.to_string(),
        password: "$2b$04$hashed".to_string(),
        created_at: 1_700_000_000,
    }
}

#[test]
fn find_by_username_twice_gives_identical_data() {
    let mut store = MemoryStore::new();
    assert_eq!(store.insert(&user("alice")), Ok(1));
    let a = store.find_by_username("alice").unwrap();
    let b = store.find_by_username("alice").unwrap();
    assert_eq!(a.user_id, Some(1));
    assert_eq!(a.user_id, b.user_id);
    assert_eq!(a.username, b.username);
    assert_eq!(a.password, b.password);
    assert_eq!(a.created_at, b.created_at);
    assert!(store.find_by_username("bob").is_err());
    assert!(store.find_by_username("bob").is_err());
}

#[test]
fn unknown_user_is_row_not_found() {
    let store = MemoryStore::new();
    assert_eq!(store.find_by_username("bob").err(), Some(StoreError::RowNotFound));
}

#[test]
fn duplicate_insert_is_a_unique_violation() {
    let mut store = MemoryStore::new();
    assert_eq!(store.insert(&user("alice")), Ok(1));
    assert_eq!(store.insert(&user("bob")), Ok(2));
    assert_eq!(store.insert(&user("alice")), Err(StoreError::UniqueViolation));
    assert_eq!(store.find_by_username("bob").unwrap().user_id, Some(2));
}

#[test]
fn second_account_for_a_user_is_refused() {
    let mut store = MemoryStore::new();
    assert_eq!(store.open_account(&Account::new(7)), Ok(1));
    assert_eq!(store.open_account(&Account::new(7)), Err(StoreError::UniqueViolation));
    assert_eq!(store.insert_account(&Account::new(8)), Ok(2));
}

#[test]
fn repository_maps_store_failures() {
    let mut repo = AuthRepository::new(MemoryStore::new());
    assert_eq!(repo.query_user("alice").err(), Some(CustomError::UserNotFound));
    assert_eq!(repo.insert_user(&user("alice")), Ok(1));
    assert_eq!(repo.query_user("alice").unwrap().username, "alice");
    assert_eq!(repo.insert_user(&user("alice")), Err(CustomError::UsernameExists));
}

#[test]
fn store_error_mapping() {
    assert_eq!(map_lookup_error(StoreError::RowNotFound), CustomError::UserNotFound);
    assert_eq!(map_lookup_error(StoreError::UniqueViolation), CustomError::DBError);
    assert_eq!(map_lookup_error(StoreError::Other), CustomError::DBError);
    assert_eq!(map_user_insert_error(StoreError::UniqueViolation), CustomError::UsernameExists);
    assert_eq!(map_user_insert_error(StoreError::Other), CustomError::DBError);
    assert_eq!(map_account_insert_error(StoreError::UniqueViolation), CustomError::AccountExists);
    assert_eq!(map_account_insert_error(StoreError::RowNotFound), CustomError::DBError);
}

#[test]
fn new_account_opening_balance() {
    let a = Account::new(42);
    assert_eq!(a.account_id, None);
    assert_eq!(a.user_id, 42);
    assert_eq!(a.balance, INITIAL_BALANCE);
    assert_eq!(a.balance, 1_000_000);
    assert_eq!(a.invested_value, 0);
}

#[test]
fn config_requires_every_value() {
    let ok = init_config(Some("k".to_string()), Some("p".to_string()), Some("db".to_string()));
    let cfg = ok.unwrap();
    assert_eq!(cfg.jwt_private_key, "k");
    assert_eq!(cfg.jwt_public_key, "p");
    assert_eq!(cfg.database_url, "db");
    let missing = init_config(Some("k".to_string()), None, None);
    assert_eq!(missing.err(), Some(CustomError::EnvError(EnvVar::JwtPublicKey)));
    let missing = init_config(None, Some("p".to_string()), None);
    assert_eq!(missing.err(), Some(CustomError::EnvError(EnvVar::JwtPrivateKey)));
    let missing = init_config(Some("k".to_string()), Some("p".to_string()), None);
    assert_eq!(missing.err(), Some(CustomError::EnvError(EnvVar::DatabaseUrl)));
    assert_eq!(EnvVar::DatabaseUrl.name(), "DATABASE_URL");
}

#[test]
fn pool_stats_active_connections() {
    assert_eq!(PoolStats { size: 10, idle: 4 }.active(), 6);
    assert_eq!(PoolStats { size: 5, idle: 5 }.active(), 0);
    assert_eq!(PoolStats { size: 2, idle: 3 }.active(), 0);
}
