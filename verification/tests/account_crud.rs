use personal_manager::account::{
    AccountTable, AccountType, CreateAccountRequest, UpdateAccountRequest,
};
use personal_manager::authorize::AuthUser;
use personal_manager::errors::ApiError;

fn principal(id: &str) -> AuthUser {
    AuthUser { user_id: id.to_string() }
}

fn empty_update() -> UpdateAccountRequest {
    UpdateAccountRequest {
        name: None,
        account_type: None,
        balance: None,
        currency: None,
        credit_limit: None,
    }
}

fn wallet_request(balance: f64) -> CreateAccountRequest {
    CreateAccountRequest {
        id: None,
        name: "Wallet".to_string(),
        account_type: AccountType::Cash,
        balance: balance.to_bits(),
        currency: None,
        credit_limit: None,
    }
}

#[test]
fn create_then_get_round_trip() {
    let mut table = AccountTable::new();
    let user = principal("u-1");
    let created = table.create_account(&user, wallet_request(100.0), 1_000).unwrap();
    let fetched = table.get_account(&user, &created.id).unwrap();
    assert_eq!(fetched, created);
    assert_eq!(fetched.name, "Wallet");
    assert_eq!(f64::from_bits(fetched.balance), 100.0);
    assert_eq!(fetched.currency, "BDT");
    assert_eq!(fetched.created_at, 1_000);
    assert_eq!(fetched.updated_at, 1_000);
    assert_eq!(fetched.user_id, "u-1");
}

#[test]
fn wallet_scenario() {
    let mut table = AccountTable::new();
    let user = principal("u-wallet");
    let created = table.create_account(&user, wallet_request(100.0), 10).unwrap();

    let listed = table.get_accounts(&user);
    assert_eq!(listed.len(), 1);
    assert_eq!(f64::from_bits(listed[0].balance), 100.0);
    assert_eq!(listed[0].currency, "BDT");

    let update = UpdateAccountRequest { balance: Some((50.0f64).to_bits()), ..empty_update() };
    table.update_account(&user, &created.id, &update, 20).unwrap();
    let fetched = table.get_account(&user, &created.id).unwrap();
    assert_eq!(f64::from_bits(fetched.balance), 50.0);
    assert_eq!(fetched.name, "Wallet");
}

#[test]
fn cross_principal_access_is_not_found() {
    let mut table = AccountTable::new();
    let owner = principal("alice");
    let other = principal("bob");
    let created = table.create_account(&owner, wallet_request(1.5), 5).unwrap();

    assert_eq!(table.get_account(&other, &created.id).unwrap_err(), ApiError::NotFound);
    assert_eq!(
        table.update_account(&other, &created.id, &empty_update(), 6).unwrap_err(),
        ApiError::NotFound
    );
    assert_eq!(table.delete_account(&other, &created.id).unwrap_err(), ApiError::NotFound);

    // the owner still sees the untouched row
    let fetched = table.get_account(&owner, &created.id).unwrap();
    assert_eq!(fetched, created);
    assert!(table.get_accounts(&other).is_empty());
}

#[test]
fn empty_update_only_bumps_updated_at() {
    let mut table = AccountTable::new();
    let user = principal("u-2");
    let created = table.create_account(&user, wallet_request(7.25), 1_000).unwrap();
    table.update_account(&user, &created.id, &empty_update(), 2_000).unwrap();
    let fetched = table.get_account(&user, &created.id).unwrap();
    assert_eq!(fetched.name, created.name);
    assert_eq!(fetched.account_type, created.account_type);
    assert_eq!(fetched.balance, created.balance);
    assert_eq!(fetched.currency, created.currency);
    assert_eq!(fetched.credit_limit, created.credit_limit);
    assert_eq!(fetched.created_at, 1_000);
    assert_eq!(fetched.updated_at, 2_000);
}

#[test]
fn partial_update_merges_only_supplied_fields() {
    let mut table = AccountTable::new();
    let user = principal("u-3");
    let request = CreateAccountRequest {
        id: Some("acct-1".to_string()),
        name: "Main".to_string(),
        account_type: AccountType::Bank,
        balance: (10.0f64).to_bits(),
        currency: Some("USD".to_string()),
        credit_limit: None,
    };
    table.create_account(&user, request, 100).unwrap();

    let update = UpdateAccountRequest { name: Some("Renamed".to_string()), ..empty_update() };
    table.update_account(&user, "acct-1", &update, 200).unwrap();
    let fetched = table.get_account(&user, "acct-1").unwrap();
    assert_eq!(fetched.name, "Renamed");
    assert_eq!(fetched.account_type, AccountType::Bank);
    assert_eq!(f64::from_bits(fetched.balance), 10.0);
    assert_eq!(fetched.currency, "USD");
    assert_eq!(fetched.updated_at, 200);
}

#[test]
fn duplicate_supplied_id_is_a_conflict() {
    let mut table = AccountTable::new();
    let user = principal("u-4");
    let mut first = wallet_request(1.0);
    first.id = Some("same-id".to_string());
    table.create_account(&user, first, 1).unwrap();

    let mut second = wallet_request(2.0);
    second.id = Some("same-id".to_string());
    assert_eq!(table.create_account(&user, second, 2).unwrap_err(), ApiError::Conflict);
    assert_eq!(table.get_accounts(&user).len(), 1);
}

#[test]
fn listing_is_newest_first_and_scoped() {
    let mut table = AccountTable::new();
    let user = principal("u-5");
    let stranger = principal("u-6");
    table.create_account(&user, wallet_request(1.0), 10).unwrap();
    table.create_account(&user, wallet_request(2.0), 30).unwrap();
    table.create_account(&user, wallet_request(3.0), 20).unwrap();
    table.create_account(&stranger, wallet_request(9.0), 40).unwrap();

    let listed = table.get_accounts(&user);
    assert_eq!(listed.len(), 3);
    assert_eq!(listed[0].created_at, 30);
    assert_eq!(listed[1].created_at, 20);
    assert_eq!(listed[2].created_at, 10);
    let aggregated = table.get_user_accounts(&user);
    assert_eq!(aggregated.len(), 3);
}

#[test]
fn delete_removes_the_row() {
    let mut table = AccountTable::new();
    let user = principal("u-7");
    let created = table.create_account(&user, wallet_request(4.0), 1).unwrap();
    table.delete_account(&user, &created.id).unwrap();
    assert_eq!(table.get_account(&user, &created.id).unwrap_err(), ApiError::NotFound);
    assert!(table.get_accounts(&user).is_empty());
    assert_eq!(table.delete_account(&user, &created.id).unwrap_err(), ApiError::NotFound);
}

#[test]
fn credit_card_flag() {
    let mut table = AccountTable::new();
    let user = principal("u-8");
    let request = CreateAccountRequest {
        id: None,
        name: "Card".to_string(),
        account_type: AccountType::CreditCard,
        balance: (0.0f64).to_bits(),
        currency: None,
        credit_limit: Some((500.0f64).to_bits()),
    };
    let card = table.create_account(&user, request, 1).unwrap();
    assert!(card.is_credit_card());
    let wallet = table.create_account(&user, wallet_request(1.0), 2).unwrap();
    assert!(!wallet.is_credit_card());
}

#[test]
fn error_status_codes() {
    assert_eq!(ApiError::Unauthorized.status_code(), 401);
    assert_eq!(ApiError::NotFound.status_code(), 404);
    assert_eq!(ApiError::Conflict.status_code(), 409);
    assert_eq!(ApiError::BadRequest.status_code(), 400);
    assert_eq!(ApiError::Internal.status_code(), 500);
}
