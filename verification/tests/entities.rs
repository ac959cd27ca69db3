use personal_manager::authorize::AuthUser;
use personal_manager::budget::{BudgetTable, CreateBudgetRequest, UpdateBudgetRequest};
use personal_manager::errors::ApiError;
use personal_manager::liability::{CreateLiabilityRequest, LiabilityTable};
use personal_manager::loan::{CreateLoanRequest, LoanTable};
use personal_manager::preference::{PreferenceTable, UpdatePreferenceRequest};
use personal_manager::recurring_transaction::{
    CreateRecurringTransactionRequest, RecurringTransactionTable,
};
use personal_manager::savings_goal::{CreateSavingsGoalRequest, SavingsGoalTable};
use personal_manager::transaction::{
    CreateTransactionRequest, TransactionTable, TransactionType, UpdateTransactionRequest,
};

fn principal(id: &str) -> AuthUser {
    AuthUser { user_id: id.to_string() }
}

#[test]
fn budget_defaults_and_conflict() {
    let mut table = BudgetTable::new();
    let user = principal("u");
    let request = CreateBudgetRequest {
        id: Some("b1".to_string()),
        category: "Food".to_string(),
        amount: (250.0f64).to_bits(),
        currency: None,
        period: None,
    };
    let created = table.create_budget(&user, request, 10).unwrap();
    assert_eq!(created.currency, "BDT");
    assert_eq!(created.period, "monthly");
    assert_eq!(created.id, "b1");

    let duplicate = CreateBudgetRequest {
        id: Some("b1".to_string()),
        category: "Rent".to_string(),
        amount: (1.0f64).to_bits(),
        currency: None,
        period: None,
    };
    assert_eq!(table.create_budget(&user, duplicate, 11).unwrap_err(), ApiError::Conflict);

    let update = UpdateBudgetRequest {
        category: None,
        amount: Some((300.0f64).to_bits()),
        currency: None,
        period: Some("weekly".to_string()),
    };
    table.update_budget(&user, "b1", &update, 20).unwrap();
    let fetched = table.get_budget(&user, "b1").unwrap();
    assert_eq!(f64::from_bits(fetched.amount), 300.0);
    assert_eq!(fetched.period, "weekly");
    assert_eq!(fetched.category, "Food");
    assert_eq!(fetched.updated_at, 20);
}

#[test]
fn transaction_defaults_and_date() {
    let mut table = TransactionTable::new();
    let user = principal("u");
    let request = CreateTransactionRequest {
        account_id: "acct".to_string(),
        transaction_type: TransactionType::Expense,
        amount: (12.5f64).to_bits(),
        currency: None,
        category: Some("Food".to_string()),
        description: None,
        date: None,
    };
    let created = table.create_transaction(&user, request, 777).unwrap();
    assert_eq!(created.currency, "BDT");
    assert_eq!(created.date, 777);
    assert_eq!(created.created_at, 777);

    let dated = CreateTransactionRequest {
        account_id: "acct".to_string(),
        transaction_type: TransactionType::Income,
        amount: (1.0f64).to_bits(),
        currency: Some("EUR".to_string()),
        category: None,
        description: Some("salary".to_string()),
        date: Some(9_000),
    };
    let second = table.create_transaction(&user, dated, 800).unwrap();
    assert_eq!(second.date, 9_000);

    // newest date first
    let listed = table.get_transactions(&user);
    assert_eq!(listed.len(), 2);
    assert_eq!(listed[0].date, 9_000);
    assert_eq!(listed[1].date, 777);
    assert_eq!(table.get_user_transactions(&user).len(), 2);

    let update = UpdateTransactionRequest {
        account_id: None,
        transaction_type: None,
        amount: Some((99.0f64).to_bits()),
        currency: None,
        category: None,
        description: None,
        date: None,
    };
    table.update_transaction(&user, &created.id, &update).unwrap();
    let fetched = table.get_transaction(&user, &created.id).unwrap();
    assert_eq!(f64::from_bits(fetched.amount), 99.0);
    assert_eq!(fetched.category.as_deref(), Some("Food"));
}

#[test]
fn liability_ordering_and_due_dates() {
    let mut table = LiabilityTable::new();
    let user = principal("u");
    let make = |person: &str, due: i64| CreateLiabilityRequest {
        person_name: person.to_string(),
        amount: (10.0f64).to_bits(),
        currency: None,
        due_date: due,
        is_paid: None,
        description: None,
    };
    table.create_liability(&user, make("late", 300_000), 1).unwrap();
    let soon = table.create_liability(&user, make("soon", 100_000), 2).unwrap();
    assert!(!soon.is_paid);
    assert_eq!(soon.currency, "BDT");

    // soonest due date first
    let listed = table.get_liabilities(&user);
    assert_eq!(listed[0].person_name, "soon");
    assert_eq!(listed[1].person_name, "late");
    assert_eq!(table.get_user_liabilities(&user).len(), 2);

    // 100_000 seconds from epoch, seen from epoch: one whole day remains
    assert_eq!(soon.days_until_due(0), 1);
    assert!(!soon.is_overdue(0));
    assert!(soon.is_overdue(100_001));
    assert_eq!(soon.days_until_due(186_400), -1);
}

#[test]
fn loan_defaults_and_ordering() {
    let mut table = LoanTable::new();
    let user = principal("u");
    let make = |person: &str, date: i64| CreateLoanRequest {
        person_name: person.to_string(),
        amount: (40.0f64).to_bits(),
        currency: None,
        loan_date: date,
        return_date: None,
        is_returned: None,
        description: None,
    };
    let old = table.create_loan(&user, make("old", 100), 1).unwrap();
    assert!(!old.is_returned);
    assert_eq!(old.currency, "BDT");
    table.create_loan(&user, make("new", 200), 2).unwrap();

    // newest loan date first
    let listed = table.get_loans(&user);
    assert_eq!(listed[0].person_name, "new");
    assert_eq!(listed[1].person_name, "old");
    assert_eq!(table.get_user_loans(&user).len(), 2);
}

#[test]
fn recurring_transaction_defaults() {
    let mut table = RecurringTransactionTable::new();
    let user = principal("u");
    let request = CreateRecurringTransactionRequest {
        id: None,
        account_id: "acct".to_string(),
        transaction_type: "expense".to_string(),
        amount: (5.0f64).to_bits(),
        currency: None,
        category: None,
        description: None,
        frequency: None,
        start_date: 1_000,
        end_date: None,
        next_due_date: 2_000,
        is_active: None,
        savings_goal_id: None,
    };
    let created = table.create_recurring_transaction(&user, request, 10).unwrap();
    assert_eq!(created.frequency, "monthly");
    assert!(created.is_active);
    assert_eq!(created.currency, "BDT");
    assert_eq!(created.next_due_date, 2_000);

    let fetched = table.get_recurring_transaction(&user, &created.id).unwrap();
    assert_eq!(fetched, created);
    table.delete_recurring_transaction(&user, &created.id).unwrap();
    assert!(table.get_recurring_transactions(&user).is_empty());
}

#[test]
fn savings_goal_defaults_and_ordering() {
    let mut table = SavingsGoalTable::new();
    let user = principal("u");
    let make = |name: &str, target: i64| CreateSavingsGoalRequest {
        id: None,
        name: name.to_string(),
        target_amount: (1_000.0f64).to_bits(),
        currency: None,
        target_date: target,
        description: None,
        account_id: None,
        priority: None,
    };
    let later = table.create_savings_goal(&user, make("later", 900), 1).unwrap();
    assert_eq!(f64::from_bits(later.current_amount), 0.0);
    assert_eq!(later.priority, "medium");
    assert!(!later.is_completed);
    table.create_savings_goal(&user, make("sooner", 500), 2).unwrap();

    // soonest target date first
    let listed = table.get_savings_goals(&user);
    assert_eq!(listed[0].name, "sooner");
    assert_eq!(listed[1].name, "later");
}

#[test]
fn preferences_upsert_with_default_currency() {
    let mut table = PreferenceTable::new();
    let user = principal("u");
    assert!(table.get_preferences(&user).is_none());
    // with nothing saved, the served view falls back to the defaults
    let (currency, saved_at) = table.display_preferences(&user);
    assert_eq!(currency, "BDT");
    assert_eq!(saved_at, None);

    let applied = table.update_preferences(&user, &UpdatePreferenceRequest {
        display_currency: None,
    }, 100);
    assert_eq!(applied.display_currency, "BDT");
    assert_eq!(applied.updated_at, 100);

    let stored = table.get_preferences(&user).unwrap();
    assert_eq!(stored.display_currency, "BDT");

    let changed = table.update_preferences(&user, &UpdatePreferenceRequest {
        display_currency: Some("USD".to_string()),
    }, 200);
    assert_eq!(changed.display_currency, "USD");
    assert_eq!(table.rows.len(), 1);
    let fetched = table.get_preferences(&user).unwrap();
    assert_eq!(fetched.display_currency, "USD");
    assert_eq!(fetched.updated_at, 200);
    let (served, served_at) = table.display_preferences(&user);
    assert_eq!(served, "USD");
    assert_eq!(served_at, Some(200));

    // preferences are scoped too: another principal still has none
    assert!(table.get_preferences(&principal("other")).is_none());
}
