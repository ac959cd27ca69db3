use personal_manager::category::{
    CategoryTable, CategoryType, CreateCategoryRequest, DefaultCategories, UpdateCategoryRequest,
};
use personal_manager::errors::ApiError;
use personal_manager::transaction::TransactionCategories;

fn plain_request(name: &str, category_type: CategoryType) -> CreateCategoryRequest {
    CreateCategoryRequest {
        name: name.to_string(),
        category_type,
        icon: "i".to_string(),
        color: "#000000".to_string(),
        is_default: None,
    }
}

#[test]
fn seeded_default_categories() {
    let income = DefaultCategories::get_income_categories(50);
    assert_eq!(income.len(), 4);
    let income_names: Vec<&str> = income.iter().map(|c| c.name.as_str()).collect();
    assert_eq!(income_names, ["Salary", "Business", "Investment", "Gift"]);
    for c in &income {
        assert!(matches!(c.category_type, CategoryType::Income));
        assert!(c.is_default);
        assert_eq!(c.created_at, 50);
    }

    let expense = DefaultCategories::get_expense_categories(50);
    assert_eq!(expense.len(), 6);
    let expense_names: Vec<&str> = expense.iter().map(|c| c.name.as_str()).collect();
    assert_eq!(
        expense_names,
        ["Food", "Transportation", "Shopping", "Entertainment", "Bills", "Medical"]
    );

    let all = DefaultCategories::get_all_default_categories(50);
    assert_eq!(all.len(), 10);
    assert!(all[..4].iter().all(|c| matches!(c.category_type, CategoryType::Income)));
    assert!(all[4..].iter().all(|c| matches!(c.category_type, CategoryType::Expense)));
}

#[test]
fn transaction_category_names() {
    let income = TransactionCategories::get_income_categories();
    assert_eq!(income, ["Salary", "Business", "Investment", "Gift", "Other Income"]);
    let expense = TransactionCategories::get_expense_categories();
    assert_eq!(
        expense,
        [
            "Food",
            "Transportation",
            "Shopping",
            "Entertainment",
            "Bills",
            "Medical",
            "Education",
            "Other Expense"
        ]
    );
}

#[test]
fn category_crud_is_global() {
    let mut table = CategoryTable::new();
    let created = table.create_category(plain_request("Travel", CategoryType::Expense), 10)
        .unwrap();
    assert!(!created.is_default);
    assert_eq!(created.created_at, 10);

    let fetched = table.get_category(&created.id).unwrap();
    assert_eq!(fetched, created);

    let update = UpdateCategoryRequest {
        name: Some("Trips".to_string()),
        category_type: None,
        icon: None,
        color: Some("#123456".to_string()),
        is_default: None,
    };
    table.update_category(&created.id, &update).unwrap();
    let merged = table.get_category(&created.id).unwrap();
    assert_eq!(merged.name, "Trips");
    assert_eq!(merged.color, "#123456");
    assert_eq!(merged.icon, "i");
    assert_eq!(merged.created_at, 10);

    table.delete_category(&created.id).unwrap();
    assert_eq!(table.get_category(&created.id).unwrap_err(), ApiError::NotFound);
}

#[test]
fn categories_list_defaults_first_then_oldest() {
    let mut table = CategoryTable::new();
    let mut late_default = plain_request("LateDefault", CategoryType::Income);
    late_default.is_default = Some(true);
    let mut early_default = plain_request("EarlyDefault", CategoryType::Income);
    early_default.is_default = Some(true);

    table.create_category(plain_request("PlainOld", CategoryType::Expense), 1).unwrap();
    table.create_category(late_default, 30).unwrap();
    table.create_category(plain_request("PlainNew", CategoryType::Expense), 40).unwrap();
    table.create_category(early_default, 20).unwrap();

    let listed = table.get_categories();
    let names: Vec<&str> = listed.iter().map(|c| c.name.as_str()).collect();
    assert_eq!(names, ["EarlyDefault", "LateDefault", "PlainOld", "PlainNew"]);
}
