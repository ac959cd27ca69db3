use vstd::prelude::*;
use vstd::pervasive::VecAdditionalExecFns;
use vstd::string::StringExecFns;

use crate::errors::ApiError;
use crate::ids::fresh_id;
use crate::table::{find_by_id, has_id, ids_unique, list_all, rows_sorted, Row};
use crate::text::str_eq;

verus! {

/// Whether a category classifies income or expenses.
#[derive(Clone, Copy, Debug, PartialEq, Eq, Structural)]
pub enum CategoryType {
    Income,
    Expense,
}

/// A stored category row. Categories are a shared taxonomy: they carry no
/// owner and every principal may read them. `created_at` is UTC epoch
/// seconds; a category is never restamped.
#[derive(Debug, PartialEq)]
pub struct Category {
    pub id: String,
    pub name: String,
    pub category_type: CategoryType,
    pub icon: String,
    pub color: String,
    pub is_default: bool,
    pub created_at: i64,
}

/// A request to create a category; the identifier is always generated and
/// the default flag defaults to false.
pub struct CreateCategoryRequest {
    pub name: String,
    pub category_type: CategoryType,
    pub icon: String,
    pub color: String,
    pub is_default: Option<bool>,
}

/// A partial update: only supplied fields change.
pub struct UpdateCategoryRequest {
    pub name: Option<String>,
    pub category_type: Option<CategoryType>,
    pub icon: Option<String>,
    pub color: Option<String>,
    pub is_default: Option<bool>,
}

impl Row for Category {
    open spec fn row_id(&self) -> Seq<char> {
        self.id@
    }

    /// Categories are global: they report an empty owner and are never
    /// read through a scope.
    open spec fn row_owner(&self) -> Seq<char> {
        Seq::empty()
    }

    /// Categories list the seeded defaults first, oldest first within each
    /// group.
    open spec fn spec_le(&self, other: &Self) -> bool {
        (self.is_default && !other.is_default) || (self.is_default == other.is_default
            && self.created_at <= other.created_at)
    }

    proof fn lemma_le_total(a: &Self, b: &Self) {
    }

    proof fn lemma_le_trans(a: &Self, b: &Self, c: &Self) {
    }

    fn id_matches(&self, id: &str) -> (r: bool) {
        str_eq(self.id.as_str(), id)
    }

    fn owner_matches(&self, owner: &str) -> (r: bool) {
        let r = str_eq("", owner);
        proof {
            reveal_strlit("");
            assert(""@ =~= Seq::<char>::empty());
        }
        r
    }

    fn le(&self, other: &Self) -> (r: bool) {
        (self.is_default && !other.is_default) || (self.is_default == other.is_default
            && self.created_at <= other.created_at)
    }

    fn duplicate(&self) -> (r: Self) {
        Category {
            id: self.id.clone(),
            name: self.name.clone(),
            category_type: self.category_type,
            icon: self.icon.clone(),
            color: self.color.clone(),
            is_default: self.is_default,
            created_at: self.created_at,
        }
    }
}

/// The result of merging a partial update into a stored category: supplied
/// fields are replaced, absent fields keep their stored value, and the
/// identifier and creation time never change. A category carries no
/// `updated_at` to refresh.
pub open spec fn merged_category(a: Category, r: UpdateCategoryRequest) -> Category {
    Category {
        id: a.id,
        name: match r.name {
            Some(v) => v,
            None => a.name,
        },
        category_type: match r.category_type {
            Some(v) => v,
            None => a.category_type,
        },
        icon: match r.icon {
            Some(v) => v,
            None => a.icon,
        },
        color: match r.color {
            Some(v) => v,
            None => a.color,
        },
        is_default: match r.is_default {
            Some(v) => v,
            None => a.is_default,
        },
        created_at: a.created_at,
    }
}

/// An update that supplies no fields leaves the stored category entirely
/// unchanged: a category carries no `updated_at` to advance.
pub proof fn lemma_empty_category_update(a: Category, r: UpdateCategoryRequest)
    requires
        r.name is None,
        r.category_type is None,
        r.icon is None,
        r.color is None,
        r.is_default is None,
    ensures
        merged_category(a, r) == a,
{
}

/// The categories table: rows with pairwise distinct identifiers, shared
/// by every principal.
pub struct CategoryTable {
    pub rows: Vec<Category>,
}

impl CategoryTable {
    /// Well-formed: no two rows share an identifier.
    pub open spec fn wf(&self) -> bool {
        ids_unique(self.rows@)
    }

    /// An empty table.
    pub fn new() -> (r: Self)
        ensures
            r.wf(),
            r.rows@.len() == 0,
    {
        CategoryTable { rows: Vec::new() }
    }

    /// Creates a category under a generated identifier; the default flag
    /// defaults to false and `created_at` is set to `now`. A generated
    /// identifier that collides is a `Conflict`, which cannot happen
    /// against an empty table.
    pub fn create_category(&mut self, req: CreateCategoryRequest, now: i64) -> (r: Result<
        Category,
        ApiError,
    >)
        requires
            old(self).wf(),
        ensures
            final(self).wf(),
            match r {
                Ok(c) => {
                    &&& !has_id(old(self).rows@, c.id@)
                    &&& final(self).rows@ == old(self).rows@.push(c)
                    &&& c.name@ == req.name@
                    &&& c.category_type == req.category_type
                    &&& c.icon@ == req.icon@
                    &&& c.color@ == req.color@
                    &&& c.is_default == match req.is_default {
                        Some(b) => b,
                        None => false,
                    }
                    &&& c.created_at == now
                },
                Err(e) => e == ApiError::Conflict && final(self).rows@ == old(self).rows@
                    && old(self).rows@.len() > 0,
            },
    {
        let g = fresh_id();
        if find_by_id(&self.rows, g.as_str()).is_some() {
            return Err(ApiError::Conflict);
        }
        let row = Category {
            id: g,
            name: req.name,
            category_type: req.category_type,
            icon: req.icon,
            color: req.color,
            is_default: match req.is_default {
                Some(b) => b,
                None => false,
            },
            created_at: now,
        };
        let out = row.duplicate();
        proof {
            crate::table::lemma_push_keeps_ids_unique(self.rows@, row);
        }
        self.rows.push(row);
        Ok(out)
    }

    /// Lists every category, seeded defaults first, oldest first within
    /// each group. Never fails.
    pub fn get_categories(&self) -> (r: Vec<Category>)
        ensures
            rows_sorted(r@),
            r@.len() == self.rows@.len(),
            forall|i: int| 0 <= i < r@.len() ==> self.rows@.contains(#[trigger] r@[i]),
            forall|j: int| 0 <= j < self.rows@.len() ==> r@.contains(#[trigger] self.rows@[j]),
    {
        list_all(&self.rows)
    }

    /// Fetches one category by identifier; readable by any principal.
    pub fn get_category(&self, id: &str) -> (r: Result<Category, ApiError>)
        ensures
            match r {
                Ok(c) => self.rows@.contains(c) && c.id@ == id@,
                Err(e) => e == ApiError::NotFound && !has_id(self.rows@, id@),
            },
            (r is Ok) == has_id(self.rows@, id@),
    {
        match find_by_id(&self.rows, id) {
            Some(i) => {
                let c = self.rows[i].duplicate();
                assert(self.rows@.contains(c)) by {
                    assert(self.rows@[i as int] == c);
                }
                Ok(c)
            },
            None => Err(ApiError::NotFound),
        }
    }

    /// Merges a partial update into the row with this identifier. Fails
    /// `NotFound` when no category carries it.
    pub fn update_category(&mut self, id: &str, req: &UpdateCategoryRequest) -> (r: Result<
        (),
        ApiError,
    >)
        requires
            old(self).wf(),
        ensures
            final(self).wf(),
            match r {
                Ok(()) => exists|i: int|
                    #![auto]
                    {
                        &&& 0 <= i < old(self).rows@.len()
                        &&& old(self).rows@[i].id@ == id@
                        &&& final(self).rows@ == old(self).rows@.update(
                            i,
                            merged_category(old(self).rows@[i], *req),
                        )
                    },
                Err(e) => e == ApiError::NotFound && final(self).rows@ == old(self).rows@
                    && !has_id(old(self).rows@, id@),
            },
            (r is Ok) == has_id(old(self).rows@, id@),
    {
        match find_by_id(&self.rows, id) {
            Some(i) => {
                let cur = &self.rows[i];
                let merged = Category {
                    id: cur.id.clone(),
                    name: match &req.name {
                        Some(v) => v.clone(),
                        None => cur.name.clone(),
                    },
                    category_type: match req.category_type {
                        Some(v) => v,
                        None => cur.category_type,
                    },
                    icon: match &req.icon {
                        Some(v) => v.clone(),
                        None => cur.icon.clone(),
                    },
                    color: match &req.color {
                        Some(v) => v.clone(),
                        None => cur.color.clone(),
                    },
                    is_default: match req.is_default {
                        Some(v) => v,
                        None => cur.is_default,
                    },
                    created_at: cur.created_at,
                };
                proof {
                    assert(merged == merged_category(self.rows@[i as int], *req));
                    crate::table::lemma_update_keeps_ids_unique(self.rows@, i as int, merged);
                }
                self.rows.set(i, merged);
                Ok(())
            },
            None => Err(ApiError::NotFound),
        }
    }

    /// Hard-deletes the row with this identifier. Fails `NotFound` when no
    /// category carries it.
    pub fn delete_category(&mut self, id: &str) -> (r: Result<(), ApiError>)
        requires
            old(self).wf(),
        ensures
            final(self).wf(),
            match r {
                Ok(()) => exists|i: int|
                    #![auto]
                    {
                        &&& 0 <= i < old(self).rows@.len()
                        &&& old(self).rows@[i].id@ == id@
                        &&& final(self).rows@ == old(self).rows@.remove(i)
                    },
                Err(e) => e == ApiError::NotFound && final(self).rows@ == old(self).rows@
                    && !has_id(old(self).rows@, id@),
            },
            (r is Ok) == has_id(old(self).rows@, id@),
    {
        match find_by_id(&self.rows, id) {
            Some(i) => {
                proof {
                    crate::table::lemma_remove_keeps_ids_unique(self.rows@, i as int);
                }
                self.rows.remove(i);
                Ok(())
            },
            None => Err(ApiError::NotFound),
        }
    }
}

/// The seeded default categories.
pub struct DefaultCategories;

impl DefaultCategories {
    /// The four seeded income categories, stamped with `now` and carrying
    /// generated identifiers.
    pub fn get_income_categories(now: i64) -> (r: Vec<Category>)
        ensures
            r@.len() == 4,
            forall|i: int|
                0 <= i < r@.len() ==> (#[trigger] r@[i]).category_type is Income && r@[i].is_default
                    && r@[i].created_at == now,
            r@[0].name@ == "Salary"@ && r@[0].icon@ == "💰"@ && r@[0].color@ == "#4CAF50"@,
            r@[1].name@ == "Business"@ && r@[1].icon@ == "💼"@ && r@[1].color@ == "#2196F3"@,
            r@[2].name@ == "Investment"@ && r@[2].icon@ == "📈"@ && r@[2].color@ == "#FF9800"@,
            r@[3].name@ == "Gift"@ && r@[3].icon@ == "🎁"@ && r@[3].color@ == "#E91E63"@,
    {
        let mut v: Vec<Category> = Vec::new();
        v.push(seed_category("Salary", CategoryType::Income, "💰", "#4CAF50", now));
        v.push(seed_category("Business", CategoryType::Income, "💼", "#2196F3", now));
        v.push(seed_category("Investment", CategoryType::Income, "📈", "#FF9800", now));
        v.push(seed_category("Gift", CategoryType::Income, "🎁", "#E91E63", now));
        v
    }

    /// The six seeded expense categories, stamped with `now` and carrying
    /// generated identifiers.
    pub fn get_expense_categories(now: i64) -> (r: Vec<Category>)
        ensures
            r@.len() == 6,
            forall|i: int|
                0 <= i < r@.len() ==> (#[trigger] r@[i]).category_type is Expense
                    && r@[i].is_default && r@[i].created_at == now,
            r@[0].name@ == "Food"@ && r@[0].icon@ == "🍔"@ && r@[0].color@ == "#FF5722"@,
            r@[1].name@ == "Transportation"@ && r@[1].icon@ == "🚗"@ && r@[1].color@ == "#607D8B"@,
            r@[2].name@ == "Shopping"@ && r@[2].icon@ == "🛍️"@ && r@[2].color@ == "#9C27B0"@,
            r@[3].name@ == "Entertainment"@ && r@[3].icon@ == "🎬"@ && r@[3].color@ == "#673AB7"@,
            r@[4].name@ == "Bills"@ && r@[4].icon@ == "💡"@ && r@[4].color@ == "#795548"@,
            r@[5].name@ == "Medical"@ && r@[5].icon@ == "⚕️"@ && r@[5].color@ == "#F44336"@,
    {
        let mut v: Vec<Category> = Vec::new();
        v.push(seed_category("Food", CategoryType::Expense, "🍔", "#FF5722", now));
        v.push(seed_category("Transportation", CategoryType::Expense, "🚗", "#607D8B", now));
        v.push(seed_category("Shopping", CategoryType::Expense, "🛍️", "#9C27B0", now));
        v.push(seed_category("Entertainment", CategoryType::Expense, "🎬", "#673AB7", now));
        v.push(seed_category("Bills", CategoryType::Expense, "💡", "#795548", now));
        v.push(seed_category("Medical", CategoryType::Expense, "⚕️", "#F44336", now));
        v
    }

    /// All ten seeded categories: the four income ones, then the six
    /// expense ones, each in its listing order.
    pub fn get_all_default_categories(now: i64) -> (r: Vec<Category>)
        ensures
            r@.len() == 10,
            forall|i: int|
                0 <= i < r@.len() ==> (#[trigger] r@[i]).is_default && r@[i].created_at == now,
            forall|i: int| 0 <= i < 4 ==> (#[trigger] r@[i]).category_type is Income,
            forall|i: int| 4 <= i < 10 ==> (#[trigger] r@[i]).category_type is Expense,
            r@[0].name@ == "Salary"@ && r@[0].icon@ == "💰"@ && r@[0].color@ == "#4CAF50"@,
            r@[1].name@ == "Business"@ && r@[1].icon@ == "💼"@ && r@[1].color@ == "#2196F3"@,
            r@[2].name@ == "Investment"@ && r@[2].icon@ == "📈"@ && r@[2].color@ == "#FF9800"@,
            r@[3].name@ == "Gift"@ && r@[3].icon@ == "🎁"@ && r@[3].color@ == "#E91E63"@,
            r@[4].name@ == "Food"@ && r@[4].icon@ == "🍔"@ && r@[4].color@ == "#FF5722"@,
            r@[5].name@ == "Transportation"@ && r@[5].icon@ == "🚗"@ && r@[5].color@
                == "#607D8B"@,
            r@[6].name@ == "Shopping"@ && r@[6].icon@ == "🛍️"@ && r@[6].color@ == "#9C27B0"@,
            r@[7].name@ == "Entertainment"@ && r@[7].icon@ == "🎬"@ && r@[7].color@
                == "#673AB7"@,
            r@[8].name@ == "Bills"@ && r@[8].icon@ == "💡"@ && r@[8].color@ == "#795548"@,
            r@[9].name@ == "Medical"@ && r@[9].icon@ == "⚕️"@ && r@[9].color@ == "#F44336"@,
    {
        let mut categories = Self::get_income_categories(now);
        let mut expense = Self::get_expense_categories(now);
        let ghost income_rows = categories@;
        let ghost expense_rows = expense@;
        categories.append(&mut expense);
        proof {
            assert(categories@ == income_rows + expense_rows);
            assert forall|i: int| 0 <= i < 4 implies #[trigger] categories@[i]
                == income_rows[i] by {}
            assert forall|i: int| 4 <= i < 10 implies #[trigger] categories@[i]
                == expense_rows[i - 4] by {}
        }
        categories
    }
}

/// Builds one seeded category with a generated identifier.
fn seed_category(
    name: &str,
    category_type: CategoryType,
    icon: &str,
    color: &str,
    now: i64,
) -> (r: Category)
    ensures
        r.name@ == name@,
        r.category_type == category_type,
        r.icon@ == icon@,
        r.color@ == color@,
        r.is_default,
        r.created_at == now,
{
    Category {
        id: fresh_id(),
        name: String::from_str(name),
        category_type,
        icon: String::from_str(icon),
        color: String::from_str(color),
        is_default: true,
        created_at: now,
    }
}

} // verus!
