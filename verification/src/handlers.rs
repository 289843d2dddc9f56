//! The three request handlers. Each is a single step from the request's
//! values to the response's values: nothing is stored and nothing is looked up.

use crate::category::Category;
use crate::category::CategoryView;
use vstd::prelude::*;

verus! {

broadcast use vstd::string::to_string_from_display_ensures_for_str;

/// The listing that the service answers with: two fixed categories, in this
/// order.
pub open spec fn listed_categories() -> Seq<CategoryView> {
    seq![
        CategoryView { id: 1, name: "Category 1"@, url: "http://example.com"@, icon: "icon1"@ },
        CategoryView { id: 2, name: "Category 2"@, url: "http://example.com"@, icon: "icon2"@ },
    ]
}

/// Lists the categories: always the same two, in the same order.
pub fn get_all_categories() -> (categories: Vec<Category>)
    ensures
        categories@.len() == listed_categories().len(),
        forall|i: int|
            0 <= i < categories@.len() ==> (#[trigger] categories@[i])@ == listed_categories()[i],
{
    let mut categories: Vec<Category> = Vec::new();
    categories.push(
        Category {
            id: 1,
            name: "Category 1".to_string(),
            url: "http://example.com".to_string(),
            icon: "icon1".to_string(),
        },
    );
    categories.push(
        Category {
            id: 2,
            name: "Category 2".to_string(),
            url: "http://example.com".to_string(),
            icon: "icon2".to_string(),
        },
    );
    categories
}

/// The identifier that every created category carries.
pub const ASSIGNED_ID: i32 = 55;

/// The one identifier whose deletion succeeds.
pub const DELETABLE_ID: usize = 8081;

/// What creating `category` answers with: the same category under
/// [`ASSIGNED_ID`], whatever identifier it came with.
pub open spec fn created(category: CategoryView) -> CategoryView {
    category.with_id(ASSIGNED_ID as int)
}

/// Creates a category: hands the submitted one back under [`ASSIGNED_ID`].
/// Name, address and icon are taken as they are, empty or not.
pub fn create_new_category(category: Category) -> (answer: Category)
    ensures
        answer@ == created(category@),
{
    Category { id: ASSIGNED_ID, ..category }
}

/// Creating is idempotent: the answer to a created category is that category.
pub proof fn lemma_create_idempotent(category: CategoryView)
    ensures
        created(created(category)) == created(category),
{
}

/// Creating ignores the submitted identifier: two categories that differ in
/// nothing else get the same answer, and that answer carries [`ASSIGNED_ID`].
pub proof fn lemma_create_ignores_id(category: CategoryView, id: int)
    ensures
        created(category.with_id(id)) == created(category),
        created(category).id == ASSIGNED_ID,
        created(category).name == category.name,
        created(category).url == category.url,
        created(category).icon == category.icon,
{
}

/// The status line of an answer to a deletion.
#[derive(Clone, Copy, Debug, PartialEq, Eq, Structural)]
pub enum Status {
    /// The category was there.
    Success,
    /// No such category.
    NotFound,
}

impl Status {
    /// The status as its HTTP number.
    pub open spec fn spec_code(self) -> u16 {
        match self {
            Status::Success => 200,
            Status::NotFound => 404,
        }
    }

    /// The status as its HTTP number.
    #[verifier::when_used_as_spec(spec_code)]
    pub fn code(self) -> (code: u16)
        ensures
            code == self.spec_code(),
    {
        match self {
            Status::Success => 200,
            Status::NotFound => 404,
        }
    }
}

/// The answer to deleting the category `id`: success for [`DELETABLE_ID`]
/// alone.
pub open spec fn deleted(id: int) -> (Status, bool) {
    if id == DELETABLE_ID {
        (Status::Success, true)
    } else {
        (Status::NotFound, false)
    }
}

/// Deletes a category: `true` under [`Status::Success`] for [`DELETABLE_ID`],
/// `false` under [`Status::NotFound`] for every other identifier.
pub fn delete_category(id: usize) -> (response: (Status, bool))
    ensures
        response == deleted(id as int),
{
    if id == DELETABLE_ID {
        (Status::Success, true)
    } else {
        (Status::NotFound, false)
    }
}

/// A deletion answers `true` for [`DELETABLE_ID`] and for no other identifier,
/// `true` exactly under status 200, and `false` exactly under status 404.
pub proof fn lemma_delete_status(id: int)
    ensures
        deleted(id).1 <==> id == DELETABLE_ID,
        deleted(id).1 <==> deleted(id).0.spec_code() == 200,
        !deleted(id).1 <==> deleted(id).0.spec_code() == 404,
{
}

} // verus!
