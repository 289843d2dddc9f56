//! The category record and its mathematical model.

use vstd::prelude::*;

verus! {

/// A category as the service exchanges it. No combination of field values is
/// excluded: empty strings and negative identifiers are ordinary categories.
#[derive(Debug)]
pub struct Category {
    pub id: i32,
    pub name: String,
    pub url: String,
    pub icon: String,
}

/// What a [`Category`] holds, as mathematical values.
pub ghost struct CategoryView {
    pub id: int,
    pub name: Seq<char>,
    pub url: Seq<char>,
    pub icon: Seq<char>,
}

impl CategoryView {
    /// The category that `Category::new` and `Category::default` build:
    /// identifier zero, every text empty.
    pub open spec fn blank() -> CategoryView {
        CategoryView { id: 0, name: Seq::empty(), url: Seq::empty(), icon: Seq::empty() }
    }

    /// This category under another identifier.
    pub open spec fn with_id(self, id: int) -> CategoryView {
        CategoryView { id, ..self }
    }
}

impl View for Category {
    type V = CategoryView;

    open spec fn view(&self) -> CategoryView {
        CategoryView { id: self.id as int, name: self.name@, url: self.url@, icon: self.icon@ }
    }
}

impl Default for Category {
    fn default() -> (category: Category)
        ensures
            category@ == CategoryView::blank(),
    {
        Category { id: 0, name: String::new(), url: String::new(), icon: String::new() }
    }
}

impl Category {
    /// The blank category.
    pub fn new() -> (category: Category)
        ensures
            category@ == CategoryView::blank(),
    {
        Default::default()
    }
}

} // verus!
