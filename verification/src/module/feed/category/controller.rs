use crate::module::feed::category::entities::{Category, CategoryBuilderView, CategoryView};
use crate::module::feed::category::model::DbCategories;
use vstd::prelude::*;

verus! {

/// The category that a row of a category listing stands for.
pub open spec fn category_of_row(row: (i32, Option<i32>, Seq<char>)) -> CategoryView {
    (CategoryBuilderView {
        id: Some(row.0),
        parent_id: row.1,
        title: Some(row.2),
        ..CategoryBuilderView::empty()
    }).build()
}

/// The category to store for a title and, where given, a parent. Its
/// identity is left for the store to give.
pub open spec fn category_to_add(title: Seq<char>, parent_id: Option<i32>) -> CategoryView {
    (CategoryBuilderView { title: Some(title), parent_id, ..CategoryBuilderView::empty() }).build()
}

pub struct CategoryController {}

impl CategoryController {
    pub fn new() -> Self {
        CategoryController {  }
    }

    /// Readies a new category for the store.
    pub fn add(&self, title: String, parent_id: Option<i32>) -> (category: Category)
        ensures
            category@ == category_to_add(title@, parent_id),
    {
        match parent_id {
            Some(parent_id) => Category::builder().title(title).parent(parent_id).build(),
            None => Category::builder().title(title).build(),
        }
    }

    /// The categories that the rows of a category listing stand for, in the
    /// rows' order.
    pub fn get_all(&self, rows: DbCategories) -> (categories: Vec<Category>)
        ensures
            categories.deep_view() == rows.deep_view().map_values(
                |row: (i32, Option<i32>, Seq<char>)| category_of_row(row),
            ),
    {
        let ghost source = rows@;
        let mut categories: Vec<Category> = Vec::new();
        for row in it: rows
            invariant
                it.seq() == source,
                categories@.len() == it.index(),
                forall|k: int|
                    0 <= k < categories@.len() ==> (#[trigger] categories@[k])@
                        == category_of_row(source[k].deep_view()),
        {
            let (id, parent_id, title) = row;
            let category = match parent_id {
                Some(parent_id) => Category::builder().id(id).parent(parent_id).title(
                    title,
                ).build(),
                None => Category::builder().id(id).title(title).build(),
            };
            categories.push(category);
        }
        assert(categories.deep_view() =~= rows.deep_view().map_values(
            |row: (i32, Option<i32>, Seq<char>)| category_of_row(row),
        ));
        categories
    }
}

} // verus!
