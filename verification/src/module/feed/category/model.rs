use crate::module::feed::category::entities::Category;
use crate::shared::database::{Db, IDb, Statement, StatementView};
use crate::shared::errors::{not_open_message, ErrorType, ErrorTypeView};
use vstd::prelude::*;

verus! {

/// The rows of a category listing: identity, parent where there is one, title.
pub type DbCategories = Vec<(i32, Option<i32>, String)>;

/// The persistence of categories, over a connection of the caller's.
pub struct CategoryModel<C> {
    pub db: Db<C>,
}

impl<C> CategoryModel<C> {
    pub fn new() -> (model: Self)
        ensures
            model.db.connection is None,
    {
        CategoryModel { db: Db::new() }
    }

    /// Takes over the connection that an attempt to reach the store gave.
    pub fn open(self, connected: Result<C, String>) -> (res: Result<Self, ErrorType>)
        ensures
            match connected {
                Ok(connection) => res is Ok && res->Ok_0.db.connection == Some(connection),
                Err(diagnostic) => res is Err && res->Err_0@ == ErrorTypeView::Db(diagnostic@),
            },
    {
        let mut model = self;
        match model.db.open(connected) {
            Ok(()) => Ok(model),
            Err(kind) => Err(kind),
        }
    }

    /// Gives up the connection, handing it back for the caller to dispose of.
    pub fn close(self) -> (released: Option<C>)
        ensures
            released == self.db.connection,
    {
        let mut model = self;
        model.db.close()
    }

    /// The statement that stores a category: its title and its parent. Its
    /// identity is the store's to give.
    pub fn insert_category(&self, category: &Category) -> (res: Result<Statement, ErrorType>)
        ensures
            match self.db.connection {
                Some(_) => res is Ok && res->Ok_0@ == (StatementView::InsertCategory {
                    title: category.title@,
                    parent_id: category.parent_id,
                }),
                None => res is Err && res->Err_0@ == ErrorTypeView::Model(not_open_message()),
            },
    {
        match self.db.connection() {
            Ok(_) => Ok(
                Statement::InsertCategory {
                    title: category.title.clone(),
                    parent_id: category.parent_id,
                },
            ),
            Err(kind) => Err(kind),
        }
    }

    /// The query for every category, children after their parent.
    pub fn get_categories(&self) -> (res: Result<Statement, ErrorType>)
        ensures
            match self.db.connection {
                Some(_) => res is Ok && res->Ok_0@ == StatementView::SelectCategories,
                None => res is Err && res->Err_0@ == ErrorTypeView::Model(not_open_message()),
            },
    {
        match self.db.connection() {
            Ok(_) => Ok(Statement::SelectCategories),
            Err(kind) => Err(kind),
        }
    }
}

} // verus!
