use crate::module::feed::entities::{Feed, FeedView};
use crate::shared::types::{text_or_empty, unwrap_text};
use vstd::prelude::*;

verus! {

/// A named group of feeds, possibly inside another group.
#[derive(Debug, Clone, PartialEq, Eq)]
pub struct Category {
    pub id: i32,
    pub title: String,
    pub parent_id: Option<i32>,
    pub feeds: Option<Vec<Feed>>,
}

/// Mathematical value of a [`Category`].
pub struct CategoryView {
    pub id: i32,
    pub title: Seq<char>,
    pub parent_id: Option<i32>,
    pub feeds: Option<Seq<FeedView>>,
}

impl View for Category {
    type V = CategoryView;

    open spec fn view(&self) -> CategoryView {
        CategoryView {
            id: self.id,
            title: self.title@,
            parent_id: self.parent_id,
            feeds: self.feeds.deep_view(),
        }
    }
}

impl DeepView for Category {
    type V = CategoryView;

    open spec fn deep_view(&self) -> CategoryView {
        self@
    }
}

/// Collects the fields of a [`Category`] one by one.
pub struct CategoryBuilder {
    pub id: Option<i32>,
    pub title: Option<String>,
    pub parent_id: Option<i32>,
    pub feeds: Option<Vec<Feed>>,
}

/// Mathematical value of a [`CategoryBuilder`].
pub struct CategoryBuilderView {
    pub id: Option<i32>,
    pub title: Option<Seq<char>>,
    pub parent_id: Option<i32>,
    pub feeds: Option<Seq<FeedView>>,
}

impl View for CategoryBuilder {
    type V = CategoryBuilderView;

    open spec fn view(&self) -> CategoryBuilderView {
        CategoryBuilderView {
            id: self.id,
            title: self.title.deep_view(),
            parent_id: self.parent_id,
            feeds: self.feeds.deep_view(),
        }
    }
}

impl CategoryBuilderView {
    /// A builder on which nothing was set.
    pub open spec fn empty() -> CategoryBuilderView {
        CategoryBuilderView { id: None, title: None, parent_id: None, feeds: None }
    }

    /// The category that the builder stands for: an identity that was not
    /// set is 0, a title that was not set is empty, a parent or feeds that
    /// were not set are absent.
    pub open spec fn build(self) -> CategoryView {
        CategoryView {
            id: match self.id {
                Some(id) => id,
                None => 0,
            },
            title: text_or_empty(self.title),
            parent_id: self.parent_id,
            feeds: self.feeds,
        }
    }
}

impl Category {
    pub fn builder() -> (fresh: CategoryBuilder)
        ensures
            fresh@ == CategoryBuilderView::empty(),
    {
        CategoryBuilder { id: None, title: None, parent_id: None, feeds: None }
    }
}

impl CategoryBuilder {
    pub fn id(self, id: i32) -> (next: Self)
        ensures
            next@ == (CategoryBuilderView { id: Some(id), ..self@ }),
    {
        let mut next = self;
        next.id = Some(id);
        next
    }

    pub fn title(self, title: String) -> (next: Self)
        ensures
            next@ == (CategoryBuilderView { title: Some(title@), ..self@ }),
    {
        let mut next = self;
        next.title = Some(title);
        next
    }

    pub fn parent(self, id: i32) -> (next: Self)
        ensures
            next@ == (CategoryBuilderView { parent_id: Some(id), ..self@ }),
    {
        let mut next = self;
        next.parent_id = Some(id);
        next
    }

    pub fn _feeds(self, feeds: Vec<Feed>) -> (next: Self)
        ensures
            next@ == (CategoryBuilderView { feeds: Some(feeds.deep_view()), ..self@ }),
    {
        let mut next = self;
        next.feeds = Some(feeds);
        next
    }

    pub fn build(self) -> (category: Category)
        ensures
            category@ == self@.build(),
    {
        Category {
            id: match self.id {
                Some(id) => id,
                None => 0,
            },
            title: unwrap_text(self.title),
            parent_id: self.parent_id,
            feeds: self.feeds,
        }
    }
}

} // verus!
