use crate::module::feed::dialect::{AtomEntry, AtomEntryView, Item, ItemView};
use crate::shared::types::{text_or_empty, unwrap_text};
use vstd::prelude::*;

verus! {

/// One content item, with the feeds it belongs to.
#[derive(Debug, Clone, PartialEq, Eq)]
pub struct Article {
    pub id: Option<i32>,
    pub feed_id: Option<Vec<i32>>,
    pub title: String,
    pub link: Option<String>,
    pub content: String,
    pub pub_date: Option<String>,
}

/// Mathematical value of an [`Article`].
pub struct ArticleView {
    pub id: Option<i32>,
    pub feed_id: Option<Seq<i32>>,
    pub title: Seq<char>,
    pub link: Option<Seq<char>>,
    pub content: Seq<char>,
    pub pub_date: Option<Seq<char>>,
}

impl View for Article {
    type V = ArticleView;

    open spec fn view(&self) -> ArticleView {
        ArticleView {
            id: self.id,
            feed_id: self.feed_id.deep_view(),
            title: self.title@,
            link: self.link.deep_view(),
            content: self.content@,
            pub_date: self.pub_date.deep_view(),
        }
    }
}

impl DeepView for Article {
    type V = ArticleView;

    open spec fn deep_view(&self) -> ArticleView {
        self@
    }
}

/// Collects the fields of an [`Article`] one by one.
pub struct ArticleBuilder {
    pub id: Option<i32>,
    pub feed_id: Option<Vec<i32>>,
    pub title: Option<String>,
    pub link: Option<String>,
    pub content: Option<String>,
    pub pub_date: Option<String>,
}

/// Mathematical value of an [`ArticleBuilder`].
pub struct ArticleBuilderView {
    pub id: Option<i32>,
    pub feed_id: Option<Seq<i32>>,
    pub title: Option<Seq<char>>,
    pub link: Option<Seq<char>>,
    pub content: Option<Seq<char>>,
    pub pub_date: Option<Seq<char>>,
}

impl View for ArticleBuilder {
    type V = ArticleBuilderView;

    open spec fn view(&self) -> ArticleBuilderView {
        ArticleBuilderView {
            id: self.id,
            feed_id: self.feed_id.deep_view(),
            title: self.title.deep_view(),
            link: self.link.deep_view(),
            content: self.content.deep_view(),
            pub_date: self.pub_date.deep_view(),
        }
    }
}

impl ArticleBuilderView {
    /// A builder on which nothing was set.
    pub open spec fn empty() -> ArticleBuilderView {
        ArticleBuilderView {
            id: None,
            feed_id: None,
            title: None,
            link: None,
            content: None,
            pub_date: None,
        }
    }

    /// The article that the builder stands for: a title or content that was
    /// not set is empty, everything else that was not set is absent.
    pub open spec fn build(self) -> ArticleView {
        ArticleView {
            id: self.id,
            feed_id: self.feed_id,
            title: text_or_empty(self.title),
            link: self.link,
            content: text_or_empty(self.content),
            pub_date: self.pub_date,
        }
    }
}

impl Article {
    /// The article that an RSS item normalizes to.
    pub open spec fn spec_from_rss(item: ItemView) -> ArticleView {
        ArticleView {
            id: None,
            feed_id: None,
            title: item.title,
            link: None,
            content: item.description,
            pub_date: item.pub_date,
        }
    }

    /// The article that an Atom entry normalizes to.
    pub open spec fn spec_from_atom(entry: AtomEntryView) -> ArticleView {
        ArticleView {
            id: None,
            feed_id: None,
            title: entry.title,
            link: None,
            content: entry.content.content,
            pub_date: entry.published,
        }
    }

    pub fn builder() -> (fresh: ArticleBuilder)
        ensures
            fresh@ == ArticleBuilderView::empty(),
    {
        ArticleBuilder {
            id: None,
            feed_id: None,
            title: None,
            link: None,
            content: None,
            pub_date: None,
        }
    }

    pub fn from_rss(item: Item) -> (article: Self)
        ensures
            article@ == Self::spec_from_rss(item@),
    {
        Self {
            id: None,
            feed_id: None,
            title: item.title,
            link: None,
            content: item.description,
            pub_date: item.pub_date,
        }
    }

    pub fn from_atom(entry: AtomEntry) -> (article: Self)
        ensures
            article@ == Self::spec_from_atom(entry@),
    {
        Self {
            id: None,
            feed_id: None,
            title: entry.title,
            link: None,
            content: entry.content.content,
            pub_date: entry.published,
        }
    }
}

impl ArticleBuilder {
    pub fn id(self, id: i32) -> (next: Self)
        ensures
            next@ == (ArticleBuilderView { id: Some(id), ..self@ }),
    {
        let mut next = self;
        next.id = Some(id);
        next
    }

    pub fn feed_id(self, feed_id: Vec<i32>) -> (next: Self)
        ensures
            next@ == (ArticleBuilderView { feed_id: Some(feed_id@), ..self@ }),
    {
        let mut next = self;
        proof {
            assert(feed_id.deep_view() =~= feed_id@);
        }
        next.feed_id = Some(feed_id);
        next
    }

    pub fn title(self, title: String) -> (next: Self)
        ensures
            next@ == (ArticleBuilderView { title: Some(title@), ..self@ }),
    {
        let mut next = self;
        next.title = Some(title);
        next
    }

    pub fn _link(self, link: String) -> (next: Self)
        ensures
            next@ == (ArticleBuilderView { link: Some(link@), ..self@ }),
    {
        let mut next = self;
        next.link = Some(link);
        next
    }

    pub fn content(self, content: String) -> (next: Self)
        ensures
            next@ == (ArticleBuilderView { content: Some(content@), ..self@ }),
    {
        let mut next = self;
        next.content = Some(content);
        next
    }

    pub fn _pub_date(self, pub_date: String) -> (next: Self)
        ensures
            next@ == (ArticleBuilderView { pub_date: Some(pub_date@), ..self@ }),
    {
        let mut next = self;
        next.pub_date = Some(pub_date);
        next
    }

    pub fn build(self) -> (article: Article)
        ensures
            article@ == self@.build(),
    {
        Article {
            id: self.id,
            feed_id: self.feed_id,
            title: unwrap_text(self.title),
            link: self.link,
            content: unwrap_text(self.content),
            pub_date: self.pub_date,
        }
    }
}

/// An article built with no title or content given has them empty, never
/// absent; an identity, feeds, link or date that was not given stays absent.
pub proof fn lemma_article_default_fill(builder: ArticleBuilderView)
    ensures
        builder.title is None ==> builder.build().title == Seq::<char>::empty(),
        builder.content is None ==> builder.build().content == Seq::<char>::empty(),
        builder.build().id == builder.id,
        builder.build().feed_id == builder.feed_id,
        builder.build().link == builder.link,
        builder.build().pub_date == builder.pub_date,
        ArticleBuilderView::empty().build() == (ArticleView {
            id: None,
            feed_id: None,
            title: Seq::empty(),
            link: None,
            content: Seq::empty(),
            pub_date: None,
        }),
{
}

} // verus!
