use crate::module::feed::dialect::{
    AtomEntry, AtomEntryView, AtomFeed, AtomFeedView, Item, ItemView, RssFeed, RssFeedView,
};
use crate::module::feed::sniff::sniff_events;
use crate::service::xml::document_events;
use crate::shared::errors::{ErrorType, ErrorTypeView};
use crate::shared::types::{text_or_empty, unwrap_text, Url};
use vstd::prelude::*;

verus! {

/// The dialect of a syndication document.
#[derive(Debug, Clone, Copy, PartialEq, Eq, Structural)]
pub enum FeedType {
    Rss,
    Atom,
    Unknown,
}

/// One article as a feed carries it.
#[derive(Debug, Clone, PartialEq, Eq)]
pub struct FeedArticle {
    pub id: Option<i32>,
    pub title: String,
    pub link: Option<String>,
    pub content: String,
    pub pub_date: Option<String>,
}

/// Mathematical value of a [`FeedArticle`].
pub struct FeedArticleView {
    pub id: Option<i32>,
    pub title: Seq<char>,
    pub link: Option<Seq<char>>,
    pub content: Seq<char>,
    pub pub_date: Option<Seq<char>>,
}

impl View for FeedArticle {
    type V = FeedArticleView;

    open spec fn view(&self) -> FeedArticleView {
        FeedArticleView {
            id: self.id,
            title: self.title@,
            link: self.link.deep_view(),
            content: self.content@,
            pub_date: self.pub_date.deep_view(),
        }
    }
}

impl DeepView for FeedArticle {
    type V = FeedArticleView;

    open spec fn deep_view(&self) -> FeedArticleView {
        self@
    }
}

/// A source of syndicated content and its articles, in document order.
#[derive(Debug, Clone, PartialEq, Eq)]
pub struct Feed {
    pub id: Option<i32>,
    pub title: String,
    pub xml_url: String,
    pub link: Option<String>,
    pub description: Option<String>,
    pub articles: Vec<FeedArticle>,
    pub category_id: Option<i32>,
}

/// Mathematical value of a [`Feed`].
pub struct FeedView {
    pub id: Option<i32>,
    pub title: Seq<char>,
    pub xml_url: Seq<char>,
    pub link: Option<Seq<char>>,
    pub description: Option<Seq<char>>,
    pub articles: Seq<FeedArticleView>,
    pub category_id: Option<i32>,
}

impl View for Feed {
    type V = FeedView;

    open spec fn view(&self) -> FeedView {
        FeedView {
            id: self.id,
            title: self.title@,
            xml_url: self.xml_url@,
            link: self.link.deep_view(),
            description: self.description.deep_view(),
            articles: self.articles.deep_view(),
            category_id: self.category_id,
        }
    }
}

impl DeepView for Feed {
    type V = FeedView;

    open spec fn deep_view(&self) -> FeedView {
        self@
    }
}

/// Collects the fields of a [`Feed`] one by one.
pub struct FeedBuilder {
    pub id: Option<i32>,
    pub title: Option<String>,
    pub xml_url: Option<Url>,
    pub link: Option<Url>,
    pub description: Option<String>,
    pub articles: Option<Vec<FeedArticle>>,
    pub category_id: Option<i32>,
}

/// Mathematical value of a [`FeedBuilder`].
pub struct FeedBuilderView {
    pub id: Option<i32>,
    pub title: Option<Seq<char>>,
    pub xml_url: Option<Seq<char>>,
    pub link: Option<Seq<char>>,
    pub description: Option<Seq<char>>,
    pub articles: Option<Seq<FeedArticleView>>,
    pub category_id: Option<i32>,
}

impl View for FeedBuilder {
    type V = FeedBuilderView;

    open spec fn view(&self) -> FeedBuilderView {
        FeedBuilderView {
            id: self.id,
            title: self.title.deep_view(),
            xml_url: self.xml_url.deep_view(),
            link: self.link.deep_view(),
            description: self.description.deep_view(),
            articles: self.articles.deep_view(),
            category_id: self.category_id,
        }
    }
}

impl FeedBuilderView {
    /// A builder on which nothing was set.
    pub open spec fn empty() -> FeedBuilderView {
        FeedBuilderView {
            id: None,
            title: None,
            xml_url: None,
            link: None,
            description: None,
            articles: None,
            category_id: None,
        }
    }

    /// The feed that the builder stands for: texts and articles that were
    /// not set are empty, everything else that was not set is absent.
    pub open spec fn build(self) -> FeedView {
        FeedView {
            id: self.id,
            title: text_or_empty(self.title),
            xml_url: text_or_empty(self.xml_url),
            link: self.link,
            description: self.description,
            articles: match self.articles {
                Some(articles) => articles,
                None => Seq::empty(),
            },
            category_id: self.category_id,
        }
    }
}

impl FeedBuilder {
    pub fn id(self, id: i32) -> (next: Self)
        ensures
            next@ == (FeedBuilderView { id: Some(id), ..self@ }),
    {
        let mut next = self;
        next.id = Some(id);
        next
    }

    pub fn title(self, title: String) -> (next: Self)
        ensures
            next@ == (FeedBuilderView { title: Some(title@), ..self@ }),
    {
        let mut next = self;
        next.title = Some(title);
        next
    }

    pub fn xml_url(self, xml_url: Url) -> (next: Self)
        ensures
            next@ == (FeedBuilderView { xml_url: Some(xml_url@), ..self@ }),
    {
        let mut next = self;
        next.xml_url = Some(xml_url);
        next
    }

    pub fn _link(self, link: Url) -> (next: Self)
        ensures
            next@ == (FeedBuilderView { link: Some(link@), ..self@ }),
    {
        let mut next = self;
        next.link = Some(link);
        next
    }

    pub fn _description(self, description: String) -> (next: Self)
        ensures
            next@ == (FeedBuilderView { description: Some(description@), ..self@ }),
    {
        let mut next = self;
        next.description = Some(description);
        next
    }

    pub fn _articles(self, articles: Vec<FeedArticle>) -> (next: Self)
        ensures
            next@ == (FeedBuilderView { articles: Some(articles.deep_view()), ..self@ }),
    {
        let mut next = self;
        next.articles = Some(articles);
        next
    }

    pub fn category_id(self, category_id: i32) -> (next: Self)
        ensures
            next@ == (FeedBuilderView { category_id: Some(category_id), ..self@ }),
    {
        let mut next = self;
        next.category_id = Some(category_id);
        next
    }

    pub fn build(self) -> (feed: Feed)
        ensures
            feed@ == self@.build(),
    {
        let articles = match self.articles {
            Some(articles) => articles,
            None => Vec::new(),
        };
        let feed = Feed {
            id: self.id,
            title: unwrap_text(self.title),
            xml_url: unwrap_text(self.xml_url),
            link: self.link,
            description: self.description,
            articles,
            category_id: self.category_id,
        };
        assert(feed@.articles =~= self@.build().articles);
        feed
    }
}

impl FeedArticle {
    /// The article that a stored row `(id, title, content)` stands for.
    pub open spec fn spec_from_model(id: i32, title: Seq<char>, content: Seq<char>)
        -> FeedArticleView {
        FeedArticleView { id: Some(id), title, link: None, content, pub_date: None }
    }

    /// The article that an RSS item normalizes to.
    pub open spec fn spec_from_rss(item: ItemView) -> FeedArticleView {
        FeedArticleView {
            id: None,
            title: item.title,
            link: None,
            content: item.description,
            pub_date: item.pub_date,
        }
    }

    /// The article that an Atom entry normalizes to.
    pub open spec fn spec_from_atom(entry: AtomEntryView) -> FeedArticleView {
        FeedArticleView {
            id: None,
            title: entry.title,
            link: None,
            content: entry.content.content,
            pub_date: entry.published,
        }
    }

    pub fn from_model(id: i32, title: String, content: String) -> (article: Self)
        ensures
            article@ == Self::spec_from_model(id, title@, content@),
    {
        Self { id: Some(id), title, link: None, content, pub_date: None }
    }

    pub fn from_rss(item: Item) -> (article: Self)
        ensures
            article@ == Self::spec_from_rss(item@),
    {
        Self {
            id: None,
            title: item.title,
            link: None,
            content: item.description,
            pub_date: item.pub_date,
        }
    }

    pub fn from_atom(entry: AtomEntry) -> (article: Self)
        ensures
            article@ == Self::spec_from_atom(entry@),
    {
        Self {
            id: None,
            title: entry.title,
            link: None,
            content: entry.content.content,
            pub_date: entry.published,
        }
    }
}

impl Feed {
    pub fn builder() -> (fresh: FeedBuilder)
        ensures
            fresh@ == FeedBuilderView::empty(),
    {
        FeedBuilder {
            id: None,
            title: None,
            xml_url: None,
            link: None,
            description: None,
            articles: None,
            category_id: None,
        }
    }

    /// The feed that an RSS document normalizes to: the channel's title, one
    /// article per item in document order, and nothing else set.
    pub open spec fn spec_from_rss(rss: RssFeedView) -> FeedView {
        FeedView {
            id: None,
            title: rss.channel.title,
            xml_url: Seq::empty(),
            link: None,
            description: None,
            articles: rss.channel.items.map_values(
                |item: ItemView| FeedArticle::spec_from_rss(item),
            ),
            category_id: None,
        }
    }

    /// The feed that an Atom document normalizes to: the feed's title, one
    /// article per entry in document order, and nothing else set.
    pub open spec fn spec_from_atom(atom: AtomFeedView) -> FeedView {
        FeedView {
            id: None,
            title: atom.title,
            xml_url: Seq::empty(),
            link: None,
            description: None,
            articles: atom.entries.map_values(
                |entry: AtomEntryView| FeedArticle::spec_from_atom(entry),
            ),
            category_id: None,
        }
    }

    pub fn from_rss(rss: RssFeed) -> (feed: Self)
        ensures
            feed@ == Self::spec_from_rss(rss@),
    {
        let RssFeed { channel } = rss;
        let title = channel.title;
        let items = channel.items;
        let ghost source = items@;
        let mut articles: Vec<FeedArticle> = Vec::new();
        for item in it: items
            invariant
                it.seq() == source,
                articles@.len() == it.index(),
                forall|k: int|
                    0 <= k < articles@.len() ==> (#[trigger] articles@[k])@
                        == FeedArticle::spec_from_rss(source[k]@),
        {
            articles.push(FeedArticle::from_rss(item));
        }
        let feed = Self {
            id: None,
            title,
            xml_url: String::new(),
            link: None,
            description: None,
            articles,
            category_id: None,
        };
        assert(feed@.articles =~= Self::spec_from_rss(rss@).articles);
        feed
    }

    pub fn from_atom(atom: AtomFeed) -> (feed: Self)
        ensures
            feed@ == Self::spec_from_atom(atom@),
    {
        let AtomFeed { title, subtitle: _, entries } = atom;
        let ghost source = entries@;
        let mut articles: Vec<FeedArticle> = Vec::new();
        for entry in it: entries
            invariant
                it.seq() == source,
                articles@.len() == it.index(),
                forall|k: int|
                    0 <= k < articles@.len() ==> (#[trigger] articles@[k])@
                        == FeedArticle::spec_from_atom(source[k]@),
        {
            articles.push(FeedArticle::from_atom(entry));
        }
        let feed = Self {
            id: None,
            title,
            xml_url: String::new(),
            link: None,
            description: None,
            articles,
            category_id: None,
        };
        assert(feed@.articles =~= Self::spec_from_atom(atom@).articles);
        feed
    }
}

/// What a decoder's answer for an RSS document fetched from `url` amounts to.
pub open spec fn rss_outcome(url: Seq<char>, decoded: Result<RssFeed, String>) -> Result<
    FeedView,
    ErrorTypeView,
> {
    match decoded {
        Ok(rss) => Ok(FeedView { xml_url: url, ..Feed::spec_from_rss(rss@) }),
        Err(diagnostic) => Err(ErrorTypeView::XmlDeserialize(diagnostic@)),
    }
}

/// What a decoder's answer for an Atom document fetched from `url` amounts to.
pub open spec fn atom_outcome(url: Seq<char>, decoded: Result<AtomFeed, String>) -> Result<
    FeedView,
    ErrorTypeView,
> {
    match decoded {
        Ok(atom) => Ok(FeedView { xml_url: url, ..Feed::spec_from_atom(atom@) }),
        Err(diagnostic) => Err(ErrorTypeView::XmlDeserialize(diagnostic@)),
    }
}

/// Mathematical value of an acquisition's result.
pub open spec fn acquired(res: Result<Feed, ErrorType>) -> Result<FeedView, ErrorTypeView> {
    match res {
        Ok(feed) => Ok(feed@),
        Err(kind) => Err(kind@),
    }
}

impl Feed {
    /// Turns a fetched document into a feed: sniffs the dialect, has the
    /// matching decoder read the document, normalizes what it returns and
    /// stamps the result with the address the document came from.
    pub fn from_url<'a, R, A>(url: String, content: &'a str, decode_rss: R, decode_atom: A) -> (res:
        Result<Feed, ErrorType>) where
        R: FnOnce(&'a str) -> Result<RssFeed, String>,
        A: FnOnce(&'a str) -> Result<AtomFeed, String>,

        requires
            call_requires(decode_rss, (content,)),
            call_requires(decode_atom, (content,)),
        ensures
            match sniff_events(document_events(content@)) {
                FeedType::Unknown => acquired(res) == Err::<FeedView, ErrorTypeView>(
                    ErrorTypeView::XmlBadFormat,
                ),
                FeedType::Rss => exists|decoded: Result<RssFeed, String>|
                    #[trigger] call_ensures(decode_rss, (content,), decoded) && acquired(res)
                        == rss_outcome(url@, decoded),
                FeedType::Atom => exists|decoded: Result<AtomFeed, String>|
                    #[trigger] call_ensures(decode_atom, (content,), decoded) && acquired(res)
                        == atom_outcome(url@, decoded),
            },
    {
        match Self::sniff(content) {
            FeedType::Unknown => Err(ErrorType::XmlBadFormat),
            FeedType::Rss => Self::from_rss_decoded(url, decode_rss(content)),
            FeedType::Atom => Self::from_atom_decoded(url, decode_atom(content)),
        }
    }

    /// The feed for an RSS document fetched from `url`, given what the
    /// decoder made of it.
    pub fn from_rss_decoded(url: String, decoded: Result<RssFeed, String>) -> (res: Result<
        Feed,
        ErrorType,
    >)
        ensures
            acquired(res) == rss_outcome(url@, decoded),
    {
        match decoded {
            Ok(rss) => {
                let mut feed = Self::from_rss(rss);
                feed.xml_url = url;
                Ok(feed)
            },
            Err(diagnostic) => Err(ErrorType::XmlDeserialize(diagnostic)),
        }
    }

    /// The feed for an Atom document fetched from `url`, given what the
    /// decoder made of it.
    pub fn from_atom_decoded(url: String, decoded: Result<AtomFeed, String>) -> (res: Result<
        Feed,
        ErrorType,
    >)
        ensures
            acquired(res) == atom_outcome(url@, decoded),
    {
        match decoded {
            Ok(atom) => {
                let mut feed = Self::from_atom(atom);
                feed.xml_url = url;
                Ok(feed)
            },
            Err(diagnostic) => Err(ErrorType::XmlDeserialize(diagnostic)),
        }
    }
}

/// An RSS document and an Atom document that say the same — the same title,
/// and item by item the same title, the same text (an item's description, an
/// entry's content) and the same date — normalize to the same feed, whatever
/// else either holds: nothing that only one dialect has is carried over.
pub proof fn lemma_dialects_agree(rss: RssFeedView, atom: AtomFeedView)
    requires
        rss.channel.title == atom.title,
        rss.channel.items.len() == atom.entries.len(),
        forall|i: int|
            0 <= i < rss.channel.items.len() ==> {
                let item = #[trigger] rss.channel.items[i];
                let entry = atom.entries[i];
                &&& item.title == entry.title
                &&& item.description == entry.content.content
                &&& item.pub_date == entry.published
            },
    ensures
        Feed::spec_from_rss(rss) == Feed::spec_from_atom(atom),
{
    assert(Feed::spec_from_rss(rss).articles =~= Feed::spec_from_atom(atom).articles);
}

/// A feed built with no title, address or articles given has them empty,
/// never absent; an identity, link, description or category that was not
/// given stays absent.
pub proof fn lemma_feed_default_fill(builder: FeedBuilderView)
    ensures
        builder.title is None ==> builder.build().title == Seq::<char>::empty(),
        builder.xml_url is None ==> builder.build().xml_url == Seq::<char>::empty(),
        builder.articles is None ==> builder.build().articles == Seq::<FeedArticleView>::empty(),
        builder.build().id == builder.id,
        builder.build().link == builder.link,
        builder.build().description == builder.description,
        builder.build().category_id == builder.category_id,
        FeedBuilderView::empty().build() == (FeedView {
            id: None,
            title: Seq::empty(),
            xml_url: Seq::empty(),
            link: None,
            description: None,
            articles: Seq::empty(),
            category_id: None,
        }),
{
}

} // verus!
