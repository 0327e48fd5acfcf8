use vstd::prelude::*;

verus! {

/// An RSS 2.0 document.
#[derive(Debug, Clone, PartialEq, Eq)]
pub struct RssFeed {
    pub channel: Channel,
}

/// Mathematical value of a [`RssFeed`].
pub struct RssFeedView {
    pub channel: ChannelView,
}

impl View for RssFeed {
    type V = RssFeedView;

    open spec fn view(&self) -> RssFeedView {
        RssFeedView {
            channel: self.channel@,
        }
    }
}

impl DeepView for RssFeed {
    type V = RssFeedView;

    open spec fn deep_view(&self) -> RssFeedView {
        self@
    }
}

/// The one channel of an RSS document.
#[derive(Debug, Clone, PartialEq, Eq)]
pub struct Channel {
    pub title: String,
    pub description: Option<String>,
    pub items: Vec<Item>,
}

/// Mathematical value of a [`Channel`].
pub struct ChannelView {
    pub title: Seq<char>,
    pub description: Option<Seq<char>>,
    pub items: Seq<ItemView>,
}

impl View for Channel {
    type V = ChannelView;

    open spec fn view(&self) -> ChannelView {
        ChannelView {
            title: self.title@,
            description: self.description.deep_view(),
            items: self.items.deep_view(),
        }
    }
}

impl DeepView for Channel {
    type V = ChannelView;

    open spec fn deep_view(&self) -> ChannelView {
        self@
    }
}

/// One item of an RSS channel.
#[derive(Debug, Clone, PartialEq, Eq)]
pub struct Item {
    pub title: String,
    pub link: Option<String>,
    pub description: String,
    pub author: Option<String>,
    pub category: Option<Vec<Category>>,
    pub comments: Option<String>,
    pub enclosure: Option<Enclosure>,
    pub guid: Option<Guid>,
    pub pub_date: Option<String>,
    pub source: Option<Source>,
}

/// Mathematical value of an [`Item`].
pub struct ItemView {
    pub title: Seq<char>,
    pub link: Option<Seq<char>>,
    pub description: Seq<char>,
    pub author: Option<Seq<char>>,
    pub category: Option<Seq<CategoryView>>,
    pub comments: Option<Seq<char>>,
    pub enclosure: Option<EnclosureView>,
    pub guid: Option<GuidView>,
    pub pub_date: Option<Seq<char>>,
    pub source: Option<SourceView>,
}

impl View for Item {
    type V = ItemView;

    open spec fn view(&self) -> ItemView {
        ItemView {
            title: self.title@,
            link: self.link.deep_view(),
            description: self.description@,
            author: self.author.deep_view(),
            category: self.category.deep_view(),
            comments: self.comments.deep_view(),
            enclosure: self.enclosure.deep_view(),
            guid: self.guid.deep_view(),
            pub_date: self.pub_date.deep_view(),
            source: self.source.deep_view(),
        }
    }
}

impl DeepView for Item {
    type V = ItemView;

    open spec fn deep_view(&self) -> ItemView {
        self@
    }
}

/// A category that an RSS item is filed under.
#[derive(Debug, Clone, PartialEq, Eq)]
pub struct Category {
    pub domain: Option<String>,
    pub value: Option<String>,
}

/// Mathematical value of a [`Category`].
pub struct CategoryView {
    pub domain: Option<Seq<char>>,
    pub value: Option<Seq<char>>,
}

impl View for Category {
    type V = CategoryView;

    open spec fn view(&self) -> CategoryView {
        CategoryView {
            domain: self.domain.deep_view(),
            value: self.value.deep_view(),
        }
    }
}

impl DeepView for Category {
    type V = CategoryView;

    open spec fn deep_view(&self) -> CategoryView {
        self@
    }
}

/// A media object attached to an RSS item.
#[derive(Debug, Clone, PartialEq, Eq)]
pub struct Enclosure {
    pub url: Option<String>,
    pub length: Option<i32>,
    pub enclosure_type: Option<String>,
}

/// Mathematical value of an [`Enclosure`].
pub struct EnclosureView {
    pub url: Option<Seq<char>>,
    pub length: Option<i32>,
    pub enclosure_type: Option<Seq<char>>,
}

impl View for Enclosure {
    type V = EnclosureView;

    open spec fn view(&self) -> EnclosureView {
        EnclosureView {
            url: self.url.deep_view(),
            length: self.length,
            enclosure_type: self.enclosure_type.deep_view(),
        }
    }
}

impl DeepView for Enclosure {
    type V = EnclosureView;

    open spec fn deep_view(&self) -> EnclosureView {
        self@
    }
}

/// The identifier of an RSS item.
#[derive(Debug, Clone, PartialEq, Eq)]
pub struct Guid {
    pub is_permalink: Option<bool>,
    pub value: Option<String>,
}

/// Mathematical value of a [`Guid`].
pub struct GuidView {
    pub is_permalink: Option<bool>,
    pub value: Option<Seq<char>>,
}

impl View for Guid {
    type V = GuidView;

    open spec fn view(&self) -> GuidView {
        GuidView {
            is_permalink: self.is_permalink,
            value: self.value.deep_view(),
        }
    }
}

impl DeepView for Guid {
    type V = GuidView;

    open spec fn deep_view(&self) -> GuidView {
        self@
    }
}

/// The channel that an RSS item came from.
#[derive(Debug, Clone, PartialEq, Eq)]
pub struct Source {
    pub url: Option<String>,
    pub value: Option<String>,
}

/// Mathematical value of a [`Source`].
pub struct SourceView {
    pub url: Option<Seq<char>>,
    pub value: Option<Seq<char>>,
}

impl View for Source {
    type V = SourceView;

    open spec fn view(&self) -> SourceView {
        SourceView {
            url: self.url.deep_view(),
            value: self.value.deep_view(),
        }
    }
}

impl DeepView for Source {
    type V = SourceView;

    open spec fn deep_view(&self) -> SourceView {
        self@
    }
}

/// An Atom 1.0 document.
#[derive(Debug, Clone, PartialEq, Eq)]
pub struct AtomFeed {
    pub title: String,
    pub subtitle: Option<String>,
    pub entries: Vec<AtomEntry>,
}

/// Mathematical value of an [`AtomFeed`].
pub struct AtomFeedView {
    pub title: Seq<char>,
    pub subtitle: Option<Seq<char>>,
    pub entries: Seq<AtomEntryView>,
}

impl View for AtomFeed {
    type V = AtomFeedView;

    open spec fn view(&self) -> AtomFeedView {
        AtomFeedView {
            title: self.title@,
            subtitle: self.subtitle.deep_view(),
            entries: self.entries.deep_view(),
        }
    }
}

impl DeepView for AtomFeed {
    type V = AtomFeedView;

    open spec fn deep_view(&self) -> AtomFeedView {
        self@
    }
}

/// One entry of an Atom feed.
#[derive(Debug, Clone, PartialEq, Eq)]
pub struct AtomEntry {
    pub title: String,
    pub links: Option<Vec<AtomLink>>,
    pub id: Option<String>,
    pub updated: Option<String>,
    pub published: Option<String>,
    pub authors: Option<Vec<AtomPerson>>,
    pub content: AtomContent,
    pub summary: Option<String>,
}

/// Mathematical value of an [`AtomEntry`].
pub struct AtomEntryView {
    pub title: Seq<char>,
    pub links: Option<Seq<AtomLinkView>>,
    pub id: Option<Seq<char>>,
    pub updated: Option<Seq<char>>,
    pub published: Option<Seq<char>>,
    pub authors: Option<Seq<AtomPersonView>>,
    pub content: AtomContentView,
    pub summary: Option<Seq<char>>,
}

impl View for AtomEntry {
    type V = AtomEntryView;

    open spec fn view(&self) -> AtomEntryView {
        AtomEntryView {
            title: self.title@,
            links: self.links.deep_view(),
            id: self.id.deep_view(),
            updated: self.updated.deep_view(),
            published: self.published.deep_view(),
            authors: self.authors.deep_view(),
            content: self.content@,
            summary: self.summary.deep_view(),
        }
    }
}

impl DeepView for AtomEntry {
    type V = AtomEntryView;

    open spec fn deep_view(&self) -> AtomEntryView {
        self@
    }
}

/// A link of an Atom entry.
#[derive(Debug, Clone, PartialEq, Eq)]
pub struct AtomLink {
    pub href: Option<String>,
    pub rel: Option<String>,
    pub link_type: Option<String>,
    pub title: Option<String>,
}

/// Mathematical value of an [`AtomLink`].
pub struct AtomLinkView {
    pub href: Option<Seq<char>>,
    pub rel: Option<Seq<char>>,
    pub link_type: Option<Seq<char>>,
    pub title: Option<Seq<char>>,
}

impl View for AtomLink {
    type V = AtomLinkView;

    open spec fn view(&self) -> AtomLinkView {
        AtomLinkView {
            href: self.href.deep_view(),
            rel: self.rel.deep_view(),
            link_type: self.link_type.deep_view(),
            title: self.title.deep_view(),
        }
    }
}

impl DeepView for AtomLink {
    type V = AtomLinkView;

    open spec fn deep_view(&self) -> AtomLinkView {
        self@
    }
}

/// An author of an Atom entry.
#[derive(Debug, Clone, PartialEq, Eq)]
pub struct AtomPerson {
    pub name: Option<String>,
    pub email: Option<String>,
    pub uri: Option<String>,
}

/// Mathematical value of an [`AtomPerson`].
pub struct AtomPersonView {
    pub name: Option<Seq<char>>,
    pub email: Option<Seq<char>>,
    pub uri: Option<Seq<char>>,
}

impl View for AtomPerson {
    type V = AtomPersonView;

    open spec fn view(&self) -> AtomPersonView {
        AtomPersonView {
            name: self.name.deep_view(),
            email: self.email.deep_view(),
            uri: self.uri.deep_view(),
        }
    }
}

impl DeepView for AtomPerson {
    type V = AtomPersonView;

    open spec fn deep_view(&self) -> AtomPersonView {
        self@
    }
}

/// The content of an Atom entry: its text, and how the text is marked up.
#[derive(Debug, Clone, PartialEq, Eq)]
pub struct AtomContent {
    pub content_type: Option<String>,
    pub content: String,
}

/// Mathematical value of an [`AtomContent`].
pub struct AtomContentView {
    pub content_type: Option<Seq<char>>,
    pub content: Seq<char>,
}

impl View for AtomContent {
    type V = AtomContentView;

    open spec fn view(&self) -> AtomContentView {
        AtomContentView {
            content_type: self.content_type.deep_view(),
            content: self.content@,
        }
    }
}

impl DeepView for AtomContent {
    type V = AtomContentView;

    open spec fn deep_view(&self) -> AtomContentView {
        self@
    }
}

} // verus!
