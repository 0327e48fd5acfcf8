use crate::module::feed::article::model::{batch_script, texts};
use crate::module::feed::dialect::RssFeedView;
use crate::module::feed::entities::{
    Feed, FeedArticle, FeedArticleView, FeedBuilderView, FeedView,
};
use crate::shared::database::StatementView;
use crate::module::feed::model::DbFeeds;
use vstd::prelude::*;

verus! {

/// The feed that a row of a feed listing stands for: what the row holds,
/// and nothing else — no articles, no link, no description.
pub open spec fn feed_of_row(row: (i32, Seq<char>, Seq<char>, Option<i32>)) -> FeedView {
    (FeedBuilderView {
        id: Some(row.0),
        title: Some(row.1),
        xml_url: Some(row.2),
        category_id: row.3,
        ..FeedBuilderView::empty()
    }).build()
}

/// The article that a row of an article listing stands for.
pub open spec fn feed_article_of_row(row: (i32, Seq<char>, Seq<char>)) -> FeedArticleView {
    FeedArticle::spec_from_model(row.0, row.1, row.2)
}

/// The feed to persist for a feed that was fetched: the caller's title in
/// place of the document's, the caller's category where one is given, and
/// everything else as fetched.
pub open spec fn feed_to_add(feed: FeedView, title: Seq<char>, category_id: Option<i32>)
    -> FeedView {
    FeedView {
        title,
        category_id: match category_id {
            Some(id) => Some(id),
            None => feed.category_id,
        },
        ..feed
    }
}

pub struct FeedController {}

impl FeedController {
    pub fn new() -> Self {
        FeedController {  }
    }

    /// Readies a fetched feed for the store.
    pub fn add(&self, feed: Feed, title: String, category_id: Option<i32>) -> (ready: Feed)
        ensures
            ready@ == feed_to_add(feed@, title@, category_id),
    {
        let mut ready = feed;
        ready.title = title;
        if let Some(id) = category_id {
            ready.category_id = Some(id);
        }
        ready
    }

    /// The feeds that the rows of a feed listing stand for, in the rows'
    /// order.
    pub fn get_all(&self, rows: DbFeeds) -> (feeds: Vec<Feed>)
        ensures
            feeds.deep_view() == rows.deep_view().map_values(
                |row: (i32, Seq<char>, Seq<char>, Option<i32>)| feed_of_row(row),
            ),
    {
        let ghost source = rows@;
        let mut feeds: Vec<Feed> = Vec::new();
        for row in it: rows
            invariant
                it.seq() == source,
                feeds@.len() == it.index(),
                forall|k: int|
                    0 <= k < feeds@.len() ==> (#[trigger] feeds@[k])@ == feed_of_row(
                        source[k].deep_view(),
                    ),
        {
            let (id, title, xml_url, category_id) = row;
            let feed = match category_id {
                Some(category_id) => Feed::builder().id(id).title(title).xml_url(
                    xml_url,
                ).category_id(category_id).build(),
                None => Feed::builder().id(id).title(title).xml_url(xml_url).build(),
            };
            feeds.push(feed);
        }
        assert(feeds.deep_view() =~= rows.deep_view().map_values(
            |row: (i32, Seq<char>, Seq<char>, Option<i32>)| feed_of_row(row),
        ));
        feeds
    }

    /// The articles that the rows of an article listing stand for, in the
    /// rows' order.
    pub fn get_articles(&self, rows: Vec<(i32, String, String)>) -> (articles: Vec<FeedArticle>)
        ensures
            articles.deep_view() == rows.deep_view().map_values(
                |row: (i32, Seq<char>, Seq<char>)| feed_article_of_row(row),
            ),
    {
        let ghost source = rows@;
        let mut articles: Vec<FeedArticle> = Vec::new();
        for row in it: rows
            invariant
                it.seq() == source,
                articles@.len() == it.index(),
                forall|k: int|
                    0 <= k < articles@.len() ==> (#[trigger] articles@[k])@
                        == feed_article_of_row(source[k].deep_view()),
        {
            let (id, title, content) = row;
            articles.push(FeedArticle::from_model(id, title, content));
        }
        assert(articles.deep_view() =~= rows.deep_view().map_values(
            |row: (i32, Seq<char>, Seq<char>)| feed_article_of_row(row),
        ));
        articles
    }
}

/// The article rows that a run of statements writes and ties to the feed
/// `feed_id`, in the order written: each row comes with the identity under
/// which the statement that follows it at once ties it to the feed.
pub open spec fn linked_rows(script: Seq<StatementView>, feed_id: i64) -> Seq<
    (i64, Seq<char>, Seq<char>),
>
    decreases script.len(),
{
    if script.len() < 2 {
        seq![]
    } else {
        match (script[0], script[1]) {
            (
                StatementView::InsertArticle { title, content },
                StatementView::InsertFeedArticle { feed_id: owner, article_id },
            ) => if owner == feed_id {
                seq![(article_id, title, content)] + linked_rows(script.skip(2), feed_id)
            } else {
                linked_rows(script.skip(1), feed_id)
            },
            _ => linked_rows(script.skip(1), feed_id),
        }
    }
}

/// The rows that a completed batch leaves for its feed: one for each
/// article, in document order, under the identity the store gave it.
pub open spec fn batch_rows(articles: Seq<(Seq<char>, Seq<char>)>, ids: Seq<i64>) -> Seq<
    (i64, Seq<char>, Seq<char>),
> {
    Seq::new(articles.len(), |i: int| (ids[i], articles[i].0, articles[i].1))
}

proof fn lemma_linked_rows_from(
    feed_id: i64,
    articles: Seq<(Seq<char>, Seq<char>)>,
    ids: Seq<i64>,
    from: int,
)
    requires
        ids.len() == articles.len(),
        0 <= from <= articles.len(),
    ensures
        linked_rows(batch_script(feed_id, articles, ids).skip(2 * from + 1), feed_id)
            == batch_rows(articles, ids).skip(from),
    decreases articles.len() - from,
{
    let script = batch_script(feed_id, articles, ids);
    let tail = script.skip(2 * from + 1);
    if from == articles.len() {
        assert(tail.len() == 1);
        assert(linked_rows(tail, feed_id) =~= batch_rows(articles, ids).skip(from));
    } else {
        assert(tail.len() >= 2);
        assert(tail[0] == script[2 * from + 1]);
        assert(tail[1] == script[2 * from + 2]);
        assert((2 * from + 1) / 2 == from && (2 * from + 1) % 2 == 1);
        assert((2 * from + 2) / 2 - 1 == from && (2 * from + 2) % 2 == 0);
        assert(tail[0] == StatementView::InsertArticle {
            title: articles[from].0,
            content: articles[from].1,
        });
        assert(tail[1] == StatementView::InsertFeedArticle { feed_id, article_id: ids[from] });
        assert(tail.skip(2) =~= script.skip(2 * (from + 1) + 1));
        lemma_linked_rows_from(feed_id, articles, ids, from + 1);
        assert(linked_rows(tail, feed_id) == seq![(ids[from], articles[from].0, articles[from].1)]
            + linked_rows(tail.skip(2), feed_id));
        assert(linked_rows(tail, feed_id) =~= batch_rows(articles, ids).skip(from));
    }
}

/// What a completed batch writes for its feed is, article by article and in
/// document order, the title and content it was given.
pub proof fn lemma_batch_writes_rows(
    feed_id: i64,
    articles: Seq<(Seq<char>, Seq<char>)>,
    ids: Seq<i64>,
)
    requires
        ids.len() == articles.len(),
    ensures
        linked_rows(batch_script(feed_id, articles, ids), feed_id) == batch_rows(articles, ids),
{
    let script = batch_script(feed_id, articles, ids);
    lemma_linked_rows_from(feed_id, articles, ids, 0);
    assert(script.len() >= 2);
    assert(script[0] == StatementView::BeginTransaction);
    assert(linked_rows(script, feed_id) == linked_rows(script.skip(1), feed_id));
    assert(batch_rows(articles, ids).skip(0) =~= batch_rows(articles, ids));
}

/// An RSS document with N items, normalized and then inserted by a batch
/// that runs to completion, leaves N article rows tied to the feed; read
/// back in the order of their identities, which is the order the store gave
/// them in, they yield N articles in document order whose titles and
/// contents are the items' titles and descriptions.
pub proof fn lemma_rss_round_trip(rss: RssFeedView, feed_id: i64, ids: Seq<i64>)
    requires
        ids.len() == rss.channel.items.len(),
        forall|i: int| 0 <= i < ids.len() ==> i32::MIN <= #[trigger] ids[i] <= i32::MAX,
        forall|i: int, j: int| 0 <= i < j < ids.len() ==> ids[i] < ids[j],
    ensures
        ({
            let items = rss.channel.items;
            let feed = Feed::spec_from_rss(rss);
            let script = batch_script(feed_id, texts(feed.articles), ids);
            let rows = linked_rows(script, feed_id);
            let read = rows.map_values(
                |row: (i64, Seq<char>, Seq<char>)| feed_article_of_row((row.0 as i32, row.1, row.2)),
            );
            &&& rows.len() == items.len()
            &&& forall|i: int, j: int| 0 <= i < j < rows.len() ==> rows[i].0 < rows[j].0
            &&& read.len() == items.len()
            &&& forall|i: int|
                0 <= i < items.len() ==> {
                    &&& (#[trigger] read[i]).id == Some(ids[i] as i32)
                    &&& read[i].title == items[i].title
                    &&& read[i].content == items[i].description
                }
        }),
{
    let feed = Feed::spec_from_rss(rss);
    lemma_batch_writes_rows(feed_id, texts(feed.articles), ids);
}

} // verus!
