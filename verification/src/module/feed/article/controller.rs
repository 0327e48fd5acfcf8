use crate::module::feed::article::entities::{Article, ArticleBuilderView, ArticleView};
use vstd::prelude::*;

verus! {

/// The article that a row read for the feed `feed_id` stands for: what the
/// row holds, and the one feed it was read for.
pub open spec fn article_of_row(feed_id: i32, row: (i32, Seq<char>, Seq<char>)) -> ArticleView {
    (ArticleBuilderView {
        id: Some(row.0),
        title: Some(row.1),
        content: Some(row.2),
        feed_id: Some(seq![feed_id]),
        ..ArticleBuilderView::empty()
    }).build()
}

pub struct ArticleController {}

impl ArticleController {
    pub fn _new() -> Self {
        ArticleController {  }
    }

    /// The articles that the rows read for the feed `feed_id` stand for, in
    /// the rows' order.
    pub fn get_articles_by_feed(feed_id: i32, rows: Vec<(i32, String, String)>) -> (articles: Vec<
        Article,
    >)
        ensures
            articles.deep_view() == rows.deep_view().map_values(
                |row: (i32, Seq<char>, Seq<char>)| article_of_row(feed_id, row),
            ),
    {
        let ghost source = rows@;
        let mut articles: Vec<Article> = Vec::new();
        for row in it: rows
            invariant
                it.seq() == source,
                articles@.len() == it.index(),
                forall|k: int|
                    0 <= k < articles@.len() ==> (#[trigger] articles@[k])@ == article_of_row(
                        feed_id,
                        source[k].deep_view(),
                    ),
        {
            let (id, title, content) = row;
            let mut owners: Vec<i32> = Vec::new();
            owners.push(feed_id);
            assert(owners@ =~= seq![feed_id]);
            articles.push(
                Article::builder().id(id).title(title).content(content).feed_id(owners).build(),
            );
        }
        assert(articles.deep_view() =~= rows.deep_view().map_values(
            |row: (i32, Seq<char>, Seq<char>)| article_of_row(feed_id, row),
        ));
        articles
    }
}

} // verus!
