use crate::module::feed::article::entities::Article;
use crate::module::feed::entities::{FeedArticle, FeedArticleView};
use crate::shared::database::{reply_view, Db, IDb, Reply, ReplyView, Statement, StatementView};
use crate::shared::errors::{not_open_message, ErrorType, ErrorTypeView};
use vstd::prelude::*;

verus! {

/// Where the insertion of a batch of articles stands.
pub enum BatchStage {
    /// The transaction is about to be opened.
    Begin,
    /// The article at this index is about to be inserted.
    Article(usize),
    /// The article at this index, stored under this identity, is about to be
    /// tied to the feed.
    Link(usize, i64),
    /// Every article is in; the transaction is about to be committed.
    Commit,
    Done,
    Failed(String),
}

/// Mathematical value of a [`BatchStage`].
pub enum BatchStageView {
    Begin,
    Article(int),
    Link(int, i64),
    Commit,
    Done,
    Failed(Seq<char>),
}

impl View for BatchStage {
    type V = BatchStageView;

    open spec fn view(&self) -> BatchStageView {
        match self {
            BatchStage::Begin => BatchStageView::Begin,
            BatchStage::Article(index) => BatchStageView::Article(*index as int),
            BatchStage::Link(index, id) => BatchStageView::Link(*index as int, *id),
            BatchStage::Commit => BatchStageView::Commit,
            BatchStage::Done => BatchStageView::Done,
            BatchStage::Failed(diagnostic) => BatchStageView::Failed(diagnostic@),
        }
    }
}

/// The insertion of one feed's articles, statement by statement: the caller
/// runs what [`ArticleInsert::next`] hands out and reports the store's answer
/// to [`ArticleInsert::reply`], until there is nothing left to run.
pub struct ArticleInsert<'a> {
    feed_id: i64,
    articles: &'a Vec<FeedArticle>,
    stage: BatchStage,
}

/// Mathematical value of an [`ArticleInsert`]: the feed, the title and
/// content of each article in document order, and the stage reached.
pub struct ArticleInsertView {
    pub feed_id: i64,
    pub articles: Seq<(Seq<char>, Seq<char>)>,
    pub stage: BatchStageView,
}

/// The title and content of each article, in order.
pub open spec fn texts(articles: Seq<FeedArticleView>) -> Seq<(Seq<char>, Seq<char>)> {
    articles.map_values(|article: FeedArticleView| (article.title, article.content))
}

impl ArticleInsertView {
    /// A batch on which nothing has been run yet.
    pub open spec fn start(feed_id: i64, articles: Seq<(Seq<char>, Seq<char>)>) -> Self {
        ArticleInsertView { feed_id, articles, stage: BatchStageView::Begin }
    }

    /// The stage that turns to the article at `index`, or to the commit
    /// where the articles are used up.
    pub open spec fn stage_for(self, index: int) -> BatchStageView {
        if index < self.articles.len() {
            BatchStageView::Article(index)
        } else {
            BatchStageView::Commit
        }
    }

    /// Stages that name an article name one that exists.
    pub open spec fn wf(self) -> bool {
        match self.stage {
            BatchStageView::Article(index) => 0 <= index < self.articles.len(),
            BatchStageView::Link(index, _) => 0 <= index < self.articles.len(),
            _ => true,
        }
    }

    /// The statement to run now; `None` once the batch is over.
    pub open spec fn next(self) -> Option<StatementView> {
        match self.stage {
            BatchStageView::Begin => Some(StatementView::BeginTransaction),
            BatchStageView::Article(index) => Some(
                StatementView::InsertArticle {
                    title: self.articles[index].0,
                    content: self.articles[index].1,
                },
            ),
            BatchStageView::Link(_, article_id) => Some(
                StatementView::InsertFeedArticle { feed_id: self.feed_id, article_id },
            ),
            BatchStageView::Commit => Some(StatementView::Commit),
            BatchStageView::Done => None,
            BatchStageView::Failed(_) => None,
        }
    }

    /// The batch after the store answered the statement that was run. A
    /// failure ends the batch where it stands; nothing is undone.
    pub open spec fn reply(self, answer: ReplyView) -> Self {
        match (self.stage, answer) {
            (BatchStageView::Done, _) => self,
            (BatchStageView::Failed(_), _) => self,
            (_, Err(diagnostic)) => ArticleInsertView {
                stage: BatchStageView::Failed(diagnostic),
                ..self
            },
            (BatchStageView::Begin, Ok(_)) => ArticleInsertView {
                stage: self.stage_for(0),
                ..self
            },
            (BatchStageView::Article(index), Ok(article_id)) => ArticleInsertView {
                stage: BatchStageView::Link(index, article_id),
                ..self
            },
            (BatchStageView::Link(index, _), Ok(_)) => ArticleInsertView {
                stage: self.stage_for(index + 1),
                ..self
            },
            (BatchStageView::Commit, Ok(_)) => ArticleInsertView {
                stage: BatchStageView::Done,
                ..self
            },
        }
    }

    /// How the batch ended; `None` while there is still something to run.
    pub open spec fn outcome(self) -> Option<Result<(), ErrorTypeView>> {
        match self.stage {
            BatchStageView::Done => Some(Ok(())),
            BatchStageView::Failed(diagnostic) => Some(Err(ErrorTypeView::Model(diagnostic))),
            _ => None,
        }
    }

    /// The statements run from here, one for each answer of the store in
    /// turn, for as long as the batch has something to run.
    pub open spec fn trace(self, replies: Seq<ReplyView>) -> Seq<StatementView>
        decreases replies.len(),
    {
        if replies.len() == 0 || self.next() is None {
            seq![]
        } else {
            seq![self.next()->Some_0] + self.reply(replies[0]).trace(replies.skip(1))
        }
    }

    /// The batch after those statements were run and answered.
    pub open spec fn after(self, replies: Seq<ReplyView>) -> Self
        decreases replies.len(),
    {
        if replies.len() == 0 || self.next() is None {
            self
        } else {
            self.reply(replies[0]).after(replies.skip(1))
        }
    }
}

impl<'a> View for ArticleInsert<'a> {
    type V = ArticleInsertView;

    closed spec fn view(&self) -> ArticleInsertView {
        ArticleInsertView {
            feed_id: self.feed_id,
            articles: texts(self.articles.deep_view()),
            stage: self.stage@,
        }
    }
}

impl<'a> ArticleInsert<'a> {
    #[verifier::type_invariant]
    spec fn inv(self) -> bool {
        match self.stage {
            BatchStage::Article(index) => index < self.articles@.len(),
            BatchStage::Link(index, _) => index < self.articles@.len(),
            _ => true,
        }
    }

    /// A batch that will insert `articles` for the feed `feed_id`.
    pub fn new(feed_id: i64, articles: &'a Vec<FeedArticle>) -> (batch: Self)
        ensures
            batch@ == ArticleInsertView::start(feed_id, texts(articles.deep_view())),
            batch@.wf(),
    {
        ArticleInsert { feed_id, articles, stage: BatchStage::Begin }
    }

    /// The statement to run now; `None` once the batch is over.
    pub fn next(&self) -> (statement: Option<Statement>)
        ensures
            statement.deep_view() == self@.next(),
            statement is None <==> self@.outcome() is Some,
            self@.wf(),
    {
        proof {
            use_type_invariant(self);
        }
        match &self.stage {
            BatchStage::Begin => Some(Statement::BeginTransaction),
            BatchStage::Article(index) => {
                let article = &self.articles[*index];
                Some(
                    Statement::InsertArticle {
                        title: article.title.clone(),
                        content: article.content.clone(),
                    },
                )
            },
            BatchStage::Link(_, article_id) => Some(
                Statement::InsertFeedArticle { feed_id: self.feed_id, article_id: *article_id },
            ),
            BatchStage::Commit => Some(Statement::Commit),
            BatchStage::Done => None,
            BatchStage::Failed(_) => None,
        }
    }

    /// Takes the store's answer to the statement that was run.
    pub fn reply(self, answer: Reply) -> (batch: Self)
        ensures
            batch@ == self@.reply(reply_view(answer)),
            batch@.wf(),
    {
        proof {
            use_type_invariant(&self);
        }
        let ArticleInsert { feed_id, articles, stage } = self;
        let count = articles.len();
        let stage = match stage {
            BatchStage::Done => BatchStage::Done,
            BatchStage::Failed(diagnostic) => BatchStage::Failed(diagnostic),
            BatchStage::Begin => match answer {
                Err(diagnostic) => BatchStage::Failed(diagnostic),
                Ok(_) => if 0 < count {
                    BatchStage::Article(0)
                } else {
                    BatchStage::Commit
                },
            },
            BatchStage::Article(index) => match answer {
                Err(diagnostic) => BatchStage::Failed(diagnostic),
                Ok(article_id) => BatchStage::Link(index, article_id),
            },
            BatchStage::Link(index, _) => match answer {
                Err(diagnostic) => BatchStage::Failed(diagnostic),
                Ok(_) => if index + 1 < count {
                    BatchStage::Article(index + 1)
                } else {
                    BatchStage::Commit
                },
            },
            BatchStage::Commit => match answer {
                Err(diagnostic) => BatchStage::Failed(diagnostic),
                Ok(_) => BatchStage::Done,
            },
        };
        ArticleInsert { feed_id, articles, stage }
    }

    /// How the batch ended; `None` while there is still something to run.
    pub fn outcome(&self) -> (ended: Option<Result<(), ErrorType>>)
        ensures
            match self@.outcome() {
                None => ended is None,
                Some(Ok(())) => ended == Some(Ok::<(), ErrorType>(())),
                Some(Err(kind)) => ended matches Some(Err(e)) && e@ == kind,
            },
    {
        match &self.stage {
            BatchStage::Done => Some(Ok(())),
            BatchStage::Failed(diagnostic) => Some(
                Err(ErrorType::store_operation_failed(diagnostic.clone())),
            ),
            _ => None,
        }
    }
}

/// The statement at place `at` of a batch whose every statement succeeds,
/// where the store gives the articles the identities `ids`: the opening of
/// the transaction, then for each article in order its row followed at once
/// by its tie to the feed, then the commit.
pub open spec fn batch_statement(
    feed_id: i64,
    articles: Seq<(Seq<char>, Seq<char>)>,
    ids: Seq<i64>,
    at: int,
) -> StatementView {
    if at == 0 {
        StatementView::BeginTransaction
    } else if at == 2 * articles.len() + 1 {
        StatementView::Commit
    } else if at % 2 == 1 {
        StatementView::InsertArticle { title: articles[at / 2].0, content: articles[at / 2].1 }
    } else {
        StatementView::InsertFeedArticle { feed_id, article_id: ids[at / 2 - 1] }
    }
}

/// All the statements of such a batch, in the order they are run.
pub open spec fn batch_script(
    feed_id: i64,
    articles: Seq<(Seq<char>, Seq<char>)>,
    ids: Seq<i64>,
) -> Seq<StatementView> {
    Seq::new(
        (2 * articles.len() + 2) as nat,
        |at: int| batch_statement(feed_id, articles, ids, at),
    )
}

/// The answers `replies` give each article that they reach the identity
/// that `ids` names for it.
pub open spec fn replies_name(replies: Seq<ReplyView>, ids: Seq<i64>) -> bool {
    forall|i: int|
        0 <= i < ids.len() && 2 * i + 1 < replies.len() && (#[trigger] replies[2 * i + 1]) is Ok
            ==> replies[2 * i + 1] == Ok::<i64, Seq<char>>(ids[i])
}

/// The batch that has run `at` statements, all with success.
pub open spec fn batch_at(
    feed_id: i64,
    articles: Seq<(Seq<char>, Seq<char>)>,
    ids: Seq<i64>,
    at: int,
) -> ArticleInsertView {
    ArticleInsertView {
        feed_id,
        articles,
        stage: if at == 0 {
            BatchStageView::Begin
        } else if at == 2 * articles.len() + 1 {
            BatchStageView::Commit
        } else if at == 2 * articles.len() + 2 {
            BatchStageView::Done
        } else if at % 2 == 1 {
            BatchStageView::Article(at / 2)
        } else {
            BatchStageView::Link(at / 2 - 1, ids[at / 2 - 1])
        },
    }
}

proof fn lemma_batch_from(
    feed_id: i64,
    articles: Seq<(Seq<char>, Seq<char>)>,
    ids: Seq<i64>,
    replies: Seq<ReplyView>,
    at: int,
)
    requires
        ids.len() == articles.len(),
        replies.len() <= 2 * articles.len() + 2,
        0 <= at <= replies.len(),
        forall|q: int| 0 <= q < replies.len() - 1 ==> (#[trigger] replies[q]) is Ok,
        forall|q: int| 0 <= q < at ==> (#[trigger] replies[q]) is Ok,
        replies_name(replies, ids),
    ensures
        batch_at(feed_id, articles, ids, at).trace(replies.skip(at)) == batch_script(
            feed_id,
            articles,
            ids,
        ).subrange(at, replies.len() as int),
        batch_at(feed_id, articles, ids, at).after(replies.skip(at)) == (if at < replies.len()
            && replies.last() is Err {
            ArticleInsertView {
                feed_id,
                articles,
                stage: BatchStageView::Failed(replies.last()->Err_0),
            }
        } else {
            batch_at(feed_id, articles, ids, replies.len() as int)
        }),
    decreases replies.len() - at,
{
    let here = batch_at(feed_id, articles, ids, at);
    let script = batch_script(feed_id, articles, ids);
    let rest = replies.skip(at);
    if at == replies.len() {
        assert(rest.len() == 0);
        assert(here.trace(rest) =~= script.subrange(at, replies.len() as int));
        assert(here.after(rest) == here);
    } else {
        assert(here.next() == Some(batch_statement(feed_id, articles, ids, at)));
        assert(rest.len() > 0);
        assert(rest[0] == replies[at]);
        assert(rest.skip(1) =~= replies.skip(at + 1));
        let then = here.reply(replies[at]);
        assert(here.trace(rest) == seq![batch_statement(feed_id, articles, ids, at)] + then.trace(
            replies.skip(at + 1),
        ));
        assert(here.after(rest) == then.after(replies.skip(at + 1)));
        if replies[at] is Ok {
            if at % 2 == 1 && at != 2 * articles.len() + 1 {
                let i = at / 2;
                assert(2 * i + 1 == at);
                assert(replies[2 * i + 1] is Ok);
                assert(replies[at] == Ok::<i64, Seq<char>>(ids[i]));
            }
            assert(then == batch_at(feed_id, articles, ids, at + 1));
            assert forall|q: int| 0 <= q < at + 1 implies (#[trigger] replies[q]) is Ok by {}
            lemma_batch_from(feed_id, articles, ids, replies, at + 1);
            assert(here.trace(rest) =~= script.subrange(at, replies.len() as int));
            if at + 1 == replies.len() {
                assert(replies.last() == replies[at]);
            }
        } else {
            assert(at == replies.len() - 1);
            assert(replies.last() == replies[at]);
            assert(then.next() is None);
            assert(replies.skip(at + 1).len() == 0);
            assert(then.trace(replies.skip(at + 1)) =~= Seq::<StatementView>::empty());
            assert(then.after(replies.skip(at + 1)) == then);
            assert(here.trace(rest) =~= script.subrange(at, replies.len() as int));
        }
    }
}

/// A batch whose every statement succeeds runs, in this order: the opening
/// of the transaction; for each article in document order, its row and then
/// at once its tie to the feed, under the identity the store gave the row;
/// the commit. It then ends well.
pub proof fn lemma_batch_completes(
    feed_id: i64,
    articles: Seq<(Seq<char>, Seq<char>)>,
    ids: Seq<i64>,
    replies: Seq<ReplyView>,
)
    requires
        ids.len() == articles.len(),
        replies.len() == 2 * articles.len() + 2,
        forall|q: int| 0 <= q < replies.len() ==> (#[trigger] replies[q]) is Ok,
        forall|i: int|
            0 <= i < ids.len() ==> (#[trigger] replies[2 * i + 1]) == Ok::<i64, Seq<char>>(
                ids[i],
            ),
    ensures
        ArticleInsertView::start(feed_id, articles).trace(replies) == batch_script(
            feed_id,
            articles,
            ids,
        ),
        ArticleInsertView::start(feed_id, articles).after(replies).outcome() == Some(
            Ok::<(), ErrorTypeView>(()),
        ),
        ArticleInsertView::start(feed_id, articles).after(replies).next() is None,
{
    let script = batch_script(feed_id, articles, ids);
    lemma_batch_from(feed_id, articles, ids, replies, 0);
    assert(replies.skip(0) =~= replies);
    assert(script.subrange(0, replies.len() as int) =~= script);
    assert(batch_at(feed_id, articles, ids, 0) == ArticleInsertView::start(feed_id, articles));
}

/// A batch whose statement at place `at` is the first to fail has run the
/// statements up to and including that one, in the order of a complete
/// batch, and nothing after it: no further row, no commit and nothing that
/// undoes what was run. It ends with a model error that carries the store's
/// diagnostic.
pub proof fn lemma_batch_stops_at_failure(
    feed_id: i64,
    articles: Seq<(Seq<char>, Seq<char>)>,
    ids: Seq<i64>,
    replies: Seq<ReplyView>,
    at: int,
)
    requires
        ids.len() == articles.len(),
        0 <= at < 2 * articles.len() + 2,
        replies.len() == at + 1,
        forall|q: int| 0 <= q < at ==> (#[trigger] replies[q]) is Ok,
        replies[at] is Err,
        forall|i: int|
            0 <= i < ids.len() && 2 * i + 1 < at ==> (#[trigger] replies[2 * i + 1]) == Ok::<
                i64,
                Seq<char>,
            >(ids[i]),
    ensures
        ArticleInsertView::start(feed_id, articles).trace(replies) == batch_script(
            feed_id,
            articles,
            ids,
        ).take(at + 1),
        ArticleInsertView::start(feed_id, articles).after(replies).outcome() == Some(
            Err::<(), ErrorTypeView>(ErrorTypeView::Model(replies[at]->Err_0)),
        ),
        ArticleInsertView::start(feed_id, articles).after(replies).next() is None,
{
    let script = batch_script(feed_id, articles, ids);
    assert(replies_name(replies, ids)) by {
        assert forall|i: int|
            0 <= i < ids.len() && 2 * i + 1 < replies.len() && (#[trigger] replies[2 * i
                + 1]) is Ok implies replies[2 * i + 1] == Ok::<i64, Seq<char>>(ids[i]) by {
            if 2 * i + 1 == at {
            }
        }
    }
    lemma_batch_from(feed_id, articles, ids, replies, 0);
    assert(replies.skip(0) =~= replies);
    assert(script.subrange(0, replies.len() as int) =~= script.take(at + 1));
    assert(batch_at(feed_id, articles, ids, 0) == ArticleInsertView::start(feed_id, articles));
    assert(replies.last() == replies[at]);
}

/// The persistence of articles, over a connection of the caller's.
pub struct ArticleModel<C> {
    pub db: Db<C>,
}

impl<C> ArticleModel<C> {
    pub fn new() -> (model: Self)
        ensures
            model.db.connection is None,
    {
        ArticleModel { db: Db::new() }
    }

    /// Takes over the connection that an attempt to reach the store gave.
    pub fn open(self, connected: Result<C, String>) -> (res: Result<Self, ErrorType>)
        ensures
            match connected {
                Ok(connection) => res is Ok && res->Ok_0.db.connection == Some(connection),
                Err(diagnostic) => res is Err && res->Err_0@ == ErrorTypeView::Db(diagnostic@),
            },
    {
        let mut model = self;
        match model.db.open(connected) {
            Ok(()) => Ok(model),
            Err(kind) => Err(kind),
        }
    }

    /// Gives up the connection, handing it back for the caller to dispose of.
    pub fn close(self) -> (released: Option<C>)
        ensures
            released == self.db.connection,
    {
        let mut model = self;
        model.db.close()
    }

    /// The statement that stores one article on its own, tied to no feed.
    pub fn _insert_article(&self, article: &Article) -> (res: Result<Statement, ErrorType>)
        ensures
            match self.db.connection {
                Some(_) => res is Ok && res->Ok_0@ == (StatementView::InsertArticle {
                    title: article.title@,
                    content: article.content@,
                }),
                None => res is Err && res->Err_0@ == ErrorTypeView::Model(not_open_message()),
            },
    {
        match self.db.connection() {
            Ok(_) => Ok(
                Statement::InsertArticle {
                    title: article.title.clone(),
                    content: article.content.clone(),
                },
            ),
            Err(kind) => Err(kind),
        }
    }

    /// Starts the insertion of a feed's articles, each with its tie to the
    /// feed, inside one transaction.
    pub fn insert_articles<'a>(&self, feed_id: i64, articles: &'a Vec<FeedArticle>) -> (res:
        Result<ArticleInsert<'a>, ErrorType>)
        ensures
            match self.db.connection {
                Some(_) => res is Ok && res->Ok_0@ == ArticleInsertView::start(
                    feed_id,
                    texts(articles.deep_view()),
                ),
                None => res is Err && res->Err_0@ == ErrorTypeView::Model(not_open_message()),
            },
    {
        match self.db.connection() {
            Ok(_) => Ok(ArticleInsert::new(feed_id, articles)),
            Err(kind) => Err(kind),
        }
    }

    /// The query for the articles of one feed, by ascending identity.
    pub fn get_articles_by_feed(&self, feed_id: i32) -> (res: Result<Statement, ErrorType>)
        ensures
            match self.db.connection {
                Some(_) => res is Ok && res->Ok_0@ == (StatementView::SelectArticlesByFeed {
                    feed_id,
                }),
                None => res is Err && res->Err_0@ == ErrorTypeView::Model(not_open_message()),
            },
    {
        match self.db.connection() {
            Ok(_) => Ok(Statement::SelectArticlesByFeed { feed_id }),
            Err(kind) => Err(kind),
        }
    }
}

} // verus!
