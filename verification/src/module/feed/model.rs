use crate::module::feed::entities::Feed;
use crate::shared::database::{reply_view, Db, IDb, Reply, ReplyView, Statement, StatementView};
use crate::shared::errors::{not_open_message, ErrorType, ErrorTypeView};
use vstd::prelude::*;

verus! {

/// The rows of a feed listing: identity, title, address and, where the feed
/// has one, its category.
pub type DbFeeds = Vec<(i32, String, String, Option<i32>)>;

/// Where the insertion of a feed stands.
pub enum FeedStage {
    /// The feed's own row is about to be inserted.
    Feed,
    /// The feed, stored under `feed_id`, is about to be tied to its category.
    Category { feed_id: i64, category_id: i32 },
    Done(i64),
    Failed(String),
}

/// Mathematical value of a [`FeedStage`].
pub enum FeedStageView {
    Feed,
    Category { feed_id: i64, category_id: i32 },
    Done(i64),
    Failed(Seq<char>),
}

impl View for FeedStage {
    type V = FeedStageView;

    open spec fn view(&self) -> FeedStageView {
        match self {
            FeedStage::Feed => FeedStageView::Feed,
            FeedStage::Category { feed_id, category_id } => FeedStageView::Category {
                feed_id: *feed_id,
                category_id: *category_id,
            },
            FeedStage::Done(feed_id) => FeedStageView::Done(*feed_id),
            FeedStage::Failed(diagnostic) => FeedStageView::Failed(diagnostic@),
        }
    }
}

/// The insertion of one feed, statement by statement: the caller runs what
/// [`FeedInsert::next`] hands out and reports the store's answer to
/// [`FeedInsert::reply`], until there is nothing left to run. The feed's
/// articles are no part of it.
pub struct FeedInsert<'a> {
    feed: &'a Feed,
    stage: FeedStage,
}

/// Mathematical value of a [`FeedInsert`].
pub struct FeedInsertView {
    pub title: Seq<char>,
    pub xml_url: Seq<char>,
    pub category_id: Option<i32>,
    pub stage: FeedStageView,
}

impl FeedInsertView {
    /// An insertion on which nothing has been run yet.
    pub open spec fn start(title: Seq<char>, xml_url: Seq<char>, category_id: Option<i32>) -> Self {
        FeedInsertView { title, xml_url, category_id, stage: FeedStageView::Feed }
    }

    /// The statement to run now; `None` once the insertion is over.
    pub open spec fn next(self) -> Option<StatementView> {
        match self.stage {
            FeedStageView::Feed => Some(
                StatementView::InsertFeed { title: self.title, xml_url: self.xml_url },
            ),
            FeedStageView::Category { feed_id, category_id } => Some(
                StatementView::InsertFeedCategory { feed_id, category_id },
            ),
            FeedStageView::Done(_) => None,
            FeedStageView::Failed(_) => None,
        }
    }

    /// The insertion after the store answered the statement that was run:
    /// the identity that the store reports for the feed's row is the feed's
    /// from then on; a feed with a category is tied to it next; a failure
    /// ends the insertion where it stands, and nothing is undone.
    pub open spec fn reply(self, answer: ReplyView) -> Self {
        match self.stage {
            FeedStageView::Done(_) => self,
            FeedStageView::Failed(_) => self,
            FeedStageView::Feed => match answer {
                Err(diagnostic) => FeedInsertView {
                    stage: FeedStageView::Failed(diagnostic),
                    ..self
                },
                Ok(feed_id) => match self.category_id {
                    Some(category_id) => FeedInsertView {
                        stage: FeedStageView::Category { feed_id, category_id },
                        ..self
                    },
                    None => FeedInsertView { stage: FeedStageView::Done(feed_id), ..self },
                },
            },
            FeedStageView::Category { feed_id, .. } => match answer {
                Err(diagnostic) => FeedInsertView {
                    stage: FeedStageView::Failed(diagnostic),
                    ..self
                },
                Ok(_) => FeedInsertView { stage: FeedStageView::Done(feed_id), ..self },
            },
        }
    }

    /// How the insertion ended: with the feed's identity, or with a model
    /// error that carries the store's diagnostic; `None` while there is
    /// still something to run.
    pub open spec fn outcome(self) -> Option<Result<i64, ErrorTypeView>> {
        match self.stage {
            FeedStageView::Done(feed_id) => Some(Ok(feed_id)),
            FeedStageView::Failed(diagnostic) => Some(Err(ErrorTypeView::Model(diagnostic))),
            _ => None,
        }
    }

    /// The statements run from here, one for each answer of the store in
    /// turn, for as long as the insertion has something to run.
    pub open spec fn trace(self, replies: Seq<ReplyView>) -> Seq<StatementView>
        decreases replies.len(),
    {
        if replies.len() == 0 || self.next() is None {
            seq![]
        } else {
            seq![self.next()->Some_0] + self.reply(replies[0]).trace(replies.skip(1))
        }
    }

    /// The insertion after those statements were run and answered.
    pub open spec fn after(self, replies: Seq<ReplyView>) -> Self
        decreases replies.len(),
    {
        if replies.len() == 0 || self.next() is None {
            self
        } else {
            self.reply(replies[0]).after(replies.skip(1))
        }
    }
}

impl<'a> View for FeedInsert<'a> {
    type V = FeedInsertView;

    closed spec fn view(&self) -> FeedInsertView {
        FeedInsertView {
            title: self.feed.title@,
            xml_url: self.feed.xml_url@,
            category_id: self.feed.category_id,
            stage: self.stage@,
        }
    }
}

impl<'a> FeedInsert<'a> {
    /// An insertion that will store `feed`.
    pub fn new(feed: &'a Feed) -> (insert: Self)
        ensures
            insert@ == FeedInsertView::start(feed.title@, feed.xml_url@, feed.category_id),
    {
        FeedInsert { feed, stage: FeedStage::Feed }
    }

    /// The statement to run now; `None` once the insertion is over.
    pub fn next(&self) -> (statement: Option<Statement>)
        ensures
            statement.deep_view() == self@.next(),
            statement is None <==> self@.outcome() is Some,
    {
        match &self.stage {
            FeedStage::Feed => Some(
                Statement::InsertFeed {
                    title: self.feed.title.clone(),
                    xml_url: self.feed.xml_url.clone(),
                },
            ),
            FeedStage::Category { feed_id, category_id } => Some(
                Statement::InsertFeedCategory { feed_id: *feed_id, category_id: *category_id },
            ),
            FeedStage::Done(_) => None,
            FeedStage::Failed(_) => None,
        }
    }

    /// Takes the store's answer to the statement that was run.
    pub fn reply(self, answer: Reply) -> (insert: Self)
        ensures
            insert@ == self@.reply(reply_view(answer)),
    {
        let FeedInsert { feed, stage } = self;
        let stage = match stage {
            FeedStage::Done(feed_id) => FeedStage::Done(feed_id),
            FeedStage::Failed(diagnostic) => FeedStage::Failed(diagnostic),
            FeedStage::Feed => match answer {
                Err(diagnostic) => FeedStage::Failed(diagnostic),
                Ok(feed_id) => match feed.category_id {
                    Some(category_id) => FeedStage::Category { feed_id, category_id },
                    None => FeedStage::Done(feed_id),
                },
            },
            FeedStage::Category { feed_id, category_id: _ } => match answer {
                Err(diagnostic) => FeedStage::Failed(diagnostic),
                Ok(_) => FeedStage::Done(feed_id),
            },
        };
        FeedInsert { feed, stage }
    }

    /// How the insertion ended; `None` while there is still something to run.
    pub fn outcome(&self) -> (ended: Option<Result<i64, ErrorType>>)
        ensures
            match self@.outcome() {
                None => ended is None,
                Some(Ok(feed_id)) => ended == Some(Ok::<i64, ErrorType>(feed_id)),
                Some(Err(kind)) => ended matches Some(Err(e)) && e@ == kind,
            },
    {
        match &self.stage {
            FeedStage::Done(feed_id) => Some(Ok(*feed_id)),
            FeedStage::Failed(diagnostic) => Some(
                Err(ErrorType::store_operation_failed(diagnostic.clone())),
            ),
            _ => None,
        }
    }
}

/// The statements of a feed's insertion when each succeeds: the feed's row,
/// then, for a feed with a category, its tie to that category under the
/// identity `feed_id` that the store gave the row.
pub open spec fn feed_script(
    title: Seq<char>,
    xml_url: Seq<char>,
    category_id: Option<i32>,
    feed_id: i64,
) -> Seq<StatementView> {
    match category_id {
        Some(category_id) => seq![
            StatementView::InsertFeed { title, xml_url },
            StatementView::InsertFeedCategory { feed_id, category_id },
        ],
        None => seq![StatementView::InsertFeed { title, xml_url }],
    }
}

/// An insertion whose every statement succeeds runs exactly the statements
/// of [`feed_script`], with the identity that the store reported for the
/// feed's row, and ends with that identity.
pub proof fn lemma_feed_insert_completes(
    title: Seq<char>,
    xml_url: Seq<char>,
    category_id: Option<i32>,
    replies: Seq<ReplyView>,
)
    requires
        replies.len() == feed_script(title, xml_url, category_id, 0).len(),
        forall|q: int| 0 <= q < replies.len() ==> (#[trigger] replies[q]) is Ok,
    ensures
        FeedInsertView::start(title, xml_url, category_id).trace(replies) == feed_script(
            title,
            xml_url,
            category_id,
            replies[0]->Ok_0,
        ),
        FeedInsertView::start(title, xml_url, category_id).after(replies).outcome() == Some(
            Ok::<i64, ErrorTypeView>(replies[0]->Ok_0),
        ),
        FeedInsertView::start(title, xml_url, category_id).after(replies).next() is None,
{
    let start = FeedInsertView::start(title, xml_url, category_id);
    let feed_id = replies[0]->Ok_0;
    assert(replies[0] is Ok);
    let second = start.reply(replies[0]);
    let rest = replies.skip(1);
    assert(start.trace(replies) == seq![start.next()->Some_0] + second.trace(rest));
    assert(start.after(replies) == second.after(rest));
    match category_id {
        Some(category) => {
            assert(rest.len() == 1);
            assert(rest[0] == replies[1]);
            assert(replies[1] is Ok);
            let third = second.reply(rest[0]);
            assert(third.next() is None);
            assert(rest.skip(1).len() == 0);
            assert(second.trace(rest) == seq![second.next()->Some_0] + third.trace(rest.skip(1)));
            assert(third.trace(rest.skip(1)) =~= Seq::<StatementView>::empty());
            assert(second.after(rest) == third.after(rest.skip(1)));
            assert(start.trace(replies) =~= feed_script(title, xml_url, category_id, feed_id));
        },
        None => {
            assert(rest.len() == 0);
            assert(second.trace(rest) =~= Seq::<StatementView>::empty());
            assert(start.trace(replies) =~= feed_script(title, xml_url, category_id, feed_id));
        },
    }
}

/// An insertion whose statement at place `at` is the first to fail has run
/// the statements up to and including that one and nothing after it, and
/// ends with a model error that carries the store's diagnostic. Where the
/// feed's row went in and the tie to the category failed, the row stays.
pub proof fn lemma_feed_insert_stops_at_failure(
    title: Seq<char>,
    xml_url: Seq<char>,
    category_id: Option<i32>,
    replies: Seq<ReplyView>,
    at: int,
)
    requires
        0 <= at < feed_script(title, xml_url, category_id, 0).len(),
        replies.len() == at + 1,
        forall|q: int| 0 <= q < at ==> (#[trigger] replies[q]) is Ok,
        replies[at] is Err,
    ensures
        FeedInsertView::start(title, xml_url, category_id).trace(replies) == feed_script(
            title,
            xml_url,
            category_id,
            replies[0]->Ok_0,
        ).take(at + 1),
        FeedInsertView::start(title, xml_url, category_id).after(replies).outcome() == Some(
            Err::<i64, ErrorTypeView>(ErrorTypeView::Model(replies[at]->Err_0)),
        ),
        FeedInsertView::start(title, xml_url, category_id).after(replies).next() is None,
{
    let start = FeedInsertView::start(title, xml_url, category_id);
    let feed_id = replies[0]->Ok_0;
    let script = feed_script(title, xml_url, category_id, feed_id);
    let second = start.reply(replies[0]);
    let rest = replies.skip(1);
    assert(start.trace(replies) == seq![start.next()->Some_0] + second.trace(rest));
    assert(start.after(replies) == second.after(rest));
    if at == 0 {
        assert(rest.len() == 0);
        assert(second.trace(rest) =~= Seq::<StatementView>::empty());
        assert(start.trace(replies) =~= script.take(1));
    } else {
        assert(replies[0] is Ok);
        assert(category_id is Some);
        assert(rest.len() == 1);
        assert(rest[0] == replies[1]);
        let third = second.reply(rest[0]);
        assert(third.next() is None);
        assert(rest.skip(1).len() == 0);
        assert(second.trace(rest) == seq![second.next()->Some_0] + third.trace(rest.skip(1)));
        assert(third.trace(rest.skip(1)) =~= Seq::<StatementView>::empty());
        assert(second.after(rest) == third.after(rest.skip(1)));
        assert(start.trace(replies) =~= script.take(2));
    }
}

/// The persistence of feeds, over a connection of the caller's.
pub struct FeedModel<C> {
    pub db: Db<C>,
}

impl<C> FeedModel<C> {
    pub fn new() -> (model: Self)
        ensures
            model.db.connection is None,
    {
        FeedModel { db: Db::new() }
    }

    /// Takes over the connection that an attempt to reach the store gave.
    pub fn open(self, connected: Result<C, String>) -> (res: Result<Self, ErrorType>)
        ensures
            match connected {
                Ok(connection) => res is Ok && res->Ok_0.db.connection == Some(connection),
                Err(diagnostic) => res is Err && res->Err_0@ == ErrorTypeView::Db(diagnostic@),
            },
    {
        let mut model = self;
        match model.db.open(connected) {
            Ok(()) => Ok(model),
            Err(kind) => Err(kind),
        }
    }

    /// Gives up the connection, handing it back for the caller to dispose of.
    pub fn close(self) -> (released: Option<C>)
        ensures
            released == self.db.connection,
    {
        let mut model = self;
        model.db.close()
    }

    /// Starts the insertion of a feed: its own row and, where it has a
    /// category, its tie to that category.
    pub fn insert_feed<'a>(&self, feed: &'a Feed) -> (res: Result<FeedInsert<'a>, ErrorType>)
        ensures
            match self.db.connection {
                Some(_) => res is Ok && res->Ok_0@ == FeedInsertView::start(
                    feed.title@,
                    feed.xml_url@,
                    feed.category_id,
                ),
                None => res is Err && res->Err_0@ == ErrorTypeView::Model(not_open_message()),
            },
    {
        match self.db.connection() {
            Ok(_) => Ok(FeedInsert::new(feed)),
            Err(kind) => Err(kind),
        }
    }

    /// The query for every feed, each with its category where it has one.
    pub fn get_feeds(&self) -> (res: Result<Statement, ErrorType>)
        ensures
            match self.db.connection {
                Some(_) => res is Ok && res->Ok_0@ == StatementView::SelectFeeds,
                None => res is Err && res->Err_0@ == ErrorTypeView::Model(not_open_message()),
            },
    {
        match self.db.connection() {
            Ok(_) => Ok(Statement::SelectFeeds),
            Err(kind) => Err(kind),
        }
    }

    /// The query for the articles of one feed, by ascending identity.
    pub fn get_articles_for_feed(&self, feed_id: i32) -> (res: Result<Statement, ErrorType>)
        ensures
            match self.db.connection {
                Some(_) => res is Ok && res->Ok_0@ == (StatementView::SelectArticlesByFeed {
                    feed_id,
                }),
                None => res is Err && res->Err_0@ == ErrorTypeView::Model(not_open_message()),
            },
    {
        match self.db.connection() {
            Ok(_) => Ok(Statement::SelectArticlesByFeed { feed_id }),
            Err(kind) => Err(kind),
        }
    }
}

} // verus!
