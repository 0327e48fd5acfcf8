use crate::shared::errors::{not_open_message, ErrorType, ErrorTypeView};
use vstd::prelude::*;

verus! {

/// A value bound to a parameter of a statement.
#[derive(Debug, Clone, PartialEq, Eq)]
pub enum SqlValue {
    Null,
    Integer(i64),
    Text(String),
}

/// Mathematical value of a [`SqlValue`].
pub enum SqlValueView {
    Null,
    Integer(i64),
    Text(Seq<char>),
}

impl View for SqlValue {
    type V = SqlValueView;

    open spec fn view(&self) -> SqlValueView {
        match self {
            SqlValue::Null => SqlValueView::Null,
            SqlValue::Integer(i) => SqlValueView::Integer(*i),
            SqlValue::Text(t) => SqlValueView::Text(t@),
        }
    }
}

impl DeepView for SqlValue {
    type V = SqlValueView;

    open spec fn deep_view(&self) -> SqlValueView {
        self@
    }
}

/// Everything the models ever ask of the store.
#[derive(Debug, Clone, PartialEq, Eq)]
#[allow(inconsistent_fields)]
pub enum Statement {
    InsertFeed { title: String, xml_url: String },
    InsertFeedCategory { feed_id: i64, category_id: i32 },
    BeginTransaction,
    InsertArticle { title: String, content: String },
    InsertFeedArticle { feed_id: i64, article_id: i64 },
    Commit,
    InsertCategory { title: String, parent_id: Option<i32> },
    SelectFeeds,
    SelectArticlesByFeed { feed_id: i32 },
    SelectCategories,
}

/// Mathematical value of a [`Statement`].
#[allow(inconsistent_fields)]
pub enum StatementView {
    InsertFeed { title: Seq<char>, xml_url: Seq<char> },
    InsertFeedCategory { feed_id: i64, category_id: i32 },
    BeginTransaction,
    InsertArticle { title: Seq<char>, content: Seq<char> },
    InsertFeedArticle { feed_id: i64, article_id: i64 },
    Commit,
    InsertCategory { title: Seq<char>, parent_id: Option<i32> },
    SelectFeeds,
    SelectArticlesByFeed { feed_id: i32 },
    SelectCategories,
}

impl View for Statement {
    type V = StatementView;

    open spec fn view(&self) -> StatementView {
        match self {
            Statement::InsertFeed { title, xml_url } => StatementView::InsertFeed {
                title: title@,
                xml_url: xml_url@,
            },
            Statement::InsertFeedCategory { feed_id, category_id } => {
                StatementView::InsertFeedCategory { feed_id: *feed_id, category_id: *category_id }
            },
            Statement::BeginTransaction => StatementView::BeginTransaction,
            Statement::InsertArticle { title, content } => StatementView::InsertArticle {
                title: title@,
                content: content@,
            },
            Statement::InsertFeedArticle { feed_id, article_id } => {
                StatementView::InsertFeedArticle { feed_id: *feed_id, article_id: *article_id }
            },
            Statement::Commit => StatementView::Commit,
            Statement::InsertCategory { title, parent_id } => StatementView::InsertCategory {
                title: title@,
                parent_id: *parent_id,
            },
            Statement::SelectFeeds => StatementView::SelectFeeds,
            Statement::SelectArticlesByFeed { feed_id } => StatementView::SelectArticlesByFeed {
                feed_id: *feed_id,
            },
            Statement::SelectCategories => StatementView::SelectCategories,
        }
    }
}

impl DeepView for Statement {
    type V = StatementView;

    open spec fn deep_view(&self) -> StatementView {
        self@
    }
}

impl StatementView {
    /// The statement's text, with `?1`, `?2` where its values are bound.
    pub open spec fn sql(self) -> Seq<char> {
        match self {
            StatementView::InsertFeed { .. } => "INSERT INTO feed (title, xml_url) VALUES (?1, ?2)"@,
            StatementView::InsertFeedCategory { .. } => {
                "INSERT INTO feed_category_xref (feed_id, category_id) VALUES (?1, ?2)"@
            },
            StatementView::BeginTransaction => "BEGIN TRANSACTION"@,
            StatementView::InsertArticle { .. } => {
                "INSERT INTO article (title, content) VALUES (?1, ?2)"@
            },
            StatementView::InsertFeedArticle { .. } => {
                "INSERT INTO feed_article_xref (feed_id, article_id) VALUES (?1, ?2)"@
            },
            StatementView::Commit => "COMMIT"@,
            StatementView::InsertCategory { .. } => {
                "INSERT INTO category (title, parent_id) VALUES (?1, ?2)"@
            },
            StatementView::SelectFeeds => {
                "SELECT feed.id, feed.title, feed.xml_url, xref.category_id FROM feed LEFT JOIN feed_category_xref xref ON xref.feed_id = feed.id"@
            },
            StatementView::SelectArticlesByFeed { .. } => {
                "SELECT article.id, article.title, article.content FROM article LEFT JOIN feed_article_xref AS xref ON xref.article_id = article.id WHERE xref.feed_id = ?1 ORDER BY article.id ASC"@
            },
            StatementView::SelectCategories => {
                "SELECT id, parent_id, title FROM category ORDER BY COALESCE(parent_id, id), title"@
            },
        }
    }

    /// The values bound to the statement's parameters, in order.
    pub open spec fn params(self) -> Seq<SqlValueView> {
        match self {
            StatementView::InsertFeed { title, xml_url } => seq![
                SqlValueView::Text(title),
                SqlValueView::Text(xml_url),
            ],
            StatementView::InsertFeedCategory { feed_id, category_id } => seq![
                SqlValueView::Integer(feed_id),
                SqlValueView::Integer(category_id as i64),
            ],
            StatementView::BeginTransaction => seq![],
            StatementView::InsertArticle { title, content } => seq![
                SqlValueView::Text(title),
                SqlValueView::Text(content),
            ],
            StatementView::InsertFeedArticle { feed_id, article_id } => seq![
                SqlValueView::Integer(feed_id),
                SqlValueView::Integer(article_id),
            ],
            StatementView::Commit => seq![],
            StatementView::InsertCategory { title, parent_id } => seq![
                SqlValueView::Text(title),
                match parent_id {
                    Some(id) => SqlValueView::Integer(id as i64),
                    None => SqlValueView::Null,
                },
            ],
            StatementView::SelectFeeds => seq![],
            StatementView::SelectArticlesByFeed { feed_id } => seq![
                SqlValueView::Integer(feed_id as i64),
            ],
            StatementView::SelectCategories => seq![],
        }
    }

    /// Whether the statement only reads.
    pub open spec fn is_query(self) -> bool {
        self is SelectFeeds || self is SelectArticlesByFeed || self is SelectCategories
    }
}

impl Statement {
    pub fn sql(&self) -> (text: &'static str)
        ensures
            text@ == self@.sql(),
    {
        match self {
            Statement::InsertFeed { .. } => "INSERT INTO feed (title, xml_url) VALUES (?1, ?2)",
            Statement::InsertFeedCategory { .. } => {
                "INSERT INTO feed_category_xref (feed_id, category_id) VALUES (?1, ?2)"
            },
            Statement::BeginTransaction => "BEGIN TRANSACTION",
            Statement::InsertArticle { .. } => {
                "INSERT INTO article (title, content) VALUES (?1, ?2)"
            },
            Statement::InsertFeedArticle { .. } => {
                "INSERT INTO feed_article_xref (feed_id, article_id) VALUES (?1, ?2)"
            },
            Statement::Commit => "COMMIT",
            Statement::InsertCategory { .. } => {
                "INSERT INTO category (title, parent_id) VALUES (?1, ?2)"
            },
            Statement::SelectFeeds => {
                "SELECT feed.id, feed.title, feed.xml_url, xref.category_id FROM feed LEFT JOIN feed_category_xref xref ON xref.feed_id = feed.id"
            },
            Statement::SelectArticlesByFeed { .. } => {
                "SELECT article.id, article.title, article.content FROM article LEFT JOIN feed_article_xref AS xref ON xref.article_id = article.id WHERE xref.feed_id = ?1 ORDER BY article.id ASC"
            },
            Statement::SelectCategories => {
                "SELECT id, parent_id, title FROM category ORDER BY COALESCE(parent_id, id), title"
            },
        }
    }

    pub fn params(&self) -> (bound: Vec<SqlValue>)
        ensures
            bound.deep_view() == self@.params(),
    {
        let mut bound: Vec<SqlValue> = Vec::new();
        match self {
            Statement::InsertFeed { title, xml_url } => {
                bound.push(SqlValue::Text(title.clone()));
                bound.push(SqlValue::Text(xml_url.clone()));
            },
            Statement::InsertFeedCategory { feed_id, category_id } => {
                bound.push(SqlValue::Integer(*feed_id));
                bound.push(SqlValue::Integer(*category_id as i64));
            },
            Statement::InsertArticle { title, content } => {
                bound.push(SqlValue::Text(title.clone()));
                bound.push(SqlValue::Text(content.clone()));
            },
            Statement::InsertFeedArticle { feed_id, article_id } => {
                bound.push(SqlValue::Integer(*feed_id));
                bound.push(SqlValue::Integer(*article_id));
            },
            Statement::InsertCategory { title, parent_id } => {
                bound.push(SqlValue::Text(title.clone()));
                match parent_id {
                    Some(id) => bound.push(SqlValue::Integer(*id as i64)),
                    None => bound.push(SqlValue::Null),
                }
            },
            Statement::SelectArticlesByFeed { feed_id } => {
                bound.push(SqlValue::Integer(*feed_id as i64));
            },
            Statement::BeginTransaction => {},
            Statement::Commit => {},
            Statement::SelectFeeds => {},
            Statement::SelectCategories => {},
        }
        assert(bound.deep_view() =~= self@.params());
        bound
    }

    pub fn is_query(&self) -> (reads: bool)
        ensures
            reads == self@.is_query(),
    {
        match self {
            Statement::SelectFeeds => true,
            Statement::SelectArticlesByFeed { .. } => true,
            Statement::SelectCategories => true,
            _ => false,
        }
    }
}

/// What holds a connection to the store: at most one at a time, taken over
/// when the store was reached and given up when the work is done.
pub trait IDb: Sized {
    /// The connections that the caller's driver hands out.
    type Connection;

    /// The connection held, if any.
    spec fn held(&self) -> Option<Self::Connection>;

    fn new() -> (db: Self)
        ensures
            db.held() is None,
    ;

    /// Takes over the connection that an attempt to reach the store gave,
    /// or reports why there is none.
    fn open(&mut self, connected: Result<Self::Connection, String>) -> (res: Result<
        (),
        ErrorType,
    >)
        ensures
            match connected {
                Ok(connection) => res is Ok && final(self).held() == Some(connection),
                Err(diagnostic) => res is Err && res->Err_0@ == ErrorTypeView::Db(diagnostic@)
                    && final(self).held() == old(self).held(),
            },
    ;

    /// Gives up the connection, handing it back for the caller to dispose of.
    fn close(&mut self) -> (released: Option<Self::Connection>)
        ensures
            released == old(self).held(),
            final(self).held() is None,
    ;
}

/// At most one connection to the store, of whatever type the caller's
/// driver hands out. A model works only while its connection is held.
pub struct Db<C> {
    pub connection: Option<C>,
}

impl<C> IDb for Db<C> {
    type Connection = C;

    open spec fn held(&self) -> Option<C> {
        self.connection
    }

    fn new() -> (db: Self) {
        Db { connection: None }
    }

    fn open(&mut self, connected: Result<C, String>) -> (res: Result<(), ErrorType>) {
        match connected {
            Ok(connection) => {
                self.connection = Some(connection);
                Ok(())
            },
            Err(diagnostic) => Err(ErrorType::Db(diagnostic)),
        }
    }

    fn close(&mut self) -> (released: Option<C>) {
        self.connection.take()
    }
}

impl<C> Db<C> {
    /// The connection to work on; an error where the store is not open.
    pub fn connection(&self) -> (res: Result<&C, ErrorType>)
        ensures
            match self.connection {
                Some(connection) => res == Ok::<&C, ErrorType>(&connection),
                None => res is Err && res->Err_0@ == ErrorTypeView::Model(not_open_message()),
            },
    {
        match &self.connection {
            Some(connection) => Ok(connection),
            None => Err(ErrorType::store_not_open()),
        }
    }
}

/// What the store answers to a statement that changes it: the identity of
/// the row last inserted, or why the statement failed.
pub type Reply = Result<i64, String>;

/// Mathematical value of a [`Reply`].
pub type ReplyView = Result<i64, Seq<char>>;

pub open spec fn reply_view(answer: Reply) -> ReplyView {
    match answer {
        Ok(id) => Ok(id),
        Err(diagnostic) => Err(diagnostic@),
    }
}

/// What the answer to a statement run on its own amounts to: the identity
/// the store reported, or a model error carrying the store's diagnostic.
pub open spec fn written_outcome(answer: ReplyView) -> Result<i64, ErrorTypeView> {
    match answer {
        Ok(id) => Ok(id),
        Err(diagnostic) => Err(ErrorTypeView::Model(diagnostic)),
    }
}

/// Mathematical value of a write's result.
pub open spec fn written_view(res: Result<i64, ErrorType>) -> Result<i64, ErrorTypeView> {
    match res {
        Ok(id) => Ok(id),
        Err(kind) => Err(kind@),
    }
}

/// Interprets the store's answer to a statement run on its own.
pub fn written(answer: Reply) -> (res: Result<i64, ErrorType>)
    ensures
        written_view(res) == written_outcome(reply_view(answer)),
{
    match answer {
        Ok(id) => Ok(id),
        Err(diagnostic) => Err(ErrorType::store_operation_failed(diagnostic)),
    }
}

/// The place of the first row that could not be read, if there is one.
pub open spec fn first_failure<R>(rows: Seq<Result<R, String>>) -> Option<int> {
    if exists|i: int| 0 <= i < rows.len() && rows[i] is Err {
        Some(
            choose|i: int|
                0 <= i < rows.len() && rows[i] is Err && forall|k: int|
                    0 <= k < i ==> rows[k] is Ok,
        )
    } else {
        None
    }
}

/// What a query's answer amounts to: the rows in the order the store gave
/// them, or the first failure met (of the query itself, else of a row).
pub open spec fn collected<R>(answer: Result<Vec<Result<R, String>>, String>) -> Result<
    Seq<R>,
    ErrorTypeView,
> {
    match answer {
        Err(diagnostic) => Err(ErrorTypeView::Model(diagnostic@)),
        Ok(rows) => match first_failure(rows@) {
            Some(i) => Err(ErrorTypeView::Model(rows@[i]->Err_0@)),
            None => Ok(rows@.map_values(|row: Result<R, String>| row->Ok_0)),
        },
    }
}

/// Mathematical value of a collection's result.
pub open spec fn rows_view<R>(res: Result<Vec<R>, ErrorType>) -> Result<Seq<R>, ErrorTypeView> {
    match res {
        Ok(rows) => Ok(rows@),
        Err(kind) => Err(kind@),
    }
}

/// Gathers the rows of a query's answer, stopping at the first failure.
pub fn collect_rows<R>(answer: Result<Vec<Result<R, String>>, String>) -> (res: Result<
    Vec<R>,
    ErrorType,
>)
    ensures
        rows_view(res) == collected(answer),
{
    match answer {
        Err(diagnostic) => Err(ErrorType::store_operation_failed(diagnostic)),
        Ok(rows) => {
            let ghost source = rows@;
            let mut gathered: Vec<R> = Vec::new();
            for row in it: rows
                invariant
                    answer is Ok,
                    answer->Ok_0@ == source,
                    it.seq() == source,
                    gathered@.len() == it.index(),
                    forall|k: int| 0 <= k < it.index() ==> source[k] is Ok,
                    forall|k: int|
                        0 <= k < gathered@.len() ==> #[trigger] gathered@[k] == source[k]->Ok_0,
            {
                match row {
                    Ok(values) => gathered.push(values),
                    Err(diagnostic) => {
                        proof {
                            let at = it.index() as int;
                            assert(source[at] is Err);
                            let chosen = first_failure(source)->Some_0;
                            assert(0 <= chosen < source.len() && source[chosen] is Err
                                && forall|k: int| 0 <= k < chosen ==> source[k] is Ok);
                            assert(chosen == at) by {
                                if chosen < at {
                                    assert(source[chosen] is Ok);
                                } else if at < chosen {
                                    assert(source[at] is Ok);
                                }
                            }
                        }
                        return Err(ErrorType::store_operation_failed(diagnostic));
                    },
                }
            }
            proof {
                assert(first_failure(source) is None);
                assert(gathered@ =~= source.map_values(|row: Result<R, String>| row->Ok_0));
            }
            Ok(gathered)
        },
    }
}

} // verus!
