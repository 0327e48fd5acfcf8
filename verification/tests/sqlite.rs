use feed_ingest::module::feed::article::controller::ArticleController;
use feed_ingest::module::feed::article::model::ArticleModel;
use feed_ingest::module::feed::category::controller::CategoryController;
use feed_ingest::module::feed::category::model::CategoryModel;
use feed_ingest::module::feed::controller::FeedController;
use feed_ingest::module::feed::dialect::{Channel, Item, RssFeed};
use feed_ingest::module::feed::entities::Feed;
use feed_ingest::module::feed::model::FeedModel;
use feed_ingest::shared::database::{collect_rows, written, Reply, SqlValue, Statement};
use feed_ingest::shared::errors::ErrorType;
use rusqlite::types::Value;
use rusqlite::Connection;

const SCHEMA: &str = "
    CREATE TABLE feed (id INTEGER PRIMARY KEY, title TEXT NOT NULL, xml_url TEXT NOT NULL);
    CREATE TABLE article (id INTEGER PRIMARY KEY, title TEXT NOT NULL, content TEXT NOT NULL);
    CREATE TABLE feed_article_xref (feed_id INTEGER NOT NULL, article_id INTEGER NOT NULL);
    CREATE TABLE category (id INTEGER PRIMARY KEY, title TEXT NOT NULL, parent_id INTEGER);
    CREATE TABLE feed_category_xref (feed_id INTEGER NOT NULL, category_id INTEGER NOT NULL);
";

fn connect() -> Result<Connection, String> {
    let connection = Connection::open_in_memory().map_err(|e| e.to_string())?;
    connection.execute_batch(SCHEMA).map_err(|e| e.to_string())?;
    Ok(connection)
}

fn bound(statement: &Statement) -> Vec<Value> {
    statement
        .params()
        .into_iter()
        .map(|value| match value {
            SqlValue::Null => Value::Null,
            SqlValue::Integer(i) => Value::Integer(i),
            SqlValue::Text(t) => Value::Text(t),
        })
        .collect()
}

fn run(connection: &Connection, statement: &Statement) -> Reply {
    connection
        .execute(statement.sql(), rusqlite::params_from_iter(bound(statement)))
        .map(|_| connection.last_insert_rowid())
        .map_err(|e| e.to_string())
}

fn feed_rows(
    connection: &Connection,
    statement: &Statement,
) -> Result<Vec<Result<(i32, String, String, Option<i32>), String>>, String> {
    let mut prepared = connection.prepare(statement.sql()).map_err(|e| e.to_string())?;
    let rows = prepared
        .query_map(rusqlite::params_from_iter(bound(statement)), |row| {
            Ok((row.get(0)?, row.get(1)?, row.get(2)?, row.get(3)?))
        })
        .map_err(|e| e.to_string())?;
    Ok(rows.map(|row| row.map_err(|e| e.to_string())).collect())
}

fn article_rows(
    connection: &Connection,
    statement: &Statement,
) -> Result<Vec<Result<(i32, String, String), String>>, String> {
    let mut prepared = connection.prepare(statement.sql()).map_err(|e| e.to_string())?;
    let rows = prepared
        .query_map(rusqlite::params_from_iter(bound(statement)), |row| {
            Ok((row.get(0)?, row.get(1)?, row.get(2)?))
        })
        .map_err(|e| e.to_string())?;
    Ok(rows.map(|row| row.map_err(|e| e.to_string())).collect())
}

fn category_rows(
    connection: &Connection,
    statement: &Statement,
) -> Result<Vec<Result<(i32, Option<i32>, String), String>>, String> {
    let mut prepared = connection.prepare(statement.sql()).map_err(|e| e.to_string())?;
    let rows = prepared
        .query_map(rusqlite::params_from_iter(bound(statement)), |row| {
            Ok((row.get(0)?, row.get(1)?, row.get(2)?))
        })
        .map_err(|e| e.to_string())?;
    Ok(rows.map(|row| row.map_err(|e| e.to_string())).collect())
}

fn count(connection: &Connection, table: &str) -> i64 {
    connection.query_row(&format!("SELECT COUNT(*) FROM {}", table), [], |row| row.get(0)).unwrap()
}

/// Stores a feed and its articles over one connection, as the models direct.
fn store(connection: Connection, feed: &Feed) -> Result<(Connection, i64), ErrorType> {
    let feeds = FeedModel::new().open(Ok(connection))?;
    let mut insert = feeds.insert_feed(feed)?;
    while let Some(statement) = insert.next() {
        let answer = run(feeds.db.connection()?, &statement);
        insert = insert.reply(answer);
    }
    let feed_id = insert.outcome().unwrap()?;
    let connection = feeds.close().unwrap();

    let articles = ArticleModel::new().open(Ok(connection))?;
    let mut batch = articles.insert_articles(feed_id, &feed.articles)?;
    while let Some(statement) = batch.next() {
        let answer = run(articles.db.connection()?, &statement);
        batch = batch.reply(answer);
    }
    batch.outcome().unwrap()?;
    Ok((articles.close().unwrap(), feed_id))
}

fn item(title: &str, description: &str) -> Item {
    Item {
        title: title.to_string(),
        link: None,
        description: description.to_string(),
        author: None,
        category: None,
        comments: None,
        enclosure: None,
        guid: None,
        pub_date: None,
        source: None,
    }
}

fn rss(title: &str, items: Vec<Item>) -> RssFeed {
    RssFeed { channel: Channel { title: title.to_string(), description: None, items } }
}

#[test]
fn fetched_feed_is_added_with_title_and_category() {
    let doc = "<rss><channel><title>T</title><item><title>A1</title><description>D1</description></item></channel></rss>";
    let fetched = Feed::from_url(
        "http://example.org/rss".to_string(),
        doc,
        |_text: &str| Ok(rss("T", vec![item("A1", "D1")])),
        |_text: &str| Err("not atom".to_string()),
    )
    .unwrap();
    assert_eq!(fetched.title, "T");
    let ready = FeedController::new().add(fetched, "My Feed".to_string(), Some(3));

    let (connection, feed_id) = store(connect().unwrap(), &ready).unwrap();

    let feeds: Vec<(i64, String, String)> = {
        let mut prepared = connection.prepare("SELECT id, title, xml_url FROM feed").unwrap();
        let rows = prepared.query_map([], |row| Ok((row.get(0)?, row.get(1)?, row.get(2)?))).unwrap();
        rows.map(|row| row.unwrap()).collect()
    };
    assert_eq!(feeds, vec![(feed_id, "My Feed".to_string(), "http://example.org/rss".to_string())]);

    let ties: Vec<(i64, i64)> = {
        let mut prepared =
            connection.prepare("SELECT feed_id, category_id FROM feed_category_xref").unwrap();
        let rows = prepared.query_map([], |row| Ok((row.get(0)?, row.get(1)?))).unwrap();
        rows.map(|row| row.unwrap()).collect()
    };
    assert_eq!(ties, vec![(feed_id, 3)]);

    let stored: Vec<(i64, String, String)> = {
        let mut prepared = connection.prepare("SELECT id, title, content FROM article").unwrap();
        let rows = prepared.query_map([], |row| Ok((row.get(0)?, row.get(1)?, row.get(2)?))).unwrap();
        rows.map(|row| row.unwrap()).collect()
    };
    assert_eq!(stored.len(), 1);
    assert_eq!(stored[0].1, "A1");
    assert_eq!(stored[0].2, "D1");

    let links: Vec<(i64, i64)> = {
        let mut prepared =
            connection.prepare("SELECT feed_id, article_id FROM feed_article_xref").unwrap();
        let rows = prepared.query_map([], |row| Ok((row.get(0)?, row.get(1)?))).unwrap();
        rows.map(|row| row.unwrap()).collect()
    };
    assert_eq!(links, vec![(feed_id, stored[0].0)]);

    let model = FeedModel::new().open(Ok(connection)).unwrap();
    let query = model.get_articles_for_feed(feed_id as i32).unwrap();
    let rows = collect_rows(article_rows(model.db.connection().unwrap(), &query)).unwrap();
    let articles = FeedController::new().get_articles(rows);
    assert_eq!(articles.len(), 1);
    assert_eq!(articles[0].title, "A1");
    assert_eq!(articles[0].content, "D1");
    assert_eq!(articles[0].id, Some(stored[0].0 as i32));
}

#[test]
fn articles_come_back_in_document_order() {
    let items: Vec<Item> =
        (0..25).map(|n| item(&format!("title {}", 24 - n), &format!("text {}", n))).collect();
    let feed = Feed::from_rss(rss("Many", items));
    let (connection, feed_id) = store(connect().unwrap(), &feed).unwrap();
    assert_eq!(count(&connection, "article"), 25);
    assert_eq!(count(&connection, "feed_article_xref"), 25);
    assert_eq!(count(&connection, "feed_category_xref"), 0);

    let model = ArticleModel::new().open(Ok(connection)).unwrap();
    let query = model.get_articles_by_feed(feed_id as i32).unwrap();
    let rows = collect_rows(article_rows(model.db.connection().unwrap(), &query)).unwrap();
    let articles = ArticleController::get_articles_by_feed(feed_id as i32, rows);
    assert_eq!(articles.len(), 25);
    for (n, article) in articles.iter().enumerate() {
        assert_eq!(article.title, format!("title {}", 24 - n));
        assert_eq!(article.content, format!("text {}", n));
        assert_eq!(article.feed_id, Some(vec![feed_id as i32]));
    }
    for pair in articles.windows(2) {
        assert!(pair[0].id.unwrap() < pair[1].id.unwrap());
    }
}

#[test]
fn each_feed_reads_back_only_its_own_articles() {
    let first = Feed::from_rss(rss("First", vec![item("F1", "f1"), item("F2", "f2")]));
    let second = Feed::from_rss(rss("Second", vec![item("S1", "s1")]));
    let (connection, first_id) = store(connect().unwrap(), &first).unwrap();
    let (connection, second_id) = store(connection, &second).unwrap();
    assert_ne!(first_id, second_id);

    let model = FeedModel::new().open(Ok(connection)).unwrap();
    let read = |feed_id: i64| {
        let query = model.get_articles_for_feed(feed_id as i32).unwrap();
        let rows = collect_rows(article_rows(model.db.connection().unwrap(), &query)).unwrap();
        FeedController::new()
            .get_articles(rows)
            .into_iter()
            .map(|article| (article.title, article.content))
            .collect::<Vec<(String, String)>>()
    };
    assert_eq!(
        read(first_id),
        vec![("F1".to_string(), "f1".to_string()), ("F2".to_string(), "f2".to_string())]
    );
    assert_eq!(read(second_id), vec![("S1".to_string(), "s1".to_string())]);
    assert_eq!(read(second_id + 50), vec![]);
}

#[test]
fn listing_feeds_twice_gives_the_same() {
    let with_category = FeedController::new().add(
        Feed::from_rss(rss("x", vec![item("A", "a")])),
        "With".to_string(),
        Some(2),
    );
    let without = FeedController::new().add(
        Feed::from_rss(rss("y", vec![])),
        "Without".to_string(),
        None,
    );
    let (connection, first_id) = store(connect().unwrap(), &with_category).unwrap();
    let (connection, second_id) = store(connection, &without).unwrap();

    let model = FeedModel::new().open(Ok(connection)).unwrap();
    let list = || {
        let query = model.get_feeds().unwrap();
        assert!(query.is_query());
        let rows = collect_rows(feed_rows(model.db.connection().unwrap(), &query)).unwrap();
        FeedController::new().get_all(rows)
    };
    let once = list();
    let twice = list();
    assert_eq!(once, twice);
    assert_eq!(once.len(), 2);
    assert_eq!(once[0].id, Some(first_id as i32));
    assert_eq!(once[0].title, "With");
    assert_eq!(once[0].category_id, Some(2));
    assert!(once[0].articles.is_empty());
    assert_eq!(once[0].link, None);
    assert_eq!(once[0].description, None);
    assert_eq!(once[1].id, Some(second_id as i32));
    assert_eq!(once[1].title, "Without");
    assert_eq!(once[1].category_id, None);
}

#[test]
fn categories_are_stored_and_listed() {
    let controller = CategoryController::new();
    let model = CategoryModel::new().open(connect()).unwrap();
    for (title, parent) in [("News", None), ("Tech", None), ("Local", Some(1)), ("Chips", Some(2))] {
        let category = controller.add(title.to_string(), parent);
        let statement = model.insert_category(&category).unwrap();
        written(run(model.db.connection().unwrap(), &statement)).unwrap();
    }
    let query = model.get_categories().unwrap();
    let rows = collect_rows(category_rows(model.db.connection().unwrap(), &query)).unwrap();
    let listed: Vec<(i32, String, Option<i32>)> = controller
        .get_all(rows)
        .into_iter()
        .map(|category| (category.id, category.title, category.parent_id))
        .collect();
    assert_eq!(
        listed,
        vec![
            (3, "Local".to_string(), Some(1)),
            (1, "News".to_string(), None),
            (4, "Chips".to_string(), Some(2)),
            (2, "Tech".to_string(), None),
        ]
    );
}

#[test]
fn store_failure_is_a_model_error_and_nothing_is_undone() {
    let connection = connect().unwrap();
    connection.execute_batch("DROP TABLE feed_article_xref").unwrap();
    let feed = Feed::from_rss(rss("T", vec![item("A1", "D1"), item("A2", "D2")]));
    let feeds = FeedModel::new().open(Ok(connection)).unwrap();
    let mut insert = feeds.insert_feed(&feed).unwrap();
    while let Some(statement) = insert.next() {
        let answer = run(feeds.db.connection().unwrap(), &statement);
        insert = insert.reply(answer);
    }
    let feed_id = insert.outcome().unwrap().unwrap();
    let connection = feeds.close().unwrap();

    let articles = ArticleModel::new().open(Ok(connection)).unwrap();
    let mut batch = articles.insert_articles(feed_id, &feed.articles).unwrap();
    let mut ran = Vec::new();
    while let Some(statement) = batch.next() {
        let answer = run(articles.db.connection().unwrap(), &statement);
        ran.push(statement);
        batch = batch.reply(answer);
    }
    assert_eq!(ran.len(), 3);
    match batch.outcome() {
        Some(Err(ErrorType::Model(diagnostic))) => {
            assert!(diagnostic.contains("feed_article_xref"))
        }
        other => panic!("unexpected outcome {:?}", other),
    }
    let connection = articles.close().unwrap();
    assert_eq!(count(&connection, "feed"), 1);
    assert_eq!(count(&connection, "article"), 1);
}

#[test]
fn unreadable_listing_is_a_model_error() {
    let connection = connect().unwrap();
    connection.execute_batch("DROP TABLE feed").unwrap();
    let model = FeedModel::new().open(Ok(connection)).unwrap();
    let query = model.get_feeds().unwrap();
    match collect_rows(feed_rows(model.db.connection().unwrap(), &query)) {
        Err(ErrorType::Model(diagnostic)) => assert!(diagnostic.contains("feed")),
        other => panic!("unexpected outcome {:?}", other),
    }
}

#[test]
fn unreadable_row_is_a_model_error() {
    let connection = connect().unwrap();
    connection
        .execute_batch(
            "INSERT INTO article (id, title, content) VALUES (1, 'ok', 'fine');
             INSERT INTO article (id, title, content) VALUES (5000000000, 'big', 'id');
             INSERT INTO feed_article_xref (feed_id, article_id) VALUES (1, 1);
             INSERT INTO feed_article_xref (feed_id, article_id) VALUES (1, 5000000000);",
        )
        .unwrap();
    let model = ArticleModel::new().open(Ok(connection)).unwrap();
    let query = model.get_articles_by_feed(1).unwrap();
    let outcome = collect_rows(article_rows(model.db.connection().unwrap(), &query));
    assert!(matches!(outcome, Err(ErrorType::Model(_))));
}
