use std::future::Future;

use futures::FutureExt;
use sea_orm::database::backend::DbBackend;
use sea_orm::database::db_connection::{ConnectionTrait, DatabaseConnection};
use sea_orm::database::transaction::{DatabaseTransaction, Settlement, TransactionState};
use sea_orm::driver::sqlx_common::{Attempt, DriverError};
use sea_orm::driver::sqlx_sqlite::{into_query_results, SqlxSqliteConnector};
use sea_orm::error::{DbErr, TransactionError};
use sea_orm::executor::{ExecResult, QueryResult, QueryResultRow};
use sqlx::sqlite::{SqlitePool, SqlitePoolOptions, SqliteRow};
use sqlx::{Connection, Row, Sqlite, Transaction};

type Db = DatabaseConnection<(), SqlitePool>;

#[derive(Debug, PartialEq)]
enum MyError {
    Deliberate,
}

fn block_on<F: Future>(future: F) -> F::Output {
    tokio::runtime::Builder::new_current_thread()
        .enable_all()
        .build()
        .unwrap()
        .block_on(future)
}

async fn connect() -> Db {
    let opened = SqlitePoolOptions::new().max_connections(1).connect("sqlite::memory:").await;
    let db: Db = SqlxSqliteConnector::connect(opened).unwrap();
    execute(&db, "CREATE TABLE cake (id INTEGER PRIMARY KEY, name TEXT NOT NULL)").await.unwrap();
    db
}

fn pool(db: &Db) -> &SqlitePool {
    match db {
        DatabaseConnection::SqlxSqlitePoolConnection(conn) => &conn.pool,
        DatabaseConnection::SqlxPostgresPoolConnection(_) => panic!("not a SQLite handle"),
    }
}

fn native(row: &QueryResult) -> &SqliteRow {
    match &row.row {
        QueryResultRow::SqlxSqlite(row) => row,
        QueryResultRow::SqlxPostgres(_) => panic!("not a SQLite row"),
    }
}

async fn execute(db: &Db, sql: &str) -> Result<ExecResult, DbErr> {
    let attempt = match pool(db).acquire().await {
        Ok(mut conn) => {
            Attempt::ran(sqlx::query(sql).execute(&mut conn).await.map(ExecResult::from))
        }
        Err(_) => Attempt::NoConnection,
    };
    db.execute(attempt)
}

async fn query_one(db: &Db, sql: &str) -> Result<Option<QueryResult>, DbErr> {
    let attempt = match pool(db).acquire().await {
        Ok(mut conn) => {
            Attempt::ran(sqlx::query(sql).fetch_one(&mut conn).await.map(QueryResult::from))
        }
        Err(_) => Attempt::NoConnection,
    };
    db.query_one(attempt)
}

async fn query_all(db: &Db, sql: &str) -> Result<Vec<QueryResult>, DbErr> {
    let attempt = match pool(db).acquire().await {
        Ok(mut conn) => {
            Attempt::ran(sqlx::query(sql).fetch_all(&mut conn).await.map(into_query_results))
        }
        Err(_) => Attempt::NoConnection,
    };
    db.query_all(attempt)
}

async fn execute_in(
    txn: &DatabaseTransaction,
    held: &mut Transaction<'_, Sqlite>,
    sql: &str,
) -> Result<ExecResult, DbErr> {
    txn.execute(Attempt::ran(sqlx::query(sql).execute(held).await.map(ExecResult::from)))
}

async fn close<T>(
    mut txn: DatabaseTransaction,
    held: Transaction<'_, Sqlite>,
    work: Result<T, MyError>,
) -> (Settlement, TransactionState, Result<T, TransactionError<MyError>>) {
    let call = txn.settlement(&work);
    let closed = match call {
        Settlement::Commit => held.commit().await,
        Settlement::Rollback => held.rollback().await,
    };
    let result = txn.run(work, closed.map_err(DriverError::read));
    (call, txn.state(), result)
}

#[test]
fn a_failed_unit_of_work_leaves_nothing_behind() {
    block_on(async {
        let db = connect().await;
        let mut conn = pool(&db).acquire().await.unwrap();
        let held = conn.begin().await.unwrap();
        let txn = db.transaction::<MyError>(Attempt::Done(())).unwrap();
        assert_eq!(txn.state(), TransactionState::Open);
        assert_eq!(txn.get_database_backend(), DbBackend::Sqlite);

        let mut held = held;
        let inserted =
            execute_in(&txn, &mut held, "INSERT INTO cake (id, name) VALUES (1, 'Cheese')").await;
        assert_eq!(inserted.unwrap().rows_affected(), 1);
        let work: Result<(), MyError> = Err(MyError::Deliberate);

        let (call, state, result) = close(txn, held, work).await;
        drop(conn);
        assert_eq!(call, Settlement::Rollback);
        assert_eq!(state, TransactionState::RolledBack);
        assert_eq!(result, Err(TransactionError::Transaction(MyError::Deliberate)));

        let rows = query_all(&db, "SELECT id, name FROM cake").await.unwrap();
        assert!(rows.is_empty());
    });
}

#[test]
fn a_successful_unit_of_work_is_visible_afterwards() {
    block_on(async {
        let db = connect().await;
        let mut conn = pool(&db).acquire().await.unwrap();
        let mut held = conn.begin().await.unwrap();
        let txn = db.transaction::<MyError>(Attempt::Done(())).unwrap();

        let first =
            execute_in(&txn, &mut held, "INSERT INTO cake (id, name) VALUES (1, 'Cheese')").await;
        let second =
            execute_in(&txn, &mut held, "INSERT INTO cake (id, name) VALUES (2, 'Carrot')").await;
        assert_eq!(first.unwrap().last_insert_id(), Some(1));
        assert_eq!(second.unwrap().last_insert_id(), Some(2));
        let work: Result<u32, MyError> = Ok(2);

        let (call, state, result) = close(txn, held, work).await;
        drop(conn);
        assert_eq!(call, Settlement::Commit);
        assert_eq!(state, TransactionState::Committed);
        assert_eq!(result, Ok(2));

        let rows = query_all(&db, "SELECT name FROM cake ORDER BY id").await.unwrap();
        let names: Vec<String> = rows.iter().map(|row| native(row).get::<String, _>(0)).collect();
        assert_eq!(names, vec!["Cheese".to_owned(), "Carrot".to_owned()]);
    });
}

#[test]
fn an_insert_reads_back_as_it_was_bound() {
    block_on(async {
        let db = connect().await;
        let attempt = match pool(&db).acquire().await {
            Ok(mut conn) => Attempt::ran(
                sqlx::query("INSERT INTO cake (id, name) VALUES (?, ?)")
                    .bind(42i64)
                    .bind("Black Forest")
                    .execute(&mut conn)
                    .await
                    .map(ExecResult::from),
            ),
            Err(_) => Attempt::NoConnection,
        };
        let done = db.execute(attempt).unwrap();
        assert_eq!(done.backend(), DbBackend::Sqlite);
        assert_eq!(done.rows_affected(), 1);
        assert_eq!(done.last_insert_id(), Some(42));

        let row = query_one(&db, "SELECT id, name FROM cake WHERE id = 42").await.unwrap().unwrap();
        assert_eq!(row.backend(), DbBackend::Sqlite);
        assert_eq!(native(&row).get::<i64, _>("id"), 42);
        assert_eq!(native(&row).get::<String, _>("name"), "Black Forest");
    });
}

#[test]
fn query_one_gives_none_when_no_row_matches() {
    block_on(async {
        let db = connect().await;
        let found = query_one(&db, "SELECT id, name FROM cake WHERE id = 1").await;
        assert!(matches!(found, Ok(None)));
    });
}

#[test]
fn query_all_keeps_the_order_of_the_driver() {
    block_on(async {
        let db = connect().await;
        execute(&db, "INSERT INTO cake (id, name) VALUES (3, 'c'), (1, 'a'), (2, 'b')")
            .await
            .unwrap();
        let rows = query_all(&db, "SELECT id FROM cake ORDER BY id DESC").await.unwrap();
        let ids: Vec<i64> = rows.iter().map(|row| native(row).get::<i64, _>(0)).collect();
        assert_eq!(ids, vec![3, 2, 1]);
    });
}

#[test]
fn a_defective_statement_fails_by_its_kind() {
    block_on(async {
        let db = connect().await;
        let failed = execute(&db, "INSERT INTO pie (id) VALUES (1)").await;
        match failed {
            Err(DbErr::Exec(text)) => assert!(text.contains("no such table: pie")),
            _ => panic!("a failed insert is an Exec error"),
        }
        let failed = query_all(&db, "SELECT id FROM pie").await;
        match failed {
            Err(DbErr::Query(text)) => assert!(text.contains("no such table: pie")),
            _ => panic!("a failed select is a Query error"),
        }
        let failed = query_one(&db, "SELECT id FROM pie").await;
        match failed {
            Err(DbErr::Query(text)) => assert!(text.contains("no such table: pie")),
            _ => panic!("a failed select is a Query error"),
        }
    });
}

#[test]
fn a_closed_pool_hands_out_no_connection() {
    block_on(async {
        let db = connect().await;
        pool(&db).close().await;
        let failed = execute(&db, "INSERT INTO cake (id, name) VALUES (1, 'Cheese')").await;
        assert_eq!(
            failed,
            Err(DbErr::Conn("Failed to acquire connection from pool.".to_owned()))
        );
        let attempt = match pool(&db).acquire().await {
            Ok(_) => Attempt::Done(()),
            Err(_) => Attempt::NoConnection,
        };
        let failed = db.transaction::<MyError>(attempt);
        assert_eq!(
            failed.err(),
            Some(TransactionError::Connection(DbErr::Query(
                "Failed to acquire connection from pool.".to_owned()
            )))
        );
    });
}

#[test]
fn an_exhausted_pool_makes_a_call_wait() {
    block_on(async {
        let db = connect().await;
        let mut conn = pool(&db).acquire().await.unwrap();
        let mut held = conn.begin().await.unwrap();
        let txn = db.transaction::<MyError>(Attempt::Done(())).unwrap();
        let inside =
            execute_in(&txn, &mut held, "INSERT INTO cake (id, name) VALUES (1, 'Cheese')").await;
        assert_eq!(inside.unwrap().rows_affected(), 1);

        let mut waiting = Box::pin(execute(&db, "INSERT INTO cake (id, name) VALUES (2, 'Carrot')"));
        assert!((&mut waiting).now_or_never().is_none());

        let work: Result<(), MyError> = Ok(());
        let (_, state, result) = close(txn, held, work).await;
        assert_eq!(state, TransactionState::Committed);
        assert_eq!(result, Ok(()));
        assert!((&mut waiting).now_or_never().is_none());
        drop(conn);

        assert_eq!(waiting.await.unwrap().rows_affected(), 1);
        let rows = query_all(&db, "SELECT id FROM cake ORDER BY id").await.unwrap();
        let ids: Vec<i64> = rows.iter().map(|row| native(row).get::<i64, _>(0)).collect();
        assert_eq!(ids, vec![1, 2]);
    });
}

#[test]
fn a_nested_block_rolls_back_alone() {
    block_on(async {
        let db = connect().await;
        let mut conn = pool(&db).acquire().await.unwrap();
        let mut held = conn.begin().await.unwrap();
        let outer = db.transaction::<MyError>(Attempt::Done(())).unwrap();
        let kept =
            execute_in(&outer, &mut held, "INSERT INTO cake (id, name) VALUES (1, 'Cheese')").await;
        assert_eq!(kept.unwrap().last_insert_id(), Some(1));

        let mut savepoint = held.begin().await.unwrap();
        let inner = outer.transaction::<MyError>(Attempt::Done(())).unwrap();
        let dropped = execute_in(
            &inner,
            &mut savepoint,
            "INSERT INTO cake (id, name) VALUES (2, 'Carrot')",
        )
        .await;
        assert_eq!(dropped.unwrap().last_insert_id(), Some(2));
        let work: Result<(), MyError> = Err(MyError::Deliberate);
        let (call, state, result) = close(inner, savepoint, work).await;
        assert_eq!(call, Settlement::Rollback);
        assert_eq!(state, TransactionState::RolledBack);
        assert_eq!(result, Err(TransactionError::Transaction(MyError::Deliberate)));
        assert_eq!(outer.state(), TransactionState::Open);

        let work: Result<(), MyError> = Ok(());
        let (call, state, result) = close(outer, held, work).await;
        drop(conn);
        assert_eq!(call, Settlement::Commit);
        assert_eq!(state, TransactionState::Committed);
        assert_eq!(result, Ok(()));

        let rows = query_all(&db, "SELECT id FROM cake").await.unwrap();
        let ids: Vec<i64> = rows.iter().map(|row| native(row).get::<i64, _>(0)).collect();
        assert_eq!(ids, vec![1]);
    });
}
