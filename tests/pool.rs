use person_store::error::MyError;
use person_store::pool::PoolConfig;

#[test]
fn local_settings() {
    let c = PoolConfig::local();
    assert_eq!(c.host, "localhost");
    assert_eq!(c.port, 27017);
    assert_eq!(c.database, "local");
    assert_eq!(c.collection, "Persons");
    assert_eq!(c.max_size, 8);
    assert_eq!(c.acquire_timeout_secs, 30);
}

#[test]
fn new_keeps_the_given_settings() {
    let c = PoolConfig::new("db.example".to_owned(), 27018, "app".to_owned(), "People".to_owned(), 3, 5)
        .expect("valid settings");
    assert_eq!(c.host, "db.example");
    assert_eq!(c.port, 27018);
    assert_eq!(c.database, "app");
    assert_eq!(c.collection, "People");
    assert_eq!(c.max_size, 3);
    assert_eq!(c.acquire_timeout_secs, 5);
}

#[test]
fn new_refuses_an_empty_pool() {
    let r = PoolConfig::new("h".to_owned(), 1, "d".to_owned(), "c".to_owned(), 0, 5);
    assert_eq!(r.err(), Some(MyError::PoolError));
}

#[test]
fn new_refuses_a_zero_wait() {
    let r = PoolConfig::new("h".to_owned(), 1, "d".to_owned(), "c".to_owned(), 1, 0);
    assert_eq!(r.err(), Some(MyError::PoolError));
}
