use nowplaying::cache::RedisStore;

#[test]
fn store_keeps_its_address() {
    let store = RedisStore::new("redis://127.0.0.1:6379/0");
    assert_eq!(store.url(), "redis://127.0.0.1:6379/0");
    assert_eq!(store.client().get_connection_info().addr().to_string(), "127.0.0.1:6379");
}

#[test]
fn connect_refuses_what_is_no_address() {
    assert!(RedisStore::connect("not a redis address").is_none());
    assert!(RedisStore::connect("http://127.0.0.1/").is_none());
    assert!(RedisStore::connect("").is_none());
}

#[test]
fn connect_takes_a_server_address() {
    let store = RedisStore::connect("redis://cache.internal:6380/2").expect("a store");
    assert_eq!(store.url(), "redis://cache.internal:6380/2");
    assert!(RedisStore::connect("redis://127.0.0.1/").is_some());
}

#[test]
fn the_mirror_lives_under_one_key() {
    assert_eq!(RedisStore::key(), "lastfm:nowplaying");
}
