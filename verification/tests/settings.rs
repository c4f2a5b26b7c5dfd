use patidar_auth::auth_schema::LoginSchema;
use patidar_auth::conf::{Server, PG};
use patidar_auth::helpers::{get_paginated_result, page_to_fetch, Paginate};

#[test]
fn database_url_format() {
    let pg = PG {
        username: "app".to_string(),
        password: "pw".to_string(),
        host: "db.local".to_string(),
        port: "5432".to_string(),
        db_name: "patidar".to_string(),
    };
    assert_eq!(pg.database_url(), "postgres://app:pw@db.local:5432/patidar");
}

#[test]
fn server_and_login_schema_hold_their_fields() {
    let s = Server { domain: "0.0.0.0".to_string(), port: 8080 };
    assert_eq!(s.clone(), s);
    let l = LoginSchema { email: "a@b.c".to_string(), password: "x".to_string() };
    assert_eq!(l.email, "a@b.c");
}

#[test]
fn default_paging() {
    let p = Paginate::default();
    assert_eq!((p.page, p.size), (1, 10));
}

#[test]
fn page_index_counts_from_zero() {
    assert_eq!(page_to_fetch(1), 0);
    assert_eq!(page_to_fetch(5), 4);
    assert_eq!(page_to_fetch(u64::MAX), u64::MAX - 1);
}

#[test]
fn paginated_result_keeps_counts() {
    let r = get_paginated_result(Some(vec![1, 2, 3]), 23, 3, 1);
    assert_eq!((r.items, r.record_count, r.page_count, r.current_page), (vec![1, 2, 3], 23, 3, 1));
}

#[test]
fn failed_fetch_gives_empty_page() {
    let r = get_paginated_result::<u8>(None, 23, 3, 9);
    assert!(r.items.is_empty());
    assert_eq!((r.record_count, r.page_count, r.current_page), (23, 3, 9));
}
