use video_admin::data::data_set::DataSet;
use video_admin::data::get_pager;
use video_admin::data::model::{columns_statement, delete_statement, insert_statement, update_statement, Db};
use video_admin::StringHashMap;

#[test]
fn pager_rounds_up() {
    let p = get_pager(21, 2, 10);
    assert_eq!(p.pages, 3);
    assert_eq!(p.current, 2);
    assert_eq!(p.rows_total, 21);
    assert_eq!(p.limit, 10);
}

#[test]
fn pager_exact_multiple() {
    assert_eq!(get_pager(20, 1, 10).pages, 2);
    assert_eq!(get_pager(1, 1, 1).pages, 1);
    assert_eq!(get_pager(u32::MAX, 1, 2).pages, 2147483648);
    assert_eq!(get_pager(u32::MAX, 1, 1).pages, u32::MAX);
}

#[test]
fn pager_empty_listing_has_one_page() {
    assert_eq!(get_pager(0, 1, 10).pages, 1);
    assert_eq!(get_pager(0, 1, 0).pages, 1);
}

#[test]
fn statements() {
    let mut ds = DataSet::create();
    ds.set("name", "a");
    assert_eq!(insert_statement("video_tags", &ds), "INSERT INTO video_tags (name) VALUES ('a')");
    let mut up = DataSet::update();
    up.set("name", "b");
    assert_eq!(update_statement("video_tags", &up, "id = '1'"), "UPDATE video_tags SET name = 'b' WHERE id = '1'");
    assert_eq!(delete_statement("video_tags", "id IN (1,2)"), "DELETE FROM video_tags WHERE id IN (1,2)");
    assert_eq!(
        columns_statement("db", "ads"),
        "SELECT COLUMN_NAME FROM information_schema.COLUMNS WHERE TABLE_SCHEMA = 'db' AND TABLE_NAME = 'ads'"
    );
}

fn tables() -> StringHashMap<Vec<String>> {
    let mut real = StringHashMap::new();
    real.insert(
        "videos".to_string(),
        vec!["id", "title", "created", "updated", "remark"].into_iter().map(|s| s.to_string()).collect(),
    );
    real
}

fn posted() -> StringHashMap<String> {
    let mut post = StringHashMap::new();
    post.insert("id".to_string(), "9".to_string());
    post.insert("title".to_string(), "hello".to_string());
    post.insert("updated".to_string(), "posted".to_string());
    post.insert("unknown".to_string(), "x".to_string());
    post
}

fn read_back(m: &StringHashMap<String>, keys: &[&str]) -> Vec<(String, String)> {
    let mut out = Vec::new();
    for k in keys {
        if let Some(v) = m.get(k) {
            out.push((k.to_string(), v.clone()));
        }
    }
    out
}

const KEYS: [&str; 7] = ["id", "title", "created", "updated", "remark", "unknown", "nothing"];

#[test]
fn check_fields_for_update() {
    let out = Db::check_fields("videos", &tables(), &posted(), true, 1700000000);
    assert_eq!(out.len(), 3);
    assert_eq!(
        read_back(&out, &KEYS),
        vec![
            ("title".to_string(), "hello".to_string()),
            ("created".to_string(), "1700000000".to_string()),
            ("updated".to_string(), "1700000000".to_string()),
        ]
    );
}

#[test]
fn check_fields_for_create_keeps_posted_updated() {
    let out = Db::check_fields("videos", &tables(), &posted(), false, 5);
    assert_eq!(out.len(), 3);
    assert_eq!(
        read_back(&out, &KEYS),
        vec![
            ("title".to_string(), "hello".to_string()),
            ("created".to_string(), "5".to_string()),
            ("updated".to_string(), "posted".to_string()),
        ]
    );
}

#[test]
fn check_fields_unknown_table_is_empty() {
    let out = Db::check_fields("nothing", &tables(), &posted(), true, 5);
    assert_eq!(out.len(), 0);
}

#[test]
fn check_fields_column_listed_twice_gives_one_key() {
    let mut real = StringHashMap::new();
    real.insert("t".to_string(), vec!["title".to_string(), "title".to_string(), "created".to_string()]);
    let out = Db::check_fields("t", &real, &posted(), false, 9);
    assert_eq!(out.len(), 2);
    assert_eq!(out.get("title"), Some(&"hello".to_string()));
    assert_eq!(out.get("created"), Some(&"9".to_string()));
}
