use video_admin::data::data_set::DataSet;

#[test]
fn create_is_empty_insert() {
    let ds = DataSet::create();
    assert!(ds.is_create);
    assert!(ds.fields.is_empty());
    assert!(ds.values.is_empty());
    assert_eq!(ds.build(), "() VALUES ('')");
}

#[test]
fn update_is_empty_update() {
    let ds = DataSet::update();
    assert!(!ds.is_create);
    assert!(ds.fields.is_empty());
    assert_eq!(ds.build(), "");
}

#[test]
fn build_create_lists_columns_and_values() {
    let mut ds = DataSet::create();
    ds.set("name", "admin").set("seq", "3");
    assert_eq!(ds.fields, vec!["name", "seq"]);
    assert_eq!(ds.values, vec!["admin".to_string(), "3".to_string()]);
    assert_eq!(ds.build(), "(name,seq) VALUES ('admin','3')");
}

#[test]
fn build_update_lists_assignments() {
    let mut ds = DataSet::update();
    ds.set("login_count", "2");
    ds.set("secret", "abc");
    assert_eq!(ds.build(), "login_count = '2',secret = 'abc'");
}

#[test]
fn build_update_single_field() {
    let mut ds = DataSet::update();
    ds.set("password", "x");
    assert_eq!(ds.build(), "password = 'x'");
}

#[test]
fn setting_id_turns_update_into_insert() {
    let mut ds = DataSet::update();
    ds.set("name", "a");
    assert!(!ds.is_create);
    ds.set("id", "7");
    assert!(ds.is_create);
    assert_eq!(ds.build(), "(name,id) VALUES ('a','7')");
}

#[test]
fn quote_in_value_is_kept_as_is() {
    let mut ds = DataSet::create();
    ds.set("remark", "it's");
    assert_eq!(ds.values, vec!["it's".to_string()]);
    assert_eq!(ds.build(), "(remark) VALUES ('it's')");
}

#[test]
fn clear_resets_to_empty_insert() {
    let mut ds = DataSet::update();
    ds.set("a", "1");
    let again = ds.clear();
    assert!(again.is_create);
    again.set("b", "2");
    assert_eq!(ds.fields, vec!["b"]);
    assert_eq!(ds.build(), "(b) VALUES ('2')");
}

#[test]
fn display_string_of_update() {
    let mut ds = DataSet::update();
    ds.set("name", "x").set("seq", "1");
    assert_eq!(ds.display_string(), "(method: update){\n    name => x,\n    seq => 1,\n}");
}

#[test]
fn display_string_of_empty_create() {
    let ds = DataSet::create();
    assert_eq!(ds.display_string(), "(method: create){\n}");
}
