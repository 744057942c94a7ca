use malvolio::store::AttributeStore;

fn owned(pairs: &[(&str, &str)]) -> Vec<(String, String)> {
    pairs.iter().map(|(name, value)| (name.to_string(), value.to_string())).collect()
}

fn written(store: &AttributeStore) -> String {
    let mut out = String::new();
    store.write_to(&mut out);
    out
}

#[test]
fn new_store_is_empty() {
    let store = AttributeStore::new();
    assert_eq!(store.len(), 0);
    assert_eq!(store.pairs(), owned(&[]));
    assert_eq!(store.read("name"), None);
    assert_eq!(written(&store), "");
}

#[test]
fn read_returns_the_written_value() {
    let store = AttributeStore::new().insert("name".to_string(), "colors".to_string());
    assert_eq!(store.read("name"), Some(&"colors".to_string()));
    assert_eq!(store.len(), 1);
}

#[test]
fn read_of_a_name_never_written_is_absent() {
    let store = AttributeStore::new().insert("name".to_string(), "colors".to_string());
    assert_eq!(store.read("id"), None);
    assert_eq!(store.read("nam"), None);
    assert_eq!(store.read("names"), None);
    assert_eq!(store.read(""), None);
    assert_eq!(store.read("Name"), None);
}

#[test]
fn distinct_names_each_read_their_own_value() {
    let store = AttributeStore::new()
        .insert("name".to_string(), "colors".to_string())
        .insert("class".to_string(), "wide".to_string())
        .insert("id".to_string(), "picker".to_string());
    assert_eq!(store.read("name"), Some(&"colors".to_string()));
    assert_eq!(store.read("class"), Some(&"wide".to_string()));
    assert_eq!(store.read("id"), Some(&"picker".to_string()));
    assert_eq!(store.len(), 3);
}

#[test]
fn later_write_replaces_the_earlier_value() {
    let store = AttributeStore::new()
        .insert("name".to_string(), "first".to_string())
        .insert("name".to_string(), "second".to_string())
        .insert("name".to_string(), "third".to_string());
    assert_eq!(store.read("name"), Some(&"third".to_string()));
    assert_eq!(store.len(), 1);
    assert_eq!(store.pairs(), owned(&[("name", "third")]));
}

#[test]
fn rewritten_name_keeps_its_place() {
    let store = AttributeStore::new()
        .insert("name".to_string(), "colors".to_string())
        .insert("class".to_string(), "wide".to_string())
        .insert("id".to_string(), "picker".to_string())
        .insert("name".to_string(), "shades".to_string());
    assert_eq!(
        store.pairs(),
        owned(&[("name", "shades"), ("class", "wide"), ("id", "picker")])
    );
}

#[test]
fn write_under_one_name_spares_the_others() {
    let store = AttributeStore::new()
        .insert("name".to_string(), "colors".to_string())
        .insert("class".to_string(), "wide".to_string());
    let store = store.insert("class".to_string(), "narrow".to_string());
    assert_eq!(store.read("name"), Some(&"colors".to_string()));
    assert_eq!(store.read("class"), Some(&"narrow".to_string()));
}

#[test]
fn pairs_come_in_the_order_of_first_writes() {
    let store = AttributeStore::new()
        .insert("id".to_string(), "a".to_string())
        .insert("class".to_string(), "b".to_string())
        .insert("name".to_string(), "c".to_string());
    assert_eq!(store.pairs(), owned(&[("id", "a"), ("class", "b"), ("name", "c")]));
}

#[test]
fn one_attribute_is_written_without_a_space() {
    let store = AttributeStore::new().insert("name".to_string(), "colors".to_string());
    assert_eq!(written(&store), "name=\"colors\"");
}

#[test]
fn attributes_are_written_with_one_space_between() {
    let store = AttributeStore::new()
        .insert("name".to_string(), "colors".to_string())
        .insert("class".to_string(), "wide".to_string())
        .insert("id".to_string(), "picker".to_string());
    assert_eq!(written(&store), "name=\"colors\" class=\"wide\" id=\"picker\"");
}

#[test]
fn write_to_appends_to_what_is_there() {
    let store = AttributeStore::new().insert("id".to_string(), "x".to_string());
    let mut out = String::from("<p ");
    store.write_to(&mut out);
    assert_eq!(out, "<p id=\"x\"");
}

#[test]
fn values_are_written_as_they_stand() {
    let store = AttributeStore::new()
        .insert("title".to_string(), "a &amp; b <c>".to_string())
        .insert("empty".to_string(), "".to_string());
    assert_eq!(written(&store), "title=\"a &amp; b <c>\" empty=\"\"");
}

#[test]
fn only_the_last_value_is_written_out() {
    let store = AttributeStore::new()
        .insert("name".to_string(), "first".to_string())
        .insert("id".to_string(), "x".to_string())
        .insert("name".to_string(), "last".to_string());
    assert_eq!(written(&store), "name=\"last\" id=\"x\"");
}

#[test]
fn names_with_other_letters_are_kept_apart() {
    let store = AttributeStore::new()
        .insert("données".to_string(), "é".to_string())
        .insert("donnees".to_string(), "e".to_string());
    assert_eq!(store.len(), 2);
    assert_eq!(store.read("données"), Some(&"é".to_string()));
    assert_eq!(store.read("donnees"), Some(&"e".to_string()));
}

#[test]
fn clone_of_a_store_is_independent() {
    let store = AttributeStore::new().insert("name".to_string(), "colors".to_string());
    let copy = store.clone().insert("name".to_string(), "shades".to_string());
    assert_eq!(store.read("name"), Some(&"colors".to_string()));
    assert_eq!(copy.read("name"), Some(&"shades".to_string()));
}

#[test]
fn many_writes_keep_one_entry_per_name() {
    let mut store = AttributeStore::new();
    for round in 0..50 {
        for name in ["a", "b", "c", "d"] {
            store = store.insert(name.to_string(), format!("{name}{round}"));
        }
    }
    assert_eq!(store.len(), 4);
    assert_eq!(
        store.pairs(),
        owned(&[("a", "a49"), ("b", "b49"), ("c", "c49"), ("d", "d49")])
    );
}
