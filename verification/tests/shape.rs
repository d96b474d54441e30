use dld::common::shape::{
    diff_fields, format_default, leaf_paths, str_lt, value_at_path, value_kind, JsonLeaf, JsonShape,
};

fn leaf() -> JsonShape {
    JsonShape::Leaf(JsonLeaf::Null)
}

fn obj(entries: Vec<(&str, JsonShape)>) -> JsonShape {
    JsonShape::Object(entries.into_iter().map(|(k, v)| (k.to_string(), v)).collect())
}

/// The shape of the default global configuration's first levels.
fn defaults() -> JsonShape {
    obj(vec![
        ("兑换码", obj(vec![("code", leaf())])),
        ("运行时", obj(vec![("并发数", leaf()), ("日志保留天数", leaf())])),
    ])
}

#[test]
fn leaf_paths_join_keys_with_dots() {
    let paths = leaf_paths(&defaults(), "");
    assert_eq!(paths, vec!["兑换码.code", "运行时.并发数", "运行时.日志保留天数"]);
}

#[test]
fn leaf_paths_of_a_leaf_is_its_prefix() {
    assert_eq!(leaf_paths(&leaf(), "a.b"), vec!["a.b"]);
    assert!(leaf_paths(&obj(vec![]), "").is_empty());
}

#[test]
fn diff_of_an_empty_file_adds_every_field() {
    let diff = diff_fields(&obj(vec![]), &defaults());
    assert_eq!(diff.added, vec!["兑换码.code", "运行时.并发数", "运行时.日志保留天数"]);
    assert!(diff.removed.is_empty());
}

#[test]
fn diff_of_the_defaults_is_empty() {
    let diff = diff_fields(&defaults(), &defaults());
    assert!(diff.added.is_empty());
    assert!(diff.removed.is_empty());
}

#[test]
fn diff_adds_missing_and_removes_deprecated() {
    let old = obj(vec![
        ("兑换码", obj(vec![])),
        ("运行时", obj(vec![("并发数", leaf())])),
        ("废弃项", obj(vec![("x", leaf())])),
    ]);
    let diff = diff_fields(&old, &defaults());
    assert_eq!(diff.added, vec!["兑换码.code", "运行时.日志保留天数"]);
    assert_eq!(diff.removed, vec!["废弃项.x"]);
}

#[test]
fn diff_lists_are_sorted() {
    let default = obj(vec![("b", leaf()), ("a", leaf()), ("c", leaf())]);
    let old = obj(vec![("z", leaf()), ("y", leaf())]);
    let diff = diff_fields(&old, &default);
    assert_eq!(diff.added, vec!["a", "b", "c"]);
    assert_eq!(diff.removed, vec!["y", "z"]);
}

#[test]
fn str_lt_orders_like_strings() {
    assert!(str_lt("a", "b"));
    assert!(str_lt("a", "ab"));
    assert!(!str_lt("ab", "a"));
    assert!(!str_lt("a", "a"));
    assert!(str_lt("", "a"));
    assert_eq!(str_lt("兑换码", "运行时"), "兑换码" < "运行时");
}

#[test]
fn report_describes_defaults() {
    let num = JsonShape::Leaf(JsonLeaf::Number("20".to_string()));
    assert_eq!(value_kind(&num), "number");
    assert_eq!(format_default(&num), "20");
    let text = JsonShape::Leaf(JsonLeaf::Str("161616".to_string()));
    assert_eq!(value_kind(&text), "string");
    assert_eq!(format_default(&text), "\"161616\"");
    assert_eq!(format_default(&JsonShape::Leaf(JsonLeaf::Bool(true))), "true");
    assert_eq!(format_default(&JsonShape::Leaf(JsonLeaf::Bool(false))), "false");
    assert_eq!(format_default(&JsonShape::Leaf(JsonLeaf::Null)), "null");
    assert_eq!(format_default(&JsonShape::Leaf(JsonLeaf::Array(0))), "[]");
    assert_eq!(format_default(&JsonShape::Leaf(JsonLeaf::Array(9))), "[9 个元素]");
    assert_eq!(value_kind(&JsonShape::Leaf(JsonLeaf::Array(9))), "array");
    assert_eq!(value_kind(&obj(vec![])), "object");
    assert_eq!(format_default(&obj(vec![])), "{}");
}

#[test]
fn value_at_path_follows_the_keys() {
    let shape = obj(vec![
        ("兑换码", obj(vec![("code", JsonShape::Leaf(JsonLeaf::Str("161616".to_string())))])),
        ("运行时", obj(vec![("并发数", JsonShape::Leaf(JsonLeaf::Number("3".to_string())))])),
    ]);
    let found = value_at_path(&shape, "运行时.并发数").unwrap();
    assert_eq!(format_default(found), "3");
    assert_eq!(format_default(value_at_path(&shape, "兑换码.code").unwrap()), "\"161616\"");
    assert_eq!(value_kind(value_at_path(&shape, "兑换码").unwrap()), "object");
    assert!(value_at_path(&shape, "兑换码.code.x").is_none());
    assert!(value_at_path(&shape, "运行时.缺少").is_none());
    assert!(value_at_path(&shape, "").is_none());
}
