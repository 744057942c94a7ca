use malvolio::attributes::{Class, Id, IntoAttribute, Name};
use malvolio::legality::IntoUnion;
use malvolio::tags::option::SelectOptionAttr;
use malvolio::tags::select::SelectAttr;

fn pair(name: &str, value: &str) -> (String, String) {
    (name.to_string(), value.to_string())
}

#[test]
fn name_is_the_attribute_name() {
    assert_eq!(Name::new("colors").into_attribute(), pair("name", "colors"));
}

#[test]
fn class_is_the_attribute_class() {
    assert_eq!(Class::new("wide dark").into_attribute(), pair("class", "wide dark"));
}

#[test]
fn id_is_the_attribute_id() {
    assert_eq!(Id::new("picker").into_attribute(), pair("id", "picker"));
}

#[test]
fn attribute_value_is_kept_as_it_stands() {
    assert_eq!(Name::new("").into_attribute(), pair("name", ""));
    assert_eq!(Id::new("a\"b<c>&").into_attribute(), pair("id", "a\"b<c>&"));
}

#[test]
fn select_union_keeps_each_kind() {
    let name: SelectAttr = Name::new("colors").into_union();
    let class: SelectAttr = Class::new("wide").into_union();
    let id: SelectAttr = Id::new("picker").into_union();
    assert!(matches!(name, SelectAttr::Name(_)));
    assert!(matches!(class, SelectAttr::Class(_)));
    assert!(matches!(id, SelectAttr::Id(_)));
    assert_eq!(name.into_attribute(), pair("name", "colors"));
    assert_eq!(class.into_attribute(), pair("class", "wide"));
    assert_eq!(id.into_attribute(), pair("id", "picker"));
}

#[test]
fn option_union_keeps_each_kind() {
    let class: SelectOptionAttr = Class::new("wide").into_union();
    let id: SelectOptionAttr = Id::new("first").into_union();
    assert!(matches!(class, SelectOptionAttr::Class(_)));
    assert!(matches!(id, SelectOptionAttr::Id(_)));
    assert_eq!(class.into_attribute(), pair("class", "wide"));
    assert_eq!(id.into_attribute(), pair("id", "first"));
}

#[test]
fn union_member_converts_to_itself() {
    let member: SelectAttr = SelectAttr::Id(Id::new("picker")).into_union();
    assert_eq!(member.into_attribute(), pair("id", "picker"));
    let member: SelectOptionAttr = SelectOptionAttr::Class(Class::new("wide")).into_union();
    assert_eq!(member.into_attribute(), pair("class", "wide"));
}

#[test]
fn cloned_attribute_has_the_same_pair() {
    let name = Name::new("colors");
    assert_eq!(name.clone().into_attribute(), name.into_attribute());
    let attr = SelectAttr::Class(Class::new("wide"));
    assert_eq!(attr.clone().into_attribute(), attr.into_attribute());
}
