use malvolio::attributes::Name;
use malvolio::legality::IntoUnion;
use malvolio::tags::body_node::BodyNode;
use malvolio::tags::option::SelectOption;
use malvolio::tags::select::select;
use malvolio::text::Text;

#[test]
fn text_renders_as_it_stands() {
    assert_eq!(Text::new("a &lt; b").render(), "a &lt; b");
    assert_eq!(Text::new("").render(), "");
    let mut out = String::from(">");
    Text::new("pick one").write_to(&mut out);
    assert_eq!(out, ">pick one");
}

#[test]
fn select_becomes_a_body_node() {
    let node: BodyNode = select()
        .attribute(Name::new("colors"))
        .child(SelectOption::new("Red"))
        .into_union();
    assert!(matches!(node, BodyNode::Select(_)));
    assert_eq!(node.render(), "<select name=\"colors\"><option >Red</option></select>");
}

#[test]
fn text_becomes_a_body_node() {
    let node: BodyNode = Text::new("pick one").into_union();
    assert!(matches!(node, BodyNode::Text(_)));
    assert_eq!(node.render(), "pick one");
}

#[test]
fn body_node_converts_to_itself() {
    let node: BodyNode = BodyNode::Text(Text::new("x")).into_union();
    assert_eq!(node.render(), "x");
}

#[test]
fn body_nodes_write_themselves_one_after_the_other() {
    let nodes: Vec<BodyNode> = vec![
        Text::new("Color: ").into_union(),
        select().child(SelectOption::new("Red")).into_union(),
        Text::new("!").into_union(),
    ];
    let mut out = String::new();
    for node in &nodes {
        node.write_to(&mut out);
    }
    assert_eq!(out, "Color: <select ><option >Red</option></select>!");
}

#[test]
fn clone_of_a_body_node_renders_the_same() {
    let node: BodyNode = select().child(SelectOption::new("Red")).into_union();
    assert_eq!(node.clone().render(), node.render());
}
