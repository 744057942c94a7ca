use malvolio::prelude::{select, BodyNode, Class, Id, IntoUnion, Name, SelectOption, Text};

#[test]
fn a_form_control_built_from_the_prelude() {
    let control: BodyNode = select()
        .attribute(Name::new("colors"))
        .attribute(Class::new("wide"))
        .attribute(Id::new("picker"))
        .child(SelectOption::new("Red").attribute(Id::new("red")))
        .child(SelectOption::new("Blue"))
        .into_union();
    let label: BodyNode = Text::new("Pick a color").into_union();
    assert_eq!(
        format!("{}{}", label.render(), control.render()),
        "Pick a color<select name=\"colors\" class=\"wide\" id=\"picker\">\
         <option id=\"red\">Red</option><option >Blue</option></select>"
    );
}
