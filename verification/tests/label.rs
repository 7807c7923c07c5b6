use terse::tui::label::Label;

#[test]
fn label_puts_key_before_action() {
    assert_eq!(Label::new("enter", "search"), " enter: search ");
    assert_eq!(Label::new("", ""), " :  ");
}

#[test]
fn labels_are_joined_with_dashes() {
    let labels = vec![Label::new("j", "down"), Label::new("k", "up")];
    assert_eq!(Label::join(labels), " j: down  -  k: up ");
    assert_eq!(Label::join(vec![]), "");
    assert_eq!(Label::join(vec!["one".to_string()]), "one");
}
