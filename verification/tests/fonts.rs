use mdshell::fonts::get_system_fonts;

#[test]
fn fonts_are_handed_on_in_their_order() {
    let listed = vec![
        String::from("Noto Sans"),
        String::from("Arial"),
        String::from("Noto Sans"),
    ];
    assert_eq!(get_system_fonts(Some(listed.clone())), listed);
}

#[test]
fn a_failed_font_query_gives_no_fonts() {
    assert_eq!(get_system_fonts(None), Vec::<String>::new());
}

#[test]
fn a_machine_without_fonts_gives_no_fonts() {
    assert!(get_system_fonts(Some(Vec::new())).is_empty());
}
