use decoration_frame::layout::{collect_buttons, get_button_layout, get_button_layout_config};
use decoration_frame::pointer::ButtonKind;

const DEFAULT: [ButtonKind; 3] = [ButtonKind::Minimize, ButtonKind::Maximize, ButtonKind::Close];

#[test]
fn collect_buttons_reverses_known_names() {
    assert_eq!(
        collect_buttons("minimize,maximize,close"),
        vec![ButtonKind::Close, ButtonKind::Maximize, ButtonKind::Minimize]
    );
    assert_eq!(collect_buttons("close"), vec![ButtonKind::Close]);
    assert_eq!(collect_buttons("close,spacer,minimize"), vec![ButtonKind::Minimize, ButtonKind::Close]);
}

#[test]
fn collect_buttons_reads_only_three_words() {
    assert_eq!(collect_buttons("icon,appmenu,menu,close"), Vec::<ButtonKind>::new());
    assert_eq!(
        collect_buttons("close,close,close,minimize"),
        vec![ButtonKind::Close, ButtonKind::Close, ButtonKind::Close]
    );
}

#[test]
fn collect_buttons_of_empty_or_unknown() {
    assert_eq!(collect_buttons(""), Vec::<ButtonKind>::new());
    assert_eq!(collect_buttons("Close,CLOSE, close"), Vec::<ButtonKind>::new());
}

#[test]
fn layout_config_takes_last_word() {
    assert_eq!(
        get_button_layout_config("   variant       appmenu:minimize,maximize,close"),
        Some((String::from("appmenu"), String::from("minimize,maximize,close")))
    );
    assert_eq!(
        get_button_layout_config("close:menu:extra"),
        Some((String::from("close"), String::from("menu")))
    );
    assert_eq!(get_button_layout_config(":"), Some((String::new(), String::new())));
    assert_eq!(get_button_layout_config("no colon here"), None);
    assert_eq!(get_button_layout_config("a:b trailing"), None);
    assert_eq!(get_button_layout_config(""), None);
}

#[test]
fn layout_at_end_from_right_side() {
    assert_eq!(
        get_button_layout(Some(String::from("   variant       appmenu:minimize,maximize,close"))),
        (true, vec![ButtonKind::Close, ButtonKind::Maximize, ButtonKind::Minimize])
    );
}

#[test]
fn layout_at_start_from_left_side() {
    assert_eq!(
        get_button_layout(Some(String::from("close,minimize:maximize"))),
        (false, vec![ButtonKind::Minimize, ButtonKind::Close])
    );
}

#[test]
fn layout_falls_back_without_reply() {
    assert_eq!(get_button_layout(None), (true, DEFAULT.to_vec()));
}

#[test]
fn layout_falls_back_on_garbled_reply() {
    assert_eq!(get_button_layout(Some(String::from("garbage"))), (true, DEFAULT.to_vec()));
    assert_eq!(get_button_layout(Some(String::from("appmenu:spacer"))), (true, DEFAULT.to_vec()));
    assert_eq!(get_button_layout(Some(String::from("\u{1F600}:\u{00E9}"))), (true, DEFAULT.to_vec()));
    assert_eq!(get_button_layout(Some(String::new())), (true, DEFAULT.to_vec()));
}
