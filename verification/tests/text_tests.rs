use picacg::text::comic_dir_name;
use picacg::text::episode_label;
use picacg::text::path_escape;
use picacg::text::to_full_width_char;
use picacg::text::url_extension;
use picacg::text::url_tail;

#[test]
fn full_width_of_question_mark() {
    assert_eq!(to_full_width_char('?'), '？');
    assert_eq!(to_full_width_char(':'), '：');
    assert_eq!(to_full_width_char('A'), 'Ａ');
}

#[test]
fn path_escape_replaces_every_forbidden_character() {
    assert_eq!(path_escape(r#"a\b/c:d*e?f"g<h>i|j"#), "a＼b／c：d＊e？f＂g＜h＞i｜j");
}

#[test]
fn path_escape_leaves_ordinary_text_alone() {
    assert_eq!(path_escape("Some Title 03"), "Some Title 03");
    assert_eq!(path_escape(""), "");
}

#[test]
fn path_escape_keeps_multibyte_text() {
    assert_eq!(path_escape("番外篇：第1話"), "番外篇：第1話");
}

#[test]
fn url_extension_takes_the_last_dot() {
    assert_eq!(url_extension("https://host/files/game.v2.apk"), Some("apk".to_string()));
    assert_eq!(url_extension("archive.tar.gz"), Some("gz".to_string()));
}

#[test]
fn url_extension_none_without_dot() {
    assert_eq!(url_extension("https://host/files/game"), None);
    assert_eq!(url_extension(""), None);
}

#[test]
fn url_extension_of_trailing_dot_is_empty() {
    assert_eq!(url_extension("name."), Some(String::new()));
}

#[test]
fn url_tail_takes_the_last_segment() {
    assert_eq!(url_tail("https://host/dir/file.jpg"), "file.jpg");
    assert_eq!(url_tail("no-slash"), "no-slash");
    assert_eq!(url_tail("trailing/"), "");
    assert_eq!(url_tail(""), "");
}

#[test]
fn naming_helpers_join_their_parts() {
    assert_eq!(comic_dir_name("Title", "Author"), "Title - Author");
    assert_eq!(episode_label("Ch 3", "Title", "Author"), "Ch 3 of Title - Author");
}
