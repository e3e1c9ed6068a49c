use link_preview_bot::{
    create_previews, help_command, route_message, Route, HELP_COMMAND, HELP_MESSAGE,
};

#[test]
fn help_command_is_answered_with_help() {
    assert!(matches!(route_message("!help", "K"), Route::Help));
    assert_eq!(HELP_COMMAND, "!help");
}

#[test]
fn help_text_is_fixed() {
    assert_eq!(help_command(), HELP_MESSAGE);
    assert!(help_command().contains("Welcome to Real Dev Squad!"));
    assert!(help_command().contains("`!help`"));
}

#[test]
fn help_with_more_text_is_no_help() {
    match route_message("!help https://a.com", "K") {
        Route::Previews(rs) => {
            assert_eq!(rs.len(), 1);
            assert_eq!(rs[0].source_url, "https://a.com");
        }
        Route::Help => panic!("not the help command"),
    }
}

#[test]
fn help_command_is_case_sensitive() {
    match route_message("!HELP", "K") {
        Route::Previews(rs) => assert!(rs.is_empty()),
        Route::Help => panic!("not the help command"),
    }
}

#[test]
fn message_gets_one_request_per_link() {
    let rs = create_previews("a https://a.com b https://a.com http://c.io/p", "KEY");
    assert_eq!(rs.len(), 3);
    assert_eq!(rs[0].source_url, "https://a.com");
    assert_eq!(rs[1].source_url, "https://a.com");
    assert_eq!(rs[2].source_url, "http://c.io/p");
    assert_eq!(
        rs[2].metadata_url,
        "https://opengraph.io/api/1.1/site/http%3A%2F%2Fc.io%2Fp?app_id=KEY"
    );
    assert_eq!(
        rs[2].screenshot_url,
        "https://opengraph.io/api/1.1/screenshot/http%3A%2F%2Fc.io%2Fp?app_id=KEY&quality=60&dimensions=lg"
    );
}

#[test]
fn message_without_links_gets_no_request() {
    match route_message("hello there", "K") {
        Route::Previews(rs) => assert!(rs.is_empty()),
        Route::Help => panic!("not the help command"),
    }
}
