use homepage::app::App;
use homepage::head::{install_app_head, HeadRegistry, HeadTag};

fn assert_app_head(tags: &[HeadTag]) {
    assert_eq!(tags.len(), 5);
    match &tags[0] {
        HeadTag::Stylesheet { href } => assert_eq!(href.as_str(), "/pkg/homepage.css"),
        _ => panic!("expected the application stylesheet"),
    }
    match &tags[1] {
        HeadTag::Link { rel, href, crossorigin } => {
            assert_eq!(rel.as_str(), "preconnect");
            assert_eq!(href.as_str(), "https://fonts.googleapis.com");
            assert!(!crossorigin);
        }
        _ => panic!("expected a preconnect link"),
    }
    match &tags[2] {
        HeadTag::Link { rel, href, crossorigin } => {
            assert_eq!(rel.as_str(), "preconnect");
            assert_eq!(href.as_str(), "https://fonts.gstatic.com");
            assert!(crossorigin);
        }
        _ => panic!("expected a preconnect link"),
    }
    match &tags[3] {
        HeadTag::Link { rel, href, crossorigin } => {
            assert_eq!(rel.as_str(), "stylesheet");
            assert_eq!(
                href.as_str(),
                "https://fonts.googleapis.com/css2?family=Kaisei+Opti:wght@400;700&family=Roboto:wght@100..900&display=swap"
            );
            assert!(!crossorigin);
        }
        _ => panic!("expected the font stylesheet link"),
    }
    match &tags[4] {
        HeadTag::Title { text } => assert_eq!(text.as_str(), "ようこそ"),
        _ => panic!("expected the document title"),
    }
}

#[test]
fn installed_head_lists_fixed_resources() {
    let mut reg = HeadRegistry::new();
    install_app_head(&mut reg);
    assert_app_head(&reg.tags);
}

#[test]
fn mounted_app_declares_the_same_head() {
    let app = App::mount("");
    assert_app_head(&app.head.tags);
    let app = App::mount("/anything/else");
    assert_app_head(&app.head.tags);
}

#[test]
fn declare_is_additive_only() {
    let mut reg = HeadRegistry::new();
    reg.declare(HeadTag::Title { text: "one".to_owned() });
    reg.declare(HeadTag::Title { text: "two".to_owned() });
    assert_eq!(reg.tags.len(), 2);
    match &reg.tags[0] {
        HeadTag::Title { text } => assert_eq!(text.as_str(), "one"),
        _ => panic!("expected a title"),
    }
    match &reg.tags[1] {
        HeadTag::Title { text } => assert_eq!(text.as_str(), "two"),
        _ => panic!("expected a title"),
    }
}
