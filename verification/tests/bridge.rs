use browser_chrome::{
    init_script, Config, Coordinator, CreationOutcome, Navigation, Scale, HOTKEY_MESSAGE,
};

fn ready_coordinator() -> Coordinator<u32> {
    let mut coordinator: Coordinator<u32> = Coordinator::new(Config::default());
    coordinator.start();
    coordinator.on_retry_tick(800, 600, Scale { num: 1, den: 1 }, "");
    coordinator.on_creation_result(CreationOutcome::Created(1));
    assert!(coordinator.is_ready());
    coordinator
}

#[test]
fn go_before_ready_shows_the_target_and_loads_nothing() {
    let mut coordinator: Coordinator<u32> = Coordinator::new(Config::default());
    assert_eq!(
        coordinator.on_go("example.com"),
        Navigation { target: "https://example.com".to_string(), load: false }
    );
    coordinator.start();
    assert_eq!(
        coordinator.on_go("how to tie a knot"),
        Navigation {
            target: "https://duckduckgo.com/?q=how%20to%20tie%20a%20knot".to_string(),
            load: false,
        }
    );
}

#[test]
fn go_when_ready_loads_the_target() {
    let coordinator = ready_coordinator();
    assert_eq!(
        coordinator.on_go(" example.com "),
        Navigation { target: "https://example.com".to_string(), load: true }
    );
    assert_eq!(
        coordinator.on_go(""),
        Navigation { target: "about:blank".to_string(), load: true }
    );
}

#[test]
fn go_after_abandoning_loads_nothing() {
    let mut coordinator: Coordinator<u32> = Coordinator::new(Config::default());
    coordinator.start();
    coordinator.on_retry_tick(800, 600, Scale { num: 1, den: 1 }, "");
    coordinator.on_creation_result(CreationOutcome::Fatal);
    assert_eq!(
        coordinator.on_go("https://a.b/c?d=e"),
        Navigation { target: "https://a.b/c?d=e".to_string(), load: false }
    );
}

#[test]
fn go_searches_with_the_configured_engine() {
    let mut config = Config::default();
    config.search_prefix = "https://search.example/?q=".to_string();
    let coordinator: Coordinator<u32> = Coordinator::new(config);
    assert_eq!(coordinator.on_go("x y").target, "https://search.example/?q=x%20y");
}

#[test]
fn hotkey_message_reveals_the_overlay_when_ready() {
    let coordinator = ready_coordinator();
    assert!(coordinator.on_content_message("focus-address"));
    assert!(coordinator.on_content_message(HOTKEY_MESSAGE));
}

#[test]
fn other_messages_are_dropped() {
    let coordinator = ready_coordinator();
    assert!(!coordinator.on_content_message(""));
    assert!(!coordinator.on_content_message("focus-address "));
    assert!(!coordinator.on_content_message("Focus-Address"));
    assert!(!coordinator.on_content_message("navigate"));
}

#[test]
fn hotkey_before_ready_is_dropped() {
    let mut coordinator: Coordinator<u32> = Coordinator::new(Config::default());
    assert!(!coordinator.on_content_message("focus-address"));
    coordinator.start();
    assert!(!coordinator.on_content_message("focus-address"));
}

#[test]
fn hotkey_message_is_fixed() {
    assert_eq!(HOTKEY_MESSAGE, "focus-address");
}

#[test]
fn init_script_posts_the_hotkey_message() {
    let script = init_script();
    assert!(script.starts_with("window.addEventListener('keydown'"));
    assert!(script.contains("window.ipc.postMessage('focus-address')"));
    assert!(script.contains("event.ctrlKey || event.metaKey"));
    assert!(script.ends_with("}, true);"));
}
