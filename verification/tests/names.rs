use pw_capture_client::get_app_name;

#[test]
fn app_name() {
    let res = get_app_name(None, None);
    assert!(!res.is_empty())
}

#[test]
fn app_name_prefers_program() {
    let res = get_app_name(Some(String::from("vkcube")), Some(String::from("other")));
    assert_eq!(res, "vkcube");
}

#[test]
fn app_name_skips_wine_preloader() {
    let res = get_app_name(Some(String::from("wine-preloader")), Some(String::from("game.exe")));
    assert_eq!(res, "game.exe");
    let res = get_app_name(Some(String::from("wine64-preloader")), Some(String::from("game.exe")));
    assert_eq!(res, "game.exe");
}

#[test]
fn app_name_fallback() {
    let res = get_app_name(Some(String::from("wine-preloader")), None);
    assert_eq!(res, "unknown");
    let res = get_app_name(None, Some(String::from("comm")));
    assert_eq!(res, "comm");
}
