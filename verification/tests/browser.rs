use xtui::browser::{
    attachable_pages, candidate_paths, find_chromium_executable, first_existing_executable,
    select_page, DebugTarget,
};

#[test]
fn browser_candidates_are_nonempty_on_supported_platforms() {
    let _ = candidate_paths("/usr/bin:/usr/local/bin");
}

#[test]
fn candidates_try_each_browser_in_each_path_entry() {
    let c = candidate_paths("/usr/bin:/opt/bin");
    assert_eq!(c.len(), 8);
    assert_eq!(c[0], "/usr/bin/microsoft-edge");
    assert_eq!(c[1], "/opt/bin/microsoft-edge");
    assert_eq!(c[7], "/opt/bin/chromium-browser");
}

#[test]
fn executable_discovery_uses_the_first_existing_candidate() {
    let missing = "/tmp/x/missing-browser".to_string();
    let present = "/tmp/x/browser.exe".to_string();
    assert_eq!(
        first_existing_executable(vec![missing, present.clone()], &vec![false, true]),
        Some(present)
    );
}

#[test]
fn chromium_is_found_in_preference_order() {
    let mut present = vec![false; 8];
    present[5] = true;
    assert_eq!(
        find_chromium_executable("/usr/bin:/opt/bin", &present).as_deref(),
        Some("/opt/bin/chromium")
    );
    assert_eq!(find_chromium_executable("/usr/bin", &vec![]), None);
}

fn target(kind: &str, url: &str, socket: bool) -> DebugTarget {
    DebugTarget {
        target_type: kind.into(),
        url: url.into(),
        websocket_url: if socket { Some("ws://x".into()) } else { None },
    }
}

#[test]
fn the_x_tab_is_preferred() {
    let pages = attachable_pages(vec![
        target("page", "about:blank", true),
        target("worker", "https://x.com/sw.js", true),
        target("page", "https://x.com/home", true),
        target("page", "https://x.com/other", false),
    ]);
    assert_eq!(pages.len(), 2);
    assert_eq!(select_page(&pages), Some(1));
    assert_eq!(select_page(&pages[..1].iter().map(|p| target(&p.target_type, &p.url, true)).collect()), Some(0));
    assert_eq!(select_page(&vec![]), None);
}
