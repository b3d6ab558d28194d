use loopback_vault::pages::{denied_page, failure_page, render_page, success_page};
use loopback_vault::profile::{normalize_profile, profile_or_guest, UserProfile};
use loopback_vault::text::replace_in_str;

#[test]
fn replace_all_occurrences_left_to_right() {
    assert_eq!(replace_in_str("a-b-c", "-", "+"), "a+b+c");
    assert_eq!(replace_in_str("aaa", "aa", "x"), "xa");
    assert_eq!(replace_in_str("none here", "zz", "x"), "none here");
}

#[test]
fn replacement_is_not_rescanned() {
    // the inserted value holds the pattern, and stays as it is
    assert_eq!(replace_in_str("abab", "ab", "aab"), "aabaab");
}

#[test]
fn render_fills_all_slots() {
    let template = "<t>${title}</t>${dynamicStyle}<b>${breadcrumb}</b>${bodyContent}";
    let page = render_page(template, "Hi", "<p>Body</p>", false);
    assert_eq!(
        page,
        "<t>Hi</t><style>:root { --title-color: #202124; }</style>\
         <b>Confirmation</b><p>Body</p>"
    );
}

#[test]
fn render_error_page_is_red() {
    let template = "${dynamicStyle}|${breadcrumb}";
    let page = render_page(template, "x", "y", true);
    assert_eq!(
        page,
        "<style>:root { --title-color: #d93025; }</style>|Error"
    );
}

#[test]
fn render_repeated_slot() {
    let page = render_page("${title} and ${title}", "A", "", false);
    assert_eq!(page, "A and A");
}

#[test]
fn render_without_slots_is_identity() {
    let page = render_page("plain text", "A", "B", true);
    assert_eq!(page, "plain text");
}

#[test]
fn fixed_page_texts() {
    let template = "${title}|${breadcrumb}|${bodyContent}";
    assert_eq!(
        denied_page(template),
        "Authentication Failed|Error|No authorization code found."
    );
    assert_eq!(
        failure_page(template),
        "Auth Failed|Error|Google refused the code exchange."
    );
    assert_eq!(
        success_page(template),
        "Authentication Successful|Confirmation|<p>Spatialshot is now connected to your \
         Google Account.</p><p>You can close this tab.</p>"
    );
}

#[test]
fn normalize_takes_first_entries() {
    let p = normalize_profile(
        &vec![Some("Ada".to_string()), Some("Second".to_string())],
        &vec![Some("a@x.com".to_string())],
        &vec![Some("https://img/x".to_string())],
    );
    assert_eq!(p.name, "Ada");
    assert_eq!(p.email, "a@x.com");
    assert_eq!(p.avatar, "https://img/x");
}

#[test]
fn normalize_defaults() {
    let p = normalize_profile(&vec![], &vec![], &vec![]);
    assert_eq!(p.name, "Spatial User");
    assert_eq!(p.email, "");
    assert_eq!(p.avatar, "");
    // a first record without the field also falls back
    let p = normalize_profile(&vec![None], &vec![None], &vec![None]);
    assert_eq!(p.name, "Spatial User");
    assert_eq!(p.email, "");
}

#[test]
fn normalize_upgrades_http_avatar() {
    let p = normalize_profile(
        &vec![],
        &vec![],
        &vec![Some("http://img.example/a?u=http://img.example/b".to_string())],
    );
    // every occurrence is rewritten once the URL opens with plain http
    assert_eq!(p.avatar, "https://img.example/a?u=https://img.example/b");
    // a URL that is already https is left alone
    let p = normalize_profile(&vec![], &vec![], &vec![Some("https://ok".to_string())]);
    assert_eq!(p.avatar, "https://ok");
}

#[test]
fn guest_profile_when_nothing_is_stored() {
    let g = profile_or_guest(None);
    assert_eq!(g.name, "Guest User");
    assert_eq!(g.email, "Not logged in");
    assert_eq!(g.avatar, "");
    let kept = profile_or_guest(Some(UserProfile {
        name: "Ada".to_string(),
        email: "a@x".to_string(),
        avatar: "".to_string(),
    }));
    assert_eq!(kept.name, "Ada");
}
