use std::collections::HashMap;

use parsera::api::{add_site, scrape_reply, AddSiteIn, MessageIn};
use parsera::models::EventStatus;

#[test]
fn add_site_is_acknowledged_as_pending() {
    let mut xpaths = HashMap::new();
    xpaths.insert("title".to_string(), "//h1".to_string());
    let out = add_site(AddSiteIn {
        url: "https://x.com".to_string(),
        user_id: 3,
        is_pagination: true,
        refresh_interval: 60,
        xpaths,
    });
    assert_eq!(out.event_id, 1);
    assert_eq!(out.status, EventStatus::Pending);
    assert_eq!(out.params.url, "https://x.com");
    assert_eq!(out.params.user_id, 3);
    assert!(out.params.is_pagination);
    assert_eq!(out.params.refresh_interval, 60);
    assert_eq!(out.params.xpaths.get("title").map(|s| s.as_str()), Some("//h1"));
}

#[test]
fn scrape_reply_carries_the_html() {
    let msg = MessageIn {
        event_id: "e1".to_string(),
        user_id: "u1".to_string(),
        url: "https://x.com".to_string(),
        xpaths: HashMap::new(),
        is_pagination: false,
        refresh_interval: 30,
        status: EventStatus::ScrapperProcessing,
    };
    let out = scrape_reply(msg, "<html></html>".to_string());
    assert_eq!(out.html, "<html></html>");
    assert_eq!(out.event_id, "e1");
    assert_eq!(out.user_id, "u1");
    assert_eq!(out.url, "https://x.com");
    assert_eq!(out.refresh_interval, 30);
    assert!(!out.is_pagination);
    assert_eq!(out.statuts, EventStatus::ScrapperProcessing);
}
