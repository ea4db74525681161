use parsera::identity::{Identity, IdentityManager, Proxy, Source};

fn identity(agent: &str) -> Identity {
    Identity {
        user_agent: agent.to_string(),
        accept: "text/html".to_string(),
        accept_language: "en-US".to_string(),
        accept_encoding: "gzip".to_string(),
        referer: "https://www.google.com/".to_string(),
        cookie: String::new(),
        dnt: "1".to_string(),
        upgrade_insecure_requests: "1".to_string(),
        cache_control: "no-cache".to_string(),
        proxy: None,
    }
}

fn agents(m: &IdentityManager) -> Vec<String> {
    m.pool.iter().map(|i| i.user_agent.clone()).collect()
}

#[test]
fn pool_never_exceeds_capacity() {
    let capacity = 4;
    let mut m = IdentityManager::new(capacity, 50);
    for k in 0..=capacity {
        m.add(identity(&format!("agent{}", k)));
        assert!(m.pool.len() <= capacity);
    }
    assert_eq!(m.pool.len(), capacity);
    assert_eq!(agents(&m), vec!["agent1", "agent2", "agent3", "agent4"]);
}

#[test]
fn pool_of_capacity_zero_keeps_nothing() {
    let mut m = IdentityManager::new(0, 50);
    m.add(identity("a"));
    assert_eq!(m.pool.len(), 0);
    assert_eq!(m.choose_source(), Source::External);
}

#[test]
fn pop_local_is_last_in_first_out() {
    let mut m = IdentityManager::new(3, 0);
    m.add(identity("a"));
    m.add(identity("b"));
    assert_eq!(m.pop_local().map(|i| i.user_agent), Some("b".to_string()));
    assert_eq!(m.pop_local().map(|i| i.user_agent), Some("a".to_string()));
    assert!(m.pop_local().is_none());
}

#[test]
fn source_follows_pool_and_draw() {
    let mut m = IdentityManager::new(3, 30);
    assert_eq!(m.source_for_draw(0), Source::External);
    assert_eq!(m.source_for_draw(99), Source::External);
    m.add(identity("a"));
    assert_eq!(m.source_for_draw(0), Source::External);
    assert_eq!(m.source_for_draw(29), Source::External);
    assert_eq!(m.source_for_draw(30), Source::Local);
    assert_eq!(m.source_for_draw(99), Source::Local);
    m.add(identity("b"));
    m.add(identity("c"));
    assert_eq!(m.source_for_draw(0), Source::Local);
}

#[test]
fn rotation_rate_extremes_are_deterministic() {
    let mut never = IdentityManager::new(3, 0);
    never.add(identity("a"));
    let mut always = IdentityManager::new(3, 100);
    always.add(identity("a"));
    for _ in 0..100 {
        assert_eq!(never.choose_source(), Source::Local);
        assert_eq!(always.choose_source(), Source::External);
    }
}

#[test]
fn external_identity_is_cached_and_returned() {
    let mut m = IdentityManager::new(2, 50);
    let got = m.accept_external(Some(identity("fresh")));
    assert_eq!(got.map(|i| i.user_agent), Some("fresh".to_string()));
    assert_eq!(agents(&m), vec!["fresh"]);
    assert!(m.accept_external(None).is_none());
    assert_eq!(agents(&m), vec!["fresh"]);
}

#[test]
fn identity_clone_is_equal() {
    let mut i = identity("x");
    let mut p = Proxy::new();
    p.ip = "10.0.0.1".to_string();
    p.port = 8080;
    i.proxy = Some(p);
    let c = i.clone();
    assert_eq!(c.user_agent, "x");
    let cp = c.proxy.unwrap();
    assert_eq!(cp.ip, "10.0.0.1");
    assert_eq!(cp.port, 8080);
}

#[test]
fn new_proxy_is_blank() {
    let p = Proxy::new();
    assert!(p.ip.is_empty() && p.country.is_empty() && p.source.is_empty());
    assert_eq!(p.port, 0);
    assert!(!p.google && !p.https && !p.verified);
}
