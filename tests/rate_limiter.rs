use parsera::rate_limiter::{eligible_queues, get_queues, reserve, select_queue, COOLDOWN_SECS};

fn queues(names: &[&str]) -> Vec<String> {
    names.iter().map(|s| s.to_string()).collect()
}

#[test]
fn reserve_never_picks_the_cooled_queue() {
    let candidates = queues(&["scrape1", "scrape2", "scrape3"]);
    let excluded = Some("scrape1".to_string());
    let domain = "example.com".to_string();
    for _ in 0..1000 {
        let record = reserve(&domain, &candidates, &excluded);
        assert_ne!(record.queue, "scrape1");
        assert!(candidates.contains(&record.queue));
        assert_eq!(record.domain, "example.com");
        assert_eq!(record.ttl_secs, 2);
    }
}

#[test]
fn reserve_falls_back_to_a_lone_excluded_queue() {
    let candidates = queues(&["scrape1"]);
    let excluded = Some("scrape1".to_string());
    for _ in 0..50 {
        let record = reserve(&"example.com".to_string(), &candidates, &excluded);
        assert_eq!(record.queue, "scrape1");
    }
}

#[test]
fn reserve_without_record_uses_every_candidate() {
    let candidates = queues(&["q1", "q2"]);
    let mut seen_q1 = false;
    let mut seen_q2 = false;
    for _ in 0..500 {
        let record = reserve(&"a.org".to_string(), &candidates, &None);
        if record.queue == "q1" {
            seen_q1 = true;
        } else if record.queue == "q2" {
            seen_q2 = true;
        } else {
            panic!("unexpected queue {}", record.queue);
        }
    }
    assert!(seen_q1 && seen_q2);
}

#[test]
fn reserve_ignores_a_record_for_an_unknown_queue() {
    let candidates = queues(&["q1"]);
    let record = reserve(&"a.org".to_string(), &candidates, &Some("other".to_string()));
    assert_eq!(record.queue, "q1");
}

#[test]
fn select_queue_follows_the_draw() {
    let candidates = queues(&["a", "b", "c"]);
    let excluded = Some("b".to_string());
    assert_eq!(select_queue(&candidates, &excluded, 0), "a");
    assert_eq!(select_queue(&candidates, &excluded, 1), "c");
    assert_eq!(select_queue(&candidates, &excluded, 2), "a");
    assert_eq!(select_queue(&candidates, &None, 1), "b");
    assert_eq!(select_queue(&candidates, &None, 5), "c");
}

#[test]
fn eligible_queues_drop_the_excluded_one() {
    let candidates = queues(&["a", "b", "a", "c"]);
    assert_eq!(eligible_queues(&candidates, &Some("a".to_string())), queues(&["b", "c"]));
    assert_eq!(eligible_queues(&candidates, &None), candidates);
    let lone = queues(&["a", "a"]);
    assert_eq!(eligible_queues(&lone, &Some("a".to_string())), lone);
    assert_eq!(eligible_queues(&vec![], &Some("a".to_string())), Vec::<String>::new());
}

#[test]
fn cooldown_lasts_two_seconds() {
    assert_eq!(COOLDOWN_SECS, 2);
}

#[test]
fn get_queues_numbers_from_one() {
    assert_eq!(get_queues(&"queue".to_string(), 3), queues(&["queue1", "queue2", "queue3"]));
    assert_eq!(get_queues(&"queue".to_string(), 0), Vec::<String>::new());
    let many = get_queues(&"q".to_string(), 12);
    assert_eq!(many.len(), 12);
    assert_eq!(many[9], "q10");
    assert_eq!(many[11], "q12");
    let all = get_queues(&"w".to_string(), 255);
    assert_eq!(all[254], "w255");
}
