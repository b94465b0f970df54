use daneel_dashboard::metrics::ThoughtSummary;
use daneel_dashboard::view::{actor_class, status_class, status_text, ThoughtFeed};

fn thought(id: &str, preview: &str, salience: i32) -> ThoughtSummary {
    ThoughtSummary {
        id: id.to_string(),
        content_preview: preview.to_string(),
        salience,
        timestamp: None,
    }
}

#[test]
fn indicator_strings() {
    assert_eq!(status_text(true), "Connected");
    assert_eq!(status_text(false), "Disconnected");
    assert_eq!(status_class(true), "status");
    assert_eq!(status_class(false), "status error");
}

#[test]
fn actor_badge_classes() {
    assert_eq!(actor_class(true), "actor");
    assert_eq!(actor_class(false), "actor dead");
}

#[test]
fn feed_starts_empty() {
    let feed = ThoughtFeed::new();
    assert_eq!(feed.nodes().len(), 0);
}

#[test]
fn feed_follows_delivered_order() {
    let mut feed = ThoughtFeed::new();
    feed.update(&vec![thought("t1", "a", 100), thought("t2", "b", 200)]);
    assert_eq!(feed.nodes().len(), 2);
    assert_eq!(feed.nodes()[0].id, "t1");
    assert_eq!(feed.nodes()[1].id, "t2");
}

#[test]
fn surviving_id_keeps_its_render_node() {
    let mut feed = ThoughtFeed::new();
    feed.update(&vec![thought("t1", "a", 100), thought("t2", "b", 200)]);
    let t1_node = feed.nodes()[0].node;
    let t2_node = feed.nodes()[1].node;

    // t1 survives with changed fields and a new position; t3 is new
    feed.update(&vec![thought("t3", "c", 300), thought("t1", "a2", 150)]);
    assert_eq!(feed.nodes().len(), 2);
    assert_eq!(feed.nodes()[0].id, "t3");
    assert_eq!(feed.nodes()[1].id, "t1");
    // the surviving item was updated, not recreated
    assert_eq!(feed.nodes()[1].node, t1_node);
    // the new item got a node never handed out before
    assert_ne!(feed.nodes()[0].node, t1_node);
    assert_ne!(feed.nodes()[0].node, t2_node);
}

#[test]
fn reordering_preserves_every_node() {
    let mut feed = ThoughtFeed::new();
    feed.update(&vec![thought("a", "1", 0), thought("b", "2", 0), thought("c", "3", 0)]);
    let a = feed.nodes()[0].node;
    let b = feed.nodes()[1].node;
    let c = feed.nodes()[2].node;
    feed.update(&vec![thought("c", "3", 0), thought("a", "1", 0), thought("b", "2", 0)]);
    assert_eq!(feed.nodes()[0].node, c);
    assert_eq!(feed.nodes()[1].node, a);
    assert_eq!(feed.nodes()[2].node, b);
}

#[test]
fn emptied_feed_forgets_nothing_needed() {
    let mut feed = ThoughtFeed::new();
    feed.update(&vec![thought("t1", "a", 100)]);
    feed.update(&vec![]);
    assert_eq!(feed.nodes().len(), 0);
    // a later return of the same id is a fresh item: it was dropped in between
    feed.update(&vec![thought("t1", "a", 100)]);
    assert_eq!(feed.nodes().len(), 1);
    assert_eq!(feed.nodes()[0].id, "t1");
}
