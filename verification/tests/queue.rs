use qobuz_player::queue::{queue_views, QueueView};
use qobuz_player::text::{is_blank, same_text};

#[test]
fn queue_pages() {
    let views = queue_views();
    assert_eq!(views, vec![QueueView::Index, QueueView::Partial, QueueView::AutoPlay]);
    let paths: Vec<&str> = views.iter().map(|v| v.path()).collect();
    assert_eq!(paths, vec!["/queue", "/queue/partial", "/queue/autoplay"]);
    let templates: Vec<&str> = views.iter().map(|v| v.template()).collect();
    assert_eq!(templates, vec!["queue.html", "queue-list.html", "queue-auto-play.html"]);
    assert!(QueueView::Index.shows_tracks());
    assert!(QueueView::Partial.shows_tracks());
    assert!(!QueueView::AutoPlay.shows_tracks());
}

#[test]
fn text_helpers() {
    assert!(is_blank(""));
    assert!(is_blank("\u{1680}\u{2028}\u{2029}\u{202F}\u{205F}\u{200A}"));
    assert!(!is_blank(" a "));
    assert!(!is_blank("\u{180E}"));
    assert!(same_text("all", "all"));
    assert!(!same_text("all", "All"));
    assert!(!same_text("all", "all "));
}
