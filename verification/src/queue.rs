use vstd::prelude::*;

verus! {

/// The pages of the web queue view.
#[derive(Clone, Copy, PartialEq, Eq, Structural, Debug)]
pub enum QueueView {
    /// The whole queue page.
    Index,
    /// The queue list alone, for partial updates.
    Partial,
    /// The autoplay switch alone.
    AutoPlay,
}

/// The path under which a page is served.
pub open spec fn queue_path(v: QueueView) -> Seq<char> {
    match v {
        QueueView::Index => "/queue"@,
        QueueView::Partial => "/queue/partial"@,
        QueueView::AutoPlay => "/queue/autoplay"@,
    }
}

/// The template a page is rendered with.
pub open spec fn queue_template(v: QueueView) -> Seq<char> {
    match v {
        QueueView::Index => "queue.html"@,
        QueueView::Partial => "queue-list.html"@,
        QueueView::AutoPlay => "queue-auto-play.html"@,
    }
}

impl QueueView {
    /// The path under which the page is served.
    pub fn path(self) -> (r: &'static str)
        ensures
            r@ == queue_path(self),
    {
        match self {
            QueueView::Index => "/queue",
            QueueView::Partial => "/queue/partial",
            QueueView::AutoPlay => "/queue/autoplay",
        }
    }

    /// The template the page is rendered with.
    pub fn template(self) -> (r: &'static str)
        ensures
            r@ == queue_template(self),
    {
        match self {
            QueueView::Index => "queue.html",
            QueueView::Partial => "queue-list.html",
            QueueView::AutoPlay => "queue-auto-play.html",
        }
    }

    /// Whether the page is given the queued tracks and the position of the
    /// track that plays; every page is given the autoplay setting.
    pub fn shows_tracks(self) -> (r: bool)
        ensures
            r == (self != QueueView::AutoPlay),
    {
        match self {
            QueueView::AutoPlay => false,
            _ => true,
        }
    }
}

/// The pages of the queue view, in the order in which they are routed.
pub fn queue_views() -> (r: Vec<QueueView>)
    ensures
        r@ == seq![QueueView::Index, QueueView::Partial, QueueView::AutoPlay],
{
    let mut r: Vec<QueueView> = Vec::new();
    r.push(QueueView::Index);
    r.push(QueueView::Partial);
    r.push(QueueView::AutoPlay);
    r
}

/// Each page has a path of its own.
pub proof fn lemma_paths_distinct(a: QueueView, b: QueueView)
    requires
        a != b,
    ensures
        queue_path(a) != queue_path(b),
{
    reveal_strlit("/queue");
    reveal_strlit("/queue/partial");
    reveal_strlit("/queue/autoplay");
    assert(queue_path(a).len() != queue_path(b).len());
}

} // verus!
