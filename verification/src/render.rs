//! The render-update queue: an ordered, append-only sequence of screen-region
//! update requests, produced during event handling and consumed once per
//! refresh cycle by the display driver.

use vstd::prelude::*;

use crate::geom::Rect;

verus! {

/// How the display driver refreshes a region: a full flash, a fast partial
/// update, a no-flash interface-grade update, an expose of whatever is
/// beneath, or a clear.  Region and mode are independent axes.
#[derive(Clone, Copy, Debug, PartialEq, Eq, Structural)]
pub enum UpdateMode {
    Full,
    Partial,
    Gui,
    Fast,
    Clear,
}

/// One region update request.  `id` names the node whose redraw produced the
/// request; an expose request carries no owning node and asks the driver to
/// repaint whatever is now visible in the region.
#[derive(Debug)]
pub struct RenderData {
    pub id: Option<u64>,
    pub rect: Rect,
    pub mode: UpdateMode,
}

impl RenderData {
    /// A request tied to a specific node's redraw.
    pub fn new(id: u64, rect: Rect, mode: UpdateMode) -> (r: RenderData)
        ensures
            r == (RenderData { id: Some(id), rect, mode }),
    {
        RenderData { id: Some(id), rect, mode }
    }

    /// A request with no owning node, used when an overlay's vacated area
    /// must be repainted by whatever is now visible there.
    pub fn expose(rect: Rect, mode: UpdateMode) -> (r: RenderData)
        ensures
            r == (RenderData { id: None, rect, mode }),
    {
        RenderData { id: None, rect, mode }
    }
}

/// The ordered queue of pending requests.
#[derive(Debug)]
pub struct RenderQueue {
    pub entries: Vec<RenderData>,
}

impl RenderQueue {
    pub fn new() -> (q: RenderQueue)
        ensures
            q.entries@ =~= Seq::<RenderData>::empty(),
    {
        RenderQueue { entries: Vec::new() }
    }

    pub fn add(&mut self, data: RenderData)
        ensures
            final(self).entries@ =~= old(self).entries@.push(data),
    {
        self.entries.push(data);
    }

    pub fn len(&self) -> (n: usize)
        ensures
            n == self.entries@.len(),
    {
        self.entries.len()
    }
}

} // verus!
