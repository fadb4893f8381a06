//! The polymorphic unit of the view tree.
//!
//! A node owns a rectangle, an identity, an optional semantic tag, an ordered
//! sequence of child nodes (the only ownership edge in the system: no parent
//! pointers), and a widget variant.  The widget set is closed, so the
//! variants form a sum type; content-based lookup matches on the variant's
//! tag.

use vstd::prelude::*;

use crate::context::Context;
use crate::event::{EntryKind, ViewId};
use crate::geom::{Point, Rect};

verus! {

#[derive(Clone, Copy, Debug, PartialEq, Eq, Structural)]
pub enum MenuKind {
    DropDown,
    Contextual,
}

/// The widget variant of a node, with the state the engine reads.
pub enum NodeKind {
    /// A solid rectangle: backgrounds and separators.
    Filler { color: u8 },
    TopBar { title: String, format: String, root_icon: String },
    BottomBar { current_page: usize, pages_count: usize },
    /// A favourite-search row on the home screen: tapping it loads the index
    /// at `location`, or the reading history when no location is carried.
    Fave { title: String, location: Option<String> },
    SearchBar { input_id: ViewId, hint: String, text: String },
    Keyboard { number: bool, layout: String },
    Menu { kind: MenuKind, entries: Vec<EntryKind> },
    /// A transient, self-dismissing message.
    Notification { text: String },
    /// A small framed input with a caption.
    NamedInput { name: String, input_id: ViewId, max_len: usize },
    /// The paged listing of works fetched from the catalog provider.
    WorkIndex {
        url: String,
        current_page: usize,
        max_page: usize,
        max_works: usize,
        max_lines: usize,
        thumbnail_previews: bool,
    },
    Icon { name: String },
    InputField { input_id: ViewId, text: String },
}

/// The discriminant of a widget variant, used by the lookup protocol.
#[derive(Clone, Copy, Debug, PartialEq, Eq, Structural)]
pub enum KindTag {
    Filler,
    TopBar,
    BottomBar,
    Fave,
    SearchBar,
    Keyboard,
    Menu,
    Notification,
    NamedInput,
    WorkIndex,
    Icon,
    InputField,
}

impl NodeKind {
    pub open spec fn spec_tag(self) -> KindTag {
        match self {
            NodeKind::Filler { .. } => KindTag::Filler,
            NodeKind::TopBar { .. } => KindTag::TopBar,
            NodeKind::BottomBar { .. } => KindTag::BottomBar,
            NodeKind::Fave { .. } => KindTag::Fave,
            NodeKind::SearchBar { .. } => KindTag::SearchBar,
            NodeKind::Keyboard { .. } => KindTag::Keyboard,
            NodeKind::Menu { .. } => KindTag::Menu,
            NodeKind::Notification { .. } => KindTag::Notification,
            NodeKind::NamedInput { .. } => KindTag::NamedInput,
            NodeKind::WorkIndex { .. } => KindTag::WorkIndex,
            NodeKind::Icon { .. } => KindTag::Icon,
            NodeKind::InputField { .. } => KindTag::InputField,
        }
    }

    pub fn tag(&self) -> (t: KindTag)
        ensures
            t == self.spec_tag(),
    {
        match self {
            NodeKind::Filler { .. } => KindTag::Filler,
            NodeKind::TopBar { .. } => KindTag::TopBar,
            NodeKind::BottomBar { .. } => KindTag::BottomBar,
            NodeKind::Fave { .. } => KindTag::Fave,
            NodeKind::SearchBar { .. } => KindTag::SearchBar,
            NodeKind::Keyboard { .. } => KindTag::Keyboard,
            NodeKind::Menu { .. } => KindTag::Menu,
            NodeKind::Notification { .. } => KindTag::Notification,
            NodeKind::NamedInput { .. } => KindTag::NamedInput,
            NodeKind::WorkIndex { .. } => KindTag::WorkIndex,
            NodeKind::Icon { .. } => KindTag::Icon,
            NodeKind::InputField { .. } => KindTag::InputField,
        }
    }
}

#[verifier::ext_equal]
pub struct Node {
    pub id: u64,
    pub rect: Rect,
    pub kind: NodeKind,
    /// The semantic role of the node, for content-based lookup; `None` for
    /// nodes that carry no role.
    pub view_id: Option<ViewId>,
    pub children: Vec<Node>,
}

impl Node {
    pub open spec fn tag(self) -> KindTag {
        self.kind.spec_tag()
    }

    pub open spec fn is(self, t: KindTag) -> bool {
        self.tag() == t
    }

    /// Well-formedness of the whole subtree: every rectangle is in range.
    pub open spec fn subtree_wf(self) -> bool
        decreases self,
    {
        &&& self.rect.wf()
        &&& forall|i: int|
            #![trigger self.children@[i]]
            0 <= i < self.children@.len() ==> self.children@[i].subtree_wf()
    }

    /// A fresh leaf node with the next identity.
    pub fn new(ctx: &mut Context, rect: Rect, kind: NodeKind, view_id: Option<ViewId>) -> (n: Node)
        requires
            old(ctx).ids.counter < u64::MAX,
        ensures
            n.id == old(ctx).ids.counter,
            n.rect == rect,
            n.kind == kind,
            n.view_id == view_id,
            n.children@ =~= Seq::<Node>::empty(),
            *final(ctx) == (Context { ids: final(ctx).ids, ..*old(ctx) }),
            final(ctx).ids.counter == old(ctx).ids.counter + 1,
    {
        let id = ctx.ids.next();
        Node { id, rect, kind, view_id, children: Vec::new() }
    }

    pub fn has_tag(&self, t: KindTag) -> (b: bool)
        ensures
            b == self.is(t),
    {
        self.kind.tag() == t
    }

    /// A drop-down or contextual menu positioned below its anchor rectangle,
    /// one row per entry.
    pub fn menu(
        ctx: &mut Context,
        near: Rect,
        menu_id: ViewId,
        kind: MenuKind,
        entries: Vec<EntryKind>,
    ) -> (n: Node)
        requires
            old(ctx).ids.counter < u64::MAX,
            old(ctx).dims.wf(),
            near.on_screen(),
            entries@.len() <= 256,
        ensures
            n.id == old(ctx).ids.counter,
            n.rect == spec_menu_rect(near, entries@.len() as int, old(ctx).dims),
            n.kind == (NodeKind::Menu { kind, entries }),
            n.view_id == Some(menu_id),
            n.children@ =~= Seq::<Node>::empty(),
            *final(ctx) == (Context { ids: final(ctx).ids, ..*old(ctx) }),
            final(ctx).ids.counter == old(ctx).ids.counter + 1,
    {
        let rows = entries.len();
        proof {
            assert(0 <= (rows as i32) * ctx.dims.small_height <= 256 * 4096) by (nonlinear_arith)
                requires
                    0 <= rows <= 256,
                    0 < ctx.dims.small_height <= 4096,
            ;
        }
        let rect = Rect::new(
            near.min.x,
            near.max.y,
            near.min.x + MENU_WIDTH,
            near.max.y + (rows as i32) * ctx.dims.small_height,
        );
        Node::new(ctx, rect, NodeKind::Menu { kind, entries }, Some(menu_id))
    }
}

/// Width of a drop-down menu, in pixels.
pub const MENU_WIDTH: i32 = 320;

/// The rectangle of a menu with `rows` entries anchored below `near`.
pub open spec fn spec_menu_rect(near: Rect, rows: int, d: crate::context::Dims) -> Rect {
    Rect {
        min: Point { x: near.min.x, y: near.max.y },
        max: Point {
            x: (near.min.x + MENU_WIDTH) as i32,
            y: (near.max.y + rows * d.small_height) as i32,
        },
    }
}

} // verus!
