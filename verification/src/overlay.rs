//! The dynamic-overlay composition state machine shared by the container
//! screens.
//!
//! A container designates one "anchor" sibling (its main content) by index.
//! The search-bar overlay is a separator + search-input pair inserted
//! directly after the anchor; the keyboard overlay is a separator + keyboard
//! pair inserted directly after the search bar.  Insertion shrinks the
//! anchor's rectangle by exactly the inserted band's height and removal grows
//! it back: insertion and removal are symmetric in count and position, or the
//! anchor index and every later lookup desynchronize.
//!
//! Per container the machine has three states, `Closed`, `SearchOnly` and
//! `SearchWithKeyboard`, recognized structurally by `overlay_wf`.

use vstd::prelude::*;

use crate::context::{Context, Dims};
use crate::event::ViewId;
use crate::geom::{Point, Rect, SCREEN_LIMIT};
use crate::node::{KindTag, Node, NodeKind};

verus! {

/// A full-width band of height `h` whose top edge is at `top`.
pub open spec fn band_under(cont: Rect, top: int, h: int) -> Rect {
    Rect {
        min: Point { x: cont.min.x, y: top as i32 },
        max: Point { x: cont.max.x, y: (top + h) as i32 },
    }
}

/// No overlay sibling is present.
pub open spec fn overlay_closed(s: Seq<Node>) -> bool {
    forall|i: int|
        0 <= i < s.len() ==> #[trigger] s[i].tag() != KindTag::SearchBar && s[i].tag()
            != KindTag::Keyboard
}

/// The search-bar overlay is open: a separator at `sh + 1` and the search
/// bar at `sh + 2`, tiled directly under the anchor's bottom edge, and no
/// search bar or keyboard anywhere else.
pub open spec fn search_only_at(s: Seq<Node>, sh: int, cont: Rect, d: Dims) -> bool {
    let am = s[sh].rect.max.y as int;
    &&& sh + 2 < s.len()
    &&& s[sh + 1].tag() == KindTag::Filler
    &&& s[sh + 2].tag() == KindTag::SearchBar
    &&& s[sh + 1].rect == band_under(cont, am, d.thickness as int)
    &&& s[sh + 2].rect == band_under(cont, am + d.thickness, d.small_height as int)
    &&& am + d.thickness + d.small_height <= SCREEN_LIMIT
    &&& forall|i: int|
        0 <= i < s.len() && #[trigger] s[i].tag() == KindTag::SearchBar ==> i == sh + 2
    &&& forall|i: int| 0 <= i < s.len() ==> #[trigger] s[i].tag() != KindTag::Keyboard
}

/// Both overlays are open: the search pair at `sh + 1 .. sh + 2` and the
/// keyboard pair at `sh + 3 .. sh + 4`, the four bands tiled directly under
/// the anchor's bottom edge.
pub open spec fn search_with_kb_at(s: Seq<Node>, sh: int, cont: Rect, d: Dims) -> bool {
    let am = s[sh].rect.max.y as int;
    let t = d.thickness as int;
    let sb = d.small_height as int;
    let kb = d.spec_kb_height();
    &&& sh + 4 < s.len()
    &&& s[sh + 1].tag() == KindTag::Filler
    &&& s[sh + 2].tag() == KindTag::SearchBar
    &&& s[sh + 3].tag() == KindTag::Filler
    &&& s[sh + 4].tag() == KindTag::Keyboard
    &&& s[sh + 1].rect == band_under(cont, am, t)
    &&& s[sh + 2].rect == band_under(cont, am + t, sb)
    &&& s[sh + 3].rect == band_under(cont, am + t + sb, t)
    &&& s[sh + 4].rect == band_under(cont, am + 2 * t + sb, kb)
    &&& am + 2 * t + sb + kb <= SCREEN_LIMIT
    &&& forall|i: int|
        0 <= i < s.len() && #[trigger] s[i].tag() == KindTag::SearchBar ==> i == sh + 2
    &&& forall|i: int|
        0 <= i < s.len() && #[trigger] s[i].tag() == KindTag::Keyboard ==> i == sh + 4
}

/// Floating windows: transient subtrees (menus, dialogs, notifications)
/// that sit over the screen rather than in its band layout.
pub open spec fn is_floating(t: KindTag) -> bool {
    ||| t == KindTag::Menu
    ||| t == KindTag::Notification
    ||| t == KindTag::NamedInput
}

/// Semantic tags that only floating windows carry.
pub open spec fn is_window_id(v: ViewId) -> bool {
    match v {
        ViewId::MainMenu => true,
        ViewId::BatteryMenu => true,
        ViewId::ClockMenu => true,
        ViewId::InputHistoryMenu => true,
        ViewId::KeyboardLayoutMenu => true,
        ViewId::SortMenu => true,
        ViewId::TitleMenu => true,
        ViewId::GoToPage => true,
        ViewId::InvalidSearchQueryNotif => true,
        _ => false,
    }
}

/// The standing invariant of a container's child vector: the anchor is a
/// content sibling, the overlay is in exactly one of its three states, and
/// floating windows all come after the structural children, so that removing
/// one never shifts the anchor or the overlay bands.
pub open spec fn overlay_wf(s: Seq<Node>, sh: int, cont: Rect, d: Dims) -> bool {
    &&& 0 <= sh < s.len()
    &&& s[sh].tag() != KindTag::SearchBar
    &&& s[sh].tag() != KindTag::Keyboard
    &&& s[sh].tag() != KindTag::Filler
    &&& !is_floating(s[sh].tag())
    &&& s[sh].rect.on_screen()
    &&& cont.on_screen()
    &&& s[sh].rect.min.x == cont.min.x
    &&& s[sh].rect.max.x == cont.max.x
    &&& forall|i: int, j: int|
        #![trigger s[i].tag(), s[j].tag()]
        0 <= i < j < s.len() && is_floating(s[i].tag()) ==> is_floating(s[j].tag())
    &&& forall|i: int|
        #![trigger s[i].view_id]
        0 <= i < s.len() ==> ((s[i].view_id matches Some(v) && is_window_id(v)) ==> is_floating(
            s[i].tag(),
        ))
    &&& {
        ||| overlay_closed(s)
        ||| search_only_at(s, sh, cont, d)
        ||| search_with_kb_at(s, sh, cont, d)
    }
}

/// Whether some child is a search bar.
pub open spec fn search_present(s: Seq<Node>) -> bool {
    exists|i: int| 0 <= i < s.len() && #[trigger] s[i].tag() == KindTag::SearchBar
}

/// Whether some child is a keyboard.
pub open spec fn keyboard_present(s: Seq<Node>) -> bool {
    exists|i: int| 0 <= i < s.len() && #[trigger] s[i].tag() == KindTag::Keyboard
}

/// The anchor is tall enough to host whatever overlays are not open yet: the
/// search band now, and the keyboard band after the focus cascade.  This is
/// the layout bound a screen must meet for the overlay machine to run on it.
pub open spec fn overlay_headroom(s: Seq<Node>, sh: int, d: Dims) -> bool {
    if keyboard_present(s) {
        true
    } else if search_present(s) {
        s[sh].rect.spec_height() >= d.thickness + d.spec_kb_height()
    } else {
        s[sh].rect.spec_height() >= 2 * d.thickness + d.small_height + d.spec_kb_height()
    }
}

/// Removing a floating window never disturbs the anchor, the overlay bands,
/// or the overlay state: floating windows all sit after them.
pub proof fn lemma_wf_after_floating_removal(
    pre: Seq<Node>,
    post: Seq<Node>,
    sh: int,
    cont: Rect,
    d: Dims,
    j: int,
)
    requires
        overlay_wf(pre, sh, cont, d),
        0 <= j < pre.len(),
        is_floating(pre[j].tag()),
        post =~= pre.remove(j),
    ensures
        overlay_wf(post, sh, cont, d),
        overlay_headroom(post, sh, d) == overlay_headroom(pre, sh, d),
        search_present(post) == search_present(pre),
        keyboard_present(post) == keyboard_present(pre),
        post[sh] == pre[sh],
{
    assert(j > sh);
    assert forall|i: int| 0 <= i < post.len() implies post[i] == if i < j {
        pre[i]
    } else {
        pre[i + 1]
    } by {}
    if search_only_at(pre, sh, cont, d) {
        assert(j > sh + 2);
        assert(search_only_at(post, sh, cont, d));
        assert(search_present(post)) by {
            assert(post[sh + 2].tag() == KindTag::SearchBar);
        }
    } else if search_with_kb_at(pre, sh, cont, d) {
        assert(j > sh + 4);
        assert(search_with_kb_at(post, sh, cont, d));
        assert(search_present(post)) by {
            assert(post[sh + 2].tag() == KindTag::SearchBar);
        }
        assert(keyboard_present(post)) by {
            assert(post[sh + 4].tag() == KindTag::Keyboard);
        }
    }
}

/// Appending a floating window preserves the container invariant.
pub proof fn lemma_wf_after_floating_append(
    pre: Seq<Node>,
    post: Seq<Node>,
    sh: int,
    cont: Rect,
    d: Dims,
    n: Node,
)
    requires
        overlay_wf(pre, sh, cont, d),
        is_floating(n.tag()),
        post =~= pre.push(n),
    ensures
        overlay_wf(post, sh, cont, d),
        overlay_headroom(post, sh, d) == overlay_headroom(pre, sh, d),
        search_present(post) == search_present(pre),
        keyboard_present(post) == keyboard_present(pre),
        post[sh] == pre[sh],
{
    if search_only_at(pre, sh, cont, d) {
        assert(search_only_at(post, sh, cont, d));
        assert(search_present(post) && search_present(pre)) by {
            assert(post[sh + 2].tag() == KindTag::SearchBar);
            assert(pre[sh + 2].tag() == KindTag::SearchBar);
        }
    } else if search_with_kb_at(pre, sh, cont, d) {
        assert(search_with_kb_at(post, sh, cont, d));
        assert(search_present(post) && search_present(pre)) by {
            assert(post[sh + 2].tag() == KindTag::SearchBar);
            assert(pre[sh + 2].tag() == KindTag::SearchBar);
        }
        assert(keyboard_present(post) && keyboard_present(pre)) by {
            assert(post[sh + 4].tag() == KindTag::Keyboard);
            assert(pre[sh + 4].tag() == KindTag::Keyboard);
        }
    } else {
        assert(overlay_closed(pre));
        assert forall|i: int|
            0 <= i < post.len() implies #[trigger] post[i].tag() != KindTag::SearchBar
            && post[i].tag() != KindTag::Keyboard by {
            if i < pre.len() {
                assert(post[i] == pre[i]);
            } else {
                assert(post[i] == n);
            }
        }
        assert(!search_present(post) && !search_present(pre));
        assert(!keyboard_present(post) && !keyboard_present(pre));
    }
}

/// `post` is `pre` with the search pair inserted after the anchor: the
/// anchor's rectangle shrunk by the band height, a fresh separator at
/// `sh + 1` (first identity issued) and a fresh, empty search bar at `sh + 2`
/// (second identity), all other siblings unchanged and in order.
pub open spec fn search_opened(
    pre: Seq<Node>,
    post: Seq<Node>,
    sh: int,
    cont: Rect,
    d: Dims,
    input_id: ViewId,
    hint: Seq<char>,
    id0: u64,
) -> bool {
    let a = pre[sh];
    let am = a.rect.max.y - (d.thickness + d.small_height);
    &&& post.len() == pre.len() + 2
    &&& forall|i: int| 0 <= i < sh ==> post[i] == pre[i]
    &&& forall|i: int| sh + 2 < i < post.len() ==> post[i] == pre[i - 2]
    &&& post[sh] == (Node {
        rect: Rect { min: a.rect.min, max: Point { x: a.rect.max.x, y: am as i32 } },
        ..a
    })
    &&& post[sh + 1].id == id0
    &&& post[sh + 1].kind == (NodeKind::Filler { color: 0 })
    &&& post[sh + 1].view_id is None
    &&& post[sh + 1].rect == band_under(cont, am, d.thickness as int)
    &&& post[sh + 1].children@.len() == 0
    &&& post[sh + 2].id == id0 + 1
    &&& (post[sh + 2].kind matches NodeKind::SearchBar { input_id: v, hint: h, text: q }
        && v == input_id && h@ == hint && q@.len() == 0)
    &&& post[sh + 2].view_id == Some(ViewId::SearchBar)
    &&& post[sh + 2].rect == band_under(cont, am + d.thickness, d.small_height as int)
    &&& post[sh + 2].children@.len() == 0
}

/// `post` is `pre` with the keyboard pair inserted after the search bar: the
/// anchor shrunk by the keyboard band height, the search pair moved up by the
/// same amount, a fresh separator at `sh + 3` and a fresh keyboard at
/// `sh + 4`, all other siblings unchanged and in order.
pub open spec fn keyboard_opened(
    pre: Seq<Node>,
    post: Seq<Node>,
    sh: int,
    cont: Rect,
    d: Dims,
    number: bool,
    id0: u64,
) -> bool {
    let a = pre[sh];
    let t = d.thickness as int;
    let sb = d.small_height as int;
    let kb = d.spec_kb_height();
    let dy = t + kb;
    let am = a.rect.max.y - dy;
    let up = Point { x: 0, y: (-dy) as i32 };
    &&& post.len() == pre.len() + 2
    &&& forall|i: int| 0 <= i < sh ==> post[i] == pre[i]
    &&& forall|i: int| sh + 4 < i < post.len() ==> post[i] == pre[i - 2]
    &&& post[sh] == (Node {
        rect: Rect { min: a.rect.min, max: Point { x: a.rect.max.x, y: am as i32 } },
        ..a
    })
    &&& post[sh + 1] == (Node { rect: pre[sh + 1].rect.spec_translated(up), ..pre[sh + 1] })
    &&& post[sh + 2] == (Node { rect: pre[sh + 2].rect.spec_translated(up), ..pre[sh + 2] })
    &&& post[sh + 3].id == id0
    &&& post[sh + 3].kind == (NodeKind::Filler { color: 0 })
    &&& post[sh + 3].view_id is None
    &&& post[sh + 3].rect == band_under(cont, am + t + sb, t)
    &&& post[sh + 3].children@.len() == 0
    &&& post[sh + 4].id == id0 + 1
    &&& (post[sh + 4].kind matches NodeKind::Keyboard { number: n, .. } && n == number)
    &&& post[sh + 4].view_id == Some(ViewId::Keyboard)
    &&& post[sh + 4].rect == band_under(cont, am + 2 * t + sb, kb)
    &&& post[sh + 4].children@.len() == 0
}

/// `post` is `pre` with the keyboard pair drained and the vacated band given
/// back: the search pair moved down by the keyboard band height and the
/// anchor grown by it.
pub open spec fn keyboard_closed(pre: Seq<Node>, post: Seq<Node>, sh: int, d: Dims) -> bool {
    let a = pre[sh];
    let t = d.thickness as int;
    let kb = d.spec_kb_height();
    let dy = t + kb;
    let down = Point { x: 0, y: dy as i32 };
    &&& post.len() + 2 == pre.len()
    &&& forall|i: int| 0 <= i < sh ==> post[i] == pre[i]
    &&& forall|i: int| sh + 2 < i < post.len() ==> post[i] == pre[i + 2]
    &&& post[sh] == (Node {
        rect: Rect {
            min: a.rect.min,
            max: Point { x: a.rect.max.x, y: (a.rect.max.y + dy) as i32 },
        },
        ..a
    })
    &&& post[sh + 1] == (Node { rect: pre[sh + 1].rect.spec_translated(down), ..pre[sh + 1] })
    &&& post[sh + 2] == (Node { rect: pre[sh + 2].rect.spec_translated(down), ..pre[sh + 2] })
}

/// `post` is `pre` with the search pair drained and the anchor grown back by
/// the vacated band's height.
pub open spec fn search_closed(pre: Seq<Node>, post: Seq<Node>, sh: int, d: Dims) -> bool {
    let a = pre[sh];
    let dy = d.thickness + d.small_height;
    &&& post.len() + 2 == pre.len()
    &&& forall|i: int| 0 <= i < sh ==> post[i] == pre[i]
    &&& forall|i: int| sh < i < post.len() ==> post[i] == pre[i + 2]
    &&& post[sh] == (Node {
        rect: Rect {
            min: a.rect.min,
            max: Point { x: a.rect.max.x, y: (a.rect.max.y + dy) as i32 },
        },
        ..a
    })
}

/// Insert the search pair directly after the anchor (`Closed` to
/// `SearchOnly`): shrink the anchor by the band height and place the
/// separator and the empty search bar under its new bottom edge.
pub fn insert_search_pair(
    children: &mut Vec<Node>,
    sh: usize,
    cont: Rect,
    input_id: ViewId,
    hint: &str,
    ctx: &mut Context,
)
    requires
        old(ctx).wf(),
        old(ctx).ids.counter + 2 <= u64::MAX,
        old(children)@.len() + 2 <= usize::MAX,
        overlay_wf(old(children)@, sh as int, cont, old(ctx).dims),
        overlay_closed(old(children)@),
        old(children)@[sh as int].rect.spec_height() >= old(ctx).dims.thickness + old(
            ctx,
        ).dims.small_height,
    ensures
        search_opened(
            old(children)@,
            final(children)@,
            sh as int,
            cont,
            old(ctx).dims,
            input_id,
            hint@,
            old(ctx).ids.counter,
        ),
        overlay_wf(final(children)@, sh as int, cont, old(ctx).dims),
        search_only_at(final(children)@, sh as int, cont, old(ctx).dims),
        *final(ctx) == (Context { ids: final(ctx).ids, ..*old(ctx) }),
        final(ctx).ids.counter == old(ctx).ids.counter + 2,
{
    let t = ctx.dims.thickness;
    let sb = ctx.dims.small_height;
    let a1 = children[sh].rect.max.y;
    let am = a1 - (t + sb);
    children[sh].rect.max.y = am;
    let sep = Node::new(
        ctx,
        Rect::new(cont.min.x, am, cont.max.x, am + t),
        NodeKind::Filler { color: 0 },
        None,
    );
    let bar = Node::new(
        ctx,
        Rect::new(cont.min.x, am + t, cont.max.x, am + t + sb),
        NodeKind::SearchBar {
            input_id,
            hint: String::from_str(hint),
            text: String::new(),
        },
        Some(ViewId::SearchBar),
    );
    children.insert(sh + 1, sep);
    children.insert(sh + 2, bar);
}

/// Insert the keyboard pair directly after the search bar (`SearchOnly` to
/// `SearchWithKeyboard`): shrink the anchor by the keyboard band height, move
/// the search pair up by the same amount, and place the separator and the
/// keyboard under the search bar's new bottom edge.  The keyboard's rectangle
/// is cached in the context.
#[verifier::rlimit(60)]
pub fn insert_keyboard_pair(
    children: &mut Vec<Node>,
    sh: usize,
    cont: Rect,
    number: bool,
    ctx: &mut Context,
)
    requires
        old(ctx).wf(),
        old(ctx).ids.counter + 2 <= u64::MAX,
        old(children)@.len() + 2 <= usize::MAX,
        overlay_wf(old(children)@, sh as int, cont, old(ctx).dims),
        search_only_at(old(children)@, sh as int, cont, old(ctx).dims),
        old(children)@[sh as int].rect.spec_height() >= old(ctx).dims.thickness + old(
            ctx,
        ).dims.spec_kb_height(),
    ensures
        keyboard_opened(
            old(children)@,
            final(children)@,
            sh as int,
            cont,
            old(ctx).dims,
            number,
            old(ctx).ids.counter,
        ),
        overlay_wf(final(children)@, sh as int, cont, old(ctx).dims),
        search_with_kb_at(final(children)@, sh as int, cont, old(ctx).dims),
        *final(ctx) == (Context {
            ids: final(ctx).ids,
            kb_rect: final(ctx).kb_rect,
            ..*old(ctx)
        }),
        final(ctx).ids.counter == old(ctx).ids.counter + 2,
        final(ctx).kb_rect == final(children)@[sh as int + 4].rect,
{
    let t = ctx.dims.thickness;
    let sb = ctx.dims.small_height;
    let kb = ctx.dims.kb_height();
    let dy = t + kb;
    let up = Point::new(0, -dy);
    let am = children[sh].rect.max.y - dy;
    children[sh].rect.max.y = am;
    let moved_sep = children[sh + 1].rect.translated(up);
    children[sh + 1].rect = moved_sep;
    let moved_bar = children[sh + 2].rect.translated(up);
    children[sh + 2].rect = moved_bar;
    let sep = Node::new(
        ctx,
        Rect::new(cont.min.x, am + t + sb, cont.max.x, am + 2 * t + sb),
        NodeKind::Filler { color: 0 },
        None,
    );
    let keyboard = Node::new(
        ctx,
        Rect::new(cont.min.x, am + 2 * t + sb, cont.max.x, am + 2 * t + sb + kb),
        NodeKind::Keyboard { number, layout: ctx.settings.keyboard_layout.clone() },
        Some(ViewId::Keyboard),
    );
    ctx.kb_rect = keyboard.rect;
    children.insert(sh + 3, sep);
    children.insert(sh + 4, keyboard);
}

/// Drain the keyboard pair (`SearchWithKeyboard` to `SearchOnly`): remove
/// exactly the two keyboard siblings, move the search pair back down by the
/// vacated band's height, grow the anchor by it, and clear the keyboard
/// geometry cache.
pub fn remove_keyboard_pair(children: &mut Vec<Node>, sh: usize, cont: Rect, ctx: &mut Context)
    requires
        old(ctx).wf(),
        overlay_wf(old(children)@, sh as int, cont, old(ctx).dims),
        search_with_kb_at(old(children)@, sh as int, cont, old(ctx).dims),
    ensures
        keyboard_closed(old(children)@, final(children)@, sh as int, old(ctx).dims),
        overlay_wf(final(children)@, sh as int, cont, old(ctx).dims),
        search_only_at(final(children)@, sh as int, cont, old(ctx).dims),
        *final(ctx) == (Context { kb_rect: final(ctx).kb_rect, ..*old(ctx) }),
        final(ctx).kb_rect == (Rect {
            min: Point { x: 0, y: 0 },
            max: Point { x: 0, y: 0 },
        }),
{
    let t = ctx.dims.thickness;
    let kb = ctx.dims.kb_height();
    let dy = t + kb;
    let down = Point::new(0, dy);
    let n = children.len();
    proof {
        assert(sh + 4 < n);
    }
    children.remove(sh + 4);
    children.remove(sh + 3);
    children[sh].rect.max.y = children[sh].rect.max.y + dy;
    let moved_sep = children[sh + 1].rect.translated(down);
    children[sh + 1].rect = moved_sep;
    let moved_bar = children[sh + 2].rect.translated(down);
    children[sh + 2].rect = moved_bar;
    ctx.clear_kb_rect();
}

/// Drain the search pair (`SearchOnly` to `Closed`): remove exactly the two
/// search siblings and grow the anchor back by the vacated band's height.
pub fn remove_search_pair(children: &mut Vec<Node>, sh: usize, cont: Rect, ctx: &Context)
    requires
        ctx.wf(),
        overlay_wf(old(children)@, sh as int, cont, ctx.dims),
        search_only_at(old(children)@, sh as int, cont, ctx.dims),
    ensures
        search_closed(old(children)@, final(children)@, sh as int, ctx.dims),
        overlay_wf(final(children)@, sh as int, cont, ctx.dims),
        overlay_closed(final(children)@),
{
    let t = ctx.dims.thickness;
    let sb = ctx.dims.small_height;
    let n = children.len();
    proof {
        assert(sh + 2 < n);
    }
    children.remove(sh + 2);
    children.remove(sh + 1);
    children[sh].rect.max.y = children[sh].rect.max.y + (t + sb);
}

} // verus!
