//! The lookup protocol shared by all containers, tree-wide geometry helpers,
//! and the drop-down menu toggles.
//!
//! The lookup functions return "not found" as a normal, non-error outcome:
//! callers treat absence as "feature not currently active", never as failure.

use vstd::prelude::*;

use crate::context::Context;
use crate::event::{EntryId, EntryKind, ViewId};
use crate::geom::{Point, Rect};
use crate::node::{spec_menu_rect, KindTag, MenuKind, Node, NodeKind};
use crate::render::{RenderData, RenderQueue, UpdateMode};

verus! {

/// `b` is `a` with every rectangle in the subtree translated by `delta` and
/// everything else unchanged.
pub open spec fn shifted_rel(a: Node, b: Node, delta: Point) -> bool
    decreases a,
{
    &&& b.id == a.id
    &&& b.kind == a.kind
    &&& b.view_id == a.view_id
    &&& b.rect == a.rect.spec_translated(delta)
    &&& b.children@.len() == a.children@.len()
    &&& forall|i: int|
        #![trigger a.children@[i], b.children@[i]]
        0 <= i < a.children@.len() ==> shifted_rel(a.children@[i], b.children@[i], delta)
}

/// Translate a whole subtree by `delta`.
pub fn shift(view: &mut Node, delta: Point)
    requires
        old(view).subtree_wf(),
        delta.wf(),
    ensures
        shifted_rel(*old(view), *final(view), delta),
    decreases *old(view),
{
    let ghost pre = *old(view);
    proof {
        assert(pre.subtree_wf());
        assert(forall|i: int|
            0 <= i < pre.children@.len() ==> #[trigger] pre.children@[i].subtree_wf());
    }
    view.rect = view.rect.translated(delta);
    let n = view.children.len();
    let mut k: usize = 0;
    while k < n
        invariant
            n == view.children@.len() == old(view).children@.len(),
            view.id == old(view).id,
            view.kind == old(view).kind,
            view.view_id == old(view).view_id,
            view.rect == old(view).rect.spec_translated(delta),
            delta.wf(),
            forall|i: int| 0 <= i < n ==> #[trigger] old(view).children@[i].subtree_wf(),
            forall|i: int|
                #![trigger old(view).children@[i], view.children@[i]]
                0 <= i < k ==> shifted_rel(old(view).children@[i], view.children@[i], delta),
            forall|i: int|
                #![trigger view.children@[i]]
                k <= i < n ==> view.children@[i] == old(view).children@[i],
        decreases n - k,
    {
        proof {
            assert(decreases_to!(*old(view) => old(view).children));
            assert(decreases_to!(old(view).children => old(view).children@));
            assert(decreases_to!(old(view).children@ => old(view).children@[k as int]));
        }
        shift(&mut view.children[k], delta);
        k = k + 1;
    }
    proof {
        assert(shifted_rel(*old(view), *view, delta));
    }
}

/// The index of the first child of the given widget kind: the smallest index
/// whose child matches, or `None` when no child matches.
pub fn locate(children: &Vec<Node>, kind: KindTag) -> (r: Option<usize>)
    ensures
        match r {
            Some(i) => {
                &&& 0 <= i < children@.len()
                &&& children@[i as int].is(kind)
                &&& forall|j: int| 0 <= j < i ==> !children@[j].is(kind)
            },
            None => forall|j: int| 0 <= j < children@.len() ==> !children@[j].is(kind),
        },
{
    let mut k: usize = 0;
    while k < children.len()
        invariant
            0 <= k <= children@.len(),
            forall|j: int| 0 <= j < k ==> !children@[j].is(kind),
        decreases children@.len() - k,
    {
        if children[k].has_tag(kind) {
            return Some(k);
        }
        k = k + 1;
    }
    None
}

/// The index of the last child of the given widget kind: the largest index
/// whose child matches, or `None` when no child matches.  Overlay siblings
/// are conventionally appended near the end of the vector, so the backward
/// scan finds the most recently added instance cheaply.
pub fn rlocate(children: &Vec<Node>, kind: KindTag) -> (r: Option<usize>)
    ensures
        match r {
            Some(i) => {
                &&& 0 <= i < children@.len()
                &&& children@[i as int].is(kind)
                &&& forall|j: int| i < j < children@.len() ==> !children@[j].is(kind)
            },
            None => forall|j: int| 0 <= j < children@.len() ==> !children@[j].is(kind),
        },
{
    let mut k: usize = children.len();
    while k > 0
        invariant
            0 <= k <= children@.len(),
            forall|j: int| k <= j < children@.len() ==> !children@[j].is(kind),
        decreases k,
    {
        k = k - 1;
        if children[k].has_tag(kind) {
            return Some(k);
        }
    }
    None
}

/// The index of the first child whose semantic tag equals `id`, or `None`.
pub fn locate_by_id(children: &Vec<Node>, id: ViewId) -> (r: Option<usize>)
    ensures
        match r {
            Some(i) => {
                &&& 0 <= i < children@.len()
                &&& children@[i as int].view_id == Some(id)
                &&& forall|j: int| 0 <= j < i ==> children@[j].view_id != Some(id)
            },
            None => forall|j: int| 0 <= j < children@.len() ==> children@[j].view_id != Some(id),
        },
{
    let mut k: usize = 0;
    while k < children.len()
        invariant
            0 <= k <= children@.len(),
            forall|j: int| 0 <= j < k ==> children@[j].view_id != Some(id),
        decreases children@.len() - k,
    {
        match children[k].view_id {
            Some(v) => {
                if v == id {
                    return Some(k);
                }
            },
            None => {},
        }
        k = k + 1;
    }
    None
}

/// The union of the rectangles of the first `k` children's subtrees with the
/// node's own rectangle.
pub open spec fn overlap_upto(n: Node, k: int) -> Rect
    decreases n, k,
{
    if k <= 0 {
        n.rect
    } else if k > n.children@.len() {
        overlap_upto(n, n.children@.len() as int)
    } else {
        overlap_upto(n, k - 1).spec_union(spec_overlapping_rectangle(n.children@[k - 1]))
    }
}

/// The smallest rectangle containing every rectangle in the subtree.
pub open spec fn spec_overlapping_rectangle(n: Node) -> Rect
    decreases n, n.children@.len() + 1,
{
    overlap_upto(n, n.children@.len() as int)
}

pub fn overlapping_rectangle(view: &Node) -> (r: Rect)
    ensures
        r == spec_overlapping_rectangle(*view),
    decreases *view,
{
    let mut rect = view.rect;
    let n = view.children.len();
    let mut k: usize = 0;
    while k < n
        invariant
            n == view.children@.len(),
            0 <= k <= n,
            rect == overlap_upto(*view, k as int),
        decreases n - k,
    {
        proof {
            assert(decreases_to!(*view => view.children));
            assert(decreases_to!(view.children => view.children@));
            assert(decreases_to!(view.children@ => view.children@[k as int]));
        }
        let child_rect = overlapping_rectangle(&view.children[k]);
        rect.absorb(&child_rect);
        k = k + 1;
    }
    rect
}

/// A notification carried over to a container with rectangle `to_rect` from
/// one with rectangle `from_rect`: repositioned when the geometry differs,
/// untouched otherwise.
pub open spec fn spec_carried(n: Node, from_rect: Rect, to_rect: Rect) -> Node {
    Node { rect: if from_rect != to_rect { to_rect } else { n.rect }, ..n }
}

/// Move every notification from the first container's children to the second
/// container's, preserving their order; a notification is repositioned when
/// the two containers' rectangles differ.  Non-notification children keep
/// their order.
pub fn transfer_notifications(
    view1: &mut Vec<Node>,
    rect1: Rect,
    view2: &mut Vec<Node>,
    rect2: Rect,
    rq: &mut RenderQueue,
    context: &mut Context,
)
    ensures
        final(view1)@ =~= old(view1)@.filter(|n: Node| n.tag() != KindTag::Notification),
        final(view2)@ =~= old(view2)@ + old(view1)@.filter(
            |n: Node| n.tag() == KindTag::Notification,
        ).map_values(|n: Node| spec_carried(n, rect1, rect2)),
        final(rq).entries@ =~= old(rq).entries@,
        *final(context) == *old(context),
{
    let ghost pre = old(view1)@;
    let mut kept: Vec<Node> = Vec::new();
    let moved = rect1.min.x != rect2.min.x || rect1.min.y != rect2.min.y || rect1.max.x
        != rect2.max.x || rect1.max.y != rect2.max.y;
    proof {
        assert(moved == (rect1 != rect2));
        assert(pre.subrange(0, 0).filter(|n: Node| n.tag() != KindTag::Notification)
            =~= Seq::<Node>::empty()) by {
            reveal(Seq::filter);
        }
        assert(pre.subrange(0, 0).filter(|n: Node| n.tag() == KindTag::Notification)
            =~= Seq::<Node>::empty()) by {
            reveal(Seq::filter);
        }
    }
    let total = view1.len();
    let mut j: usize = 0;
    while view1.len() > 0
        invariant
            total == pre.len(),
            0 <= j <= total,
            j + view1@.len() == pre.len(),
            view1@ =~= pre.subrange(j as int, pre.len() as int),
            kept@ =~= pre.subrange(0, j as int).filter(
                |n: Node| n.tag() != KindTag::Notification,
            ),
            view2@ =~= old(view2)@ + pre.subrange(0, j as int).filter(
                |n: Node| n.tag() == KindTag::Notification,
            ).map_values(|n: Node| spec_carried(n, rect1, rect2)),
            rq.entries@ =~= old(rq).entries@,
            context == old(context),
            moved == (rect1 != rect2),
        decreases view1@.len(),
    {
        let mut n = view1.remove(0);
        proof {
            assert(n == pre[j as int]);
            assert(pre.subrange(0, j + 1) =~= pre.subrange(0, j as int).push(pre[j as int]));
            pre.subrange(0, j as int).lemma_filter_push(
                pre[j as int],
                |n: Node| n.tag() == KindTag::Notification,
            );
            pre.subrange(0, j as int).lemma_filter_push(
                pre[j as int],
                |n: Node| n.tag() != KindTag::Notification,
            );
        }
        if n.has_tag(KindTag::Notification) {
            if moved {
                n.rect = rect2;
            }
            proof {
                assert(n =~= spec_carried(pre[j as int], rect1, rect2));
                assert(pre.subrange(0, j + 1).filter(
                    |n: Node| n.tag() == KindTag::Notification,
                ).map_values(|n: Node| spec_carried(n, rect1, rect2)) =~= pre.subrange(
                    0,
                    j as int,
                ).filter(|n: Node| n.tag() == KindTag::Notification).map_values(
                    |n: Node| spec_carried(n, rect1, rect2),
                ).push(spec_carried(pre[j as int], rect1, rect2)));
            }
            view2.push(n);
        } else {
            kept.push(n);
        }
        j = j + 1;
        proof {
            assert(view1@ =~= pre.subrange(j as int, pre.len() as int));
        }
    }
    proof {
        assert(pre.subrange(0, pre.len() as int) =~= pre);
    }
    *view1 = kept;
}

/// No child of `s` carries the semantic tag `id`.
pub open spec fn no_child_with_view_id(s: Seq<Node>, id: ViewId) -> bool {
    forall|j: int| 0 <= j < s.len() ==> s[j].view_id != Some(id)
}

/// `j` is the first index of `s` whose child carries the semantic tag `id`.
pub open spec fn first_index_with_view_id(s: Seq<Node>, id: ViewId, j: int) -> bool {
    &&& 0 <= j < s.len()
    &&& s[j].view_id == Some(id)
    &&& forall|l: int| 0 <= l < j ==> s[l].view_id != Some(id)
}

/// Nothing observable happened: children, queue and context are as before.
pub open spec fn toggle_noop(
    pre: Seq<Node>,
    post: Seq<Node>,
    rq0: Seq<RenderData>,
    rq1: Seq<RenderData>,
    c0: Context,
    c1: Context,
) -> bool {
    &&& post =~= pre
    &&& rq1 =~= rq0
    &&& c1 == c0
}

/// The menu tagged `id` was removed from index `j` and its region exposed.
pub open spec fn menu_removed(
    pre: Seq<Node>,
    post: Seq<Node>,
    id: ViewId,
    j: int,
    rq0: Seq<RenderData>,
    rq1: Seq<RenderData>,
) -> bool {
    &&& first_index_with_view_id(pre, id, j)
    &&& post =~= pre.remove(j)
    &&& rq1 =~= rq0.push(RenderData { id: None, rect: pre[j].rect, mode: UpdateMode::Gui })
}

/// A menu node was appended: tagged `id`, positioned below `near`, holding
/// `rows` entries, with the identity the allocator issued; and a
/// interface-grade render request for its region was queued.
pub open spec fn menu_appended(
    pre: Seq<Node>,
    post: Seq<Node>,
    id: ViewId,
    near: Rect,
    rows: int,
    c0: Context,
    rq0: Seq<RenderData>,
    rq1: Seq<RenderData>,
) -> bool {
    &&& post.len() == pre.len() + 1
    &&& post.subrange(0, pre.len() as int) =~= pre
    &&& post.last().view_id == Some(id)
    &&& post.last().id == c0.ids.counter
    &&& post.last().rect == spec_menu_rect(near, rows, c0.dims)
    &&& post.last().tag() == KindTag::Menu
    &&& rq1 =~= rq0.push(
        RenderData {
            id: Some(c0.ids.counter),
            rect: spec_menu_rect(near, rows, c0.dims),
            mode: UpdateMode::Gui,
        },
    )
}

/// Only the identity allocator advanced, by one; every other context field
/// is as before.
pub open spec fn ctx_advanced(c0: Context, c1: Context) -> bool {
    &&& c1 == (Context { ids: c1.ids, ..c0 })
    &&& c1.ids.counter == c0.ids.counter + 1
}

/// The entries of the battery menu: a single message with the provider's
/// battery display string.
pub open spec fn battery_entries(k: NodeKind, c0: Context) -> bool {
    &&& k matches NodeKind::Menu { kind: MenuKind::DropDown, entries }
    &&& entries@.len() == 1
    &&& entries@[0] matches EntryKind::Message(t) && t@ == c0.battery_text@
}

/// Toggle the battery drop-down menu near `rect`.
///
/// With the menu present, a forced open is a no-op; otherwise the menu is
/// removed and its region exposed.  With it absent, a forced close is a
/// no-op; otherwise a menu showing the battery provider's display string is
/// appended and its region queued for an interface-grade refresh.
pub fn toggle_battery_menu(
    view: &mut Vec<Node>,
    rect: Rect,
    enable: Option<bool>,
    rq: &mut RenderQueue,
    context: &mut Context,
)
    requires
        old(context).ids.counter < u64::MAX,
        old(context).dims.wf(),
        rect.on_screen(),
    ensures
        !no_child_with_view_id(old(view)@, ViewId::BatteryMenu) && enable == Some(true)
            ==> toggle_noop(
            old(view)@,
            final(view)@,
            old(rq).entries@,
            final(rq).entries@,
            *old(context),
            *final(context),
        ),
        !no_child_with_view_id(old(view)@, ViewId::BatteryMenu) && enable != Some(true)
            ==> *final(context) == *old(context) && exists|j: int|
            #![auto]
            menu_removed(
                old(view)@,
                final(view)@,
                ViewId::BatteryMenu,
                j,
                old(rq).entries@,
                final(rq).entries@,
            ),
        no_child_with_view_id(old(view)@, ViewId::BatteryMenu) && enable == Some(false)
            ==> toggle_noop(
            old(view)@,
            final(view)@,
            old(rq).entries@,
            final(rq).entries@,
            *old(context),
            *final(context),
        ),
        no_child_with_view_id(old(view)@, ViewId::BatteryMenu) && enable != Some(false) ==> {
            &&& menu_appended(
                old(view)@,
                final(view)@,
                ViewId::BatteryMenu,
                rect,
                1,
                *old(context),
                old(rq).entries@,
                final(rq).entries@,
            )
            &&& battery_entries(final(view)@.last().kind, *old(context))
            &&& ctx_advanced(*old(context), *final(context))
        },
{
    if let Some(index) = locate_by_id(view, ViewId::BatteryMenu) {
        if let Some(true) = enable {
            return ;
        }
        rq.add(RenderData::expose(view[index].rect, UpdateMode::Gui));
        view.remove(index);
        proof {
            assert(menu_removed(
                old(view)@,
                view@,
                ViewId::BatteryMenu,
                index as int,
                old(rq).entries@,
                rq.entries@,
            ));
        }
    } else {
        if let Some(false) = enable {
            return ;
        }
        let text = context.battery_text.clone();
        let mut entries: Vec<EntryKind> = Vec::new();
        entries.push(EntryKind::Message(text));
        let menu = Node::menu(context, rect, ViewId::BatteryMenu, MenuKind::DropDown, entries);
        rq.add(RenderData::new(menu.id, menu.rect, UpdateMode::Gui));
        view.push(menu);
    }
}

/// The entries of the clock menu: a single message with the provider's
/// clock display string.
pub open spec fn clock_entries(k: NodeKind, c0: Context) -> bool {
    &&& k matches NodeKind::Menu { kind: MenuKind::DropDown, entries }
    &&& entries@.len() == 1
    &&& entries@[0] matches EntryKind::Message(t) && t@ == c0.clock_text@
}

/// Toggle the clock drop-down menu near `rect`; the displayed time string is
/// the one the clock provider last put in the context.
pub fn toggle_clock_menu(
    view: &mut Vec<Node>,
    rect: Rect,
    enable: Option<bool>,
    rq: &mut RenderQueue,
    context: &mut Context,
)
    requires
        old(context).ids.counter < u64::MAX,
        old(context).dims.wf(),
        rect.on_screen(),
    ensures
        !no_child_with_view_id(old(view)@, ViewId::ClockMenu) && enable == Some(true)
            ==> toggle_noop(
            old(view)@,
            final(view)@,
            old(rq).entries@,
            final(rq).entries@,
            *old(context),
            *final(context),
        ),
        !no_child_with_view_id(old(view)@, ViewId::ClockMenu) && enable != Some(true)
            ==> *final(context) == *old(context) && exists|j: int|
            #![auto]
            menu_removed(
                old(view)@,
                final(view)@,
                ViewId::ClockMenu,
                j,
                old(rq).entries@,
                final(rq).entries@,
            ),
        no_child_with_view_id(old(view)@, ViewId::ClockMenu) && enable == Some(false)
            ==> toggle_noop(
            old(view)@,
            final(view)@,
            old(rq).entries@,
            final(rq).entries@,
            *old(context),
            *final(context),
        ),
        no_child_with_view_id(old(view)@, ViewId::ClockMenu) && enable != Some(false) ==> {
            &&& menu_appended(
                old(view)@,
                final(view)@,
                ViewId::ClockMenu,
                rect,
                1,
                *old(context),
                old(rq).entries@,
                final(rq).entries@,
            )
            &&& clock_entries(final(view)@.last().kind, *old(context))
            &&& ctx_advanced(*old(context), *final(context))
        },
{
    if let Some(index) = locate_by_id(view, ViewId::ClockMenu) {
        if let Some(true) = enable {
            return ;
        }
        rq.add(RenderData::expose(view[index].rect, UpdateMode::Gui));
        view.remove(index);
        proof {
            assert(menu_removed(
                old(view)@,
                view@,
                ViewId::ClockMenu,
                index as int,
                old(rq).entries@,
                rq.entries@,
            ));
        }
    } else {
        if let Some(false) = enable {
            return ;
        }
        let text = context.clock_text.clone();
        let mut entries: Vec<EntryKind> = Vec::new();
        entries.push(EntryKind::Message(text));
        let menu = Node::menu(context, rect, ViewId::ClockMenu, MenuKind::DropDown, entries);
        rq.add(RenderData::new(menu.id, menu.rect, UpdateMode::Gui));
        view.push(menu);
    }
}

/// A command entry that names the layout `s` and selects it.
pub open spec fn layout_entry(e: EntryKind, s: Seq<char>) -> bool {
    &&& e matches EntryKind::Command(name, act)
    &&& name@ == s
    &&& act matches EntryId::SetKeyboardLayout(v)
    &&& v@ == s
}

/// Each entry of the keyboard-layout menu names one installed layout and
/// selects it.
pub open spec fn layout_entries(k: NodeKind, c0: Context) -> bool {
    &&& k matches NodeKind::Menu { kind: MenuKind::Contextual, entries }
    &&& entries@.len() == c0.keyboard_layouts@.len()
    &&& forall|i: int|
        #![trigger entries@[i]]
        0 <= i < entries@.len() ==> layout_entry(entries@[i], c0.keyboard_layouts@[i]@)
}

/// Toggle the contextual menu of installed keyboard layouts near `rect`.
pub fn toggle_keyboard_layout_menu(
    view: &mut Vec<Node>,
    rect: Rect,
    enable: Option<bool>,
    rq: &mut RenderQueue,
    context: &mut Context,
)
    requires
        old(context).ids.counter < u64::MAX,
        old(context).dims.wf(),
        old(context).keyboard_layouts@.len() <= 256,
        rect.on_screen(),
    ensures
        !no_child_with_view_id(old(view)@, ViewId::KeyboardLayoutMenu) && enable == Some(true)
            ==> toggle_noop(
            old(view)@,
            final(view)@,
            old(rq).entries@,
            final(rq).entries@,
            *old(context),
            *final(context),
        ),
        !no_child_with_view_id(old(view)@, ViewId::KeyboardLayoutMenu) && enable != Some(true)
            ==> *final(context) == *old(context) && exists|j: int|
            #![auto]
            menu_removed(
                old(view)@,
                final(view)@,
                ViewId::KeyboardLayoutMenu,
                j,
                old(rq).entries@,
                final(rq).entries@,
            ),
        no_child_with_view_id(old(view)@, ViewId::KeyboardLayoutMenu) && enable == Some(false)
            ==> toggle_noop(
            old(view)@,
            final(view)@,
            old(rq).entries@,
            final(rq).entries@,
            *old(context),
            *final(context),
        ),
        no_child_with_view_id(old(view)@, ViewId::KeyboardLayoutMenu) && enable != Some(false)
            ==> {
            &&& menu_appended(
                old(view)@,
                final(view)@,
                ViewId::KeyboardLayoutMenu,
                rect,
                old(context).keyboard_layouts@.len() as int,
                *old(context),
                old(rq).entries@,
                final(rq).entries@,
            )
            &&& layout_entries(final(view)@.last().kind, *old(context))
            &&& ctx_advanced(*old(context), *final(context))
        },
{
    if let Some(index) = locate_by_id(view, ViewId::KeyboardLayoutMenu) {
        if let Some(true) = enable {
            return ;
        }
        rq.add(RenderData::expose(view[index].rect, UpdateMode::Gui));
        view.remove(index);
        proof {
            assert(menu_removed(
                old(view)@,
                view@,
                ViewId::KeyboardLayoutMenu,
                index as int,
                old(rq).entries@,
                rq.entries@,
            ));
        }
    } else {
        if let Some(false) = enable {
            return ;
        }
        let mut entries: Vec<EntryKind> = Vec::new();
        let mut k: usize = 0;
        while k < context.keyboard_layouts.len()
            invariant
                0 <= k <= context.keyboard_layouts@.len(),
                entries@.len() == k,
                context == old(context),
                forall|i: int|
                    #![trigger entries@[i]]
                    0 <= i < k ==> layout_entry(entries@[i], context.keyboard_layouts@[i]@),
            decreases context.keyboard_layouts@.len() - k,
        {
            let name = context.keyboard_layouts[k].clone();
            let value = context.keyboard_layouts[k].clone();
            entries.push(EntryKind::Command(name, EntryId::SetKeyboardLayout(value)));
            k = k + 1;
        }
        let menu = Node::menu(
            context,
            rect,
            ViewId::KeyboardLayoutMenu,
            MenuKind::Contextual,
            entries,
        );
        rq.add(RenderData::new(menu.id, menu.rect, UpdateMode::Gui));
        view.push(menu);
    }
}

/// Toggle the main drop-down menu near `rect`.  Its entries are the ones
/// prepared in the context; opening moves them into the menu node, so the
/// dispatcher refreshes them before the next open.
pub fn toggle_main_menu(
    view: &mut Vec<Node>,
    rect: Rect,
    enable: Option<bool>,
    rq: &mut RenderQueue,
    context: &mut Context,
)
    requires
        old(context).ids.counter < u64::MAX,
        old(context).dims.wf(),
        old(context).main_menu_entries@.len() <= 256,
        rect.on_screen(),
    ensures
        !no_child_with_view_id(old(view)@, ViewId::MainMenu) && enable == Some(true)
            ==> toggle_noop(
            old(view)@,
            final(view)@,
            old(rq).entries@,
            final(rq).entries@,
            *old(context),
            *final(context),
        ),
        !no_child_with_view_id(old(view)@, ViewId::MainMenu) && enable != Some(true)
            ==> *final(context) == *old(context) && exists|j: int|
            #![auto]
            menu_removed(
                old(view)@,
                final(view)@,
                ViewId::MainMenu,
                j,
                old(rq).entries@,
                final(rq).entries@,
            ),
        no_child_with_view_id(old(view)@, ViewId::MainMenu) && enable == Some(false)
            ==> toggle_noop(
            old(view)@,
            final(view)@,
            old(rq).entries@,
            final(rq).entries@,
            *old(context),
            *final(context),
        ),
        no_child_with_view_id(old(view)@, ViewId::MainMenu) && enable != Some(false) ==> {
            &&& menu_appended(
                old(view)@,
                final(view)@,
                ViewId::MainMenu,
                rect,
                old(context).main_menu_entries@.len() as int,
                *old(context),
                old(rq).entries@,
                final(rq).entries@,
            )
            &&& (final(view)@.last().kind matches NodeKind::Menu { kind: MenuKind::DropDown, entries }
                && entries == old(context).main_menu_entries)
            &&& final(context).main_menu_entries@.len() == 0
            &&& *final(context) == (Context {
                ids: final(context).ids,
                main_menu_entries: final(context).main_menu_entries,
                ..*old(context)
            })
            &&& final(context).ids.counter == old(context).ids.counter + 1
        },
{
    if let Some(index) = locate_by_id(view, ViewId::MainMenu) {
        if let Some(true) = enable {
            return ;
        }
        rq.add(RenderData::expose(view[index].rect, UpdateMode::Gui));
        view.remove(index);
        proof {
            assert(menu_removed(
                old(view)@,
                view@,
                ViewId::MainMenu,
                index as int,
                old(rq).entries@,
                rq.entries@,
            ));
        }
    } else {
        if let Some(false) = enable {
            return ;
        }
        let mut entries: Vec<EntryKind> = Vec::new();
        core::mem::swap(&mut entries, &mut context.main_menu_entries);
        let menu = Node::menu(context, rect, ViewId::MainMenu, MenuKind::DropDown, entries);
        rq.add(RenderData::new(menu.id, menu.rect, UpdateMode::Gui));
        view.push(menu);
    }
}

/// There is no submission history recorded for the input `id`.
pub open spec fn no_history(c: Context, id: ViewId) -> bool {
    forall|j: int| 0 <= j < c.input_history@.len() ==> c.input_history@[j].0 != id
}

/// `i` is the first history record for the input `id`.
pub open spec fn history_first_at(c: Context, id: ViewId, i: int) -> bool {
    &&& 0 <= i < c.input_history@.len()
    &&& c.input_history@[i].0 == id
    &&& forall|j: int| 0 <= j < i ==> c.input_history@[j].0 != id
}

/// A command entry that shows the past submission `s` and re-enters it into
/// the input `id`.
pub open spec fn history_entry(e: EntryKind, id: ViewId, s: Seq<char>) -> bool {
    &&& e matches EntryKind::Command(name, act)
    &&& name@ == s
    &&& act matches EntryId::SetInputText(v, t)
    &&& v == id
    &&& t@ == s
}

/// The entries of the input-history menu mirror the recorded submissions,
/// in order.
pub open spec fn history_entries(k: NodeKind, id: ViewId, h: Seq<String>, mk: MenuKind) -> bool {
    &&& k matches NodeKind::Menu { kind, entries }
    &&& kind == mk
    &&& entries@.len() == h.len()
    &&& forall|i: int|
        #![trigger entries@[i]]
        0 <= i < entries@.len() ==> history_entry(entries@[i], id, h[i]@)
}

/// Search-style inputs get a drop-down history; other inputs a contextual
/// one.
pub open spec fn spec_history_menu_kind(id: ViewId) -> MenuKind {
    match id {
        ViewId::HomeSearchInput => MenuKind::DropDown,
        ViewId::ReaderSearchInput => MenuKind::DropDown,
        ViewId::DictionarySearchInput => MenuKind::DropDown,
        ViewId::CalculatorInput => MenuKind::DropDown,
        _ => MenuKind::Contextual,
    }
}

/// Toggle the menu of past submissions for the input `id` near `rect`.  With
/// no history recorded for that input, opening does nothing.
pub fn toggle_input_history_menu(
    view: &mut Vec<Node>,
    id: ViewId,
    rect: Rect,
    enable: Option<bool>,
    rq: &mut RenderQueue,
    context: &mut Context,
)
    requires
        old(context).ids.counter < u64::MAX,
        old(context).dims.wf(),
        forall|i: int|
            0 <= i < old(context).input_history@.len() ==> old(
                context,
            ).input_history@[i].1@.len() <= 256,
        rect.on_screen(),
    ensures
        !no_child_with_view_id(old(view)@, ViewId::InputHistoryMenu) && enable == Some(true)
            ==> toggle_noop(
            old(view)@,
            final(view)@,
            old(rq).entries@,
            final(rq).entries@,
            *old(context),
            *final(context),
        ),
        !no_child_with_view_id(old(view)@, ViewId::InputHistoryMenu) && enable != Some(true)
            ==> *final(context) == *old(context) && exists|j: int|
            #![auto]
            menu_removed(
                old(view)@,
                final(view)@,
                ViewId::InputHistoryMenu,
                j,
                old(rq).entries@,
                final(rq).entries@,
            ),
        no_child_with_view_id(old(view)@, ViewId::InputHistoryMenu) && (enable == Some(false)
            || no_history(*old(context), id)) ==> toggle_noop(
            old(view)@,
            final(view)@,
            old(rq).entries@,
            final(rq).entries@,
            *old(context),
            *final(context),
        ),
        no_child_with_view_id(old(view)@, ViewId::InputHistoryMenu) && enable != Some(false)
            && !no_history(*old(context), id) ==> exists|i: int|
            #![auto]
            {
                &&& history_first_at(*old(context), id, i)
                &&& menu_appended(
                    old(view)@,
                    final(view)@,
                    ViewId::InputHistoryMenu,
                    rect,
                    old(context).input_history@[i].1@.len() as int,
                    *old(context),
                    old(rq).entries@,
                    final(rq).entries@,
                )
                &&& history_entries(
                    final(view)@.last().kind,
                    id,
                    old(context).input_history@[i].1@,
                    spec_history_menu_kind(id),
                )
                &&& ctx_advanced(*old(context), *final(context))
            },
{
    if let Some(index) = locate_by_id(view, ViewId::InputHistoryMenu) {
        if let Some(true) = enable {
            return ;
        }
        rq.add(RenderData::expose(view[index].rect, UpdateMode::Gui));
        view.remove(index);
        proof {
            assert(menu_removed(
                old(view)@,
                view@,
                ViewId::InputHistoryMenu,
                index as int,
                old(rq).entries@,
                rq.entries@,
            ));
        }
    } else {
        if let Some(false) = enable {
            return ;
        }
        let mut entries: Vec<EntryKind> = Vec::new();
        let ghost mut witness: int = 0;
        let found: bool;
        {
            let mut k: usize = 0;
            let mut done = false;
            while k < context.input_history.len() && !done
                invariant
                    0 <= k <= context.input_history@.len(),
                    context == old(context),
                    !done ==> entries@.len() == 0,
                    !done ==> forall|j: int|
                        0 <= j < k ==> context.input_history@[j].0 != id,
                    done ==> {
                        &&& history_first_at(*context, id, witness)
                        &&& witness < k
                        &&& entries@.len() == context.input_history@[witness].1@.len()
                        &&& forall|i: int|
                            #![trigger entries@[i]]
                            0 <= i < entries@.len() ==> history_entry(
                                entries@[i],
                                id,
                                context.input_history@[witness].1@[i]@,
                            )
                    },
                decreases context.input_history@.len() - k,
            {
                if context.input_history[k].0 == id {
                    let h = &context.input_history[k].1;
                    let mut m: usize = 0;
                    while m < h.len()
                        invariant
                            0 <= m <= h@.len(),
                            h == &context.input_history@[k as int].1,
                            context == old(context),
                            0 <= k < context.input_history@.len(),
                            entries@.len() == m,
                            forall|i: int|
                                #![trigger entries@[i]]
                                0 <= i < m ==> history_entry(entries@[i], id, h@[i]@),
                        decreases h@.len() - m,
                    {
                        let name = h[m].clone();
                        let text = h[m].clone();
                        entries.push(EntryKind::Command(name, EntryId::SetInputText(id, text)));
                        m = m + 1;
                    }
                    proof {
                        witness = k as int;
                    }
                    done = true;
                }
                k = k + 1;
            }
            found = done;
        }
        if !found {
            return ;
        }
        let menu_kind = match id {
            ViewId::HomeSearchInput
            | ViewId::ReaderSearchInput
            | ViewId::DictionarySearchInput
            | ViewId::CalculatorInput => MenuKind::DropDown,
            _ => MenuKind::Contextual,
        };
        let menu = Node::menu(context, rect, ViewId::InputHistoryMenu, menu_kind, entries);
        rq.add(RenderData::new(menu.id, menu.rect, UpdateMode::Gui));
        view.push(menu);
    }
}

} // verus!
