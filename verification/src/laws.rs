//! The toggling laws of the overlay state machine, stated over the toggle
//! outcome relations and proved once for every container state.

use vstd::prelude::*;

use crate::context::Context;
use crate::event::Event;
use crate::home::{search_toggle_outcome, keyboard_toggle_outcome, Home};
use crate::node::{KindTag, Node};
use crate::overlay::{
    keyboard_opened, keyboard_present, overlay_closed, search_closed, search_opened,
    search_present,
};
use crate::render::RenderData;
use crate::works::{works_keyboard_toggle_outcome, works_search_toggle_outcome, Works};

verus! {

/// Idempotence of forcing the search bar open: the second of two consecutive
/// forced opens changes nothing — not the children, not the queue, not the
/// hub, not the context.
pub proof fn lemma_search_force_open_idempotent(
    a: Home,
    b: Home,
    c: Home,
    u1: bool,
    u2: bool,
    hub0: Seq<Event>,
    hub1: Seq<Event>,
    hub2: Seq<Event>,
    rq0: Seq<RenderData>,
    rq1: Seq<RenderData>,
    rq2: Seq<RenderData>,
    c0: Context,
    c1: Context,
    c2: Context,
)
    requires
        a.wf(c0.dims),
        search_toggle_outcome(a, b, Some(true), u1, hub0, hub1, rq0, rq1, c0, c1),
        search_toggle_outcome(b, c, Some(true), u2, hub1, hub2, rq1, rq2, c1, c2),
    ensures
        c == b,
        hub2 =~= hub1,
        rq2 =~= rq1,
        c2 == c1,
{
    if search_present(a.children@) {
        assert(b == a);
        assert(search_present(b.children@));
    } else {
        let sh = a.shelf_index as int;
        assert(search_opened(
            a.children@,
            b.children@,
            sh,
            a.rect,
            c0.dims,
            crate::event::ViewId::SiteTextSearchInput,
            "Search Ao3"@,
            c0.ids.counter,
        ));
        assert(b.children@[sh + 2].tag() == KindTag::SearchBar);
        assert(search_present(b.children@));
    }
}

/// Idempotence of forcing the search bar closed: the second of two
/// consecutive forced closes changes nothing.
pub proof fn lemma_search_force_close_idempotent(
    a: Home,
    b: Home,
    c: Home,
    u1: bool,
    u2: bool,
    hub0: Seq<Event>,
    hub1: Seq<Event>,
    hub2: Seq<Event>,
    rq0: Seq<RenderData>,
    rq1: Seq<RenderData>,
    rq2: Seq<RenderData>,
    c0: Context,
    c1: Context,
    c2: Context,
)
    requires
        a.wf(c0.dims),
        search_toggle_outcome(a, b, Some(false), u1, hub0, hub1, rq0, rq1, c0, c1),
        search_toggle_outcome(b, c, Some(false), u2, hub1, hub2, rq1, rq2, c1, c2),
    ensures
        c == b,
        hub2 =~= hub1,
        rq2 =~= rq1,
        c2 == c1,
{
    if search_present(a.children@) {
        assert(overlay_closed(b.children@));
        assert(!search_present(b.children@));
    } else {
        assert(b == a);
        assert(!search_present(b.children@));
    }
}

/// Symmetry of open and close: opening the search bar on a closed overlay
/// and then forcing it closed restores the exact pre-open child vector —
/// same length, same children at the same indices, and in particular the
/// same anchor rectangle.
pub proof fn lemma_search_open_close_symmetric(
    a: Home,
    b: Home,
    c: Home,
    u1: bool,
    u2: bool,
    hub0: Seq<Event>,
    hub1: Seq<Event>,
    hub2: Seq<Event>,
    rq0: Seq<RenderData>,
    rq1: Seq<RenderData>,
    rq2: Seq<RenderData>,
    c0: Context,
    c1: Context,
    c2: Context,
)
    requires
        a.wf(c0.dims),
        c0.wf(),
        !search_present(a.children@),
        a.children@[a.shelf_index as int].rect.spec_height() >= c0.dims.thickness
            + c0.dims.small_height,
        search_toggle_outcome(a, b, Some(true), u1, hub0, hub1, rq0, rq1, c0, c1),
        c1.dims == c0.dims,
        search_toggle_outcome(b, c, Some(false), u2, hub1, hub2, rq1, rq2, c1, c2),
    ensures
        c.children@ =~= a.children@,
        c.shelf_index == a.shelf_index,
        c.rect == a.rect,
        c.focus == a.focus,
{
    let sh = a.shelf_index as int;
    let d = c0.dims;
    assert(search_opened(
        a.children@,
        b.children@,
        sh,
        a.rect,
        d,
        crate::event::ViewId::SiteTextSearchInput,
        "Search Ao3"@,
        c0.ids.counter,
    ));
    assert(b.children@[sh + 2].tag() == KindTag::SearchBar);
    assert(search_present(b.children@));
    // The open inserted no keyboard, so the close drains exactly the pair.
    assert forall|i: int|
        0 <= i < b.children@.len() implies #[trigger] b.children@[i].tag()
        != KindTag::Keyboard by {
        if i < sh {
            assert(b.children@[i] == a.children@[i]);
        } else if i == sh {
            assert(b.children@[sh].kind == a.children@[sh].kind);
        } else if i <= sh + 2 {
        } else {
            assert(b.children@[i] == a.children@[i - 2]);
        }
    }
    assert(!keyboard_present(b.children@));
    assert(search_closed(b.children@, c.children@, sh, d));
    assert forall|i: int| 0 <= i < c.children@.len() implies c.children@[i] == a.children@[i] by {
        if i < sh {
            assert(c.children@[i] == b.children@[i]);
            assert(b.children@[i] == a.children@[i]);
        } else if i == sh {
            assert(c.children@[sh] =~= a.children@[sh]);
        } else {
            assert(c.children@[i] == b.children@[i + 2]);
            assert(b.children@[i + 2] == a.children@[i]);
        }
    }
}

/// The focus cascade: granting focus to a text input when no keyboard is
/// present results in exactly one keyboard-open transition, and exactly one
/// search-bar-open transition when the search bar was not already open — the
/// child vector grows by exactly one pair, or exactly two pairs, and both
/// overlays are up afterwards.
pub proof fn lemma_focus_cascade(
    pre: Home,
    post: Home,
    u: bool,
    hub0: Seq<Event>,
    hub1: Seq<Event>,
    rq0: Seq<RenderData>,
    rq1: Seq<RenderData>,
    c0: Context,
    c1: Context,
)
    requires
        pre.wf(c0.dims),
        !keyboard_present(pre.children@),
        keyboard_toggle_outcome(pre, post, true, u, hub0, hub1, rq0, rq1, c0, c1),
    ensures
        search_present(pre.children@) ==> post.children@.len() == pre.children@.len() + 2,
        !search_present(pre.children@) ==> post.children@.len() == pre.children@.len() + 4,
        search_present(post.children@),
        keyboard_present(post.children@),
        hub1 =~= hub0,
{
    let sh = pre.shelf_index as int;
    let d = c0.dims;
    if search_present(pre.children@) {
        assert(keyboard_opened(pre.children@, post.children@, sh, pre.rect, d, false, c0.ids.counter));
    } else {
        let mid = choose|mid: Seq<Node>|
            #![auto]
            search_opened(
                pre.children@,
                mid,
                sh,
                pre.rect,
                d,
                crate::event::ViewId::SiteTextSearchInput,
                "Search Ao3"@,
                c0.ids.counter,
            ) && keyboard_opened(
                mid,
                post.children@,
                sh,
                pre.rect,
                d,
                false,
                (c0.ids.counter + 2) as u64,
            );
        assert(mid.len() == pre.children@.len() + 2);
        assert(post.children@.len() == mid.len() + 2);
    }
    assert(post.children@[sh + 2].tag() == KindTag::SearchBar);
    assert(post.children@[sh + 4].tag() == KindTag::Keyboard);
    assert(search_present(post.children@));
    assert(keyboard_present(post.children@));
}

/// Idempotence of forcing the search bar open on the listing screen.
pub proof fn lemma_works_force_open_idempotent(
    a: Works,
    b: Works,
    c: Works,
    u1: bool,
    u2: bool,
    hub0: Seq<Event>,
    hub1: Seq<Event>,
    hub2: Seq<Event>,
    rq0: Seq<RenderData>,
    rq1: Seq<RenderData>,
    rq2: Seq<RenderData>,
    c0: Context,
    c1: Context,
    c2: Context,
)
    requires
        a.wf(c0.dims),
        works_search_toggle_outcome(a, b, Some(true), u1, hub0, hub1, rq0, rq1, c0, c1),
        works_search_toggle_outcome(b, c, Some(true), u2, hub1, hub2, rq1, rq2, c1, c2),
    ensures
        c == b,
        hub2 =~= hub1,
        rq2 =~= rq1,
        c2 == c1,
{
    if search_present(a.children@) {
        assert(b == a);
        assert(search_present(b.children@));
    } else {
        let sh = a.shelf_index as int;
        assert(search_opened(
            a.children@,
            b.children@,
            sh,
            a.rect,
            c0.dims,
            crate::event::ViewId::HomeSearchInput,
            "Title, author, series"@,
            c0.ids.counter,
        ));
        assert(b.children@[sh + 2].tag() == KindTag::SearchBar);
        assert(search_present(b.children@));
    }
}

/// Idempotence of forcing the search bar closed on the listing screen.
pub proof fn lemma_works_force_close_idempotent(
    a: Works,
    b: Works,
    c: Works,
    u1: bool,
    u2: bool,
    hub0: Seq<Event>,
    hub1: Seq<Event>,
    hub2: Seq<Event>,
    rq0: Seq<RenderData>,
    rq1: Seq<RenderData>,
    rq2: Seq<RenderData>,
    c0: Context,
    c1: Context,
    c2: Context,
)
    requires
        a.wf(c0.dims),
        works_search_toggle_outcome(a, b, Some(false), u1, hub0, hub1, rq0, rq1, c0, c1),
        works_search_toggle_outcome(b, c, Some(false), u2, hub1, hub2, rq1, rq2, c1, c2),
    ensures
        c == b,
        hub2 =~= hub1,
        rq2 =~= rq1,
        c2 == c1,
{
    if search_present(a.children@) {
        assert(overlay_closed(b.children@));
        assert(!search_present(b.children@));
    } else {
        assert(b == a);
        assert(!search_present(b.children@));
    }
}

/// Symmetry of open and close on the listing screen: opening the search bar
/// on a closed overlay and then forcing it closed restores the exact
/// pre-open child vector.
pub proof fn lemma_works_open_close_symmetric(
    a: Works,
    b: Works,
    c: Works,
    u1: bool,
    u2: bool,
    hub0: Seq<Event>,
    hub1: Seq<Event>,
    hub2: Seq<Event>,
    rq0: Seq<RenderData>,
    rq1: Seq<RenderData>,
    rq2: Seq<RenderData>,
    c0: Context,
    c1: Context,
    c2: Context,
)
    requires
        a.wf(c0.dims),
        c0.wf(),
        !search_present(a.children@),
        a.children@[a.shelf_index as int].rect.spec_height() >= c0.dims.thickness
            + c0.dims.small_height,
        works_search_toggle_outcome(a, b, Some(true), u1, hub0, hub1, rq0, rq1, c0, c1),
        c1.dims == c0.dims,
        works_search_toggle_outcome(b, c, Some(false), u2, hub1, hub2, rq1, rq2, c1, c2),
    ensures
        c.children@ =~= a.children@,
        c.shelf_index == a.shelf_index,
        c.rect == a.rect,
        c.focus == a.focus,
{
    let sh = a.shelf_index as int;
    let d = c0.dims;
    assert(search_opened(
        a.children@,
        b.children@,
        sh,
        a.rect,
        d,
        crate::event::ViewId::HomeSearchInput,
        "Title, author, series"@,
        c0.ids.counter,
    ));
    assert(b.children@[sh + 2].tag() == KindTag::SearchBar);
    assert(search_present(b.children@));
    assert forall|i: int|
        0 <= i < b.children@.len() implies #[trigger] b.children@[i].tag()
        != KindTag::Keyboard by {
        if i < sh {
            assert(b.children@[i] == a.children@[i]);
        } else if i == sh {
            assert(b.children@[sh].kind == a.children@[sh].kind);
        } else if i <= sh + 2 {
        } else {
            assert(b.children@[i] == a.children@[i - 2]);
        }
    }
    assert(!keyboard_present(b.children@));
    assert(search_closed(b.children@, c.children@, sh, d));
    assert forall|i: int| 0 <= i < c.children@.len() implies c.children@[i] == a.children@[i] by {
        if i < sh {
            assert(c.children@[i] == b.children@[i]);
            assert(b.children@[i] == a.children@[i]);
        } else if i == sh {
            assert(c.children@[sh] =~= a.children@[sh]);
        } else {
            assert(c.children@[i] == b.children@[i + 2]);
            assert(b.children@[i + 2] == a.children@[i]);
        }
    }
}

/// The focus cascade on the listing screen: granting focus to a text input
/// with no keyboard present yields exactly one keyboard-open transition, and
/// one search-bar-open transition when the search bar was not already up.
pub proof fn lemma_works_focus_cascade(
    pre: Works,
    post: Works,
    nb: bool,
    u: bool,
    hub0: Seq<Event>,
    hub1: Seq<Event>,
    rq0: Seq<RenderData>,
    rq1: Seq<RenderData>,
    c0: Context,
    c1: Context,
)
    requires
        pre.wf(c0.dims),
        !keyboard_present(pre.children@),
        works_keyboard_toggle_outcome(pre, post, true, nb, u, hub0, hub1, rq0, rq1, c0, c1),
    ensures
        search_present(pre.children@) ==> post.children@.len() == pre.children@.len() + 2,
        !search_present(pre.children@) ==> post.children@.len() == pre.children@.len() + 4,
        search_present(post.children@),
        keyboard_present(post.children@),
        hub1 =~= hub0,
{
    let sh = pre.shelf_index as int;
    let d = c0.dims;
    if search_present(pre.children@) {
        assert(keyboard_opened(pre.children@, post.children@, sh, pre.rect, d, nb, c0.ids.counter));
    } else {
        let mid = choose|mid: Seq<Node>|
            #![auto]
            search_opened(
                pre.children@,
                mid,
                sh,
                pre.rect,
                d,
                crate::event::ViewId::HomeSearchInput,
                "Title, author, series"@,
                c0.ids.counter,
            ) && keyboard_opened(
                mid,
                post.children@,
                sh,
                pre.rect,
                d,
                nb,
                (c0.ids.counter + 2) as u64,
            );
        assert(mid.len() == pre.children@.len() + 2);
        assert(post.children@.len() == mid.len() + 2);
    }
    assert(post.children@[sh + 2].tag() == KindTag::SearchBar);
    assert(post.children@[sh + 4].tag() == KindTag::Keyboard);
    assert(search_present(post.children@));
    assert(keyboard_present(post.children@));
}

} // verus!
