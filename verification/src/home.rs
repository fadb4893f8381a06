//! The home screen: background, top bar, favourite-search rows, bottom bar,
//! and the search-bar/keyboard overlay machine threaded around the anchor
//! row.
//!
//! The anchor (the last content row) is stretched to the remaining band
//! between the fixed chrome, so overlays inserted under its bottom edge fit
//! inside it.

use vstd::prelude::*;

use crate::common::{
    battery_entries, clock_entries, ctx_advanced, menu_appended, menu_removed,
    no_child_with_view_id, rlocate, toggle_battery_menu, toggle_clock_menu, toggle_main_menu,
};
use crate::event::Hub;
use crate::context::{Context, Dims};
use crate::event::{Event, ViewId};
use crate::geom::{Point, Rect};
use crate::node::{KindTag, Node, NodeKind};
use crate::overlay::{
    insert_keyboard_pair, insert_search_pair, is_floating, keyboard_closed, keyboard_opened,
    keyboard_present, overlay_closed, overlay_headroom, overlay_wf, remove_keyboard_pair,
    remove_search_pair, search_closed, search_only_at, search_opened, search_present,
    search_with_kb_at,
};
use crate::render::{RenderData, RenderQueue, UpdateMode};

verus! {

/// Background fill shade.
pub const WHITE: u8 = 255;

/// Separator fill shade.
pub const BLACK: u8 = 0;

/// The full outcome of `Home::toggle_search_bar`, relating the container,
/// the queue, the hub and the context before and after the call.
pub open spec fn search_toggle_outcome(
    pre: Home,
    post: Home,
    enable: Option<bool>,
    update: bool,
    hub0: Seq<Event>,
    hub1: Seq<Event>,
    rq0: Seq<RenderData>,
    rq1: Seq<RenderData>,
    c0: Context,
    c1: Context,
) -> bool {
    &&& (search_present(pre.children@) && enable == Some(true) ==> {
                &&& post == pre
                &&& rq1 =~= rq0
                &&& hub1 =~= hub0
                &&& c1 == c0
            })
    &&& (search_present(pre.children@) && enable != Some(true) ==> {
                let s0 = pre.children@;
                let d = c0.dims;
                let sh = pre.shelf_index as int;
                let cont = pre.rect;
                let am = s0[sh].rect.max.y + (if keyboard_present(s0) {
                    d.thickness + d.spec_kb_height()
                } else {
                    0int
                });
                &&& post == (Home {
                    children: post.children,
                    query: post.query,
                    ..pre
                })
                &&& post.query is None
                &&& overlay_closed(post.children@)
                &&& if keyboard_present(s0) {
                    &&& exists|mid: Seq<Node>|
                        #![auto]
                        keyboard_closed(s0, mid, sh, d) && search_closed(
                            mid,
                            post.children@,
                            sh,
                            d,
                        )
                    &&& hub1 =~= hub0.push(Event::Focus(None))
                    &&& c1 == (Context {
                        kb_rect: c1.kb_rect,
                        ..c0
                    })
                    &&& c1.kb_rect == (Rect {
                        min: Point { x: 0, y: 0 },
                        max: Point { x: 0, y: 0 },
                    })
                } else {
                    &&& search_closed(s0, post.children@, sh, d)
                    &&& hub1 =~= hub0
                    &&& c1 == c0
                }
                &&& if update {
                    rq1 =~= rq0.push(
                        RenderData {
                            id: None,
                            rect: Rect {
                                min: Point { x: cont.min.x, y: am as i32 },
                                max: Point {
                                    x: cont.max.x,
                                    y: (am + d.thickness + d.small_height) as i32,
                                },
                            },
                            mode: UpdateMode::Gui,
                        },
                    )
                } else {
                    rq1 =~= rq0
                }
            })
    &&& (!search_present(pre.children@) && enable == Some(false) ==> {
                &&& post == pre
                &&& rq1 =~= rq0
                &&& hub1 =~= hub0
                &&& c1 == c0
            })
    &&& (!search_present(pre.children@) && enable != Some(false) ==> {
                let s0 = pre.children@;
                let d = c0.dims;
                let sh = pre.shelf_index as int;
                let cont = pre.rect;
                let a1 = s0[sh].rect.max.y as int;
                let am = a1 - (d.thickness + d.small_height);
                &&& search_opened(
                    s0,
                    post.children@,
                    sh,
                    cont,
                    d,
                    ViewId::SiteTextSearchInput,
                    "Search Ao3"@,
                    c0.ids.counter,
                )
                &&& post == (Home { children: post.children, ..pre })
                &&& c1 == (Context { ids: c1.ids, ..c0 })
                &&& c1.ids.counter == c0.ids.counter + 2
                &&& if pre.query is None {
                    hub1 =~= hub0.push(
                        Event::Focus(Some(ViewId::SiteTextSearchInput)),
                    )
                } else {
                    hub1 =~= hub0
                }
                &&& if update {
                    rq1 =~= rq0.push(
                        RenderData {
                            id: Some(s0[sh].id),
                            rect: Rect {
                                min: s0[sh].rect.min,
                                max: Point { x: s0[sh].rect.max.x, y: am as i32 },
                            },
                            mode: UpdateMode::Partial,
                        },
                    ).push(
                        RenderData {
                            id: Some((c0.ids.counter + 1) as u64),
                            rect: Rect {
                                min: Point { x: cont.min.x, y: am as i32 },
                                max: Point { x: cont.max.x, y: a1 as i32 },
                            },
                            mode: UpdateMode::Gui,
                        },
                    )
                } else {
                    rq1 =~= rq0
                }
            })
}

/// The full outcome of `Home::toggle_keyboard`, relating the container, the
/// queue, the hub and the context before and after the call.
pub open spec fn keyboard_toggle_outcome(
    pre: Home,
    post: Home,
    enable: bool,
    update: bool,
    hub0: Seq<Event>,
    hub1: Seq<Event>,
    rq0: Seq<RenderData>,
    rq1: Seq<RenderData>,
    c0: Context,
    c1: Context,
) -> bool {
    &&& (keyboard_present(pre.children@) && enable ==> {
                &&& post == pre
                &&& rq1 =~= rq0
                &&& hub1 =~= hub0
                &&& c1 == c0
            })
    &&& (keyboard_present(pre.children@) && !enable ==> {
                let s0 = pre.children@;
                let d = c0.dims;
                let sh = pre.shelf_index as int;
                let cont = pre.rect;
                let y_min = s0[sh + 1].rect.min.y as int;
                &&& keyboard_closed(s0, post.children@, sh, d)
                &&& post == (Home { children: post.children, ..pre })
                &&& hub1 =~= hub0.push(Event::Focus(None))
                &&& c1 == (Context {
                    kb_rect: c1.kb_rect,
                    ..c0
                })
                &&& c1.kb_rect == (Rect {
                    min: Point { x: 0, y: 0 },
                    max: Point { x: 0, y: 0 },
                })
                &&& if update {
                    rq1 =~= rq0.push(
                        RenderData {
                            id: None,
                            rect: Rect {
                                min: Point { x: cont.min.x, y: y_min as i32 },
                                max: Point {
                                    x: cont.max.x,
                                    y: (y_min + d.thickness + d.spec_kb_height()) as i32,
                                },
                            },
                            mode: UpdateMode::Gui,
                        },
                    )
                } else {
                    rq1 =~= rq0
                }
            })
    &&& (!keyboard_present(pre.children@) && !enable ==> {
                &&& post == pre
                &&& rq1 =~= rq0
                &&& hub1 =~= hub0
                &&& c1 == c0
            })
    &&& (!keyboard_present(pre.children@) && enable ==> {
                let s0 = pre.children@;
                let d = c0.dims;
                let sh = pre.shelf_index as int;
                let cont = pre.rect;
                let zone_bottom = if search_present(s0) {
                    s0[sh + 2].rect.max.y as int
                } else {
                    s0[sh].rect.max.y as int
                };
                &&& if search_present(s0) {
                    &&& keyboard_opened(
                        s0,
                        post.children@,
                        sh,
                        cont,
                        d,
                        false,
                        c0.ids.counter,
                    )
                    &&& c1.ids.counter == c0.ids.counter + 2
                } else {
                    &&& exists|mid: Seq<Node>|
                        #![auto]
                        search_opened(
                            s0,
                            mid,
                            sh,
                            cont,
                            d,
                            ViewId::SiteTextSearchInput,
                            "Search Ao3"@,
                            c0.ids.counter,
                        ) && keyboard_opened(
                            mid,
                            post.children@,
                            sh,
                            cont,
                            d,
                            false,
                            (c0.ids.counter + 2) as u64,
                        )
                    &&& c1.ids.counter == c0.ids.counter + 4
                }
                &&& search_with_kb_at(post.children@, sh, cont, d)
                &&& post == (Home { children: post.children, ..pre })
                &&& hub1 =~= hub0
                &&& c1 == (Context {
                    ids: c1.ids,
                    kb_rect: c1.kb_rect,
                    ..c0
                })
                &&& c1.kb_rect == post.children@[sh + 4].rect
                &&& if update {
                    rq1 =~= rq0.push(
                        RenderData {
                            id: Some(s0[sh].id),
                            rect: post.children@[sh].rect,
                            mode: UpdateMode::Partial,
                        },
                    ).push(
                        RenderData {
                            id: None,
                            rect: Rect {
                                min: Point {
                                    x: cont.min.x,
                                    y: post.children@[sh].rect.max.y,
                                },
                                max: Point { x: cont.max.x, y: zone_bottom as i32 },
                            },
                            mode: UpdateMode::Gui,
                        },
                    )
                } else {
                    rq1 =~= rq0
                }
            })
}

/// The events the home screen claims.
pub open spec fn spec_home_handles(evt: Event) -> bool {
    match evt {
        Event::Reseed => true,
        Event::ToggleFrontlight => true,
        Event::ToggleNear(ViewId::MainMenu, _) => true,
        Event::ToggleNear(ViewId::BatteryMenu, _) => true,
        Event::ToggleNear(ViewId::ClockMenu, _) => true,
        Event::ToggleNear(ViewId::SearchMenu, _) => true,
        Event::Close(ViewId::MainMenu) => true,
        Event::Close(ViewId::SearchBar) => true,
        Event::Toggle(ViewId::SearchBar) => true,
        Event::Submit(ViewId::SiteTextSearchInput, _) => true,
        Event::Focus(_) => true,
        _ => false,
    }
}

/// Whether the event opens or closes a drop-down menu (those leave the
/// overlay invariant to the menu's own contract).
pub open spec fn home_menu_event(evt: Event) -> bool {
    match evt {
        Event::ToggleNear(ViewId::MainMenu, _) => true,
        Event::ToggleNear(ViewId::BatteryMenu, _) => true,
        Event::ToggleNear(ViewId::ClockMenu, _) => true,
        Event::Close(ViewId::MainMenu) => true,
        _ => false,
    }
}

/// A menu anchor rectangle carried by the event is within the layout bound.
pub open spec fn home_event_wf(evt: Event) -> bool {
    match evt {
        Event::ToggleNear(_, r) => r.on_screen(),
        _ => true,
    }
}

pub struct Home {
    pub rect: Rect,
    pub children: Vec<Node>,
    pub id: u64,
    pub view_id: ViewId,
    pub shelf_index: usize,
    pub focus: Option<ViewId>,
    pub query: Option<String>,
}

impl Home {
    /// The standing invariant: the container is on screen and the overlay is
    /// in one of its three states around the anchor.
    pub open spec fn wf(self, d: Dims) -> bool {
        overlay_wf(self.children@, self.shelf_index as int, self.rect, d)
    }

    /// An empty home container with a fresh identity.
    pub fn new_empty(rect: Rect, ctx: &mut Context) -> (h: Home)
        requires
            old(ctx).ids.counter < u64::MAX,
        ensures
            h.rect == rect,
            h.children@ =~= Seq::<Node>::empty(),
            h.id == old(ctx).ids.counter,
            h.view_id == ViewId::Home,
            h.shelf_index == 0,
            h.focus is None,
            h.query is None,
            *final(ctx) == (Context { ids: final(ctx).ids, ..*old(ctx) }),
            final(ctx).ids.counter == old(ctx).ids.counter + 1,
    {
        let id = ctx.ids.next();
        Home {
            rect,
            children: Vec::new(),
            id,
            view_id: ViewId::Home,
            shelf_index: 0,
            focus: None,
            query: None,
        }
    }

    /// Append the full-size white background.
    pub fn create_background(&mut self, ctx: &mut Context)
        requires
            old(ctx).ids.counter < u64::MAX,
        ensures
            final(self).children@.len() == old(self).children@.len() + 1,
            final(self).children@.subrange(0, old(self).children@.len() as int) =~= old(
                self,
            ).children@,
            final(self).children@.last().rect == old(self).rect,
            final(self).children@.last().kind == (NodeKind::Filler { color: WHITE }),
            final(self).children@.last().view_id is None,
            final(self).children@.last().id == old(ctx).ids.counter,
            *final(self) == (Home { children: final(self).children, ..*old(self) }),
            *final(ctx) == (Context { ids: final(ctx).ids, ..*old(ctx) }),
            final(ctx).ids.counter == old(ctx).ids.counter + 1,
    {
        let rect = self.rect;
        let bg = Node::new(ctx, rect, NodeKind::Filler { color: WHITE }, None);
        self.children.push(bg);
    }

    /// Append the top bar: a small bar at the container's top edge carrying
    /// the screen title and the clock format.
    pub fn create_top_bar(&mut self, format: String, frontlight: bool, ctx: &mut Context)
        requires
            old(ctx).ids.counter < u64::MAX,
            old(ctx).dims.wf(),
            old(self).rect.on_screen(),
        ensures
            final(self).children@.len() == old(self).children@.len() + 1,
            final(self).children@.subrange(0, old(self).children@.len() as int) =~= old(
                self,
            ).children@,
            final(self).children@.last().rect == (Rect {
                min: old(self).rect.min,
                max: Point {
                    x: old(self).rect.max.x,
                    y: (old(self).rect.min.y + old(ctx).dims.small_height) as i32,
                },
            }),
            (final(self).children@.last().kind matches NodeKind::TopBar { title: t, format: f, root_icon: ri }
                && t@ == "Favorite Tags"@ && f@ == format@ && ri@ == "search"@),
            final(self).children@.last().view_id is None,
            final(self).children@.last().id == old(ctx).ids.counter,
            *final(self) == (Home { children: final(self).children, ..*old(self) }),
            *final(ctx) == (Context { ids: final(ctx).ids, ..*old(ctx) }),
            final(ctx).ids.counter == old(ctx).ids.counter + 1,
    {
        let rect = Rect::new(
            self.rect.min.x,
            self.rect.min.y,
            self.rect.max.x,
            self.rect.min.y + ctx.dims.small_height,
        );
        let top_bar = Node::new(
            ctx,
            rect,
            NodeKind::TopBar {
                title: String::from_str("Favorite Tags"),
                format,
                root_icon: String::from_str("search"),
            },
            None,
        );
        self.children.push(top_bar);
    }

    /// Append the bottom chrome: a separator straddling the band boundary and
    /// the bottom bar beneath it.
    pub fn create_bottom_bar(&mut self, ctx: &mut Context)
        requires
            old(ctx).ids.counter + 2 <= u64::MAX,
            old(ctx).dims.wf(),
            old(self).rect.on_screen(),
        ensures
            final(self).children@.len() == old(self).children@.len() + 2,
            final(self).children@.subrange(0, old(self).children@.len() as int) =~= old(
                self,
            ).children@,
            ({
                let d = old(ctx).dims;
                let y1 = old(self).rect.max.y as int;
                let sep = final(self).children@[old(self).children@.len() as int];
                let bar = final(self).children@.last();
                &&& sep.kind == (NodeKind::Filler { color: BLACK })
                &&& sep.rect == (Rect {
                    min: Point {
                        x: old(self).rect.min.x,
                        y: (y1 - d.small_height - d.spec_small_thickness()) as i32,
                    },
                    max: Point {
                        x: old(self).rect.max.x,
                        y: (y1 - d.small_height + d.spec_big_thickness()) as i32,
                    },
                })
                &&& sep.id == old(ctx).ids.counter
                &&& (bar.kind matches NodeKind::BottomBar { current_page: c, pages_count: p }
                    && c == 0 && p == 1)
                &&& bar.rect == (Rect {
                    min: Point {
                        x: old(self).rect.min.x,
                        y: (y1 - d.small_height + d.spec_big_thickness()) as i32,
                    },
                    max: old(self).rect.max,
                })
                &&& bar.id == old(ctx).ids.counter + 1
                &&& sep.view_id is None
                &&& bar.view_id is None
            }),
            *final(self) == (Home { children: final(self).children, ..*old(self) }),
            *final(ctx) == (Context { ids: final(ctx).ids, ..*old(ctx) }),
            final(ctx).ids.counter == old(ctx).ids.counter + 2,
    {
        let sb = ctx.dims.small_height;
        let st = ctx.dims.small_thickness();
        let bt = ctx.dims.big_thickness();
        let sep = Node::new(
            ctx,
            Rect::new(
                self.rect.min.x,
                self.rect.max.y - sb - st,
                self.rect.max.x,
                self.rect.max.y - sb + bt,
            ),
            NodeKind::Filler { color: BLACK },
            None,
        );
        self.children.push(sep);
        let bar = Node::new(
            ctx,
            Rect::new(
                self.rect.min.x,
                self.rect.max.y - sb + bt,
                self.rect.max.x,
                self.rect.max.y,
            ),
            NodeKind::BottomBar { current_page: 0, pages_count: 1 },
            None,
        );
        self.children.push(bar);
    }

    /// Append the "Marked For Later" row at the given vertical position: a
    /// favourite row that loads the reading history rather than an index.
    pub fn create_marked_for_later(&mut self, top_pos: i32, ctx: &mut Context)
        requires
            old(ctx).ids.counter < u64::MAX,
            old(ctx).dims.wf(),
            old(self).rect.on_screen(),
            -crate::geom::SCREEN_LIMIT <= top_pos <= crate::geom::SCREEN_LIMIT,
        ensures
            final(self).children@.len() == old(self).children@.len() + 1,
            final(self).children@.subrange(0, old(self).children@.len() as int) =~= old(
                self,
            ).children@,
            final(self).children@.last().rect == (Rect {
                min: Point { x: old(self).rect.min.x, y: top_pos },
                max: Point {
                    x: old(self).rect.max.x,
                    y: (top_pos + old(ctx).dims.fave_height) as i32,
                },
            }),
            (final(self).children@.last().kind matches NodeKind::Fave { title: t, location: l }
                && t@ == "Marked For Later"@ && l is None),
            final(self).children@.last().view_id is None,
            final(self).children@.last().id == old(ctx).ids.counter,
            *final(self) == (Home { children: final(self).children, ..*old(self) }),
            *final(ctx) == (Context { ids: final(ctx).ids, ..*old(ctx) }),
            final(ctx).ids.counter == old(ctx).ids.counter + 1,
    {
        let rect = Rect::new(
            self.rect.min.x,
            top_pos,
            self.rect.max.x,
            top_pos + ctx.dims.fave_height,
        );
        let fave = Node::new(
            ctx,
            rect,
            NodeKind::Fave { title: String::from_str("Marked For Later"), location: None },
            None,
        );
        self.children.push(fave);
    }

    /// Append one favourite-search row at the given vertical position; the
    /// row carries the title and the index location it loads when tapped.
    pub fn create_fav_search(&mut self, fave: (String, String), top_pos: i32, ctx: &mut Context)
        requires
            old(ctx).ids.counter < u64::MAX,
            old(ctx).dims.wf(),
            old(self).rect.on_screen(),
            -crate::geom::SCREEN_LIMIT <= top_pos <= crate::geom::SCREEN_LIMIT,
        ensures
            final(self).children@.len() == old(self).children@.len() + 1,
            final(self).children@.subrange(0, old(self).children@.len() as int) =~= old(
                self,
            ).children@,
            final(self).children@.last().rect == (Rect {
                min: Point { x: old(self).rect.min.x, y: top_pos },
                max: Point {
                    x: old(self).rect.max.x,
                    y: (top_pos + old(ctx).dims.fave_height) as i32,
                },
            }),
            ({
                &&& final(self).children@.last().kind matches NodeKind::Fave {
                    title: t,
                    location: l,
                }
                &&& t@ == fave.0@
                &&& l matches Some(u)
                &&& u@ == fave.1@
            }),
            final(self).children@.last().view_id is None,
            final(self).children@.last().id == old(ctx).ids.counter,
            *final(self) == (Home { children: final(self).children, ..*old(self) }),
            *final(ctx) == (Context { ids: final(ctx).ids, ..*old(ctx) }),
            final(ctx).ids.counter == old(ctx).ids.counter + 1,
    {
        let (title, location) = fave;
        let rect = Rect::new(
            self.rect.min.x,
            top_pos,
            self.rect.max.x,
            top_pos + ctx.dims.fave_height,
        );
        let node = Node::new(
            ctx,
            rect,
            NodeKind::Fave { title, location: Some(location) },
            None,
        );
        self.children.push(node);
    }

    /// Build the full home screen: background, top bar, the "Marked For
    /// Later" row when logged in, one row per favourite as long as rows fit
    /// above the bottom chrome, then the bottom chrome.  The last content row
    /// becomes the anchor and is stretched to the remaining band between the
    /// chrome, and a full-mode refresh of the whole container is queued.
    pub fn new(
        rect: Rect,
        rq: &mut RenderQueue,
        format: String,
        frontlight: bool,
        logged_in: bool,
        faves: &Vec<(String, String)>,
        ctx: &mut Context,
    ) -> (h: Home)
        requires
            old(ctx).wf(),
            old(ctx).ids.counter + faves@.len() + 16 <= u64::MAX,
            faves@.len() + 8 <= usize::MAX,
            rect.on_screen(),
            rect.spec_height() >= 2 * old(ctx).dims.small_height + old(ctx).dims.thickness,
        ensures
            h.wf(old(ctx).dims),
            overlay_closed(h.children@),
            h.rect == rect,
            h.view_id == ViewId::Home,
            h.focus is None,
            h.query is None,
            h.id == old(ctx).ids.counter,
            h.shelf_index as int + 3 == h.children@.len(),
            h.children@[0].kind == (NodeKind::Filler { color: WHITE }),
            h.children@[0].rect == rect,
            h.children@[1].tag() == KindTag::TopBar,
            h.children@[h.shelf_index as int].rect.max.y == rect.max.y - old(
                ctx,
            ).dims.small_height - old(ctx).dims.spec_small_thickness(),
            h.children@[h.children@.len() - 2].kind == (NodeKind::Filler { color: BLACK }),
            h.children@.last().tag() == KindTag::BottomBar,
            final(rq).entries@ =~= old(rq).entries@.push(
                RenderData { id: Some(h.id), rect, mode: UpdateMode::Full },
            ),
            *final(ctx) == (Context { ids: final(ctx).ids, ..*old(ctx) }),
    {
        let mut home = Home::new_empty(rect, ctx);
        home.create_background(ctx);
        home.create_top_bar(format, frontlight, ctx);

        let sb = ctx.dims.small_height;
        let st = ctx.dims.small_thickness();
        let fh = ctx.dims.fave_height;
        let bottom_sep_top = rect.max.y - sb - st;
        let mut top_pos = rect.min.y + sb;

        if logged_in {
            home.create_marked_for_later(top_pos, ctx);
            top_pos = home.children[home.children.len() - 1].rect.max.y;
        }

        let mut fav_index: usize = 0;
        while fav_index < faves.len()
            invariant
                old(ctx).wf(),
                ctx.dims == old(ctx).dims,
                ctx.ids.counter + faves@.len() - fav_index + 8 <= u64::MAX,
                *ctx == (Context { ids: ctx.ids, ..*old(ctx) }),
                0 <= fav_index <= faves@.len(),
                home.rect == rect,
                home.view_id == ViewId::Home,
                home.focus is None,
                home.query is None,
                home.id == old(ctx).ids.counter,
                rect.on_screen(),
                rect.spec_height() >= 2 * old(ctx).dims.small_height + old(ctx).dims.thickness,
                sb == old(ctx).dims.small_height,
                st == old(ctx).dims.spec_small_thickness(),
                fh == old(ctx).dims.fave_height,
                bottom_sep_top == rect.max.y - sb - st,
                2 <= home.children@.len(),
                home.children@.len() <= 3 + fav_index,
                home.children@[0].kind == (NodeKind::Filler { color: WHITE }),
                home.children@[0].rect == rect,
                home.children@[1].tag() == KindTag::TopBar,
                forall|i: int|
                    0 <= i < home.children@.len() ==> #[trigger] home.children@[i].tag()
                        != KindTag::SearchBar && home.children@[i].tag() != KindTag::Keyboard
                        && !is_floating(home.children@[i].tag()) && home.children@[i].view_id
                        is None,
                home.children@.last().tag() == KindTag::TopBar || home.children@.last().tag()
                    == KindTag::Fave,
                home.children@.last().rect.min.x == rect.min.x,
                home.children@.last().rect.max.x == rect.max.x,
                rect.min.y <= home.children@.last().rect.min.y <= bottom_sep_top,
                top_pos == if home.children@.last().tag() == KindTag::TopBar {
                    home.children@.last().rect.max.y as int
                } else {
                    home.children@.last().rect.max.y as int
                },
                rect.min.y <= top_pos <= bottom_sep_top + fh,
            decreases faves@.len() - fav_index,
        {
            if top_pos + fh > bottom_sep_top {
                break ;
            }
            let title = faves[fav_index].0.clone();
            let location = faves[fav_index].1.clone();
            let ghost prev = home.children@;
            home.create_fav_search((title, location), top_pos, ctx);
            proof {
                assert forall|i: int| 0 <= i < prev.len() implies home.children@[i] == prev[i] by {
                    assert(home.children@.subrange(0, prev.len() as int)[i] == home.children@[i]);
                }
                assert forall|i: int|
                    0 <= i < home.children@.len() implies #[trigger] home.children@[i].tag()
                        != KindTag::SearchBar && home.children@[i].tag() != KindTag::Keyboard
                        && !is_floating(home.children@[i].tag()) && home.children@[i].view_id
                        is None by {
                    if i < prev.len() {
                        assert(home.children@[i] == prev[i]);
                    } else {
                        assert(home.children@[i] == home.children@.last());
                        assert(home.children@.last().tag() == KindTag::Fave);
                    }
                }
            }
            top_pos = home.children[home.children.len() - 1].rect.max.y;
            fav_index = fav_index + 1;
        }

        // The last content row is the anchor: stretch it over the remaining
        // band between the chrome so overlays inserted under its bottom edge
        // fit inside it.
        let last = home.children.len() - 1;
        home.children[last].rect.max.y = bottom_sep_top;
        proof {
            assert(home.children@[0].kind == (NodeKind::Filler { color: WHITE }));
            assert(home.children@[1].tag() == KindTag::TopBar);
        }
        home.set_shelf_index(last);
        let ghost mid = home.children@;
        home.create_bottom_bar(ctx);
        proof {
            assert forall|i: int| 0 <= i < mid.len() implies home.children@[i] == mid[i] by {
                assert(home.children@.subrange(0, mid.len() as int)[i] == home.children@[i]);
            }
            assert(home.children@[home.shelf_index as int].rect.on_screen());
            assert forall|i: int|
                0 <= i < home.children@.len() implies #[trigger] home.children@[i].tag()
                    != KindTag::SearchBar && home.children@[i].tag() != KindTag::Keyboard
                    && !is_floating(home.children@[i].tag()) && home.children@[i].view_id
                    is None by {
                if i < mid.len() {
                    assert(home.children@[i] == mid[i]);
                } else if i == mid.len() {
                    assert(home.children@[i].kind == (NodeKind::Filler { color: BLACK }));
                } else {
                    assert(home.children@[i] == home.children@.last());
                    assert(home.children@.last().tag() == KindTag::BottomBar);
                }
            }
            assert(overlay_closed(home.children@));
            assert forall|i: int, j: int|
                #![trigger home.children@[i].tag(), home.children@[j].tag()]
                0 <= i < j < home.children@.len() && is_floating(
                    home.children@[i].tag(),
                ) implies is_floating(home.children@[j].tag()) by {
                assert(!is_floating(home.children@[i].tag()));
            }
        }
        rq.add(RenderData::new(home.id, rect, UpdateMode::Full));
        home
    }

    /// The anchor has room for the overlays that are not open yet.
    pub open spec fn headroom(self, d: Dims) -> bool {
        overlay_headroom(self.children@, self.shelf_index as int, d)
    }

    /// Open the search-bar overlay (`Closed` to `SearchOnly`): a separator
    /// and an empty search input appear directly after the anchor, which
    /// gives up the band they occupy.
    pub fn open_search_bar(&mut self, context: &mut Context)
        requires
            old(context).wf(),
            old(context).ids.counter + 2 <= u64::MAX,
            old(self).children@.len() + 2 <= usize::MAX,
            old(self).wf(old(context).dims),
            overlay_closed(old(self).children@),
            old(self).children@[old(self).shelf_index as int].rect.spec_height() >= old(
                context,
            ).dims.thickness + old(context).dims.small_height,
        ensures
            search_opened(
                old(self).children@,
                final(self).children@,
                old(self).shelf_index as int,
                old(self).rect,
                old(context).dims,
                ViewId::SiteTextSearchInput,
                "Search Ao3"@,
                old(context).ids.counter,
            ),
            final(self).wf(old(context).dims),
            search_only_at(
                final(self).children@,
                old(self).shelf_index as int,
                old(self).rect,
                old(context).dims,
            ),
            *final(self) == (Home { children: final(self).children, ..*old(self) }),
            *final(context) == (Context { ids: final(context).ids, ..*old(context) }),
            final(context).ids.counter == (old(context).ids.counter + 2) as u64,
    {
        let sh = self.shelf_index;
        let cont = self.rect;
        insert_search_pair(
            &mut self.children,
            sh,
            cont,
            ViewId::SiteTextSearchInput,
            "Search Ao3",
            context,
        );
    }

    /// Toggle the search-bar overlay.
    ///
    /// Forcing open while open, or closed while closed, is a no-op with no
    /// queue writes.  Opening inserts the search pair after the anchor and,
    /// when no query is pending, emits `Focus(search input)`, which cascades
    /// into the keyboard opening.  Closing first dismisses the keyboard if it
    /// is up, drains exactly the search pair, restores the anchor, and clears
    /// the pending query; with `update` set, one expose-mode request covering
    /// the vacated band is queued.
    pub fn toggle_search_bar(
        &mut self,
        enable: Option<bool>,
        update: bool,
        hub: &mut Hub,
        rq: &mut RenderQueue,
        context: &mut Context,
    )
        requires
            old(context).wf(),
            old(context).ids.counter + 2 <= u64::MAX,
            old(self).children@.len() + 2 <= usize::MAX,
            old(self).wf(old(context).dims),
            old(self).headroom(old(context).dims),
        ensures
            final(self).wf(old(context).dims),
            final(self).headroom(old(context).dims),
            search_toggle_outcome(
                *old(self),
                *final(self),
                enable,
                update,
                old(hub).events@,
                final(hub).events@,
                old(rq).entries@,
                final(rq).entries@,
                *old(context),
                *final(context),
            ),
    {
        let sh = self.shelf_index;
        let cont = self.rect;
        if let Some(_index) = rlocate(&self.children, KindTag::SearchBar) {
            if let Some(true) = enable {
                return ;
            }
            let ghost s0 = self.children@;
            if let Some(_k) = rlocate(&self.children, KindTag::Keyboard) {
                remove_keyboard_pair(&mut self.children, sh, cont, context);
                hub.send(Event::Focus(None));
            }
            let ghost mid = self.children@;
            let sep_min_y = self.children[sh + 1].rect.min.y;
            let bar_max_y = self.children[sh + 2].rect.max.y;
            remove_search_pair(&mut self.children, sh, cont, context);
            self.query = None;
            if update {
                rq.add(
                    RenderData::expose(
                        Rect::new(cont.min.x, sep_min_y, cont.max.x, bar_max_y),
                        UpdateMode::Gui,
                    ),
                );
            }
            proof {
                if keyboard_present(s0) {
                    assert(keyboard_closed(s0, mid, sh as int, old(context).dims) && search_closed(
                        mid,
                        self.children@,
                        sh as int,
                        old(context).dims,
                    ));
                }
            }
        } else {
            if let Some(false) = enable {
                return ;
            }
            self.open_search_bar(context);
            if self.query.is_none() {
                hub.send(Event::Focus(Some(ViewId::SiteTextSearchInput)));
            }
            if update {
                let anchor_id = self.children[sh].id;
                let anchor_rect = self.children[sh].rect;
                rq.add(RenderData::new(anchor_id, anchor_rect, UpdateMode::Partial));
                let bar_id = self.children[sh + 2].id;
                let sep_min_y = self.children[sh + 1].rect.min.y;
                let bar_max_y = self.children[sh + 2].rect.max.y;
                rq.add(
                    RenderData::new(
                        bar_id,
                        Rect::new(cont.min.x, sep_min_y, cont.max.x, bar_max_y),
                        UpdateMode::Gui,
                    ),
                );
            }
        }
    }

    /// Toggle the on-screen keyboard overlay.
    ///
    /// Opening while open, or closing while closed, is a no-op with no queue
    /// writes.  Opening first opens the search-bar overlay if it is not up
    /// (the keyboard is hosted under it), then inserts the keyboard pair.
    /// Closing drains exactly the keyboard pair, gives the vacated band back
    /// to the anchor and search pair, clears the keyboard geometry cache and
    /// emits `Focus(None)`; with `update` set, one expose-mode request
    /// covering the vacated band is queued.
    pub fn toggle_keyboard(
        &mut self,
        enable: bool,
        update: bool,
        id: Option<ViewId>,
        hub: &mut Hub,
        rq: &mut RenderQueue,
        context: &mut Context,
    )
        requires
            old(context).wf(),
            old(context).ids.counter + 4 <= u64::MAX,
            old(self).children@.len() + 4 <= usize::MAX,
            old(self).wf(old(context).dims),
            old(self).headroom(old(context).dims),
        ensures
            final(self).wf(old(context).dims),
            final(self).headroom(old(context).dims),
            keyboard_toggle_outcome(
                *old(self),
                *final(self),
                enable,
                update,
                old(hub).events@,
                final(hub).events@,
                old(rq).entries@,
                final(rq).entries@,
                *old(context),
                *final(context),
            ),
    {
        let sh = self.shelf_index;
        let cont = self.rect;
        if let Some(_idx) = rlocate(&self.children, KindTag::Keyboard) {
            if enable {
                return ;
            }
            let y_min = self.children[sh + 1].rect.min.y;
            remove_keyboard_pair(&mut self.children, sh, cont, context);
            hub.send(Event::Focus(None));
            if update {
                let t = context.dims.thickness;
                let kbh = context.dims.kb_height();
                rq.add(
                    RenderData::expose(
                        Rect::new(cont.min.x, y_min, cont.max.x, y_min + t + kbh),
                        UpdateMode::Gui,
                    ),
                );
            }
        } else {
            if !enable {
                return ;
            }
            let ghost s0 = self.children@;
            if rlocate(&self.children, KindTag::SearchBar).is_none() {
                self.open_search_bar(context);
            }
            let ghost mid = self.children@;
            insert_keyboard_pair(&mut self.children, sh, cont, false, context);
            proof {
                if !search_present(s0) {
                    assert(search_opened(
                        s0,
                        mid,
                        sh as int,
                        cont,
                        old(context).dims,
                        ViewId::SiteTextSearchInput,
                        "Search Ao3"@,
                        old(context).ids.counter,
                    ) && keyboard_opened(
                        mid,
                        self.children@,
                        sh as int,
                        cont,
                        old(context).dims,
                        false,
                        (old(context).ids.counter + 2) as u64,
                    ));
                }
            }
            if update {
                let anchor_id = self.children[sh].id;
                let anchor_rect = self.children[sh].rect;
                rq.add(RenderData::new(anchor_id, anchor_rect, UpdateMode::Partial));
                let zone_bottom = self.children[sh + 4].rect.max.y;
                rq.add(
                    RenderData::expose(
                        Rect::new(cont.min.x, anchor_rect.max.y, cont.max.x, zone_bottom),
                        UpdateMode::Gui,
                    ),
                );
            }
        }
    }

    /// Record which sibling is the anchor around which overlays are threaded.
    pub fn set_shelf_index(&mut self, index: usize)
        ensures
            *final(self) == (Home { shelf_index: index, ..*old(self) }),
    {
        self.shelf_index = index;
    }

    /// Offer an event to the home screen; the result says whether it was
    /// claimed (which stops further routing at this level).
    ///
    /// One event is fully handled, including any structural mutation, before
    /// the next is considered; follow-up work is deposited on the hub, never
    /// delivered re-entrantly.
    pub fn handle_event(
        &mut self,
        evt: &Event,
        hub: &mut Hub,
        rq: &mut RenderQueue,
        context: &mut Context,
    ) -> (r: bool)
        requires
            old(context).wf(),
            old(context).ids.counter + 4 <= u64::MAX,
            old(self).children@.len() + 4 <= usize::MAX,
            old(self).wf(old(context).dims),
            old(self).headroom(old(context).dims),
            home_event_wf(*evt),
        ensures
            r == spec_home_handles(*evt),
            !spec_home_handles(*evt) ==> {
                &&& *final(self) == *old(self)
                &&& final(rq).entries@ =~= old(rq).entries@
                &&& final(hub).events@ =~= old(hub).events@
                &&& *final(context) == *old(context)
            },
            !home_menu_event(*evt) ==> final(self).wf(old(context).dims) && final(self).headroom(
                old(context).dims,
            ),
            (*evt) matches Event::Reseed ==> {
                &&& *final(self) == *old(self)
                &&& *final(context) == *old(context)
                &&& final(rq).entries@ =~= old(rq).entries@.push(
                    RenderData {
                        id: Some(old(self).id),
                        rect: old(self).rect,
                        mode: UpdateMode::Gui,
                    },
                )
            },
            (*evt) matches Event::ToggleFrontlight ==> {
                &&& *final(self) == *old(self)
                &&& final(rq).entries@ =~= old(rq).entries@
                &&& final(hub).events@ =~= old(hub).events@
                &&& *final(context) == *old(context)
            },
            (*evt) matches Event::ToggleNear(ViewId::SearchMenu, _) ==> {
                &&& *final(self) == *old(self)
                &&& final(rq).entries@ =~= old(rq).entries@
                &&& final(hub).events@ =~= old(hub).events@.push(
                    Event::SubmitInput(ViewId::SiteTextSearchInput),
                )
                &&& *final(context) == *old(context)
            },
            (*evt) matches Event::Toggle(ViewId::SearchBar) ==> search_toggle_outcome(
                *old(self),
                *final(self),
                None,
                true,
                old(hub).events@,
                final(hub).events@,
                old(rq).entries@,
                final(rq).entries@,
                *old(context),
                *final(context),
            ),
            (*evt) matches Event::Close(ViewId::SearchBar) ==> search_toggle_outcome(
                *old(self),
                *final(self),
                Some(false),
                true,
                old(hub).events@,
                final(hub).events@,
                old(rq).entries@,
                final(rq).entries@,
                *old(context),
                *final(context),
            ),
            (*evt) is Focus && old(self).focus == (*evt)->Focus_0 ==> {
                &&& *final(self) == *old(self)
                &&& final(rq).entries@ =~= old(rq).entries@
                &&& final(hub).events@ =~= old(hub).events@
                &&& *final(context) == *old(context)
            },
            (*evt) is Focus && old(self).focus != (*evt)->Focus_0 && (*evt)->Focus_0 is None
                ==> {
                &&& *final(self) == (Home { focus: None, ..*old(self) })
                &&& final(rq).entries@ =~= old(rq).entries@
                &&& final(hub).events@ =~= old(hub).events@
                &&& *final(context) == *old(context)
            },
            (*evt) is Focus && old(self).focus != (*evt)->Focus_0 && (*evt)->Focus_0 is Some
                ==> keyboard_toggle_outcome(
                (Home { focus: (*evt)->Focus_0, ..*old(self) }),
                *final(self),
                true,
                true,
                old(hub).events@,
                final(hub).events@,
                old(rq).entries@,
                final(rq).entries@,
                *old(context),
                *final(context),
            ),
            (*evt) matches Event::ToggleNear(ViewId::BatteryMenu, near) ==> {
                &&& *final(self) == (Home { children: final(self).children, ..*old(self) })
                &&& final(hub).events@ =~= old(hub).events@
                &&& if no_child_with_view_id(old(self).children@, ViewId::BatteryMenu) {
                    &&& menu_appended(
                        old(self).children@,
                        final(self).children@,
                        ViewId::BatteryMenu,
                        near,
                        1,
                        *old(context),
                        old(rq).entries@,
                        final(rq).entries@,
                    )
                    &&& battery_entries(final(self).children@.last().kind, *old(context))
                    &&& ctx_advanced(*old(context), *final(context))
                } else {
                    &&& *final(context) == *old(context)
                    &&& exists|j: int|
                        #![auto]
                        menu_removed(
                            old(self).children@,
                            final(self).children@,
                            ViewId::BatteryMenu,
                            j,
                            old(rq).entries@,
                            final(rq).entries@,
                        )
                }
            },
            (*evt) matches Event::ToggleNear(ViewId::ClockMenu, near) ==> {
                &&& *final(self) == (Home { children: final(self).children, ..*old(self) })
                &&& final(hub).events@ =~= old(hub).events@
                &&& if no_child_with_view_id(old(self).children@, ViewId::ClockMenu) {
                    &&& menu_appended(
                        old(self).children@,
                        final(self).children@,
                        ViewId::ClockMenu,
                        near,
                        1,
                        *old(context),
                        old(rq).entries@,
                        final(rq).entries@,
                    )
                    &&& clock_entries(final(self).children@.last().kind, *old(context))
                    &&& ctx_advanced(*old(context), *final(context))
                } else {
                    &&& *final(context) == *old(context)
                    &&& exists|j: int|
                        #![auto]
                        menu_removed(
                            old(self).children@,
                            final(self).children@,
                            ViewId::ClockMenu,
                            j,
                            old(rq).entries@,
                            final(rq).entries@,
                        )
                }
            },
            (*evt) matches Event::ToggleNear(ViewId::MainMenu, near) ==> {
                &&& *final(self) == (Home { children: final(self).children, ..*old(self) })
                &&& final(hub).events@ =~= old(hub).events@
                &&& if no_child_with_view_id(old(self).children@, ViewId::MainMenu) {
                    &&& menu_appended(
                        old(self).children@,
                        final(self).children@,
                        ViewId::MainMenu,
                        near,
                        old(context).main_menu_entries@.len() as int,
                        *old(context),
                        old(rq).entries@,
                        final(rq).entries@,
                    )
                    &&& final(context).main_menu_entries@.len() == 0
                } else {
                    &&& *final(context) == *old(context)
                    &&& exists|j: int|
                        #![auto]
                        menu_removed(
                            old(self).children@,
                            final(self).children@,
                            ViewId::MainMenu,
                            j,
                            old(rq).entries@,
                            final(rq).entries@,
                        )
                }
            },
            (*evt) matches Event::Close(ViewId::MainMenu) ==> {
                &&& *final(self) == (Home { children: final(self).children, ..*old(self) })
                &&& final(hub).events@ =~= old(hub).events@
                &&& if no_child_with_view_id(old(self).children@, ViewId::MainMenu) {
                    &&& final(self).children@ =~= old(self).children@
                    &&& final(rq).entries@ =~= old(rq).entries@
                    &&& *final(context) == *old(context)
                } else {
                    &&& *final(context) == *old(context)
                    &&& exists|j: int|
                        #![auto]
                        menu_removed(
                            old(self).children@,
                            final(self).children@,
                            ViewId::MainMenu,
                            j,
                            old(rq).entries@,
                            final(rq).entries@,
                        )
                }
            },
            (*evt) is Submit && (*evt)->Submit_0 == ViewId::SiteTextSearchInput ==> {
                let t = (*evt)->Submit_1;
                let s0 = old(self).children@;
                let d = old(context).dims;
                let sh = old(self).shelf_index as int;
                &&& *final(self) == (Home {
                    children: final(self).children,
                    query: final(self).query,
                    ..*old(self)
                })
                &&& if search_present(s0) {
                    &&& final(self).query is None
                    &&& overlay_closed(final(self).children@)
                    &&& if keyboard_present(s0) {
                        &&& exists|mid: Seq<Node>|
                            #![auto]
                            keyboard_closed(s0, mid, sh, d) && search_closed(
                                mid,
                                final(self).children@,
                                sh,
                                d,
                            )
                        &&& final(hub).events@ =~= old(hub).events@.push(Event::Focus(None)).push(
                            Event::LoadSearch(t),
                        )
                        &&& *final(context) == (Context {
                            kb_rect: final(context).kb_rect,
                            ..*old(context)
                        })
                    } else {
                        &&& search_closed(s0, final(self).children@, sh, d)
                        &&& final(hub).events@ =~= old(hub).events@.push(Event::LoadSearch(t))
                        &&& *final(context) == *old(context)
                    }
                } else {
                    &&& (final(self).query matches Some(q) && q@ == t@)
                    &&& final(self).children@ =~= s0
                    &&& final(hub).events@ =~= old(hub).events@.push(Event::LoadSearch(t))
                    &&& *final(context) == *old(context)
                }
                &&& final(rq).entries@ =~= old(rq).entries@.push(
                    RenderData {
                        id: Some(old(self).id),
                        rect: old(self).rect,
                        mode: UpdateMode::Gui,
                    },
                )
            },
    {
        match evt {
            Event::Reseed => {
                self.reseed(hub, rq, context);
                true
            },
            Event::ToggleFrontlight => {
                true
            },
            Event::ToggleNear(ViewId::MainMenu, rect) => {
                let near = *rect;
                toggle_main_menu(&mut self.children, near, None, rq, context);
                true
            },
            Event::ToggleNear(ViewId::BatteryMenu, rect) => {
                let near = *rect;
                toggle_battery_menu(&mut self.children, near, None, rq, context);
                true
            },
            Event::ToggleNear(ViewId::ClockMenu, rect) => {
                let near = *rect;
                toggle_clock_menu(&mut self.children, near, None, rq, context);
                true
            },
            Event::ToggleNear(ViewId::SearchMenu, _) => {
                hub.send(Event::SubmitInput(ViewId::SiteTextSearchInput));
                true
            },
            Event::Close(ViewId::MainMenu) => {
                toggle_main_menu(
                    &mut self.children,
                    Rect::new(0, 0, 0, 0),
                    Some(false),
                    rq,
                    context,
                );
                true
            },
            Event::Toggle(ViewId::SearchBar) => {
                self.toggle_search_bar(None, true, hub, rq, context);
                true
            },
            Event::Close(ViewId::SearchBar) => {
                self.toggle_search_bar(Some(false), true, hub, rq, context);
                true
            },
            Event::Submit(ViewId::SiteTextSearchInput, text) => {
                let ghost s0 = self.children@;
                let ghost sh = self.shelf_index as int;
                let ghost d = context.dims;
                let submitted = text.clone();
                self.query = Some(submitted);
                proof {
                    if !search_present(s0) {
                        assert(overlay_closed(s0));
                        assert(!keyboard_present(s0));
                    }
                }
                self.toggle_keyboard(false, false, None, hub, rq, context);
                let ghost mid = self.children@;
                proof {
                    if keyboard_present(s0) {
                        assert(keyboard_closed(s0, mid, sh, d));
                        assert(search_with_kb_at(s0, sh, old(self).rect, d));
                        assert(mid[sh + 2].tag() == KindTag::SearchBar);
                        assert(search_present(mid));
                        assert forall|i: int|
                            0 <= i < mid.len() implies #[trigger] mid[i].tag()
                            != KindTag::Keyboard by {
                            if i < sh {
                                assert(mid[i] == s0[i]);
                            } else if i <= sh + 2 {
                                assert(mid[i].kind == s0[i].kind);
                            } else {
                                assert(mid[i] == s0[i + 2]);
                            }
                        }
                        assert(!keyboard_present(mid));
                    }
                }
                self.toggle_search_bar(Some(false), false, hub, rq, context);
                proof {
                    if search_present(s0) && keyboard_present(s0) {
                        assert(keyboard_closed(s0, mid, sh, d) && search_closed(
                            mid,
                            self.children@,
                            sh,
                            d,
                        ));
                    }
                }
                rq.add(RenderData::new(self.id, self.rect, UpdateMode::Gui));
                hub.send(Event::LoadSearch(text.clone()));
                true
            },
            Event::Focus(v) => {
                let v = *v;
                if self.focus != v {
                    self.focus = v;
                    if v.is_some() {
                        self.toggle_keyboard(true, true, v, hub, rq, context);
                    }
                }
                true
            },
            _ => false,
        }
    }

    /// Refresh after returning to this screen: ask the clock and battery
    /// providers for new readings (when the top bar is present to show them)
    /// and queue an interface-grade refresh of the whole container.
    pub fn reseed(&mut self, hub: &mut Hub, rq: &mut RenderQueue, context: &mut Context)
        ensures
            *final(self) == *old(self),
            *final(context) == *old(context),
            final(rq).entries@ =~= old(rq).entries@.push(
                RenderData {
                    id: Some(old(self).id),
                    rect: old(self).rect,
                    mode: UpdateMode::Gui,
                },
            ),
            old(self).children@.len() > 1 && old(self).children@[1].tag() == KindTag::TopBar
                ==> final(hub).events@ =~= old(hub).events@.push(Event::ClockTick).push(
                Event::BatteryTick,
            ),
            !(old(self).children@.len() > 1 && old(self).children@[1].tag() == KindTag::TopBar)
                ==> final(hub).events@ =~= old(hub).events@,
    {
        if self.children.len() > 1 && self.children[1].has_tag(KindTag::TopBar) {
            hub.send(Event::ClockTick);
            hub.send(Event::BatteryTick);
        }
        rq.add(RenderData::new(self.id, self.rect, UpdateMode::Gui));
    }

    pub fn rect(&self) -> (r: &Rect)
        ensures
            r == self.rect,
    {
        &self.rect
    }

    pub fn children(&self) -> (r: &Vec<Node>)
        ensures
            r == self.children,
    {
        &self.children
    }

    pub fn id(&self) -> (r: u64)
        ensures
            r == self.id,
    {
        self.id
    }

    pub fn view_id(&self) -> (r: Option<ViewId>)
        ensures
            r == Some(self.view_id),
    {
        Some(self.view_id)
    }
}

} // verus!
