//! The catalog listing screen: a top bar, the paged work index as the
//! anchor, the search-bar/keyboard overlay machine, the sort and go-to-page
//! floating windows, and the pagination logic.

use vstd::prelude::*;

use crate::common::{
    first_index_with_view_id, locate, locate_by_id, menu_appended, menu_removed,
    no_child_with_view_id, rlocate, toggle_battery_menu, toggle_clock_menu, toggle_main_menu,
};
use crate::context::{Context, Dims};
use crate::event::{
    ButtonCode, ButtonStatus, CycleDir, DeviceEvent, Dir, EntryId, EntryKind, Event,
    GestureEvent, Hub, SimpleStatus, SortMethod, ViewId,
};
use crate::geom::{Point, Rect};
use crate::node::{spec_menu_rect, KindTag, MenuKind, Node, NodeKind};
use crate::overlay::{
    band_under, insert_keyboard_pair, insert_search_pair, is_floating, keyboard_closed,
    keyboard_opened,
    keyboard_present, lemma_wf_after_floating_append, lemma_wf_after_floating_removal,
    overlay_closed, overlay_headroom, overlay_wf, remove_keyboard_pair, remove_search_pair,
    search_closed, search_only_at, search_opened, search_present, search_with_kb_at,
};

use crate::render::{RenderData, RenderQueue, UpdateMode};
use vstd::string::StringSliceAdditionalSpecFns;

verus! {

pub struct Works {
    pub id: u64,
    pub rect: Rect,
    pub children: Vec<Node>,
    pub current_page: usize,
    pub pages_count: usize,
    pub works_count: usize,
    pub works_lines: usize,
    pub shelf_index: usize,
    pub focus: Option<ViewId>,
    pub query: Option<String>,
    pub sort_method: SortMethod,
    pub reverse_order: bool,
    pub visible_books: Vec<u64>,
}

/// An exact copy of the provider's catalog listing.
fn copy_listing(src: &Vec<u64>) -> (r: Vec<u64>)
    ensures
        r@ =~= src@,
{
    let mut r: Vec<u64> = Vec::new();
    let mut k: usize = 0;
    while k < src.len()
        invariant
            0 <= k <= src@.len(),
            r@ =~= src@.subrange(0, k as int),
        decreases src@.len() - k,
    {
        r.push(src[k]);
        k = k + 1;
    }
    proof {
        assert(src@.subrange(0, src@.len() as int) =~= src@);
    }
    r
}

impl Works {
    /// The standing invariant: the overlay machine invariant around the
    /// anchor, which is the work index.
    pub open spec fn wf(self, d: Dims) -> bool {
        &&& overlay_wf(self.children@, self.shelf_index as int, self.rect, d)
        &&& self.children@[self.shelf_index as int].tag() == KindTag::WorkIndex
        &&& self.shelf_index == 1
        &&& self.children@[0].tag() == KindTag::TopBar
    }

    /// The anchor has room for the overlays that are not open yet.
    pub open spec fn headroom(self, d: Dims) -> bool {
        overlay_headroom(self.children@, self.shelf_index as int, d)
    }

    /// Pagination counts stay small enough for the proportional reposition
    /// arithmetic after a resize.
    pub open spec fn counts_wf(self) -> bool {
        &&& self.current_page <= 0xffff_ffff
        &&& self.works_lines <= 0xffff_ffff
    }

    /// Build the listing screen for the index at `index_url`: a top bar
    /// titled with the current ordering, and the work index as the anchor
    /// filling the rest of the container.  The index metrics come from the
    /// catalog provider's report in the context, and a full-mode refresh of
    /// the whole container is queued.
    pub fn new(
        rect: Rect,
        index_url: String,
        hub: &mut Hub,
        rq: &mut RenderQueue,
        context: &mut Context,
    ) -> (w: Works)
        requires
            old(context).wf(),
            old(context).ids.counter + 4 <= u64::MAX,
            old(context).index.max_page <= 0xffff_ffff,
            old(context).index.max_lines <= 0xffff_ffff,
            rect.on_screen(),
            rect.spec_height() >= 2 * old(context).dims.small_height + 2 * old(
                context,
            ).dims.thickness + old(context).dims.spec_kb_height(),
        ensures
            w.wf(old(context).dims),
            w.headroom(old(context).dims),
            w.counts_wf(),
            overlay_closed(w.children@),
            w.rect == rect,
            w.id == old(context).ids.counter,
            w.shelf_index == 1,
            w.children@.len() == 2,
            ({
                let d = old(context).dims;
                let top = w.children@[0];
                let wi = w.children@[1];
                &&& (top.kind matches NodeKind::TopBar { title: t, root_icon: ri, .. } && t@
                    == old(context).settings.sort_method.spec_title() && ri@ == "search"@)
                &&& top.rect == (Rect {
                    min: rect.min,
                    max: Point { x: rect.max.x, y: (rect.min.y + d.small_height) as i32 },
                })
                &&& (wi.kind matches NodeKind::WorkIndex {
                    url: u,
                    current_page: cp,
                    max_page: mp,
                    max_works: mw,
                    max_lines: ml,
                    ..
                } && u@ == index_url@ && cp == 0 && mp == old(context).index.max_page && mw
                    == old(context).index.max_works && ml == old(context).index.max_lines)
                &&& wi.rect == (Rect {
                    min: Point { x: rect.min.x, y: (rect.min.y + d.small_height) as i32 },
                    max: rect.max,
                })
            }),
            w.current_page == 0,
            w.pages_count == old(context).index.max_page,
            w.works_count == old(context).index.max_works,
            w.works_lines == old(context).index.max_lines,
            w.focus is None,
            w.query is None,
            w.sort_method == old(context).settings.sort_method,
            w.reverse_order == old(context).settings.sort_method.spec_reverse_order(),
            w.visible_books@ =~= old(context).library@,
            final(rq).entries@ =~= old(rq).entries@.push(
                RenderData { id: Some(w.id), rect, mode: UpdateMode::Full },
            ),
            final(hub).events@ =~= old(hub).events@,
            *final(context) == (Context { ids: final(context).ids, ..*old(context) }),
    {
        let id = context.ids.next();
        let sb = context.dims.small_height;
        let sort_method = context.settings.sort_method;
        let reverse_order = sort_method.reverse_order();
        let mut children: Vec<Node> = Vec::new();

        let top_bar = Node::new(
            context,
            Rect::new(rect.min.x, rect.min.y, rect.max.x, rect.min.y + sb),
            NodeKind::TopBar {
                title: sort_method.title(),
                format: String::new(),
                root_icon: String::from_str("search"),
            },
            None,
        );
        children.push(top_bar);

        let workindex = Node::new(
            context,
            Rect::new(rect.min.x, rect.min.y + sb, rect.max.x, rect.max.y),
            NodeKind::WorkIndex {
                url: index_url,
                current_page: 0,
                max_page: context.index.max_page,
                max_works: context.index.max_works,
                max_lines: context.index.max_lines,
                thumbnail_previews: context.settings.thumbnail_previews,
            },
            None,
        );
        children.push(workindex);

        let current_page: usize = 0;
        let pages_count = context.index.max_page;
        let works_count = context.index.max_works;
        let works_lines = context.index.max_lines;
        let visible_books = copy_listing(&context.library);

        rq.add(RenderData::new(id, rect, UpdateMode::Full));

        Works {
            id,
            rect,
            children,
            current_page,
            pages_count,
            works_count,
            works_lines,
            shelf_index: 1,
            focus: None,
            query: None,
            sort_method,
            reverse_order,
            visible_books,
        }
    }

    /// Refresh the work index from the catalog provider's metrics: its page
    /// is set to the container's current page, its counts to the provider's
    /// report, its line capacity to what its rectangle holds, and a partial
    /// refresh of its region is queued.  After a resize, the container's own
    /// counts are refreshed too and the current page is repositioned
    /// proportionally to the change in line capacity.
    pub fn update_shelf(
        &mut self,
        was_resized: bool,
        hub: &mut Hub,
        rq: &mut RenderQueue,
        context: &mut Context,
    )
        requires
            old(context).wf(),
            old(self).wf(old(context).dims),
            old(self).counts_wf(),
            old(context).index.max_page <= 0xffff_ffff,
            old(context).index.max_lines <= 0xffff_ffff,
        ensures
            final(self).wf(old(context).dims),
            final(self).counts_wf(),
            final(self).headroom(old(context).dims) == old(self).headroom(old(context).dims),
            search_present(final(self).children@) == search_present(old(self).children@),
            keyboard_present(final(self).children@) == keyboard_present(old(self).children@),
            *final(context) == *old(context),
            final(hub).events@ =~= old(hub).events@,
            ({
                let d = old(context).dims;
                let sh = old(self).shelf_index as int;
                let wi = old(self).children@[sh];
                let ml = ((wi.rect.spec_height() + d.thickness) / (d.big_height as int)) as usize;
                let cp = if was_resized {
                    spec_repositioned_page(
                        old(self).current_page as int,
                        old(self).works_lines as int,
                        ml as int,
                        old(context).index.max_page as int,
                    )
                } else {
                    old(self).current_page as int
                };
                &&& *final(self) == (Works {
                    children: final(self).children,
                    current_page: final(self).current_page,
                    pages_count: final(self).pages_count,
                    works_count: final(self).works_count,
                    works_lines: final(self).works_lines,
                    ..*old(self)
                })
                &&& final(self).current_page == cp
                &&& if was_resized {
                    &&& final(self).pages_count == old(context).index.max_page
                    &&& final(self).works_count == old(context).index.max_works
                    &&& final(self).works_lines == old(context).index.max_lines
                } else {
                    &&& final(self).pages_count == old(self).pages_count
                    &&& final(self).works_count == old(self).works_count
                    &&& final(self).works_lines == old(self).works_lines
                }
                &&& final(self).children@ =~= old(self).children@.update(
                    sh,
                    final(self).children@[sh],
                )
                &&& final(self).children@[sh].id == wi.id
                &&& final(self).children@[sh].rect == wi.rect
                &&& final(self).children@[sh].view_id == wi.view_id
                &&& (final(self).children@[sh].kind matches NodeKind::WorkIndex {
                    url: u,
                    current_page: ncp,
                    max_page: mp,
                    max_works: mw,
                    max_lines: nml,
                    thumbnail_previews: tp,
                } && {
                    &&& wi.kind matches NodeKind::WorkIndex { url: u0, thumbnail_previews: tp0, .. }
                        && u@ == u0@ && tp == tp0
                    &&& ncp == cp
                    &&& mp == old(context).index.max_page
                    &&& mw == old(context).index.max_works
                    &&& nml == ml
                })
                &&& final(rq).entries@ =~= old(rq).entries@.push(
                    RenderData { id: Some(wi.id), rect: wi.rect, mode: UpdateMode::Partial },
                )
            }),
    {
        let sh = self.shelf_index;
        let t = context.dims.thickness;
        let bh = context.dims.big_height;
        let wi_rect = self.children[sh].rect;
        let wi_id = self.children[sh].id;
        let height = wi_rect.height();
        let max_lines = ((height + t) / bh) as usize;

        if was_resized {
            let old_lines = self.works_lines;
            self.pages_count = context.index.max_page;
            self.works_count = context.index.max_works;
            self.works_lines = context.index.max_lines;
            let guess: u64 = if max_lines == 0 {
                0
            } else {
                proof {
                    assert((self.current_page as u64) * (old_lines as u64) <= 0xffff_ffffu64
                        * 0xffff_ffffu64) by (nonlinear_arith)
                        requires
                            self.current_page <= 0xffff_ffff,
                            old_lines <= 0xffff_ffff,
                    ;
                }
                (self.current_page as u64) * (old_lines as u64) / (max_lines as u64)
            };
            let limit: u64 = if self.pages_count == 0 {
                0
            } else {
                (self.pages_count - 1) as u64
            };
            self.current_page = if guess < limit {
                guess as usize
            } else {
                limit as usize
            };
        }

        let ghost prev = self.children@;
        let page = self.current_page;
        let thumbs = context.settings.thumbnail_previews;
        let node = &mut self.children[sh];
        match &mut node.kind {
            NodeKind::WorkIndex { current_page, max_page, max_works, max_lines: ml, .. } => {
                *current_page = page;
                *max_page = context.index.max_page;
                *max_works = context.index.max_works;
                *ml = max_lines;
            },
            _ => {},
        }
        rq.add(RenderData::new(wi_id, wi_rect, UpdateMode::Partial));
        proof {
            assert(self.children@ =~= prev.update(sh as int, self.children@[sh as int]));
            lemma_wf_pointwise(
                prev,
                self.children@,
                old(self).shelf_index as int,
                old(self).rect,
                old(context).dims,
            );
        }
    }

    /// The listing screen has no bottom bar band yet; this is the dispatch
    /// hook where its page labels would be refreshed.
    pub fn update_bottom_bar(&mut self, rq: &mut RenderQueue)
        ensures
            *final(self) == *old(self),
            final(rq).entries@ =~= old(rq).entries@,
    {
    }

    /// Show the given page of the work index; a page beyond the last is
    /// ignored.
    pub fn go_to_page(
        &mut self,
        index: usize,
        hub: &mut Hub,
        rq: &mut RenderQueue,
        context: &mut Context,
    )
        requires
            old(context).wf(),
            old(self).wf(old(context).dims),
            old(self).counts_wf(),
            old(context).index.max_page <= 0xffff_ffff,
            old(context).index.max_lines <= 0xffff_ffff,
            index <= 0xffff_ffff,
        ensures
            final(self).wf(old(context).dims),
            final(self).counts_wf(),
            final(self).headroom(old(context).dims) == old(self).headroom(old(context).dims),
            *final(context) == *old(context),
            final(hub).events@ =~= old(hub).events@,
            index >= old(self).pages_count ==> *final(self) == *old(self) && final(rq).entries@
                =~= old(rq).entries@,
            index < old(self).pages_count ==> {
                let sh = old(self).shelf_index as int;
                let wi = old(self).children@[sh];
                &&& final(self).current_page == index
                &&& *final(self) == (Works {
                    children: final(self).children,
                    current_page: index,
                    ..*old(self)
                })
                &&& shelf_refreshed(
                    old(self).children@,
                    final(self).children@,
                    sh,
                    index as int,
                    *old(context),
                )
                &&& final(rq).entries@ =~= old(rq).entries@.push(
                    RenderData { id: Some(wi.id), rect: wi.rect, mode: UpdateMode::Partial },
                )
            },
    {
        if index >= self.pages_count {
            return ;
        }
        self.current_page = index;
        self.update_shelf(false, hub, rq, context);
        self.update_bottom_bar(rq);
    }

    /// Show the next or previous page; at either end the call is ignored.
    pub fn go_to_neighbor(
        &mut self,
        dir: CycleDir,
        hub: &mut Hub,
        rq: &mut RenderQueue,
        context: &mut Context,
    )
        requires
            old(context).wf(),
            old(self).wf(old(context).dims),
            old(self).counts_wf(),
            old(self).pages_count <= 0xffff_ffff,
            old(context).index.max_page <= 0xffff_ffff,
            old(context).index.max_lines <= 0xffff_ffff,
        ensures
            final(self).wf(old(context).dims),
            final(self).counts_wf(),
            final(self).headroom(old(context).dims) == old(self).headroom(old(context).dims),
            *final(context) == *old(context),
            final(hub).events@ =~= old(hub).events@,
            ({
                let stays = (dir == CycleDir::Next && old(self).current_page + 1 >= old(
                    self,
                ).pages_count) || (dir == CycleDir::Previous && old(self).current_page == 0);
                let target = if dir == CycleDir::Next {
                    old(self).current_page + 1
                } else {
                    old(self).current_page - 1
                };
                if stays {
                    *final(self) == *old(self) && final(rq).entries@ =~= old(rq).entries@
                } else {
                    let sh = old(self).shelf_index as int;
                    let wi = old(self).children@[sh];
                    &&& final(self).current_page == target
                    &&& *final(self) == (Works {
                        children: final(self).children,
                        current_page: final(self).current_page,
                        ..*old(self)
                    })
                    &&& shelf_refreshed(
                        old(self).children@,
                        final(self).children@,
                        sh,
                        target,
                        *old(context),
                    )
                    &&& final(rq).entries@ =~= old(rq).entries@.push(
                        RenderData { id: Some(wi.id), rect: wi.rect, mode: UpdateMode::Partial },
                    )
                }
            }),
    {
        match dir {
            CycleDir::Next => {
                if self.pages_count == 0 || self.current_page >= self.pages_count - 1 {
                    return ;
                }
                self.current_page = self.current_page + 1;
            },
            CycleDir::Previous => {
                if self.current_page == 0 {
                    return ;
                }
                self.current_page = self.current_page - 1;
            },
        }
        self.update_shelf(false, hub, rq, context);
        self.update_bottom_bar(rq);
    }

    /// Re-read the visible listing from the catalog provider, reset or clamp
    /// the current page, and optionally refresh the shelf.
    pub fn refresh_visibles(
        &mut self,
        update: bool,
        reset_page: bool,
        hub: &mut Hub,
        rq: &mut RenderQueue,
        context: &mut Context,
    )
        requires
            old(context).wf(),
            old(self).wf(old(context).dims),
            old(self).counts_wf(),
            old(self).pages_count <= 0xffff_ffff,
            old(context).index.max_page <= 0xffff_ffff,
            old(context).index.max_lines <= 0xffff_ffff,
        ensures
            final(self).wf(old(context).dims),
            final(self).counts_wf(),
            final(self).headroom(old(context).dims) == old(self).headroom(old(context).dims),
            *final(context) == *old(context),
            final(hub).events@ =~= old(hub).events@,
            final(self).visible_books@ =~= old(context).library@,
            ({
                let clamped: int = if reset_page {
                    0
                } else if old(self).current_page >= old(self).pages_count {
                    if old(self).pages_count == 0 {
                        0
                    } else {
                        old(self).pages_count - 1
                    }
                } else {
                    old(self).current_page as int
                };
                &&& final(self).current_page == clamped
                &&& *final(self) == (Works {
                    children: final(self).children,
                    current_page: final(self).current_page,
                    visible_books: final(self).visible_books,
                    ..*old(self)
                })
                &&& if update {
                    let sh = old(self).shelf_index as int;
                    let wi = old(self).children@[sh];
                    &&& shelf_refreshed(
                        old(self).children@,
                        final(self).children@,
                        sh,
                        clamped,
                        *old(context),
                    )
                    &&& final(rq).entries@ =~= old(rq).entries@.push(
                        RenderData { id: Some(wi.id), rect: wi.rect, mode: UpdateMode::Partial },
                    )
                } else {
                    final(self).children@ =~= old(self).children@ && final(rq).entries@ =~= old(
                        rq,
                    ).entries@
                }
            }),
    {
        self.visible_books = copy_listing(&context.library);
        if reset_page {
            self.current_page = 0;
        } else if self.current_page >= self.pages_count {
            self.current_page = if self.pages_count == 0 {
                0
            } else {
                self.pages_count - 1
            };
        }
        if update {
            self.update_shelf(false, hub, rq, context);
            self.update_bottom_bar(rq);
        }
    }

    /// Pass the thumbnail-preview setting to the work index and refresh it.
    pub fn update_thumbnail_previews(
        &mut self,
        hub: &mut Hub,
        rq: &mut RenderQueue,
        context: &mut Context,
    )
        requires
            old(context).wf(),
            old(self).wf(old(context).dims),
            old(self).counts_wf(),
            old(context).index.max_page <= 0xffff_ffff,
            old(context).index.max_lines <= 0xffff_ffff,
        ensures
            final(self).wf(old(context).dims),
            final(self).counts_wf(),
            final(self).headroom(old(context).dims) == old(self).headroom(old(context).dims),
            *final(context) == *old(context),
            final(hub).events@ =~= old(hub).events@,
            *final(self) == (Works { children: final(self).children, ..*old(self) }),
            ({
                let sh = old(self).shelf_index as int;
                let wi = old(self).children@[sh];
                &&& shelf_refreshed(
                    old(self).children@,
                    final(self).children@,
                    sh,
                    old(self).current_page as int,
                    *old(context),
                )
                &&& (final(self).children@[sh].kind matches NodeKind::WorkIndex {
                    thumbnail_previews: tp,
                    ..
                } && tp == old(context).settings.thumbnail_previews)
                &&& final(rq).entries@ =~= old(rq).entries@.push(
                    RenderData { id: Some(wi.id), rect: wi.rect, mode: UpdateMode::Partial },
                )
            }),
    {
        let sh = self.shelf_index;
        let thumbs = context.settings.thumbnail_previews;
        let ghost prev = self.children@;
        let node = &mut self.children[sh];
        match &mut node.kind {
            NodeKind::WorkIndex { thumbnail_previews, .. } => {
                *thumbnail_previews = thumbs;
            },
            _ => {},
        }
        proof {
            assert(self.children@ =~= prev.update(sh as int, self.children@[sh as int]));
            lemma_wf_pointwise(
                prev,
                self.children@,
                old(self).shelf_index as int,
                old(self).rect,
                old(context).dims,
            );
        }
        self.update_shelf(false, hub, rq, context);
    }

    /// Relabel the top bar for the current ordering and flip its root icon
    /// between "search" and "back", then queue an interface-grade refresh of
    /// its region.
    pub fn update_top_bar(&mut self, search_visible: bool, rq: &mut RenderQueue)
        ensures
            *final(self) == (Works { children: final(self).children, ..*old(self) }),
            final(self).children@.len() == old(self).children@.len(),
            forall|k: int|
                #![trigger final(self).children@[k]]
                0 <= k < old(self).children@.len() ==> final(self).children@[k].tag() == old(
                    self,
                ).children@[k].tag() && final(self).children@[k].rect == old(self).children@[k].rect
                    && final(self).children@[k].view_id == old(self).children@[k].view_id,
            top_bar_updated(
                old(self).children@,
                final(self).children@,
                old(self).sort_method,
                search_visible,
                old(rq).entries@,
                final(rq).entries@,
            ),
    {
        if let Some(index) = locate(&self.children, KindTag::TopBar) {
            let ghost prev = self.children@;
            let title = self.sort_method.title();
            let root_icon = if search_visible {
                String::from_str("back")
            } else {
                String::from_str("search")
            };
            let bar_id = self.children[index].id;
            let bar_rect = self.children[index].rect;
            let node = &mut self.children[index];
            match &mut node.kind {
                NodeKind::TopBar { title: t, root_icon: ri, .. } => {
                    *t = title;
                    *ri = root_icon;
                },
                _ => {},
            }
            rq.add(RenderData::new(bar_id, bar_rect, UpdateMode::Gui));
            proof {
                assert(self.children@ =~= prev.update(index as int, self.children@[index as int]));
            }
        }
    }

    /// Re-read the listing in the collaborator's order for the current
    /// ordering settings; with `update` set, refresh the shelf and relabel
    /// the top bar.
    pub fn sort(&mut self, update: bool, hub: &mut Hub, rq: &mut RenderQueue, context: &mut Context)
        requires
            old(context).wf(),
            old(self).wf(old(context).dims),
            old(self).counts_wf(),
            old(context).index.max_page <= 0xffff_ffff,
            old(context).index.max_lines <= 0xffff_ffff,
        ensures
            final(self).wf(old(context).dims),
            final(self).counts_wf(),
            final(self).headroom(old(context).dims) == old(self).headroom(old(context).dims),
            *final(context) == *old(context),
            final(hub).events@ =~= old(hub).events@,
            final(self).visible_books@ =~= old(context).library@,
            *final(self) == (Works {
                children: final(self).children,
                visible_books: final(self).visible_books,
                ..*old(self)
            }),
            !update ==> final(self).children@ =~= old(self).children@ && final(rq).entries@
                =~= old(rq).entries@,
            update ==> exists|mid: Seq<Node>, rq_mid: Seq<RenderData>|
                #![auto]
                {
                    &&& shelf_refreshed(
                        old(self).children@,
                        mid,
                        old(self).shelf_index as int,
                        old(self).current_page as int,
                        *old(context),
                    )
                    &&& rq_mid =~= old(rq).entries@.push(
                        RenderData {
                            id: Some(old(self).children@[old(self).shelf_index as int].id),
                            rect: old(self).children@[old(self).shelf_index as int].rect,
                            mode: UpdateMode::Partial,
                        },
                    )
                    &&& top_bar_updated(
                        mid,
                        final(self).children@,
                        old(self).sort_method,
                        search_present(old(self).children@),
                        rq_mid,
                        final(rq).entries@,
                    )
                },
    {
        self.visible_books = copy_listing(&context.library);
        if update {
            self.update_shelf(false, hub, rq, context);
            let ghost mid = self.children@;
            let ghost rq_mid = rq.entries@;
            let search_visible = rlocate(&self.children, KindTag::SearchBar).is_some();
            proof {
                assert(search_visible == search_present(old(self).children@));
            }
            self.update_top_bar(search_visible, rq);
            self.update_bottom_bar(rq);
            proof {
                lemma_wf_pointwise(
                    mid,
                    self.children@,
                    old(self).shelf_index as int,
                    old(self).rect,
                    old(context).dims,
                );
                assert(shelf_refreshed(
                    old(self).children@,
                    mid,
                    old(self).shelf_index as int,
                    old(self).current_page as int,
                    *old(context),
                ));
            }
        }
    }

    /// Switch the listing direction, go back to the first page, and re-sort.
    pub fn set_reverse_order(
        &mut self,
        value: bool,
        hub: &mut Hub,
        rq: &mut RenderQueue,
        context: &mut Context,
    )
        requires
            old(context).wf(),
            old(self).wf(old(context).dims),
            old(self).counts_wf(),
            old(context).index.max_page <= 0xffff_ffff,
            old(context).index.max_lines <= 0xffff_ffff,
        ensures
            final(self).wf(old(context).dims),
            final(self).counts_wf(),
            final(self).headroom(old(context).dims) == old(self).headroom(old(context).dims),
            *final(context) == *old(context),
            final(hub).events@ =~= old(hub).events@,
            final(self).reverse_order == value,
            final(self).current_page == 0,
            final(self).visible_books@ =~= old(context).library@,
            *final(self) == (Works {
                children: final(self).children,
                visible_books: final(self).visible_books,
                reverse_order: value,
                current_page: 0,
                ..*old(self)
            }),
    {
        self.reverse_order = value;
        self.current_page = 0;
        self.sort(true, hub, rq, context);
    }

    /// Switch the ordering, take its default direction, reflect the change
    /// in the open sort menu's check box if the menu is up, go back to the
    /// first page, and re-sort.
    pub fn set_sort_method(
        &mut self,
        sort_method: SortMethod,
        hub: &mut Hub,
        rq: &mut RenderQueue,
        context: &mut Context,
    )
        requires
            old(context).wf(),
            old(self).wf(old(context).dims),
            old(self).counts_wf(),
            old(context).index.max_page <= 0xffff_ffff,
            old(context).index.max_lines <= 0xffff_ffff,
        ensures
            final(self).wf(old(context).dims),
            final(self).counts_wf(),
            final(self).headroom(old(context).dims) == old(self).headroom(old(context).dims),
            *final(context) == *old(context),
            final(hub).events@ =~= old(hub).events@,
            final(self).sort_method == sort_method,
            final(self).reverse_order == sort_method.spec_reverse_order(),
            final(self).current_page == 0,
            final(self).visible_books@ =~= old(context).library@,
            *final(self) == (Works {
                children: final(self).children,
                visible_books: final(self).visible_books,
                sort_method,
                reverse_order: sort_method.spec_reverse_order(),
                current_page: 0,
                ..*old(self)
            }),
    {
        self.sort_method = sort_method;
        self.reverse_order = sort_method.reverse_order();

        let reverse = self.reverse_order;
        if let Some(index) = locate_by_id(&self.children, ViewId::SortMenu) {
            let ghost prev = self.children@;
            let node = &mut self.children[index];
            match &mut node.kind {
                NodeKind::Menu { entries, .. } => {
                    let n = entries.len();
                    if n > 0 {
                        let last = &mut entries[n - 1];
                        match last {
                            EntryKind::CheckBox(_, _, value) => {
                                *value = reverse;
                            },
                            _ => {},
                        }
                    }
                },
                _ => {},
            }
            proof {
                assert(self.children@ =~= prev.update(index as int, self.children@[index as int]));
                assert(self.children@[index as int].tag() == prev[index as int].tag());
                lemma_wf_pointwise(
                    prev,
                    self.children@,
                    old(self).shelf_index as int,
                    old(self).rect,
                    old(context).dims,
                );
            }
        }

        self.current_page = 0;
        self.sort(true, hub, rq, context);
    }

    /// A reading-status change is recorded by the catalog collaborator; the
    /// engine's own state does not change.
    pub fn set_status(
        &mut self,
        path: &String,
        status: SimpleStatus,
        hub: &mut Hub,
        rq: &mut RenderQueue,
        context: &mut Context,
    )
        ensures
            *final(self) == *old(self),
            final(rq).entries@ =~= old(rq).entries@,
            final(hub).events@ =~= old(hub).events@,
            *final(context) == *old(context),
    {
    }

    /// Flushing the catalog to disk is the collaborator's work; the engine's
    /// own state does not change.
    pub fn flush(&mut self, context: &mut Context)
        ensures
            *final(self) == *old(self),
            *final(context) == *old(context),
    {
    }

    /// Refresh after returning to this screen: ask the clock and battery
    /// providers for new readings (when the top bar is present to show them)
    /// and queue an interface-grade refresh of the whole container.
    pub fn reseed(&mut self, hub: &mut Hub, rq: &mut RenderQueue, context: &mut Context)
        ensures
            *final(self) == *old(self),
            *final(context) == *old(context),
            final(rq).entries@ =~= old(rq).entries@.push(
                RenderData {
                    id: Some(old(self).id),
                    rect: old(self).rect,
                    mode: UpdateMode::Gui,
                },
            ),
            old(self).children@.len() > 0 && old(self).children@[0].tag() == KindTag::TopBar
                ==> final(hub).events@ =~= old(hub).events@.push(Event::ClockTick).push(
                Event::BatteryTick,
            ),
            !(old(self).children@.len() > 0 && old(self).children@[0].tag() == KindTag::TopBar)
                ==> final(hub).events@ =~= old(hub).events@,
    {
        if self.children.len() > 0 && self.children[0].has_tag(KindTag::TopBar) {
            hub.send(Event::ClockTick);
            hub.send(Event::BatteryTick);
        }
        rq.add(RenderData::new(self.id, self.rect, UpdateMode::Gui));
    }

    /// Open the search-bar overlay (`Closed` to `SearchOnly`): a separator
    /// and an empty search input appear directly after the anchor, which
    /// gives up the band they occupy.
    pub fn open_search_bar(&mut self, context: &mut Context)
        requires
            old(context).wf(),
            old(context).ids.counter + 2 <= u64::MAX,
            old(self).children@.len() + 2 <= usize::MAX,
            old(self).wf(old(context).dims),
            overlay_closed(old(self).children@),
            old(self).children@[old(self).shelf_index as int].rect.spec_height() >= old(
                context,
            ).dims.thickness + old(context).dims.small_height,
        ensures
            search_opened(
                old(self).children@,
                final(self).children@,
                old(self).shelf_index as int,
                old(self).rect,
                old(context).dims,
                ViewId::HomeSearchInput,
                "Title, author, series"@,
                old(context).ids.counter,
            ),
            final(self).wf(old(context).dims),
            search_only_at(
                final(self).children@,
                old(self).shelf_index as int,
                old(self).rect,
                old(context).dims,
            ),
            *final(self) == (Works { children: final(self).children, ..*old(self) }),
            *final(context) == (Context { ids: final(context).ids, ..*old(context) }),
            final(context).ids.counter == (old(context).ids.counter + 2) as u64,
    {
        let sh = self.shelf_index;
        let cont = self.rect;
        insert_search_pair(
            &mut self.children,
            sh,
            cont,
            ViewId::HomeSearchInput,
            "Title, author, series",
            context,
        );
    }

    /// Toggle the search-bar overlay.
    ///
    /// Forcing open while open, or closed while closed, is a no-op with no
    /// queue writes.  Opening inserts the search pair after the anchor and,
    /// when no query is pending, emits `Focus(search input)`, which cascades
    /// into the keyboard opening.  Closing first dismisses the keyboard if it
    /// is up, drains exactly the search pair, restores the anchor, and clears
    /// the pending query; with `update` set, one expose-mode request covering
    /// the vacated band is queued.
    pub fn toggle_search_bar(
        &mut self,
        enable: Option<bool>,
        update: bool,
        hub: &mut Hub,
        rq: &mut RenderQueue,
        context: &mut Context,
    )
        requires
            old(context).wf(),
            old(context).ids.counter + 2 <= u64::MAX,
            old(self).children@.len() + 2 <= usize::MAX,
            old(self).wf(old(context).dims),
            old(self).headroom(old(context).dims),
        ensures
            final(self).wf(old(context).dims),
            final(self).headroom(old(context).dims),
            works_search_toggle_outcome(
                *old(self),
                *final(self),
                enable,
                update,
                old(hub).events@,
                final(hub).events@,
                old(rq).entries@,
                final(rq).entries@,
                *old(context),
                *final(context),
            ),
    {
        let sh = self.shelf_index;
        let cont = self.rect;
        if let Some(_index) = rlocate(&self.children, KindTag::SearchBar) {
            if let Some(true) = enable {
                return ;
            }
            let ghost s0 = self.children@;
            if let Some(_k) = rlocate(&self.children, KindTag::Keyboard) {
                remove_keyboard_pair(&mut self.children, sh, cont, context);
                hub.send(Event::Focus(None));
            }
            let ghost mid = self.children@;
            let sep_min_y = self.children[sh + 1].rect.min.y;
            let bar_max_y = self.children[sh + 2].rect.max.y;
            remove_search_pair(&mut self.children, sh, cont, context);
            self.query = None;
            if update {
                rq.add(
                    RenderData::expose(
                        Rect::new(cont.min.x, sep_min_y, cont.max.x, bar_max_y),
                        UpdateMode::Gui,
                    ),
                );
            }
            proof {
                if keyboard_present(s0) {
                    assert(keyboard_closed(s0, mid, sh as int, old(context).dims) && search_closed(
                        mid,
                        self.children@,
                        sh as int,
                        old(context).dims,
                    ));
                }
            }
        } else {
            if let Some(false) = enable {
                return ;
            }
            self.open_search_bar(context);
            if self.query.is_none() {
                hub.send(Event::Focus(Some(ViewId::HomeSearchInput)));
            }
            if update {
                let anchor_id = self.children[sh].id;
                let anchor_rect = self.children[sh].rect;
                rq.add(RenderData::new(anchor_id, anchor_rect, UpdateMode::Partial));
                let bar_id = self.children[sh + 2].id;
                let sep_min_y = self.children[sh + 1].rect.min.y;
                let bar_max_y = self.children[sh + 2].rect.max.y;
                rq.add(
                    RenderData::new(
                        bar_id,
                        Rect::new(cont.min.x, sep_min_y, cont.max.x, bar_max_y),
                        UpdateMode::Gui,
                    ),
                );
            }
        }
    }

    /// Toggle the on-screen keyboard overlay.
    ///
    /// Opening while open, or closing while closed, is a no-op with no queue
    /// writes.  Opening first opens the search-bar overlay if it is not up
    /// (the keyboard is hosted under it), then inserts the keyboard pair.
    /// Closing drains exactly the keyboard pair, gives the vacated band back
    /// to the anchor and search pair, clears the keyboard geometry cache and
    /// emits `Focus(None)`; with `update` set, one expose-mode request
    /// covering the vacated band is queued.
    pub fn toggle_keyboard(
        &mut self,
        enable: bool,
        update: bool,
        id: Option<ViewId>,
        hub: &mut Hub,
        rq: &mut RenderQueue,
        context: &mut Context,
    )
        requires
            old(context).wf(),
            old(context).ids.counter + 4 <= u64::MAX,
            old(self).children@.len() + 4 <= usize::MAX,
            old(self).wf(old(context).dims),
            old(self).headroom(old(context).dims),
        ensures
            final(self).wf(old(context).dims),
            final(self).headroom(old(context).dims),
            works_keyboard_toggle_outcome(
                *old(self),
                *final(self),
                enable,
                (id == Some(ViewId::GoToPageInput)),
                update,
                old(hub).events@,
                final(hub).events@,
                old(rq).entries@,
                final(rq).entries@,
                *old(context),
                *final(context),
            ),
    {
        let sh = self.shelf_index;
        let cont = self.rect;
        if let Some(_idx) = rlocate(&self.children, KindTag::Keyboard) {
            if enable {
                return ;
            }
            let y_min = self.children[sh + 1].rect.min.y;
            remove_keyboard_pair(&mut self.children, sh, cont, context);
            hub.send(Event::Focus(None));
            if update {
                let t = context.dims.thickness;
                let kbh = context.dims.kb_height();
                rq.add(
                    RenderData::expose(
                        Rect::new(cont.min.x, y_min, cont.max.x, y_min + t + kbh),
                        UpdateMode::Gui,
                    ),
                );
            }
        } else {
            if !enable {
                return ;
            }
            let ghost s0 = self.children@;
            if rlocate(&self.children, KindTag::SearchBar).is_none() {
                self.open_search_bar(context);
            }
            let ghost mid = self.children@;
            let number = match id {
                Some(ViewId::GoToPageInput) => true,
                _ => false,
            };
            insert_keyboard_pair(&mut self.children, sh, cont, number, context);
            proof {
                if !search_present(s0) {
                    assert(search_opened(
                        s0,
                        mid,
                        sh as int,
                        cont,
                        old(context).dims,
                        ViewId::HomeSearchInput,
                        "Title, author, series"@,
                        old(context).ids.counter,
                    ) && keyboard_opened(
                        mid,
                        self.children@,
                        sh as int,
                        cont,
                        old(context).dims,
                        number,
                        (old(context).ids.counter + 2) as u64,
                    ));
                }
            }
            if update {
                let anchor_id = self.children[sh].id;
                let anchor_rect = self.children[sh].rect;
                rq.add(RenderData::new(anchor_id, anchor_rect, UpdateMode::Partial));
                let zone_bottom = self.children[sh + 4].rect.max.y;
                rq.add(
                    RenderData::expose(
                        Rect::new(cont.min.x, anchor_rect.max.y, cont.max.x, zone_bottom),
                        UpdateMode::Gui,
                    ),
                );
            }
        }
    }

    /// Toggle the sort drop-down menu near `rect`: one radio button per
    /// ordering (the current one checked) and the reverse-order check box.
    pub fn toggle_sort_menu(
        &mut self,
        rect: Rect,
        enable: Option<bool>,
        rq: &mut RenderQueue,
        context: &mut Context,
    )
        requires
            old(context).wf(),
            old(context).ids.counter < u64::MAX,
            old(self).wf(old(context).dims),
            old(self).headroom(old(context).dims),
            rect.on_screen(),
        ensures
            final(self).wf(old(context).dims),
            final(self).headroom(old(context).dims),
            *final(self) == (Works { children: final(self).children, ..*old(self) }),
            !no_child_with_view_id(old(self).children@, ViewId::SortMenu) && enable == Some(true)
                ==> final(self).children@ =~= old(self).children@ && final(rq).entries@ =~= old(
                rq,
            ).entries@ && *final(context) == *old(context),
            !no_child_with_view_id(old(self).children@, ViewId::SortMenu) && enable != Some(true)
                ==> *final(context) == *old(context) && exists|j: int|
                #![auto]
                menu_removed(
                    old(self).children@,
                    final(self).children@,
                    ViewId::SortMenu,
                    j,
                    old(rq).entries@,
                    final(rq).entries@,
                ),
            no_child_with_view_id(old(self).children@, ViewId::SortMenu) && enable == Some(false)
                ==> final(self).children@ =~= old(self).children@ && final(rq).entries@ =~= old(
                rq,
            ).entries@ && *final(context) == *old(context),
            no_child_with_view_id(old(self).children@, ViewId::SortMenu) && enable != Some(false)
                ==> {
                &&& menu_appended(
                    old(self).children@,
                    final(self).children@,
                    ViewId::SortMenu,
                    rect,
                    12,
                    *old(context),
                    old(rq).entries@,
                    final(rq).entries@,
                )
                &&& sort_entries(
                    final(self).children@.last().kind,
                    old(self).sort_method,
                    old(self).reverse_order,
                )
                &&& *final(context) == (Context { ids: final(context).ids, ..*old(context) })
                &&& final(context).ids.counter == old(context).ids.counter + 1
            },
    {
        let sh = self.shelf_index;
        let cont = self.rect;
        if let Some(index) = locate_by_id(&self.children, ViewId::SortMenu) {
            if let Some(true) = enable {
                return ;
            }
            let ghost pre = self.children@;
            let ghost removed = pre[index as int];
            rq.add(RenderData::expose(self.children[index].rect, UpdateMode::Gui));
            self.children.remove(index);
            proof {
                assert(menu_removed(
                    pre,
                    self.children@,
                    ViewId::SortMenu,
                    index as int,
                    old(rq).entries@,
                    rq.entries@,
                ));
                assert(is_floating(removed.tag()));
                lemma_wf_after_floating_removal(
                    pre,
                    self.children@,
                    sh as int,
                    cont,
                    old(context).dims,
                    index as int,
                );
            }
        } else {
            if let Some(false) = enable {
                return ;
            }
            let current = self.sort_method;
            let mut entries: Vec<EntryKind> = Vec::new();
            entries.push(
                EntryKind::RadioButton(
                    String::from_str("Date Opened"),
                    EntryId::Sort(SortMethod::Opened),
                    current == SortMethod::Opened,
                ),
            );
            entries.push(
                EntryKind::RadioButton(
                    String::from_str("Date Added"),
                    EntryId::Sort(SortMethod::Added),
                    current == SortMethod::Added,
                ),
            );
            entries.push(
                EntryKind::RadioButton(
                    String::from_str("Progress"),
                    EntryId::Sort(SortMethod::Progress),
                    current == SortMethod::Progress,
                ),
            );
            entries.push(
                EntryKind::RadioButton(
                    String::from_str("Author"),
                    EntryId::Sort(SortMethod::Author),
                    current == SortMethod::Author,
                ),
            );
            entries.push(
                EntryKind::RadioButton(
                    String::from_str("Title"),
                    EntryId::Sort(SortMethod::Title),
                    current == SortMethod::Title,
                ),
            );
            entries.push(
                EntryKind::RadioButton(
                    String::from_str("Year"),
                    EntryId::Sort(SortMethod::Year),
                    current == SortMethod::Year,
                ),
            );
            entries.push(
                EntryKind::RadioButton(
                    String::from_str("File Size"),
                    EntryId::Sort(SortMethod::Size),
                    current == SortMethod::Size,
                ),
            );
            entries.push(
                EntryKind::RadioButton(
                    String::from_str("File Type"),
                    EntryId::Sort(SortMethod::Kind),
                    current == SortMethod::Kind,
                ),
            );
            entries.push(
                EntryKind::RadioButton(
                    String::from_str("File Name"),
                    EntryId::Sort(SortMethod::FileName),
                    current == SortMethod::FileName,
                ),
            );
            entries.push(
                EntryKind::RadioButton(
                    String::from_str("File Path"),
                    EntryId::Sort(SortMethod::FilePath),
                    current == SortMethod::FilePath,
                ),
            );
            entries.push(EntryKind::Separator);
            entries.push(
                EntryKind::CheckBox(
                    String::from_str("Reverse Order"),
                    EntryId::ReverseOrder,
                    self.reverse_order,
                ),
            );
            let ghost pre = self.children@;
            let menu = Node::menu(context, rect, ViewId::SortMenu, MenuKind::DropDown, entries);
            let ghost mnode = menu;
            rq.add(RenderData::new(menu.id, menu.rect, UpdateMode::Gui));
            self.children.push(menu);
            proof {
                lemma_wf_after_floating_append(
                    pre,
                    self.children@,
                    sh as int,
                    cont,
                    old(context).dims,
                    mnode,
                );
            }
        }
    }

    /// Toggle the centred go-to-page dialog.  Opening it is skipped when the
    /// index has fewer than two pages; opening moves the focus to its input.
    /// Closing it while its input held the focus also dismisses the keyboard.
    pub fn toggle_go_to_page(
        &mut self,
        enable: Option<bool>,
        hub: &mut Hub,
        rq: &mut RenderQueue,
        context: &mut Context,
    )
        requires
            old(context).wf(),
            old(context).ids.counter + 4 <= u64::MAX,
            old(self).children@.len() + 4 <= usize::MAX,
            old(self).wf(old(context).dims),
            old(self).headroom(old(context).dims),
        ensures
            final(self).wf(old(context).dims),
            final(self).headroom(old(context).dims),
            !no_child_with_view_id(old(self).children@, ViewId::GoToPage) && enable == Some(true)
                ==> *final(self) == *old(self) && final(rq).entries@ =~= old(rq).entries@
                && final(hub).events@ =~= old(hub).events@ && *final(context) == *old(context),
            !no_child_with_view_id(old(self).children@, ViewId::GoToPage) && enable != Some(true)
                ==> exists|j: int|
                #![auto]
                {
                    &&& first_index_with_view_id(old(self).children@, ViewId::GoToPage, j)
                    &&& if old(self).focus == Some(ViewId::GoToPageInput) {
                        exists|mid: Works|
                            #![auto]
                            {
                                &&& mid == (Works { children: mid.children, ..*old(self) })
                                &&& mid.children@ =~= old(self).children@.remove(j)
                                &&& works_keyboard_toggle_outcome(
                                    mid,
                                    *final(self),
                                    false,
                                    true,
                                    true,
                                    old(hub).events@,
                                    final(hub).events@,
                                    old(rq).entries@.push(
                                        RenderData {
                                            id: None,
                                            rect: old(self).children@[j].rect,
                                            mode: UpdateMode::Gui,
                                        },
                                    ),
                                    final(rq).entries@,
                                    *old(context),
                                    *final(context),
                                )
                            }
                    } else {
                        &&& *final(self) == (Works {
                            children: final(self).children,
                            ..*old(self)
                        })
                        &&& final(self).children@ =~= old(self).children@.remove(j)
                        &&& final(rq).entries@ =~= old(rq).entries@.push(
                            RenderData {
                                id: None,
                                rect: old(self).children@[j].rect,
                                mode: UpdateMode::Gui,
                            },
                        )
                        &&& final(hub).events@ =~= old(hub).events@
                        &&& *final(context) == *old(context)
                    }
                },
            no_child_with_view_id(old(self).children@, ViewId::GoToPage) && (enable == Some(false)
                || old(self).pages_count < 2) ==> *final(self) == *old(self)
                && final(rq).entries@ =~= old(rq).entries@
                && final(hub).events@ =~= old(hub).events@ && *final(context) == *old(context),
            no_child_with_view_id(old(self).children@, ViewId::GoToPage) && enable != Some(false)
                && old(self).pages_count >= 2 ==> {
                let d = old(context).dims;
                let n = final(self).children@.last();
                &&& *final(self) == (Works { children: final(self).children, ..*old(self) })
                &&& final(self).children@ =~= old(self).children@.push(n)
                &&& n.id == old(context).ids.counter
                &&& n.rect == spec_named_input_rect(old(self).rect, d)
                &&& n.view_id == Some(ViewId::GoToPage)
                &&& (n.kind matches NodeKind::NamedInput { name, input_id, max_len } && {
                    &&& name@ == "Go to page"@
                    &&& input_id == ViewId::GoToPageInput
                    &&& max_len == 4
                })
                &&& final(rq).entries@ =~= old(rq).entries@.push(
                    RenderData {
                        id: Some(n.id),
                        rect: spec_named_input_rect(old(self).rect, d),
                        mode: UpdateMode::Gui,
                    },
                )
                &&& final(hub).events@ =~= old(hub).events@.push(
                    Event::Focus(Some(ViewId::GoToPageInput)),
                )
                &&& *final(context) == (Context { ids: final(context).ids, ..*old(context) })
                &&& final(context).ids.counter == old(context).ids.counter + 1
            },
    {
        let sh = self.shelf_index;
        let cont = self.rect;
        if let Some(index) = locate_by_id(&self.children, ViewId::GoToPage) {
            if let Some(true) = enable {
                return ;
            }
            let ghost pre = self.children@;
            let ghost removed = pre[index as int];
            rq.add(RenderData::expose(self.children[index].rect, UpdateMode::Gui));
            self.children.remove(index);
            proof {
                assert(is_floating(removed.tag()));
                lemma_wf_after_floating_removal(
                    pre,
                    self.children@,
                    sh as int,
                    cont,
                    old(context).dims,
                    index as int,
                );
            }
            let focus_on_input = match self.focus {
                Some(ViewId::GoToPageInput) => true,
                _ => false,
            };
            if focus_on_input {
                let ghost midw = *self;
                self.toggle_keyboard(false, true, Some(ViewId::GoToPageInput), hub, rq, context);
                proof {
                    assert(midw == (Works { children: midw.children, ..*old(self) }));
                }
            }
        } else {
            if let Some(false) = enable {
                return ;
            }
            if self.pages_count < 2 {
                return ;
            }
            let sb = context.dims.small_height;
            let cx = cont.min.x + cont.width() / 2;
            let cy = cont.min.y + cont.height() / 2;
            let go_rect = Rect::new(cx - 160, cy - sb, cx + 160, cy);
            let ghost pre = self.children@;
            let dialog = Node::new(
                context,
                go_rect,
                NodeKind::NamedInput {
                    name: String::from_str("Go to page"),
                    input_id: ViewId::GoToPageInput,
                    max_len: 4,
                },
                Some(ViewId::GoToPage),
            );
            let ghost dnode = dialog;
            rq.add(RenderData::new(dialog.id, dialog.rect, UpdateMode::Gui));
            hub.send(Event::Focus(Some(ViewId::GoToPageInput)));
            self.children.push(dialog);
            proof {
                lemma_wf_after_floating_append(
                    pre,
                    self.children@,
                    sh as int,
                    cont,
                    old(context).dims,
                    dnode,
                );
            }
        }
    }

    /// Recompute the layout for a new bounding box.
    ///
    /// Drop-down menus are purely positional scaffolding and are dropped;
    /// state-carrying overlays (an open search bar or keyboard) are preserved
    /// and their rectangles recomputed in the new geometry.  The fixed chrome
    /// and whatever overlays remain open exactly tile the new rectangle's
    /// height; other floating windows are given the whole new rectangle.  The
    /// work index is refreshed with a proportionally repositioned page, and a
    /// full-mode refresh of the whole container is queued, since a
    /// bounding-box change invalidates pixel content everywhere.
    pub fn resize(&mut self, rect: Rect, hub: &mut Hub, rq: &mut RenderQueue, context: &mut Context)
        requires
            old(context).wf(),
            old(self).wf(old(context).dims),
            old(self).counts_wf(),
            old(context).index.max_page <= 0xffff_ffff,
            old(context).index.max_lines <= 0xffff_ffff,
            rect.on_screen(),
            rect.spec_height() >= 2 * old(context).dims.small_height + 2 * old(
                context,
            ).dims.thickness + old(context).dims.spec_kb_height(),
        ensures
            final(self).wf(old(context).dims),
            final(self).headroom(old(context).dims),
            final(self).counts_wf(),
            final(self).rect == rect,
            search_present(final(self).children@) == search_present(old(self).children@),
            keyboard_present(final(self).children@) == keyboard_present(old(self).children@),
            works_bands_tiled(
                final(self).children@,
                final(self).shelf_index as int,
                rect,
                old(context).dims,
            ),
            final(hub).events@ =~= old(hub).events@,
            *final(context) == *old(context),
            final(rq).entries@ =~= old(rq).entries@.push(
                RenderData { id: Some(old(self).id), rect, mode: UpdateMode::Full },
            ),
            *final(self) == (Works {
                children: final(self).children,
                rect,
                current_page: final(self).current_page,
                pages_count: old(context).index.max_page,
                works_count: old(context).index.max_works,
                works_lines: old(context).index.max_lines,
                ..*old(self)
            }),
            ({
                let kept = old(self).children@.filter(|n: Node| n.tag() != KindTag::Menu);
                &&& final(self).children@.len() == kept.len()
                &&& forall|k: int|
                    #![trigger final(self).children@[k]]
                    0 <= k < kept.len() ==> final(self).children@[k].id == kept[k].id
                        && final(self).children@[k].tag() == kept[k].tag()
                        && final(self).children@[k].view_id == kept[k].view_id
            }),
    {
        let d_t = context.dims.thickness;
        let d_sb = context.dims.small_height;
        let d_kb = context.dims.kb_height();
        let sh = self.shelf_index;

        // Drop the drop-down menus: purely positional scaffolding that does
        // not survive a geometry change.
        loop
            invariant_except_break
                context.wf(),
                overlay_wf(self.children@, sh as int, self.rect, context.dims),
                self.children@[sh as int].tag() == KindTag::WorkIndex,
                self.children@[0].tag() == KindTag::TopBar,
                sh == 1,
                context == old(context),
                search_present(self.children@) == search_present(old(self).children@),
                keyboard_present(self.children@) == keyboard_present(old(self).children@),
                overlay_headroom(self.children@, sh as int, context.dims) == overlay_headroom(
                    old(self).children@,
                    sh as int,
                    context.dims,
                ),
                self.children@.filter(|n: Node| n.tag() != KindTag::Menu) =~= old(
                    self,
                ).children@.filter(|n: Node| n.tag() != KindTag::Menu),
                *self == (Works { children: self.children, ..*old(self) }),
            ensures
                context.wf(),
                overlay_wf(self.children@, sh as int, self.rect, context.dims),
                self.children@[sh as int].tag() == KindTag::WorkIndex,
                self.children@[0].tag() == KindTag::TopBar,
                context == old(context),
                search_present(self.children@) == search_present(old(self).children@),
                keyboard_present(self.children@) == keyboard_present(old(self).children@),
                overlay_headroom(self.children@, sh as int, context.dims) == overlay_headroom(
                    old(self).children@,
                    sh as int,
                    context.dims,
                ),
                self.children@ =~= old(self).children@.filter(
                    |n: Node| n.tag() != KindTag::Menu,
                ),
                *self == (Works { children: self.children, ..*old(self) }),
            decreases self.children@.len(),
        {
            let found = rlocate(&self.children, KindTag::Menu);
            match found {
                None => {
                    proof {
                        lemma_filter_all(self.children@, |n: Node| n.tag() != KindTag::Menu);
                    }
                    break ;
                },
                Some(i) => {
                    let ghost pre = self.children@;
                    self.children.remove(i);
                    proof {
                        lemma_wf_after_floating_removal(
                            pre,
                            self.children@,
                            sh as int,
                            self.rect,
                            context.dims,
                            i as int,
                        );
                        lemma_filter_remove(pre, |n: Node| n.tag() != KindTag::Menu, i as int);
                    }
                },
            }
        }
        let ghost dropped = self.children@;
        let ghost old_rect = self.rect;
        let has_search = rlocate(&self.children, KindTag::SearchBar).is_some();
        let has_kb = rlocate(&self.children, KindTag::Keyboard).is_some();

        // Recompute the band layout for the new bounding box.
        let y0 = rect.min.y;
        let y1 = rect.max.y;
        let am = if has_kb {
            y1 - (2 * d_t + d_sb + d_kb)
        } else if has_search {
            y1 - (d_t + d_sb)
        } else {
            y1
        };
        self.children[0].rect = Rect::new(rect.min.x, y0, rect.max.x, y0 + d_sb);
        self.children[sh].rect = Rect::new(rect.min.x, y0 + d_sb, rect.max.x, am);
        if has_search {
            self.children[sh + 1].rect = Rect::new(rect.min.x, am, rect.max.x, am + d_t);
            self.children[sh + 2].rect = Rect::new(
                rect.min.x,
                am + d_t,
                rect.max.x,
                am + d_t + d_sb,
            );
        }
        if has_kb {
            self.children[sh + 3].rect = Rect::new(
                rect.min.x,
                am + d_t + d_sb,
                rect.max.x,
                am + 2 * d_t + d_sb,
            );
            self.children[sh + 4].rect = Rect::new(
                rect.min.x,
                am + 2 * d_t + d_sb,
                rect.max.x,
                am + 2 * d_t + d_sb + d_kb,
            );
        }

        // Floating windows span the whole new rectangle.
        let first_floating: usize = if has_kb {
            sh + 5
        } else if has_search {
            sh + 3
        } else {
            sh + 1
        };
        let mut k = first_floating;
        while k < self.children.len()
            invariant
                first_floating <= k <= self.children@.len(),
                self.children@.len() == dropped.len(),
                sh == 1,
                first_floating > sh,
                *self == (Works { children: self.children, ..*old(self) }),
                forall|i: int|
                    #![trigger self.children@[i]]
                    0 <= i < dropped.len() ==> self.children@[i].id == dropped[i].id
                        && self.children@[i].tag() == dropped[i].tag() && self.children@[i].view_id
                        == dropped[i].view_id && self.children@[i].kind == dropped[i].kind
                        && self.children@[i].children == dropped[i].children,
                forall|i: int|
                    #![trigger self.children@[i].rect]
                    first_floating <= i < k ==> self.children@[i].rect == rect,
                forall|i: int|
                    #![trigger self.children@[i].rect]
                    k <= i < dropped.len() ==> self.children@[i].rect == dropped[i].rect,
                forall|i: int|
                    #![trigger self.children@[i].rect]
                    0 <= i < first_floating ==> self.children@[i].rect == resize_band_rect(
                        i,
                        sh as int,
                        rect,
                        old(context).dims,
                        has_search,
                        has_kb,
                    ),
            decreases self.children@.len() - k,
        {
            self.children[k].rect = rect;
            k = k + 1;
        }

        self.rect = rect;

        proof {
            assert(overlay_wf(dropped, sh as int, old_rect, old(context).dims));
            lemma_resize_wf(
                dropped,
                self.children@,
                sh as int,
                rect,
                old(context).dims,
                has_search,
                has_kb,
            );
        }

        proof {
            assert(overlay_wf(self.children@, sh as int, self.rect, old(context).dims));
            assert(self.shelf_index == 1);
            assert(self.children@[sh as int].tag() == dropped[sh as int].tag());
            assert(self.children@[sh as int].tag() == KindTag::WorkIndex);
            assert(self.children@[0].tag() == KindTag::TopBar);
            assert(self.wf(old(context).dims));
        }
        let mut scratch = RenderQueue::new();
        self.update_shelf(true, hub, &mut scratch, context);
        self.update_bottom_bar(&mut scratch);
        rq.add(RenderData::new(self.id, self.rect, UpdateMode::Full));
    }

    /// Offer an event to the listing screen; the result says whether it was
    /// claimed (which stops further routing at this level).  A tag jump is
    /// handled but not claimed, so outer containers may observe it too.
    #[verifier::rlimit(100)]
    pub fn handle_event(
        &mut self,
        evt: &Event,
        hub: &mut Hub,
        rq: &mut RenderQueue,
        context: &mut Context,
    ) -> (r: bool)
        requires
            old(context).wf(),
            old(context).ids.counter + 8 <= u64::MAX,
            old(self).children@.len() + 8 <= usize::MAX,
            old(self).wf(old(context).dims),
            old(self).headroom(old(context).dims),
            old(self).counts_wf(),
            old(self).pages_count <= 0xffff_ffff,
            old(context).index.max_page <= 0xffff_ffff,
            old(context).index.max_lines <= 0xffff_ffff,
            works_event_wf(*evt),
        ensures
            r == spec_works_claims(*evt),
            !spec_works_touches(*evt) ==> {
                &&& *final(self) == *old(self)
                &&& final(rq).entries@ =~= old(rq).entries@
                &&& final(hub).events@ =~= old(hub).events@
                &&& *final(context) == *old(context)
            },
            !((*evt) is ToggleNear && ((*evt)->ToggleNear_0 == ViewId::MainMenu
                || (*evt)->ToggleNear_0 == ViewId::BatteryMenu || (*evt)->ToggleNear_0
                == ViewId::ClockMenu)) && !((*evt) is Close && (*evt)->Close_0
                == ViewId::MainMenu) ==> final(self).wf(old(context).dims)
                && final(self).headroom(old(context).dims) && final(self).counts_wf(),
            (*evt) matches Event::Reseed ==> {
                &&& *final(self) == *old(self)
                &&& *final(context) == *old(context)
                &&& final(rq).entries@ =~= old(rq).entries@.push(
                    RenderData {
                        id: Some(old(self).id),
                        rect: old(self).rect,
                        mode: UpdateMode::Gui,
                    },
                )
            },
            (*evt) is Gesture && (*evt)->Gesture_0 is Rotate
                && (*evt)->Gesture_0->Rotate_quarter_turns != 0 ==> {
                &&& *final(self) == *old(self)
                &&& *final(context) == *old(context)
                &&& final(rq).entries@ =~= old(rq).entries@
                &&& final(hub).events@ =~= old(hub).events@.push(
                    Event::Select(
                        EntryId::Rotate(
                            spec_canonical_rotation(
                                old(context).display.rotation,
                                old(context).display.mirror_dir,
                                (*evt)->Gesture_0->Rotate_quarter_turns,
                            ) as i8,
                        ),
                    ),
                )
            },
            (*evt) is GoTo ==> goto_outcome(
                *old(self),
                *final(self),
                (*evt)->GoTo_0 as int,
                old(rq).entries@,
                final(rq).entries@,
                *old(context),
            ) && final(hub).events@ =~= old(hub).events@ && *final(context) == *old(context),
            (*evt) is Chapter ==> goto_outcome(
                *old(self),
                *final(self),
                if (*evt)->Chapter_0 == CycleDir::Previous {
                    0int
                } else if old(self).pages_count == 0 {
                    0int
                } else {
                    old(self).pages_count - 1
                },
                old(rq).entries@,
                final(rq).entries@,
                *old(context),
            ) && final(hub).events@ =~= old(hub).events@ && *final(context) == *old(context),
            (*evt) is Page ==> neighbor_outcome(
                *old(self),
                *final(self),
                (*evt)->Page_0,
                old(rq).entries@,
                final(rq).entries@,
                *old(context),
            ) && final(hub).events@ =~= old(hub).events@ && *final(context) == *old(context),
            (*evt) is Device && (*evt)->Device_0 is Button && (*evt)->Device_0->status
                == ButtonStatus::Pressed ==> neighbor_outcome(
                *old(self),
                *final(self),
                if (*evt)->Device_0->code == ButtonCode::Backward {
                    CycleDir::Previous
                } else {
                    CycleDir::Next
                },
                old(rq).entries@,
                final(rq).entries@,
                *old(context),
            ) && final(hub).events@ =~= old(hub).events@ && *final(context) == *old(context),
            (*evt) is Toggle && (*evt)->Toggle_0 == ViewId::SearchBar
                ==> works_search_toggle_outcome(
                *old(self),
                *final(self),
                None,
                true,
                old(hub).events@,
                final(hub).events@,
                old(rq).entries@,
                final(rq).entries@,
                *old(context),
                *final(context),
            ),
            (*evt) is Close && (*evt)->Close_0 == ViewId::SearchBar
                ==> works_search_toggle_outcome(
                *old(self),
                *final(self),
                Some(false),
                true,
                old(hub).events@,
                final(hub).events@,
                old(rq).entries@,
                final(rq).entries@,
                *old(context),
                *final(context),
            ),
            (*evt) is Show && (*evt)->Show_0 == ViewId::Keyboard
                ==> works_keyboard_toggle_outcome(
                *old(self),
                *final(self),
                true,
                false,
                true,
                old(hub).events@,
                final(hub).events@,
                old(rq).entries@,
                final(rq).entries@,
                *old(context),
                *final(context),
            ),
            (*evt) is Focus && old(self).focus == (*evt)->Focus_0 ==> {
                &&& *final(self) == *old(self)
                &&& final(rq).entries@ =~= old(rq).entries@
                &&& final(hub).events@ =~= old(hub).events@
                &&& *final(context) == *old(context)
            },
            (*evt) is Focus && old(self).focus != (*evt)->Focus_0 && (*evt)->Focus_0 is None
                ==> {
                &&& *final(self) == (Works { focus: None, ..*old(self) })
                &&& final(rq).entries@ =~= old(rq).entries@
                &&& final(hub).events@ =~= old(hub).events@
                &&& *final(context) == *old(context)
            },
            (*evt) is Focus && old(self).focus != (*evt)->Focus_0 && (*evt)->Focus_0 is Some
                ==> works_keyboard_toggle_outcome(
                (Works { focus: (*evt)->Focus_0, ..*old(self) }),
                *final(self),
                true,
                ((*evt)->Focus_0 == Some(ViewId::GoToPageInput)),
                true,
                old(hub).events@,
                final(hub).events@,
                old(rq).entries@,
                final(rq).entries@,
                *old(context),
                *final(context),
            ),
            (*evt) is Select && (*evt)->Select_0 is Sort ==> {
                let m = (*evt)->Select_0->Sort_0;
                &&& final(self).sort_method == m
                &&& final(self).reverse_order == m.spec_reverse_order()
                &&& final(self).current_page == 0
                &&& final(self).visible_books@ =~= old(context).library@
                &&& final(hub).events@ =~= old(hub).events@
                &&& *final(context) == *old(context)
            },
            (*evt) is Select && (*evt)->Select_0 is ReverseOrder ==> {
                &&& final(self).reverse_order == !old(self).reverse_order
                &&& final(self).current_page == 0
                &&& final(self).visible_books@ =~= old(context).library@
                &&& final(hub).events@ =~= old(hub).events@
                &&& *final(context) == *old(context)
            },
            (*evt) is Select && ((*evt)->Select_0 is Flush || (*evt)->Select_0 is SetStatus)
                ==> {
                &&& *final(self) == *old(self)
                &&& final(rq).entries@ =~= old(rq).entries@
                &&& final(hub).events@ =~= old(hub).events@
                &&& *final(context) == *old(context)
            },
            (*evt) is Select && (*evt)->Select_0 is ThumbnailPreviews ==> {
                &&& *final(context) == (Context {
                    settings: final(context).settings,
                    ..*old(context)
                })
                &&& final(context).settings.thumbnail_previews == !old(
                    context,
                ).settings.thumbnail_previews
                &&& final(hub).events@ =~= old(hub).events@
            },
            (*evt) is Select && (*evt)->Select_0 is SearchAuthor ==> {
                &&& search_present(final(self).children@)
                &&& (final(self).query matches Some(q) && q@ == "'a "@
                    + (*evt)->Select_0->SearchAuthor_0@)
                &&& final(self).current_page == 0
                &&& final(self).visible_books@ =~= old(context).library@
            },
            (*evt) is Select && (*evt)->Select_0 is ToggleShowHidden ==> {
                &&& *final(context) == (Context {
                    settings: final(context).settings,
                    ..*old(context)
                })
                &&& final(context).settings.show_hidden == !old(context).settings.show_hidden
                &&& final(self).visible_books@ =~= old(context).library@
                &&& final(hub).events@ =~= old(hub).events@
            },
            (*evt) is Submit && (*evt)->Submit_0 == ViewId::AddressBarInput
                ==> works_keyboard_toggle_outcome(
                *old(self),
                *final(self),
                false,
                false,
                true,
                old(hub).events@,
                final(hub).events@,
                old(rq).entries@,
                final(rq).entries@,
                *old(context),
                *final(context),
            ),
            (*evt) is Submit && (*evt)->Submit_0 == ViewId::HomeSearchInput ==> {
                let t = (*evt)->Submit_1;
                if t@.len() > 0 {
                    &&& (final(self).query matches Some(q) && q@ == t@)
                    &&& final(self).current_page == 0
                    &&& final(self).visible_books@ =~= old(context).library@
                } else {
                    &&& final(self).query == old(self).query
                    &&& final(self).children@.len() == old(self).children@.len() + 1
                    &&& final(self).children@.last().tag() == KindTag::Notification
                    &&& final(self).children@.last().view_id == Some(
                        ViewId::InvalidSearchQueryNotif,
                    )
                }
            },
            (*evt) is GoToTag ==> {
                let loc = (*evt)->GoToTag_0;
                let sh = old(self).shelf_index as int;
                let wi = old(self).children@[sh];
                &&& final(self).children@ =~= old(self).children@.update(
                    sh,
                    final(self).children@[sh],
                )
                &&& final(self).children@[sh].id == wi.id
                &&& final(self).children@[sh].rect == wi.rect
                &&& (final(self).children@[sh].kind matches NodeKind::WorkIndex {
                    url: u,
                    current_page: cp,
                    max_page: mp,
                    ..
                } && u@ == loc@ && cp == 0 && mp == old(context).index.max_page)
                &&& final(self).current_page == 0
                &&& final(self).pages_count == old(context).index.max_page
                &&& final(self).works_count == old(context).index.max_works
                &&& final(self).works_lines == old(context).index.max_lines
                &&& final(hub).events@ =~= old(hub).events@
                &&& *final(context) == *old(context)
            },
    {
        match evt {
            Event::Gesture(GestureEvent::Swipe { .. }) => {
                true
            },
            Event::Gesture(GestureEvent::Rotate { quarter_turns }) => {
                let q = *quarter_turns;
                if q == 0 {
                    return false;
                }
                let rot = context.display.rotation as i32;
                let dirv = context.display.mirror_dir as i32;
                proof {
                    assert(-16384 <= dirv * (q as i32) <= 16384) by (nonlinear_arith)
                        requires
                            -128 <= dirv <= 127,
                            -128 <= q <= 127,
                    ;
                }
                let n = (((rot - dirv * (q as i32)) % 4) + 4) % 4;
                hub.send(Event::Select(EntryId::Rotate(n as i8)));
                true
            },
            Event::Gesture(GestureEvent::Arrow { dir, .. }) => {
                match dir {
                    Dir::West => {
                        self.go_to_page(0, hub, rq, context);
                    },
                    Dir::East => {
                        let last = if self.pages_count == 0 {
                            0
                        } else {
                            self.pages_count - 1
                        };
                        self.go_to_page(last, hub, rq, context);
                    },
                    Dir::North => {},
                    Dir::South => {
                        self.toggle_search_bar(None, true, hub, rq, context);
                    },
                }
                true
            },
            Event::Focus(v) => {
                let v = *v;
                if self.focus != v {
                    self.focus = v;
                    if v.is_some() {
                        self.toggle_keyboard(true, true, v, hub, rq, context);
                    }
                }
                true
            },
            Event::Show(ViewId::Keyboard) => {
                self.toggle_keyboard(true, true, None, hub, rq, context);
                true
            },
            Event::Toggle(ViewId::GoToPage) => {
                self.toggle_go_to_page(None, hub, rq, context);
                true
            },
            Event::Toggle(ViewId::SearchBar) => {
                self.toggle_search_bar(None, true, hub, rq, context);
                true
            },
            Event::ToggleNear(ViewId::TitleMenu, rect) => {
                let near = *rect;
                self.toggle_sort_menu(near, None, rq, context);
                true
            },
            Event::ToggleNear(ViewId::MainMenu, rect) => {
                let near = *rect;
                toggle_main_menu(&mut self.children, near, None, rq, context);
                true
            },
            Event::ToggleNear(ViewId::BatteryMenu, rect) => {
                let near = *rect;
                toggle_battery_menu(&mut self.children, near, None, rq, context);
                true
            },
            Event::ToggleNear(ViewId::ClockMenu, rect) => {
                let near = *rect;
                toggle_clock_menu(&mut self.children, near, None, rq, context);
                true
            },
            Event::Close(ViewId::SearchBar) => {
                self.toggle_search_bar(Some(false), true, hub, rq, context);
                true
            },
            Event::Close(ViewId::SortMenu) => {
                self.toggle_sort_menu(Rect::new(0, 0, 0, 0), Some(false), rq, context);
                true
            },
            Event::Close(ViewId::MainMenu) => {
                toggle_main_menu(
                    &mut self.children,
                    Rect::new(0, 0, 0, 0),
                    Some(false),
                    rq,
                    context,
                );
                true
            },
            Event::Close(ViewId::GoToPage) => {
                self.toggle_go_to_page(Some(false), hub, rq, context);
                true
            },
            Event::Select(EntryId::Sort(sort_method)) => {
                let m = *sort_method;
                self.set_sort_method(m, hub, rq, context);
                true
            },
            Event::Select(EntryId::ReverseOrder) => {
                let next_value = !self.reverse_order;
                self.set_reverse_order(next_value, hub, rq, context);
                true
            },
            Event::Select(EntryId::Flush) => {
                self.flush(context);
                true
            },
            Event::Select(EntryId::SetStatus(path, status)) => {
                self.set_status(path, *status, hub, rq, context);
                true
            },
            Event::Select(EntryId::ThumbnailPreviews) => {
                context.settings.thumbnail_previews = !context.settings.thumbnail_previews;
                self.update_thumbnail_previews(hub, rq, context);
                true
            },
            Event::Select(EntryId::ToggleShowHidden) => {
                context.settings.show_hidden = !context.settings.show_hidden;
                self.refresh_visibles(true, false, hub, rq, context);
                true
            },
            Event::Select(EntryId::SearchAuthor(author)) => {
                let text = String::from_str("'a ").concat(author.as_str());
                let shown = text.clone();
                self.query = Some(text);
                self.toggle_search_bar(Some(true), false, hub, rq, context);
                self.toggle_keyboard(false, false, None, hub, rq, context);
                if let Some(i) = rlocate(&self.children, KindTag::SearchBar) {
                    let ghost prev = self.children@;
                    let node = &mut self.children[i];
                    match &mut node.kind {
                        NodeKind::SearchBar { text: t, .. } => {
                            *t = shown;
                        },
                        _ => {},
                    }
                    proof {
                        assert(self.children@ =~= prev.update(i as int, self.children@[i as int]));
                        lemma_wf_pointwise(
                            prev,
                            self.children@,
                            self.shelf_index as int,
                            self.rect,
                            old(context).dims,
                        );
                    }
                }
                self.refresh_visibles(true, true, hub, rq, context);
                true
            },
            Event::Submit(ViewId::AddressBarInput, _) => {
                self.toggle_keyboard(false, true, None, hub, rq, context);
                true
            },
            Event::Submit(ViewId::HomeSearchInput, text) => {
                if !text.as_str().is_empty() {
                    self.query = Some(text.clone());
                    self.toggle_keyboard(false, false, None, hub, rq, context);
                    self.refresh_visibles(true, true, hub, rq, context);
                } else {
                    let sh = self.shelf_index;
                    let cont = self.rect;
                    let sb = context.dims.small_height;
                    let ghost pre = self.children@;
                    let notif = Node::new(
                        context,
                        Rect::new(cont.min.x, cont.min.y, cont.max.x, cont.min.y + sb),
                        NodeKind::Notification {
                            text: String::from_str("Invalid search query."),
                        },
                        Some(ViewId::InvalidSearchQueryNotif),
                    );
                    let ghost nnode = notif;
                    rq.add(RenderData::new(notif.id, notif.rect, UpdateMode::Gui));
                    self.children.push(notif);
                    proof {
                        lemma_wf_after_floating_append(
                            pre,
                            self.children@,
                            sh as int,
                            cont,
                            old(context).dims,
                            nnode,
                        );
                    }
                }
                true
            },
            Event::Submit(ViewId::GoToPageInput, text) => {
                let b = text.as_str().as_bytes();
                if b.len() == 1 && b[0] == 40 {
                    self.go_to_page(0, hub, rq, context);
                } else if b.len() == 1 && b[0] == 41 {
                    let last = if self.pages_count == 0 {
                        0
                    } else {
                        self.pages_count - 1
                    };
                    self.go_to_page(last, hub, rq, context);
                } else if b.len() == 1 && b[0] == 95 {
                    if self.pages_count > 0 {
                        let index = (context.random % (self.pages_count as u64)) as usize;
                        self.go_to_page(index, hub, rq, context);
                    }
                } else {
                    match parse_page(text.as_str()) {
                        Some(index) => {
                            let target = if index == 0 {
                                0
                            } else {
                                index - 1
                            };
                            if target <= 0xffff_ffff {
                                self.go_to_page(target, hub, rq, context);
                            }
                        },
                        None => {},
                    }
                }
                true
            },
            Event::GoToTag(loc) => {
                let sh = self.shelf_index;
                let url = loc.clone();
                let ghost prev = self.children@;
                let wi_id = self.children[sh].id;
                let wi_rect = self.children[sh].rect;
                let thumbs = context.settings.thumbnail_previews;
                let node = &mut self.children[sh];
                node.kind = NodeKind::WorkIndex {
                    url,
                    current_page: 0,
                    max_page: context.index.max_page,
                    max_works: context.index.max_works,
                    max_lines: context.index.max_lines,
                    thumbnail_previews: thumbs,
                };
                self.current_page = 0;
                self.pages_count = context.index.max_page;
                self.works_count = context.index.max_works;
                self.works_lines = context.index.max_lines;
                rq.add(RenderData::new(wi_id, wi_rect, UpdateMode::Partial));
                proof {
                    assert(self.children@ =~= prev.update(sh as int, self.children@[sh as int]));
                    lemma_wf_pointwise(
                        prev,
                        self.children@,
                        old(self).shelf_index as int,
                        old(self).rect,
                        old(context).dims,
                    );
                }
                self.update_bottom_bar(rq);
                false
            },
            Event::GoTo(location) => {
                self.go_to_page(*location as usize, hub, rq, context);
                true
            },
            Event::Chapter(dir) => {
                match dir {
                    CycleDir::Previous => {
                        self.go_to_page(0, hub, rq, context);
                    },
                    CycleDir::Next => {
                        let last = if self.pages_count == 0 {
                            0
                        } else {
                            self.pages_count - 1
                        };
                        self.go_to_page(last, hub, rq, context);
                    },
                }
                true
            },
            Event::Page(dir) => {
                self.go_to_neighbor(*dir, hub, rq, context);
                true
            },
            Event::Device(DeviceEvent::Button {
                code: ButtonCode::Backward,
                status: ButtonStatus::Pressed,
            }) => {
                self.go_to_neighbor(CycleDir::Previous, hub, rq, context);
                true
            },
            Event::Device(DeviceEvent::Button {
                code: ButtonCode::Forward,
                status: ButtonStatus::Pressed,
            }) => {
                self.go_to_neighbor(CycleDir::Next, hub, rq, context);
                true
            },
            Event::Device(DeviceEvent::NetUp) => {
                true
            },
            Event::ToggleFrontlight => {
                true
            },
            Event::Reseed => {
                self.reseed(hub, rq, context);
                true
            },
            _ => false,
        }
    }

    pub fn rect(&self) -> (r: &Rect)
        ensures
            r == self.rect,
    {
        &self.rect
    }

    pub fn children(&self) -> (r: &Vec<Node>)
        ensures
            r == self.children,
    {
        &self.children
    }

    pub fn id(&self) -> (r: u64)
        ensures
            r == self.id,
    {
        self.id
    }
}

/// After a resize, the current page moves in proportion to the change of the
/// shelf's line capacity, clamped to the last page.
pub open spec fn spec_repositioned_page(cp: int, old_lines: int, new_lines: int, pages: int) -> int {
    let guess: int = if new_lines == 0 {
        0
    } else {
        (cp * old_lines) / new_lines
    };
    let limit: int = if pages == 0 {
        0
    } else {
        pages - 1
    };
    if guess < limit {
        guess
    } else {
        limit
    }
}

/// The work-index node at `sh` was refreshed in place: same identity, same
/// rectangle, page set to `page`, counts set to the provider's report, and
/// every other sibling untouched.
pub open spec fn shelf_refreshed(
    pre: Seq<Node>,
    post: Seq<Node>,
    sh: int,
    page: int,
    c0: Context,
) -> bool {
    let d = c0.dims;
    let wi = pre[sh];
    let ml = ((wi.rect.spec_height() + d.thickness) / (d.big_height as int)) as usize;
    &&& post =~= pre.update(sh, post[sh])
    &&& post[sh].id == wi.id
    &&& post[sh].rect == wi.rect
    &&& post[sh].view_id == wi.view_id
    &&& (post[sh].kind matches NodeKind::WorkIndex {
        url: u,
        current_page: ncp,
        max_page: mp,
        max_works: mw,
        max_lines: nml,
        ..
    } && {
        &&& wi.kind matches NodeKind::WorkIndex { url: u0, .. } && u@ == u0@
        &&& ncp == page
        &&& mp == c0.index.max_page
        &&& mw == c0.index.max_works
        &&& nml == ml
    })
}


/// The full outcome of `Works::toggle_search_bar`, relating the container,
/// the queue, the hub and the context before and after the call.
pub open spec fn works_search_toggle_outcome(
    pre: Works,
    post: Works,
    enable: Option<bool>,
    update: bool,
    hub0: Seq<Event>,
    hub1: Seq<Event>,
    rq0: Seq<RenderData>,
    rq1: Seq<RenderData>,
    c0: Context,
    c1: Context,
) -> bool {
    &&& (search_present(pre.children@) && enable == Some(true) ==> {
                &&& post == pre
                &&& rq1 =~= rq0
                &&& hub1 =~= hub0
                &&& c1 == c0
            })
    &&& (search_present(pre.children@) && enable != Some(true) ==> {
                let s0 = pre.children@;
                let d = c0.dims;
                let sh = pre.shelf_index as int;
                let cont = pre.rect;
                let am = s0[sh].rect.max.y + (if keyboard_present(s0) {
                    d.thickness + d.spec_kb_height()
                } else {
                    0int
                });
                &&& post == (Works {
                    children: post.children,
                    query: post.query,
                    ..pre
                })
                &&& post.query is None
                &&& overlay_closed(post.children@)
                &&& if keyboard_present(s0) {
                    &&& exists|mid: Seq<Node>|
                        #![auto]
                        keyboard_closed(s0, mid, sh, d) && search_closed(
                            mid,
                            post.children@,
                            sh,
                            d,
                        )
                    &&& hub1 =~= hub0.push(Event::Focus(None))
                    &&& c1 == (Context {
                        kb_rect: c1.kb_rect,
                        ..c0
                    })
                    &&& c1.kb_rect == (Rect {
                        min: Point { x: 0, y: 0 },
                        max: Point { x: 0, y: 0 },
                    })
                } else {
                    &&& search_closed(s0, post.children@, sh, d)
                    &&& hub1 =~= hub0
                    &&& c1 == c0
                }
                &&& if update {
                    rq1 =~= rq0.push(
                        RenderData {
                            id: None,
                            rect: Rect {
                                min: Point { x: cont.min.x, y: am as i32 },
                                max: Point {
                                    x: cont.max.x,
                                    y: (am + d.thickness + d.small_height) as i32,
                                },
                            },
                            mode: UpdateMode::Gui,
                        },
                    )
                } else {
                    rq1 =~= rq0
                }
            })
    &&& (!search_present(pre.children@) && enable == Some(false) ==> {
                &&& post == pre
                &&& rq1 =~= rq0
                &&& hub1 =~= hub0
                &&& c1 == c0
            })
    &&& (!search_present(pre.children@) && enable != Some(false) ==> {
                let s0 = pre.children@;
                let d = c0.dims;
                let sh = pre.shelf_index as int;
                let cont = pre.rect;
                let a1 = s0[sh].rect.max.y as int;
                let am = a1 - (d.thickness + d.small_height);
                &&& search_opened(
                    s0,
                    post.children@,
                    sh,
                    cont,
                    d,
                    ViewId::HomeSearchInput,
                    "Title, author, series"@,
                    c0.ids.counter,
                )
                &&& post == (Works { children: post.children, ..pre })
                &&& c1 == (Context { ids: c1.ids, ..c0 })
                &&& c1.ids.counter == c0.ids.counter + 2
                &&& if pre.query is None {
                    hub1 =~= hub0.push(
                        Event::Focus(Some(ViewId::HomeSearchInput)),
                    )
                } else {
                    hub1 =~= hub0
                }
                &&& if update {
                    rq1 =~= rq0.push(
                        RenderData {
                            id: Some(s0[sh].id),
                            rect: Rect {
                                min: s0[sh].rect.min,
                                max: Point { x: s0[sh].rect.max.x, y: am as i32 },
                            },
                            mode: UpdateMode::Partial,
                        },
                    ).push(
                        RenderData {
                            id: Some((c0.ids.counter + 1) as u64),
                            rect: Rect {
                                min: Point { x: cont.min.x, y: am as i32 },
                                max: Point { x: cont.max.x, y: a1 as i32 },
                            },
                            mode: UpdateMode::Gui,
                        },
                    )
                } else {
                    rq1 =~= rq0
                }
            })
}

/// The full outcome of `Works::toggle_keyboard`, relating the container, the
/// queue, the hub and the context before and after the call.
pub open spec fn works_keyboard_toggle_outcome(
    pre: Works,
    post: Works,
    enable: bool,
    number: bool,
    update: bool,
    hub0: Seq<Event>,
    hub1: Seq<Event>,
    rq0: Seq<RenderData>,
    rq1: Seq<RenderData>,
    c0: Context,
    c1: Context,
) -> bool {
    &&& (keyboard_present(pre.children@) && enable ==> {
                &&& post == pre
                &&& rq1 =~= rq0
                &&& hub1 =~= hub0
                &&& c1 == c0
            })
    &&& (keyboard_present(pre.children@) && !enable ==> {
                let s0 = pre.children@;
                let d = c0.dims;
                let sh = pre.shelf_index as int;
                let cont = pre.rect;
                let y_min = s0[sh + 1].rect.min.y as int;
                &&& keyboard_closed(s0, post.children@, sh, d)
                &&& post == (Works { children: post.children, ..pre })
                &&& hub1 =~= hub0.push(Event::Focus(None))
                &&& c1 == (Context {
                    kb_rect: c1.kb_rect,
                    ..c0
                })
                &&& c1.kb_rect == (Rect {
                    min: Point { x: 0, y: 0 },
                    max: Point { x: 0, y: 0 },
                })
                &&& if update {
                    rq1 =~= rq0.push(
                        RenderData {
                            id: None,
                            rect: Rect {
                                min: Point { x: cont.min.x, y: y_min as i32 },
                                max: Point {
                                    x: cont.max.x,
                                    y: (y_min + d.thickness + d.spec_kb_height()) as i32,
                                },
                            },
                            mode: UpdateMode::Gui,
                        },
                    )
                } else {
                    rq1 =~= rq0
                }
            })
    &&& (!keyboard_present(pre.children@) && !enable ==> {
                &&& post == pre
                &&& rq1 =~= rq0
                &&& hub1 =~= hub0
                &&& c1 == c0
            })
    &&& (!keyboard_present(pre.children@) && enable ==> {
                let s0 = pre.children@;
                let d = c0.dims;
                let sh = pre.shelf_index as int;
                let cont = pre.rect;
                let zone_bottom = if search_present(s0) {
                    s0[sh + 2].rect.max.y as int
                } else {
                    s0[sh].rect.max.y as int
                };
                &&& if search_present(s0) {
                    &&& keyboard_opened(
                        s0,
                        post.children@,
                        sh,
                        cont,
                        d,
                        number,
                        c0.ids.counter,
                    )
                    &&& c1.ids.counter == c0.ids.counter + 2
                } else {
                    &&& exists|mid: Seq<Node>|
                        #![auto]
                        search_opened(
                            s0,
                            mid,
                            sh,
                            cont,
                            d,
                            ViewId::HomeSearchInput,
                            "Title, author, series"@,
                            c0.ids.counter,
                        ) && keyboard_opened(
                            mid,
                            post.children@,
                            sh,
                            cont,
                            d,
                            number,
                            (c0.ids.counter + 2) as u64,
                        )
                    &&& c1.ids.counter == c0.ids.counter + 4
                }
                &&& search_with_kb_at(post.children@, sh, cont, d)
                &&& post == (Works { children: post.children, ..pre })
                &&& hub1 =~= hub0
                &&& c1 == (Context {
                    ids: c1.ids,
                    kb_rect: c1.kb_rect,
                    ..c0
                })
                &&& c1.kb_rect == post.children@[sh + 4].rect
                &&& if update {
                    rq1 =~= rq0.push(
                        RenderData {
                            id: Some(s0[sh].id),
                            rect: post.children@[sh].rect,
                            mode: UpdateMode::Partial,
                        },
                    ).push(
                        RenderData {
                            id: None,
                            rect: Rect {
                                min: Point {
                                    x: cont.min.x,
                                    y: post.children@[sh].rect.max.y,
                                },
                                max: Point { x: cont.max.x, y: zone_bottom as i32 },
                            },
                            mode: UpdateMode::Gui,
                        },
                    )
                } else {
                    rq1 =~= rq0
                }
            })
}

/// A radio button that names an ordering and selects it, checked when it is
/// the current one.
pub open spec fn sort_radio(e: EntryKind, label: Seq<char>, m: SortMethod, current: SortMethod) -> bool {
    &&& e matches EntryKind::RadioButton(t, act, on)
    &&& t@ == label
    &&& act matches EntryId::Sort(v)
    &&& v == m
    &&& on == (current == m)
}

/// The entries of the sort menu: one radio button per ordering, a separator,
/// and the reverse-order check box.
pub open spec fn sort_entries(k: NodeKind, current: SortMethod, rev: bool) -> bool {
    &&& k matches NodeKind::Menu { kind: MenuKind::DropDown, entries }
    &&& entries@.len() == 12
    &&& sort_radio(entries@[0], "Date Opened"@, SortMethod::Opened, current)
    &&& sort_radio(entries@[1], "Date Added"@, SortMethod::Added, current)
    &&& sort_radio(entries@[2], "Progress"@, SortMethod::Progress, current)
    &&& sort_radio(entries@[3], "Author"@, SortMethod::Author, current)
    &&& sort_radio(entries@[4], "Title"@, SortMethod::Title, current)
    &&& sort_radio(entries@[5], "Year"@, SortMethod::Year, current)
    &&& sort_radio(entries@[6], "File Size"@, SortMethod::Size, current)
    &&& sort_radio(entries@[7], "File Type"@, SortMethod::Kind, current)
    &&& sort_radio(entries@[8], "File Name"@, SortMethod::FileName, current)
    &&& sort_radio(entries@[9], "File Path"@, SortMethod::FilePath, current)
    &&& entries@[10] matches EntryKind::Separator
    &&& ({
        &&& entries@[11] matches EntryKind::CheckBox(t, act, on)
        &&& t@ == "Reverse Order"@
        &&& act matches EntryId::ReverseOrder
        &&& on == rev
    })
}

/// The rectangle of the centred go-to-page dialog.
pub open spec fn spec_named_input_rect(cont: Rect, d: Dims) -> Rect {
    let cx = cont.min.x + cont.spec_width() / 2;
    let cy = cont.min.y + cont.spec_height() / 2;
    Rect {
        min: Point { x: (cx - 160) as i32, y: (cy - d.small_height) as i32 },
        max: Point { x: (cx + 160) as i32, y: cy as i32 },
    }
}

/// The first top bar (if any) was relabelled in place for the ordering `m`
/// and its root icon flipped for `search_visible`, and its region was queued
/// for an interface-grade refresh; with no top bar nothing happened.
pub open spec fn top_bar_updated(
    pre: Seq<Node>,
    post: Seq<Node>,
    m: SortMethod,
    search_visible: bool,
    rq0: Seq<RenderData>,
    rq1: Seq<RenderData>,
) -> bool {
    if forall|j: int| 0 <= j < pre.len() ==> !(#[trigger] pre[j]).is(KindTag::TopBar) {
        post =~= pre && rq1 =~= rq0
    } else {
        exists|i: int|
            #![auto]
            {
                &&& 0 <= i < pre.len()
                &&& pre[i].is(KindTag::TopBar)
                &&& forall|j: int| 0 <= j < i ==> !pre[j].is(KindTag::TopBar)
                &&& post =~= pre.update(i, post[i])
                &&& post[i].id == pre[i].id
                &&& post[i].rect == pre[i].rect
                &&& post[i].view_id == pre[i].view_id
                &&& (post[i].kind matches NodeKind::TopBar { title: t, format: f, root_icon: ri }
                    && {
                    &&& t@ == m.spec_title()
                    &&& (pre[i].kind matches NodeKind::TopBar { format: f0, .. } && f@ == f0@)
                    &&& ri@ == if search_visible {
                        "back"@
                    } else {
                        "search"@
                    }
                })
                &&& rq1 =~= rq0.push(
                    RenderData {
                        id: Some(pre[i].id),
                        rect: pre[i].rect,
                        mode: UpdateMode::Gui,
                    },
                )
            }
    }
}

/// The fixed chrome and the open overlay bands exactly tile the container's
/// height: the top bar at the top edge, the anchor directly under it, and
/// (through the band geometry of the container invariant) the overlay bands
/// filling the space down to the bottom edge.
pub open spec fn works_bands_tiled(s: Seq<Node>, sh: int, cont: Rect, d: Dims) -> bool {
    let t = d.thickness as int;
    let sb = d.small_height as int;
    let kb = d.spec_kb_height();
    &&& s[0].rect == band_under(cont, cont.min.y as int, sb)
    &&& s[sh].rect.min.x == cont.min.x
    &&& s[sh].rect.max.x == cont.max.x
    &&& s[sh].rect.min.y == cont.min.y + sb
    &&& s[sh].rect.max.y == cont.max.y - (if keyboard_present(s) {
        2 * t + sb + kb
    } else if search_present(s) {
        t + sb
    } else {
        0int
    })
}

/// Filtering with a predicate every element meets gives the sequence back.
proof fn lemma_filter_all(s: Seq<Node>, p: spec_fn(Node) -> bool)
    requires
        forall|i: int| 0 <= i < s.len() ==> p(#[trigger] s[i]),
    ensures
        s.filter(p) =~= s,
    decreases s.len(),
{
    reveal(Seq::filter);
    if s.len() > 0 {
        lemma_filter_all(s.drop_last(), p);
    }
}

/// Removing an element the predicate rejects leaves the filtered sequence
/// unchanged.
proof fn lemma_filter_remove(s: Seq<Node>, p: spec_fn(Node) -> bool, j: int)
    requires
        0 <= j < s.len(),
        !p(s[j]),
    ensures
        s.remove(j).filter(p) =~= s.filter(p),
    decreases s.len(),
{
    reveal(Seq::filter);
    if j == s.len() - 1 {
        assert(s.remove(j) =~= s.drop_last());
    } else {
        assert(s.remove(j).drop_last() =~= s.drop_last().remove(j));
        assert(s.remove(j).last() == s.last());
        lemma_filter_remove(s.drop_last(), p, j);
    }
}


/// The outcome of showing page `index`: a page beyond the last is ignored,
/// otherwise the container's page changes and the work index is refreshed.
pub open spec fn goto_outcome(
    pre: Works,
    post: Works,
    index: int,
    rq0: Seq<RenderData>,
    rq1: Seq<RenderData>,
    c0: Context,
) -> bool {
    if index >= pre.pages_count {
        post == pre && rq1 =~= rq0
    } else {
        let sh = pre.shelf_index as int;
        let wi = pre.children@[sh];
        &&& post == (Works {
            children: post.children,
            current_page: post.current_page,
            ..pre
        })
        &&& post.current_page == index
        &&& shelf_refreshed(pre.children@, post.children@, sh, index, c0)
        &&& rq1 =~= rq0.push(
            RenderData { id: Some(wi.id), rect: wi.rect, mode: UpdateMode::Partial },
        )
    }
}

/// The outcome of stepping to a neighbouring page.
pub open spec fn neighbor_outcome(
    pre: Works,
    post: Works,
    dir: CycleDir,
    rq0: Seq<RenderData>,
    rq1: Seq<RenderData>,
    c0: Context,
) -> bool {
    let stays = (dir == CycleDir::Next && pre.current_page + 1 >= pre.pages_count) || (dir
        == CycleDir::Previous && pre.current_page == 0);
    let target = if dir == CycleDir::Next {
        pre.current_page + 1
    } else {
        pre.current_page - 1
    };
    if stays {
        post == pre && rq1 =~= rq0
    } else {
        let sh = pre.shelf_index as int;
        let wi = pre.children@[sh];
        &&& post == (Works {
            children: post.children,
            current_page: post.current_page,
            ..pre
        })
        &&& post.current_page == target
        &&& shelf_refreshed(pre.children@, post.children@, sh, target, c0)
        &&& rq1 =~= rq0.push(
            RenderData { id: Some(wi.id), rect: wi.rect, mode: UpdateMode::Partial },
        )
    }
}

/// The canonical rotation value for a rotate gesture of `q` quarter turns on
/// a panel with rotation `r` and mirroring direction `dir`.
pub open spec fn spec_canonical_rotation(r: i8, dir: i8, q: i8) -> int {
    ((((r - dir * q) % 4) + 4) % 4)
}

/// The events the listing screen claims.  A tag jump is handled but
/// deliberately not claimed, so outer containers may observe it too.
pub open spec fn spec_works_claims(evt: Event) -> bool {
    match evt {
        Event::Gesture(GestureEvent::Swipe { .. }) => true,
        Event::Gesture(GestureEvent::Rotate { quarter_turns }) => quarter_turns != 0,
        Event::Gesture(GestureEvent::Arrow { .. }) => true,
        Event::Focus(_) => true,
        Event::Show(ViewId::Keyboard) => true,
        Event::Toggle(ViewId::GoToPage) => true,
        Event::Toggle(ViewId::SearchBar) => true,
        Event::ToggleNear(ViewId::TitleMenu, _) => true,
        Event::ToggleNear(ViewId::MainMenu, _) => true,
        Event::ToggleNear(ViewId::BatteryMenu, _) => true,
        Event::ToggleNear(ViewId::ClockMenu, _) => true,
        Event::Close(ViewId::SearchBar) => true,
        Event::Close(ViewId::SortMenu) => true,
        Event::Close(ViewId::MainMenu) => true,
        Event::Close(ViewId::GoToPage) => true,
        Event::Select(EntryId::Sort(_)) => true,
        Event::Select(EntryId::ReverseOrder) => true,
        Event::Select(EntryId::Flush) => true,
        Event::Select(EntryId::SetStatus(_, _)) => true,
        Event::Select(EntryId::ThumbnailPreviews) => true,
        Event::Select(EntryId::ToggleShowHidden) => true,
        Event::Select(EntryId::SearchAuthor(_)) => true,
        Event::Submit(ViewId::AddressBarInput, _) => true,
        Event::Submit(ViewId::HomeSearchInput, _) => true,
        Event::Submit(ViewId::GoToPageInput, _) => true,
        Event::GoTo(_) => true,
        Event::Chapter(_) => true,
        Event::Page(_) => true,
        Event::Device(DeviceEvent::Button { code: ButtonCode::Backward, status: ButtonStatus::Pressed }) => true,
        Event::Device(DeviceEvent::Button { code: ButtonCode::Forward, status: ButtonStatus::Pressed }) => true,
        Event::Device(DeviceEvent::NetUp) => true,
        Event::ToggleFrontlight => true,
        Event::Reseed => true,
        _ => false,
    }
}

/// The events whose handling can change some state (a tag jump does, even
/// though it is not claimed).
pub open spec fn spec_works_touches(evt: Event) -> bool {
    spec_works_claims(evt) || evt matches Event::GoToTag(_)
}

/// A menu anchor rectangle carried by the event is within the layout bound.
pub open spec fn works_event_wf(evt: Event) -> bool {
    match evt {
        Event::ToggleNear(_, r) => r.on_screen(),
        _ => true,
    }
}

/// Every byte is a decimal digit.
pub open spec fn dec_digits(b: Seq<u8>) -> bool {
    forall|i: int| 0 <= i < b.len() ==> 48 <= #[trigger] b[i] <= 57
}

/// The value of a decimal digit string.
pub open spec fn dec_value(b: Seq<u8>) -> int
    decreases b.len(),
{
    if b.len() == 0 {
        0
    } else {
        dec_value(b.drop_last()) * 10 + (b.last() - 48)
    }
}

proof fn lemma_dec_value_nonneg(b: Seq<u8>)
    requires
        dec_digits(b),
    ensures
        dec_value(b) >= 0,
    decreases b.len(),
{
    if b.len() > 0 {
        lemma_dec_value_nonneg(b.drop_last());
    }
}

/// A digit string is worth at least any of its prefixes.
proof fn lemma_dec_value_prefix_le(b: Seq<u8>, i: int)
    requires
        dec_digits(b),
        0 <= i <= b.len(),
    ensures
        dec_value(b.take(i)) <= dec_value(b),
    decreases b.len() - i,
{
    if i < b.len() {
        lemma_dec_value_prefix_le(b, i + 1);
        assert(b.take(i + 1).drop_last() =~= b.take(i));
        assert(dec_digits(b.take(i))) by {
            assert(forall|j: int| 0 <= j < i ==> b.take(i)[j] == b[j]);
        }
        lemma_dec_value_nonneg(b.take(i));
        assert(dec_value(b.take(i + 1)) == dec_value(b.take(i)) * 10 + (b[i] - 48));
        assert(dec_value(b.take(i)) * 10 >= dec_value(b.take(i))) by (nonlinear_arith)
            requires
                dec_value(b.take(i)) >= 0,
        ;
    } else {
        assert(b.take(i) =~= b);
    }
}

/// Parse a page number: the value of a non-empty, all-digit string that fits
/// the machine word, and nothing else.
fn parse_page(s: &str) -> (r: Option<usize>)
    ensures
        match r {
            Some(v) => {
                &&& s.spec_bytes().len() > 0
                &&& dec_digits(s.spec_bytes())
                &&& v == dec_value(s.spec_bytes())
            },
            None => s.spec_bytes().len() == 0 || !dec_digits(s.spec_bytes()) || dec_value(
                s.spec_bytes(),
            ) > usize::MAX,
        },
{
    let b = s.as_bytes();
    let n = b.len();
    if n == 0 {
        return None;
    }
    let mut acc: usize = 0;
    let mut i: usize = 0;
    while i < n
        invariant
            n == b@.len(),
            b@ == s.spec_bytes(),
            0 <= i <= n,
            dec_digits(b@.take(i as int)),
            acc == dec_value(b@.take(i as int)),
        decreases n - i,
    {
        let c = b[i];
        if c < 48 || c > 57 {
            return None;
        }
        let d = (c - 48) as usize;
        if acc > (usize::MAX - d) / 10 {
            proof {
                assert(dec_digits(b@.take(i + 1))) by {
                    assert(forall|j: int|
                        0 <= j < i + 1 ==> b@.take(i + 1)[j] == b@[j]);
                }
                assert(b@.take(i + 1).drop_last() =~= b@.take(i as int));
                assert(dec_value(b@.take(i + 1)) == acc * 10 + (c - 48));
                assert(acc * 10 + d > usize::MAX) by (nonlinear_arith)
                    requires
                        acc > (usize::MAX - d) / 10,
                        0 <= d <= 9,
                ;
                if dec_digits(b@) {
                    lemma_dec_value_prefix_le(b@, i + 1);
                }
            }
            return None;
        }
        acc = acc * 10 + d;
        proof {
            assert(dec_digits(b@.take(i + 1))) by {
                assert(forall|j: int| 0 <= j < i + 1 ==> b@.take(i + 1)[j] == b@[j]);
            }
            assert(b@.take(i + 1).drop_last() =~= b@.take(i as int));
        }
        i = i + 1;
    }
    proof {
        assert(b@.take(n as int) =~= b@);
    }
    Some(acc)
}

/// The rectangle assigned to structural child `i` by a resize: the top bar
/// band, the anchor band, and the overlay bands that remain open, tiling the
/// new container rectangle.
pub open spec fn resize_band_rect(
    i: int,
    sh: int,
    cont: Rect,
    d: Dims,
    has_search: bool,
    has_kb: bool,
) -> Rect {
    let t = d.thickness as int;
    let sb = d.small_height as int;
    let kb = d.spec_kb_height();
    let am = cont.max.y - (if has_kb {
        2 * t + sb + kb
    } else if has_search {
        t + sb
    } else {
        0int
    });
    if i == 0 {
        band_under(cont, cont.min.y as int, sb)
    } else if i == sh {
        Rect {
            min: Point { x: cont.min.x, y: (cont.min.y + sb) as i32 },
            max: Point { x: cont.max.x, y: am as i32 },
        }
    } else if i == sh + 1 {
        band_under(cont, am, t)
    } else if i == sh + 2 {
        band_under(cont, am + t, sb)
    } else if i == sh + 3 {
        band_under(cont, am + t + sb, t)
    } else {
        band_under(cont, am + 2 * t + sb, kb)
    }
}

/// After a resize laid the structural children out as `resize_band_rect`
/// prescribes, the container invariant holds for the new rectangle, the open
/// overlays are preserved, and the bands tile the new height.
proof fn lemma_resize_wf(
    pre: Seq<Node>,
    post: Seq<Node>,
    sh: int,
    cont: Rect,
    d: Dims,
    has_search: bool,
    has_kb: bool,
)
    requires
        d.wf(),
        1 <= sh,
        exists|cont0: Rect| #![auto] overlay_wf(pre, sh, cont0, d),
        has_search == search_present(pre),
        has_kb == keyboard_present(pre),
        cont.on_screen(),
        cont.spec_height() >= 2 * d.small_height + 2 * d.thickness + d.spec_kb_height(),
        post.len() == pre.len(),
        forall|i: int|
            #![trigger post[i]]
            0 <= i < pre.len() ==> post[i].tag() == pre[i].tag() && post[i].view_id
                == pre[i].view_id,
        forall|i: int|
            #![trigger post[i].rect]
            0 <= i < pre.len() && i <= sh + (if has_kb {
                4int
            } else if has_search {
                2int
            } else {
                0int
            }) ==> post[i].rect == resize_band_rect(i, sh, cont, d, has_search, has_kb),
    ensures
        overlay_wf(post, sh, cont, d),
        overlay_headroom(post, sh, d),
        search_present(post) == has_search,
        keyboard_present(post) == has_kb,
        works_bands_tiled(post, sh, cont, d),
{
    let cont0 = choose|cont0: Rect| #![auto] overlay_wf(pre, sh, cont0, d);
    assert(overlay_wf(pre, sh, cont0, d));
    let t = d.thickness as int;
    let sb = d.small_height as int;
    let kb = d.spec_kb_height();
    let amv = cont.max.y - (if has_kb {
        2 * t + sb + kb
    } else if has_search {
        t + sb
    } else {
        0int
    });
    assert(cont.min.y + sb <= amv <= cont.max.y);
    assert(post[sh].rect == resize_band_rect(sh, sh, cont, d, has_search, has_kb));
    assert(post[sh].rect.max.y as int == amv);
    assert(post[sh].rect.min.y as int == cont.min.y + sb);
    assert forall|i: int, j: int|
        #![trigger post[i].tag(), post[j].tag()]
        0 <= i < j < post.len() && is_floating(post[i].tag()) implies is_floating(
        post[j].tag(),
    ) by {
        assert(is_floating(pre[i].tag()));
    }
    if keyboard_present(pre) {
        assert(search_with_kb_at(pre, sh, cont0, d));
        assert forall|i: int|
            0 <= i < post.len() && #[trigger] post[i].tag() == KindTag::SearchBar implies i == sh
            + 2 by {
            assert(pre[i].tag() == KindTag::SearchBar);
        }
        assert forall|i: int|
            0 <= i < post.len() && #[trigger] post[i].tag() == KindTag::Keyboard implies i == sh
            + 4 by {
            assert(pre[i].tag() == KindTag::Keyboard);
        }
        assert(search_with_kb_at(post, sh, cont, d));
        assert(search_present(post)) by {
            assert(post[sh + 2].tag() == KindTag::SearchBar);
        }
        assert(keyboard_present(post)) by {
            assert(post[sh + 4].tag() == KindTag::Keyboard);
        }
        assert(search_present(pre)) by {
            assert(pre[sh + 2].tag() == KindTag::SearchBar);
        }
    } else if search_present(pre) {
        assert(search_only_at(pre, sh, cont0, d));
        assert forall|i: int|
            0 <= i < post.len() && #[trigger] post[i].tag() == KindTag::SearchBar implies i == sh
            + 2 by {
            assert(pre[i].tag() == KindTag::SearchBar);
        }
        assert forall|i: int|
            0 <= i < post.len() implies #[trigger] post[i].tag() != KindTag::Keyboard by {
            assert(pre[i].tag() != KindTag::Keyboard);
        }
        assert(search_only_at(post, sh, cont, d));
        assert(search_present(post)) by {
            assert(post[sh + 2].tag() == KindTag::SearchBar);
        }
        assert(!keyboard_present(post));
    } else {
        assert(overlay_closed(pre));
        assert forall|i: int|
            0 <= i < post.len() implies #[trigger] post[i].tag() != KindTag::SearchBar
            && post[i].tag() != KindTag::Keyboard by {
            assert(pre[i].tag() != KindTag::SearchBar && pre[i].tag() != KindTag::Keyboard);
        }
        assert(overlay_closed(post));
        assert(!search_present(post) && !keyboard_present(post));
    }
}

/// Replacing nodes in place without changing any tag, rectangle or semantic
/// tag preserves the container invariant, the headroom and the overlay
/// presence.
proof fn lemma_wf_pointwise(pre: Seq<Node>, post: Seq<Node>, sh: int, cont: Rect, d: Dims)
    requires
        overlay_wf(pre, sh, cont, d),
        post.len() == pre.len(),
        forall|k: int|
            #![trigger post[k]]
            0 <= k < pre.len() ==> post[k].tag() == pre[k].tag() && post[k].rect == pre[k].rect
                && post[k].view_id == pre[k].view_id,
    ensures
        overlay_wf(post, sh, cont, d),
        overlay_headroom(post, sh, d) == overlay_headroom(pre, sh, d),
        search_present(post) == search_present(pre),
        keyboard_present(post) == keyboard_present(pre),
{
    assert forall|i: int, j: int|
        #![trigger post[i].tag(), post[j].tag()]
        0 <= i < j < post.len() && is_floating(post[i].tag()) implies is_floating(
        post[j].tag(),
    ) by {
        assert(is_floating(pre[i].tag()));
    }
    if search_only_at(pre, sh, cont, d) {
        assert forall|i: int|
            0 <= i < post.len() && #[trigger] post[i].tag() == KindTag::SearchBar implies i == sh
            + 2 by {
            assert(pre[i].tag() == KindTag::SearchBar);
        }
        assert forall|i: int|
            0 <= i < post.len() implies #[trigger] post[i].tag() != KindTag::Keyboard by {
            assert(pre[i].tag() != KindTag::Keyboard);
        }
        assert(search_only_at(post, sh, cont, d));
        assert(search_present(post) && search_present(pre)) by {
            assert(post[sh + 2].tag() == KindTag::SearchBar);
            assert(pre[sh + 2].tag() == KindTag::SearchBar);
        }
    } else if search_with_kb_at(pre, sh, cont, d) {
        assert forall|i: int|
            0 <= i < post.len() && #[trigger] post[i].tag() == KindTag::SearchBar implies i == sh
            + 2 by {
            assert(pre[i].tag() == KindTag::SearchBar);
        }
        assert forall|i: int|
            0 <= i < post.len() && #[trigger] post[i].tag() == KindTag::Keyboard implies i == sh
            + 4 by {
            assert(pre[i].tag() == KindTag::Keyboard);
        }
        assert(search_with_kb_at(post, sh, cont, d));
        assert(search_present(post) && search_present(pre)) by {
            assert(post[sh + 2].tag() == KindTag::SearchBar);
            assert(pre[sh + 2].tag() == KindTag::SearchBar);
        }
        assert(keyboard_present(post) && keyboard_present(pre)) by {
            assert(post[sh + 4].tag() == KindTag::Keyboard);
            assert(pre[sh + 4].tag() == KindTag::Keyboard);
        }
    } else {
        assert(overlay_closed(pre));
        assert forall|i: int|
            0 <= i < post.len() implies #[trigger] post[i].tag() != KindTag::SearchBar
            && post[i].tag() != KindTag::Keyboard by {
            assert(pre[i].tag() != KindTag::SearchBar && pre[i].tag() != KindTag::Keyboard);
        }
        assert(!search_present(post) && !search_present(pre));
        assert(!keyboard_present(post) && !keyboard_present(pre));
    }
}

} // verus!
