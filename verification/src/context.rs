//! The shared application context threaded by reference through every
//! dispatch call, and the identity allocator for view nodes.
//!
//! The context bundles the device profile (band heights already scaled to
//! pixels), the keyboard layouts, per-input submission history, the display
//! state, and the values that external collaborators supply: provider display
//! strings (battery, clock), the catalog listing and work-index metrics, and
//! the most recent draw of the random source.

use vstd::prelude::*;

use crate::event::{SortMethod, ViewId};
use crate::geom::{Point, Rect};

verus! {

/// Issues process-unique, monotonically increasing identifiers for view
/// nodes.  Identifiers are assigned once at node construction and never
/// reused.
#[derive(Clone, Copy, Debug)]
pub struct IdFeeder {
    pub counter: u64,
}

impl IdFeeder {
    pub fn new() -> (f: IdFeeder)
        ensures
            f.counter == 0,
    {
        IdFeeder { counter: 0 }
    }

    /// The next identifier; strictly larger than every identifier issued
    /// before it.
    pub fn next(&mut self) -> (id: u64)
        requires
            old(self).counter < u64::MAX,
        ensures
            id == old(self).counter,
            final(self).counter == old(self).counter + 1,
    {
        let id = self.counter;
        self.counter = self.counter + 1;
        id
    }
}

/// Fixed band heights for the current device, in pixels (the DPI scaling of
/// the millimetre constants happens outside this engine).
#[derive(Clone, Copy, Debug)]
pub struct Dims {
    /// Separator thickness.
    pub thickness: i32,
    /// Height of a small bar (top bar, search bar, bottom bar band).
    pub small_height: i32,
    /// Height of one keyboard row band.
    pub big_height: i32,
    /// Height of a favourite-entry row.
    pub fave_height: i32,
}

impl Dims {
    pub open spec fn wf(self) -> bool {
        &&& 0 < self.thickness <= 16
        &&& self.thickness <= self.small_height <= 4096
        &&& self.thickness <= self.big_height <= 4096
        &&& 0 < self.fave_height <= 4096
    }

    /// The half of a separator drawn above (or left of) a band boundary.
    pub open spec fn spec_small_thickness(self) -> int {
        self.thickness / 2
    }

    /// The half of a separator drawn below (or right of) a band boundary.
    pub open spec fn spec_big_thickness(self) -> int {
        self.thickness - self.thickness / 2
    }

    /// Height of the on-screen keyboard band (three key rows).
    pub open spec fn spec_kb_height(self) -> int {
        3 * self.big_height
    }

    pub fn small_thickness(&self) -> (r: i32)
        requires
            self.wf(),
        ensures
            r == self.spec_small_thickness(),
    {
        self.thickness / 2
    }

    pub fn big_thickness(&self) -> (r: i32)
        requires
            self.wf(),
        ensures
            r == self.spec_big_thickness(),
    {
        self.thickness - self.thickness / 2
    }

    pub fn kb_height(&self) -> (r: i32)
        requires
            self.wf(),
        ensures
            r == self.spec_kb_height(),
    {
        3 * self.big_height
    }
}

impl Default for Dims {
    /// The profile of the reference device: 2 px separators, 68 px bars,
    /// 84 px keyboard rows, 57 px favourite rows.
    fn default() -> (d: Dims)
        ensures
            d == (Dims { thickness: 2, small_height: 68, big_height: 84, fave_height: 57 }),
            d.wf(),
    {
        Dims { thickness: 2, small_height: 68, big_height: 84, fave_height: 57 }
    }
}

/// The display driver's state as last reported to (or requested by) the
/// engine.
#[derive(Clone, Copy, Debug)]
pub struct DisplayState {
    pub rotation: i8,
    pub width: i32,
    pub height: i32,
    /// Mirroring direction of the panel, from the device profile; used to
    /// turn rotation gestures into canonical rotation values.
    pub mirror_dir: i8,
    /// Axis handling for the current rotation, from the device profile.
    pub mirror_x: bool,
    pub mirror_y: bool,
    pub swap_xy: bool,
}

/// Work-index metrics last reported by the catalog provider.
#[derive(Clone, Copy, Debug)]
pub struct IndexData {
    pub max_page: usize,
    pub max_works: usize,
    pub max_lines: usize,
}

/// Settings fields that the engine reads.
#[derive(Debug)]
pub struct Settings {
    pub sort_method: SortMethod,
    pub keyboard_layout: String,
    pub thumbnail_previews: bool,
    pub show_hidden: bool,
}

pub struct Context {
    pub ids: IdFeeder,
    pub dims: Dims,
    /// Keyboard geometry cache: the rectangle of the open keyboard, or the
    /// degenerate rectangle at the origin when none is open.
    pub kb_rect: Rect,
    pub settings: Settings,
    /// Names of the installed keyboard layouts.
    pub keyboard_layouts: Vec<String>,
    /// Per-input history of submitted texts.
    pub input_history: Vec<(ViewId, Vec<String>)>,
    /// Display string supplied by the battery provider.
    pub battery_text: String,
    /// Display string supplied by the clock provider.
    pub clock_text: String,
    /// Most recent draw of the external random source; refreshed by the
    /// dispatcher between events.
    pub random: u64,
    pub display: DisplayState,
    /// Rotation the framebuffer reported before the current screen opened.
    pub fb_rotation: i8,
    /// Entries for the main drop-down menu, prepared outside the engine
    /// (their labels come from settings the engine does not read); opening
    /// the menu moves them into the menu node.
    pub main_menu_entries: Vec<crate::event::EntryKind>,
    /// Catalog listing (entry identifiers in provider order).
    pub library: Vec<u64>,
    /// Metrics of the currently loaded work index.
    pub index: IndexData,
}

impl Context {
    /// Basic limits: the device profile is sane and the provider-supplied
    /// lists fit in a drop-down menu.
    pub open spec fn wf(self) -> bool {
        &&& self.dims.wf()
        &&& self.keyboard_layouts@.len() <= 256
        &&& self.main_menu_entries@.len() <= 256
        &&& forall|i: int|
            0 <= i < self.input_history@.len() ==> #[trigger] self.input_history@[i].1@.len()
                <= 256
    }

    /// Clear the keyboard geometry cache.
    pub fn clear_kb_rect(&mut self)
        ensures
            final(self).kb_rect == (Rect {
                min: Point { x: 0, y: 0 },
                max: Point { x: 0, y: 0 },
            }),
            *final(self) == (Context { kb_rect: final(self).kb_rect, ..*old(self) }),
    {
        self.kb_rect = Rect { min: Point { x: 0, y: 0 }, max: Point { x: 0, y: 0 } };
    }
}

} // verus!
