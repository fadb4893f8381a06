//! Application-level events and the outbound event hub.
//!
//! Events are values in a closed, tagged union; they carry no mutable state
//! back to the sender.  The hub is the one-way channel by which a node, while
//! handling one event, deposits follow-up events; the top-level dispatcher
//! drains them strictly after the current handler returns, in emission order,
//! so a handler can never re-enter itself or a sibling mid-mutation.

use vstd::prelude::*;

use crate::geom::{Point, Rect};

verus! {

/// Semantic tags: a closed set of logical roles used for content-based
/// lookup independent of tree position.  Not all nodes carry a tag.
#[derive(Clone, Copy, Debug, PartialEq, Eq, Structural)]
pub enum ViewId {
    Home,
    SearchBar,
    SiteTextSearchInput,
    Keyboard,
    GoToPage,
    GoToPageInput,
    SortMenu,
    TitleMenu,
    MainMenu,
    BatteryMenu,
    ClockMenu,
    SearchMenu,
    InputHistoryMenu,
    KeyboardLayoutMenu,
    HomeSearchInput,
    ReaderSearchInput,
    DictionarySearchInput,
    CalculatorInput,
    AddressBar,
    AddressBarInput,
    InvalidSearchQueryNotif,
}

/// Orderings offered for the catalog listing.
#[derive(Clone, Copy, Debug, PartialEq, Eq, Structural)]
pub enum SortMethod {
    Opened,
    Added,
    Progress,
    Author,
    Title,
    Year,
    Size,
    Kind,
    FileName,
    FilePath,
}

impl SortMethod {
    /// The orderings that are most useful newest-first default to a reversed
    /// listing.
    pub fn reverse_order(&self) -> (b: bool)
        ensures
            b == self.spec_reverse_order(),
    {
        match self {
            SortMethod::Opened | SortMethod::Added | SortMethod::Progress | SortMethod::Year
                | SortMethod::Size => true,
            _ => false,
        }
    }

    pub open spec fn spec_reverse_order(self) -> bool {
        match self {
            SortMethod::Opened | SortMethod::Added | SortMethod::Progress | SortMethod::Year
                | SortMethod::Size => true,
            _ => false,
        }
    }

    /// The label shown for the ordering in the top bar and the sort menu.
    pub open spec fn spec_title(self) -> Seq<char> {
        match self {
            SortMethod::Opened => "Date Opened"@,
            SortMethod::Added => "Date Added"@,
            SortMethod::Progress => "Progress"@,
            SortMethod::Author => "Author"@,
            SortMethod::Title => "Title"@,
            SortMethod::Year => "Year"@,
            SortMethod::Size => "File Size"@,
            SortMethod::Kind => "File Type"@,
            SortMethod::FileName => "File Name"@,
            SortMethod::FilePath => "File Path"@,
        }
    }

    pub fn title(&self) -> (r: String)
        ensures
            r@ == self.spec_title(),
    {
        match self {
            SortMethod::Opened => String::from_str("Date Opened"),
            SortMethod::Added => String::from_str("Date Added"),
            SortMethod::Progress => String::from_str("Progress"),
            SortMethod::Author => String::from_str("Author"),
            SortMethod::Title => String::from_str("Title"),
            SortMethod::Year => String::from_str("Year"),
            SortMethod::Size => String::from_str("File Size"),
            SortMethod::Kind => String::from_str("File Type"),
            SortMethod::FileName => String::from_str("File Name"),
            SortMethod::FilePath => String::from_str("File Path"),
        }
    }
}

#[derive(Clone, Copy, Debug, PartialEq, Eq, Structural)]
pub enum CycleDir {
    Next,
    Previous,
}

#[derive(Clone, Copy, Debug, PartialEq, Eq, Structural)]
pub enum Dir {
    North,
    South,
    East,
    West,
}

#[derive(Clone, Copy, Debug, PartialEq, Eq, Structural)]
pub enum ButtonCode {
    Forward,
    Backward,
}

#[derive(Clone, Copy, Debug, PartialEq, Eq, Structural)]
pub enum ButtonStatus {
    Pressed,
    Released,
}

#[derive(Clone, Copy, Debug, PartialEq, Eq, Structural)]
pub enum HistoryView {
    MarkedForLater,
}

/// Simple reading status attached to a catalog entry.
#[derive(Clone, Copy, Debug, PartialEq, Eq, Structural)]
pub enum SimpleStatus {
    New,
    Reading,
    Finished,
}

#[derive(Clone, Copy, Debug, PartialEq, Eq, Structural)]
pub enum GestureEvent {
    Tap(Point),
    HoldFingerShort(Point),
    Swipe { dir: Dir, start: Point, end: Point },
    Arrow { dir: Dir, start: Point, end: Point },
    Rotate { quarter_turns: i8 },
}

#[derive(Clone, Copy, Debug, PartialEq, Eq, Structural)]
pub enum DeviceEvent {
    Button { code: ButtonCode, status: ButtonStatus },
    Finger { position: Point },
    NetUp,
}

/// Identifies a menu entry's action when it is selected.
#[derive(Debug)]
pub enum EntryId {
    About,
    SystemInfo,
    ToggleInverted,
    ToggleWifi,
    TakeScreenshot,
    Reboot,
    Quit,
    Rotate(i8),
    Sort(SortMethod),
    ReverseOrder,
    Flush,
    ThumbnailPreviews,
    ToggleShowHidden,
    SearchAuthor(String),
    SetInputText(ViewId, String),
    SetKeyboardLayout(String),
    Remove(String),
    SetStatus(String, SimpleStatus),
}

/// One entry of a drop-down or contextual menu.
pub enum EntryKind {
    Command(String, EntryId),
    CheckBox(String, EntryId, bool),
    RadioButton(String, EntryId, bool),
    SubMenu(String, Vec<EntryKind>),
    Message(String),
    Separator,
}

/// The closed union of application-level occurrences routed through the tree.
#[derive(Debug)]
pub enum Event {
    Reseed,
    ClockTick,
    BatteryTick,
    ToggleFrontlight,
    Toggle(ViewId),
    ToggleNear(ViewId, Rect),
    Close(ViewId),
    Show(ViewId),
    Focus(Option<ViewId>),
    Submit(ViewId, String),
    SubmitInput(ViewId),
    Select(EntryId),
    LoadSearch(String),
    LoadHistory(HistoryView),
    LoadIndex(String),
    GoTo(u32),
    GoToTag(String),
    Chapter(CycleDir),
    Page(CycleDir),
    Gesture(GestureEvent),
    Device(DeviceEvent),
    SelectDirectory(String),
    Back,
}

/// The outbound event queue.  `send` deposits a follow-up event; the
/// dispatcher drains the queue after the current top-level dispatch finishes.
#[derive(Debug)]
pub struct Hub {
    pub events: Vec<Event>,
}

impl Hub {
    pub fn new() -> (h: Hub)
        ensures
            h.events@ =~= Seq::<Event>::empty(),
    {
        Hub { events: Vec::new() }
    }

    pub fn send(&mut self, evt: Event)
        ensures
            final(self).events@ =~= old(self).events@.push(evt),
    {
        self.events.push(evt);
    }
}

} // verus!
