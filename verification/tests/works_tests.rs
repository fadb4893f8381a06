//! The listing screen: the overlay state machine, pagination, and the
//! resize protocol.

use inkshelf::common::{locate, locate_by_id, rlocate};
use inkshelf::context::{Context, Dims, DisplayState, IdFeeder, IndexData, Settings};
use inkshelf::event::{CycleDir, Event, SortMethod, ViewId};
use inkshelf::geom::Rect;
use inkshelf::node::{KindTag, NodeKind};
use inkshelf::render::{RenderQueue, UpdateMode};
use inkshelf::event::Hub;
use inkshelf::works::Works;

fn test_context() -> Context {
    Context {
        ids: IdFeeder::new(),
        dims: Dims { thickness: 2, small_height: 68, big_height: 84, fave_height: 57 },
        kb_rect: Rect::new(0, 0, 0, 0),
        settings: Settings {
            sort_method: SortMethod::Added,
            keyboard_layout: "english".to_string(),
            thumbnail_previews: false,
            show_hidden: false,
        },
        keyboard_layouts: vec!["english".to_string()],
        input_history: Vec::new(),
        battery_text: "Discharging 80%".to_string(),
        clock_text: "12:00".to_string(),
        random: 7,
        display: DisplayState {
            rotation: 0,
            width: 600,
            height: 800,
            mirror_dir: 1,
            mirror_x: false,
            mirror_y: false,
            swap_xy: false,
        },
        fb_rotation: 0,
        main_menu_entries: Vec::new(),
        library: vec![11, 22, 33],
        index: IndexData { max_page: 5, max_works: 40, max_lines: 8 },
    }
}

fn test_works(ctx: &mut Context) -> Works {
    let mut hub = Hub::new();
    let mut rq = RenderQueue::new();
    Works::new(
        Rect::new(0, 0, 600, 800),
        "https://fakeo3.org/tags/super-fake/works".to_string(),
        &mut hub,
        &mut rq,
        ctx,
    )
}

#[test]
fn works_new_builds_top_bar_and_anchor() {
    let mut ctx = test_context();
    let w = test_works(&mut ctx);
    assert_eq!(w.children().len(), 2);
    assert_eq!(w.children()[0].rect, Rect::new(0, 0, 600, 68));
    assert_eq!(w.children()[1].rect, Rect::new(0, 68, 600, 800));
    assert_eq!(w.children()[1].rect.height(), 732);
    assert_eq!(w.shelf_index, 1);
    assert_eq!(w.pages_count, 5);
    assert_eq!(w.visible_books, vec![11, 22, 33]);
}

#[test]
fn search_toggle_open_shrinks_anchor_and_queues_union_request() {
    let mut ctx = test_context();
    let mut w = test_works(&mut ctx);
    let mut hub = Hub::new();
    let mut rq = RenderQueue::new();
    w.toggle_search_bar(None, true, &mut hub, &mut rq, &mut ctx);

    // Two new siblings directly after the anchor at index 1.
    assert_eq!(w.children().len(), 4);
    assert_eq!(w.children()[1].rect.height(), 732 - 70);
    assert!(matches!(w.children()[2].kind, NodeKind::Filler { .. }));
    assert!(matches!(w.children()[3].kind, NodeKind::SearchBar { .. }));
    assert_eq!(w.children()[2].rect, Rect::new(0, 730, 600, 732));
    assert_eq!(w.children()[3].rect, Rect::new(0, 732, 600, 800));

    // An anchor request and one request covering exactly the union of the
    // two new rectangles.
    assert_eq!(rq.len(), 2);
    assert_eq!(rq.entries[0].rect, Rect::new(0, 68, 600, 730));
    assert_eq!(rq.entries[0].mode, UpdateMode::Partial);
    assert_eq!(rq.entries[1].rect, Rect::new(0, 730, 600, 800));

    // Opening with no pending query asks for focus on the search input.
    assert_eq!(hub.events.len(), 1);
    assert!(matches!(
        hub.events[0],
        Event::Focus(Some(ViewId::HomeSearchInput))
    ));
}

#[test]
fn search_toggle_close_restores_anchor_and_queues_one_expose() {
    let mut ctx = test_context();
    let mut w = test_works(&mut ctx);
    let mut hub = Hub::new();
    let mut rq = RenderQueue::new();
    w.toggle_search_bar(Some(true), true, &mut hub, &mut rq, &mut ctx);
    let mut rq2 = RenderQueue::new();
    w.toggle_search_bar(Some(false), true, &mut hub, &mut rq2, &mut ctx);

    assert_eq!(w.children().len(), 2);
    assert_eq!(w.children()[1].rect.height(), 732);
    assert_eq!(rq2.len(), 1);
    assert_eq!(rq2.entries[0].id, None);
    assert_eq!(rq2.entries[0].rect, Rect::new(0, 730, 600, 800));
}

#[test]
fn forcing_open_twice_changes_nothing_more() {
    let mut ctx = test_context();
    let mut w = test_works(&mut ctx);
    let mut hub = Hub::new();
    let mut rq = RenderQueue::new();
    w.toggle_search_bar(Some(true), true, &mut hub, &mut rq, &mut ctx);
    let len_once = w.children().len();
    let anchor_once = w.children()[1].rect;
    let rq_once = rq.len();
    w.toggle_search_bar(Some(true), true, &mut hub, &mut rq, &mut ctx);
    assert_eq!(w.children().len(), len_once);
    assert_eq!(w.children()[1].rect, anchor_once);
    assert_eq!(rq.len(), rq_once);
}

#[test]
fn forcing_close_twice_changes_nothing_more() {
    let mut ctx = test_context();
    let mut w = test_works(&mut ctx);
    let mut hub = Hub::new();
    let mut rq = RenderQueue::new();
    w.toggle_search_bar(Some(false), true, &mut hub, &mut rq, &mut ctx);
    assert_eq!(w.children().len(), 2);
    assert_eq!(rq.len(), 0);
    w.toggle_search_bar(Some(false), true, &mut hub, &mut rq, &mut ctx);
    assert_eq!(w.children().len(), 2);
    assert_eq!(rq.len(), 0);
}

#[test]
fn focus_cascade_opens_search_and_keyboard_once() {
    let mut ctx = test_context();
    let mut w = test_works(&mut ctx);
    let mut hub = Hub::new();
    let mut rq = RenderQueue::new();

    let claimed = w.handle_event(
        &Event::Focus(Some(ViewId::HomeSearchInput)),
        &mut hub,
        &mut rq,
        &mut ctx,
    );
    assert!(claimed);
    // Exactly one search-bar-open and one keyboard-open transition.
    assert_eq!(w.children().len(), 6);
    assert!(matches!(w.children()[3].kind, NodeKind::SearchBar { .. }));
    assert!(matches!(w.children()[5].kind, NodeKind::Keyboard { .. }));
    assert_eq!(rlocate(w.children(), KindTag::Keyboard), Some(5));

    // The same focus again is a no-op.
    let len = w.children().len();
    let rq_len = rq.len();
    let hub_len = hub.events.len();
    w.handle_event(
        &Event::Focus(Some(ViewId::HomeSearchInput)),
        &mut hub,
        &mut rq,
        &mut ctx,
    );
    assert_eq!(w.children().len(), len);
    assert_eq!(rq.len(), rq_len);
    assert_eq!(hub.events.len(), hub_len);
}

#[test]
fn resize_preserves_open_overlays_and_tiles_the_new_height() {
    let mut ctx = test_context();
    let mut w = test_works(&mut ctx);
    let mut hub = Hub::new();
    let mut rq = RenderQueue::new();
    w.handle_event(
        &Event::Focus(Some(ViewId::HomeSearchInput)),
        &mut hub,
        &mut rq,
        &mut ctx,
    );
    assert!(rlocate(w.children(), KindTag::Keyboard).is_some());

    let mut rq2 = RenderQueue::new();
    w.resize(Rect::new(0, 0, 800, 1000), &mut hub, &mut rq2, &mut ctx);

    // Still open, and the bands exactly tile the new height:
    // top bar, anchor, separator, search bar, separator, keyboard.
    assert_eq!(w.children()[0].rect, Rect::new(0, 0, 800, 68));
    assert_eq!(w.children()[1].rect, Rect::new(0, 68, 800, 676));
    assert_eq!(w.children()[2].rect, Rect::new(0, 676, 800, 678));
    assert_eq!(w.children()[3].rect, Rect::new(0, 678, 800, 746));
    assert_eq!(w.children()[4].rect, Rect::new(0, 746, 800, 748));
    assert_eq!(w.children()[5].rect, Rect::new(0, 748, 800, 1000));
    assert!(matches!(w.children()[3].kind, NodeKind::SearchBar { .. }));
    assert!(matches!(w.children()[5].kind, NodeKind::Keyboard { .. }));

    // A bounding-box change invalidates everything: one full-mode refresh.
    assert_eq!(rq2.len(), 1);
    assert_eq!(rq2.entries[0].mode, UpdateMode::Full);
}

#[test]
fn resize_drops_menus_but_keeps_notifications() {
    let mut ctx = test_context();
    let mut w = test_works(&mut ctx);
    let mut rq = RenderQueue::new();
    w.toggle_sort_menu(Rect::new(10, 10, 200, 40), None, &mut rq, &mut ctx);
    assert!(locate_by_id(w.children(), ViewId::SortMenu).is_some());

    let mut hub = Hub::new();
    let mut rq2 = RenderQueue::new();
    w.resize(Rect::new(0, 0, 600, 800), &mut hub, &mut rq2, &mut ctx);
    assert!(locate_by_id(w.children(), ViewId::SortMenu).is_none());
}

#[test]
fn go_to_page_clamps_and_steps() {
    let mut ctx = test_context();
    let mut w = test_works(&mut ctx);
    let mut hub = Hub::new();
    let mut rq = RenderQueue::new();

    w.go_to_page(3, &mut hub, &mut rq, &mut ctx);
    assert_eq!(w.current_page, 3);

    // Beyond the last page: ignored.
    w.go_to_page(9, &mut hub, &mut rq, &mut ctx);
    assert_eq!(w.current_page, 3);

    w.go_to_neighbor(CycleDir::Next, &mut hub, &mut rq, &mut ctx);
    assert_eq!(w.current_page, 4);
    w.go_to_neighbor(CycleDir::Next, &mut hub, &mut rq, &mut ctx);
    assert_eq!(w.current_page, 4);
    w.go_to_neighbor(CycleDir::Previous, &mut hub, &mut rq, &mut ctx);
    assert_eq!(w.current_page, 3);
}

#[test]
fn submitted_page_numbers_are_parsed_and_one_based() {
    let mut ctx = test_context();
    let mut w = test_works(&mut ctx);
    let mut hub = Hub::new();
    let mut rq = RenderQueue::new();

    w.handle_event(
        &Event::Submit(ViewId::GoToPageInput, "3".to_string()),
        &mut hub,
        &mut rq,
        &mut ctx,
    );
    assert_eq!(w.current_page, 2);

    w.handle_event(
        &Event::Submit(ViewId::GoToPageInput, ")".to_string()),
        &mut hub,
        &mut rq,
        &mut ctx,
    );
    assert_eq!(w.current_page, 4);

    w.handle_event(
        &Event::Submit(ViewId::GoToPageInput, "(".to_string()),
        &mut hub,
        &mut rq,
        &mut ctx,
    );
    assert_eq!(w.current_page, 0);

    // The random jump draws from the context's random source: 7 % 5 == 2.
    w.handle_event(
        &Event::Submit(ViewId::GoToPageInput, "_".to_string()),
        &mut hub,
        &mut rq,
        &mut ctx,
    );
    assert_eq!(w.current_page, 2);

    // Garbage is ignored.
    w.handle_event(
        &Event::Submit(ViewId::GoToPageInput, "12a".to_string()),
        &mut hub,
        &mut rq,
        &mut ctx,
    );
    assert_eq!(w.current_page, 2);
}

#[test]
fn sort_menu_lists_every_ordering_and_selection_relabels_the_top_bar() {
    let mut ctx = test_context();
    let mut w = test_works(&mut ctx);
    let mut rq = RenderQueue::new();
    w.toggle_sort_menu(Rect::new(10, 10, 200, 40), None, &mut rq, &mut ctx);
    let i = locate_by_id(w.children(), ViewId::SortMenu).unwrap();
    match &w.children()[i].kind {
        NodeKind::Menu { entries, .. } => assert_eq!(entries.len(), 12),
        _ => panic!("expected a menu"),
    }

    let mut hub = Hub::new();
    w.handle_event(
        &Event::Select(inkshelf::event::EntryId::Sort(SortMethod::Title)),
        &mut hub,
        &mut rq,
        &mut ctx,
    );
    assert_eq!(w.sort_method, SortMethod::Title);
    assert!(!w.reverse_order);
    assert_eq!(w.current_page, 0);
    let t = locate(w.children(), KindTag::TopBar).unwrap();
    match &w.children()[t].kind {
        NodeKind::TopBar { title, .. } => assert_eq!(title.as_str(), "Title"),
        _ => panic!("expected the top bar"),
    }
}

#[test]
fn go_to_page_dialog_opens_only_with_several_pages() {
    let mut ctx = test_context();
    let mut w = test_works(&mut ctx);
    let mut hub = Hub::new();
    let mut rq = RenderQueue::new();

    w.toggle_go_to_page(None, &mut hub, &mut rq, &mut ctx);
    let i = locate_by_id(w.children(), ViewId::GoToPage).unwrap();
    assert!(matches!(w.children()[i].kind, NodeKind::NamedInput { .. }));
    assert!(matches!(
        hub.events[0],
        Event::Focus(Some(ViewId::GoToPageInput))
    ));

    w.toggle_go_to_page(None, &mut hub, &mut rq, &mut ctx);
    assert!(locate_by_id(w.children(), ViewId::GoToPage).is_none());

    // A one-page index never shows the dialog.
    ctx.index.max_page = 1;
    let mut w2 = test_works(&mut ctx);
    w2.toggle_go_to_page(None, &mut hub, &mut rq, &mut ctx);
    assert!(locate_by_id(w2.children(), ViewId::GoToPage).is_none());
}

#[test]
fn empty_search_submission_surfaces_a_notification() {
    let mut ctx = test_context();
    let mut w = test_works(&mut ctx);
    let mut hub = Hub::new();
    let mut rq = RenderQueue::new();
    let len = w.children().len();
    w.handle_event(
        &Event::Submit(ViewId::HomeSearchInput, "".to_string()),
        &mut hub,
        &mut rq,
        &mut ctx,
    );
    assert_eq!(w.children().len(), len + 1);
    assert!(matches!(
        w.children()[w.children().len() - 1].kind,
        NodeKind::Notification { .. }
    ));
    assert!(w.query.is_none());
}

#[test]
fn reverse_order_defaults_follow_the_ordering() {
    assert!(SortMethod::Added.reverse_order());
    assert!(SortMethod::Opened.reverse_order());
    assert!(!SortMethod::Title.reverse_order());
    assert!(!SortMethod::Author.reverse_order());
    assert_eq!(SortMethod::Size.title().as_str(), "File Size");
}

#[test]
fn author_search_opens_the_bar_with_the_query_text() {
    let mut ctx = test_context();
    let mut w = test_works(&mut ctx);
    let mut hub = Hub::new();
    let mut rq = RenderQueue::new();
    w.handle_event(
        &Event::Select(inkshelf::event::EntryId::SearchAuthor("edna".to_string())),
        &mut hub,
        &mut rq,
        &mut ctx,
    );
    assert_eq!(w.query.as_deref(), Some("'a edna"));
    let i = rlocate(w.children(), KindTag::SearchBar).unwrap();
    match &w.children()[i].kind {
        NodeKind::SearchBar { text, .. } => assert_eq!(text.as_str(), "'a edna"),
        _ => panic!("expected the search bar"),
    }
    assert_eq!(w.current_page, 0);
}
