//! Geometry, lookup, menus, the session helpers, and the small screens.

use inkshelf::address_bar::AddressBar;
use inkshelf::common::{
    locate, locate_by_id, overlapping_rectangle, rlocate, shift, toggle_battery_menu,
    toggle_clock_menu, toggle_input_history_menu, toggle_keyboard_layout_menu,
    transfer_notifications,
};
use inkshelf::context::{Context, Dims, DisplayState, IdFeeder, IndexData, Settings};
use inkshelf::event::{EntryKind, Event, GestureEvent, Hub, SortMethod, ViewId};
use inkshelf::geom::{halves, Point, Rect};
use inkshelf::http::{list_to_str, login_outcome, Link};
use inkshelf::node::{KindTag, Node, NodeKind};
use inkshelf::render::{RenderQueue, UpdateMode};
use inkshelf::rotation::RotationValues;

fn test_context() -> Context {
    Context {
        ids: IdFeeder::new(),
        dims: Dims { thickness: 2, small_height: 68, big_height: 84, fave_height: 57 },
        kb_rect: Rect::new(0, 0, 0, 0),
        settings: Settings {
            sort_method: SortMethod::Added,
            keyboard_layout: "english".to_string(),
            thumbnail_previews: false,
            show_hidden: false,
        },
        keyboard_layouts: vec!["english".to_string(), "dvorak".to_string()],
        input_history: vec![(
            ViewId::HomeSearchInput,
            vec!["dragons".to_string(), "time travel".to_string()],
        )],
        battery_text: "Discharging 80%".to_string(),
        clock_text: "12:00".to_string(),
        random: 7,
        display: DisplayState {
            rotation: 0,
            width: 600,
            height: 800,
            mirror_dir: 1,
            mirror_x: false,
            mirror_y: false,
            swap_xy: false,
        },
        fb_rotation: 0,
        main_menu_entries: Vec::new(),
        library: Vec::new(),
        index: IndexData { max_page: 1, max_works: 0, max_lines: 10 },
    }
}

fn leaf(ctx: &mut Context, rect: Rect, kind: NodeKind, view_id: Option<ViewId>) -> Node {
    Node::new(ctx, rect, kind, view_id)
}

#[test]
fn rect_math_absorb_includes_halves() {
    let mut a = Rect::new(0, 0, 10, 10);
    let b = Rect::new(5, -3, 20, 8);
    a.absorb(&b);
    assert_eq!(a, Rect::new(0, -3, 20, 10));
    assert!(a.includes(Point::new(0, 0)));
    assert!(!a.includes(Point::new(20, 5)));
    assert_eq!(halves(5), (2, 3));
    assert_eq!(halves(2), (1, 1));
}

#[test]
fn lookup_finds_first_last_and_by_tag() {
    let mut ctx = test_context();
    let mut children: Vec<Node> = Vec::new();
    assert_eq!(locate(&children, KindTag::Filler), None);
    assert_eq!(rlocate(&children, KindTag::Filler), None);

    children.push(leaf(&mut ctx, Rect::new(0, 0, 1, 1), NodeKind::Filler { color: 0 }, None));
    children.push(leaf(
        &mut ctx,
        Rect::new(0, 1, 1, 2),
        NodeKind::Fave { title: "a".to_string(), location: None },
        None,
    ));
    children.push(leaf(&mut ctx, Rect::new(0, 2, 1, 3), NodeKind::Filler { color: 0 }, None));
    children.push(leaf(
        &mut ctx,
        Rect::new(0, 3, 1, 4),
        NodeKind::Icon { name: "home".to_string() },
        Some(ViewId::MainMenu),
    ));

    assert_eq!(locate(&children, KindTag::Filler), Some(0));
    assert_eq!(rlocate(&children, KindTag::Filler), Some(2));
    assert_eq!(locate(&children, KindTag::Keyboard), None);
    assert_eq!(locate_by_id(&children, ViewId::MainMenu), Some(3));
    assert_eq!(locate_by_id(&children, ViewId::SortMenu), None);
}

#[test]
fn shift_translates_a_whole_subtree() {
    let mut ctx = test_context();
    let mut parent = leaf(&mut ctx, Rect::new(0, 0, 10, 10), NodeKind::Filler { color: 0 }, None);
    let child = leaf(&mut ctx, Rect::new(2, 2, 4, 4), NodeKind::Filler { color: 0 }, None);
    parent.children.push(child);
    shift(&mut parent, Point::new(5, -1));
    assert_eq!(parent.rect, Rect::new(5, -1, 15, 9));
    assert_eq!(parent.children[0].rect, Rect::new(7, 1, 9, 3));
}

#[test]
fn overlapping_rectangle_covers_children() {
    let mut ctx = test_context();
    let mut parent = leaf(&mut ctx, Rect::new(0, 0, 10, 10), NodeKind::Filler { color: 0 }, None);
    parent.children.push(leaf(
        &mut ctx,
        Rect::new(-5, 2, 4, 20),
        NodeKind::Filler { color: 0 },
        None,
    ));
    assert_eq!(overlapping_rectangle(&parent), Rect::new(-5, 0, 10, 20));
}

#[test]
fn battery_menu_toggles_idempotently() {
    let mut ctx = test_context();
    let mut rq = RenderQueue::new();
    let mut children: Vec<Node> = Vec::new();
    let near = Rect::new(100, 0, 180, 40);

    toggle_battery_menu(&mut children, near, None, &mut rq, &mut ctx);
    assert_eq!(children.len(), 1);
    assert_eq!(locate_by_id(&children, ViewId::BatteryMenu), Some(0));
    match &children[0].kind {
        NodeKind::Menu { entries, .. } => match &entries[0] {
            EntryKind::Message(t) => assert_eq!(t.as_str(), "Discharging 80%"),
            _ => panic!("expected a message entry"),
        },
        _ => panic!("expected a menu"),
    }

    // Forcing open while open is a no-op with no queue writes.
    let rq_len = rq.len();
    toggle_battery_menu(&mut children, near, Some(true), &mut rq, &mut ctx);
    assert_eq!(children.len(), 1);
    assert_eq!(rq.len(), rq_len);

    // Closing removes it and exposes its region.
    toggle_battery_menu(&mut children, near, None, &mut rq, &mut ctx);
    assert_eq!(children.len(), 0);
    assert_eq!(rq.entries[rq.len() - 1].id, None);
}

#[test]
fn clock_menu_shows_the_provider_string() {
    let mut ctx = test_context();
    let mut rq = RenderQueue::new();
    let mut children: Vec<Node> = Vec::new();
    toggle_clock_menu(&mut children, Rect::new(0, 0, 80, 40), None, &mut rq, &mut ctx);
    match &children[0].kind {
        NodeKind::Menu { entries, .. } => match &entries[0] {
            EntryKind::Message(t) => assert_eq!(t.as_str(), "12:00"),
            _ => panic!("expected a message entry"),
        },
        _ => panic!("expected a menu"),
    }
}

#[test]
fn input_history_menu_mirrors_the_recorded_submissions() {
    let mut ctx = test_context();
    let mut rq = RenderQueue::new();
    let mut children: Vec<Node> = Vec::new();

    // No history for this input: opening does nothing.
    toggle_input_history_menu(
        &mut children,
        ViewId::CalculatorInput,
        Rect::new(0, 0, 80, 40),
        None,
        &mut rq,
        &mut ctx,
    );
    assert_eq!(children.len(), 0);

    toggle_input_history_menu(
        &mut children,
        ViewId::HomeSearchInput,
        Rect::new(0, 0, 80, 40),
        None,
        &mut rq,
        &mut ctx,
    );
    assert_eq!(children.len(), 1);
    match &children[0].kind {
        NodeKind::Menu { entries, .. } => {
            assert_eq!(entries.len(), 2);
            match &entries[1] {
                EntryKind::Command(name, _) => assert_eq!(name.as_str(), "time travel"),
                _ => panic!("expected a command entry"),
            }
        },
        _ => panic!("expected a menu"),
    }
}

#[test]
fn keyboard_layout_menu_lists_installed_layouts() {
    let mut ctx = test_context();
    let mut rq = RenderQueue::new();
    let mut children: Vec<Node> = Vec::new();
    toggle_keyboard_layout_menu(&mut children, Rect::new(0, 0, 80, 40), None, &mut rq, &mut ctx);
    match &children[0].kind {
        NodeKind::Menu { entries, .. } => {
            assert_eq!(entries.len(), 2);
            match &entries[0] {
                EntryKind::Command(name, _) => assert_eq!(name.as_str(), "english"),
                _ => panic!("expected a command entry"),
            }
        },
        _ => panic!("expected a menu"),
    }
}

#[test]
fn notifications_move_between_containers_in_order() {
    let mut ctx = test_context();
    let mut rq = RenderQueue::new();
    let r1 = Rect::new(0, 0, 600, 800);
    let r2 = Rect::new(0, 0, 800, 600);
    let mut from: Vec<Node> = Vec::new();
    let mut to: Vec<Node> = Vec::new();
    from.push(leaf(&mut ctx, Rect::new(0, 0, 1, 1), NodeKind::Filler { color: 0 }, None));
    from.push(leaf(
        &mut ctx,
        Rect::new(0, 0, 100, 30),
        NodeKind::Notification { text: "one".to_string() },
        None,
    ));
    from.push(leaf(
        &mut ctx,
        Rect::new(0, 0, 100, 30),
        NodeKind::Notification { text: "two".to_string() },
        None,
    ));
    transfer_notifications(&mut from, r1, &mut to, r2, &mut rq, &mut ctx);
    assert_eq!(from.len(), 1);
    assert_eq!(to.len(), 2);
    match (&to[0].kind, &to[1].kind) {
        (NodeKind::Notification { text: a }, NodeKind::Notification { text: b }) => {
            assert_eq!(a.as_str(), "one");
            assert_eq!(b.as_str(), "two");
        },
        _ => panic!("expected notifications"),
    }
    // Different geometry: the notifications were repositioned.
    assert_eq!(to[0].rect, r2);
}

#[test]
fn link_titles_join_with_the_separator() {
    let list = vec![
        Link { title: "First".to_string(), location: "/works/1".to_string() },
        Link { title: "Second".to_string(), location: "/works/2".to_string() },
        Link { title: "Third".to_string(), location: "/works/3".to_string() },
    ];
    assert_eq!(list_to_str(&list, ", "), "First, Second, Third");
    assert_eq!(list_to_str(&Vec::new(), ", "), "");
    let one = vec![Link { title: "Only".to_string(), location: "".to_string() }];
    assert_eq!(list_to_str(&one, ", "), "Only");
}

#[test]
fn login_outcome_classifies_response_bodies() {
    assert!(login_outcome("<p>Successfully logged in.</p>"));
    assert!(login_outcome("<p>You are already signed in.</p>"));
    assert!(!login_outcome(
        "The password or user name you entered doesn't match our records."
    ));
    // The failure notice wins even if a success phrase also occurs.
    assert!(!login_outcome(
        "Successfully logged in. The password or user name you entered doesn't match our records."
    ));
    assert!(!login_outcome("<html>nothing relevant</html>"));
}

#[test]
fn address_bar_lays_out_five_children() {
    let mut ctx = test_context();
    let bar = AddressBar::new(Rect::new(0, 0, 600, 60), "https://fakeo3.org", &mut ctx);
    assert_eq!(bar.children().len(), 5);
    assert_eq!(bar.children()[0].rect, Rect::new(0, 0, 60, 60));
    assert_eq!(bar.children()[1].rect, Rect::new(60, 0, 62, 60));
    assert_eq!(bar.children()[2].rect, Rect::new(62, 0, 538, 60));
    assert_eq!(bar.children()[4].rect, Rect::new(540, 0, 600, 60));
    match &bar.children()[2].kind {
        NodeKind::InputField { text, .. } => assert_eq!(text.as_str(), "https://fakeo3.org"),
        _ => panic!("expected the input field"),
    }
}

#[test]
fn address_bar_set_text_and_hit_test() {
    let mut ctx = test_context();
    let mut rq = RenderQueue::new();
    let mut hub = Hub::new();
    let mut bar = AddressBar::new(Rect::new(0, 0, 600, 60), "", &mut ctx);
    bar.set_text("https://fakeo3.org/works", &mut rq, &mut ctx);
    match &bar.children()[2].kind {
        NodeKind::InputField { text, .. } => {
            assert_eq!(text.as_str(), "https://fakeo3.org/works")
        },
        _ => panic!("expected the input field"),
    }
    let inside = Event::Gesture(GestureEvent::Tap(Point::new(10, 10)));
    let outside = Event::Gesture(GestureEvent::Tap(Point::new(10, 100)));
    assert!(bar.handle_event(&inside, &mut hub, &mut rq, &mut ctx));
    assert!(!bar.handle_event(&outside, &mut hub, &mut rq, &mut ctx));
}

#[test]
fn rotation_values_walks_the_calibration_phases() {
    let mut ctx = test_context();
    let mut rq = RenderQueue::new();
    let mut hub = Hub::new();
    let mut v = RotationValues::new(Rect::new(0, 0, 600, 800), &mut rq, &mut ctx);
    assert_eq!(v.taps_count, 0);

    let tap = Event::Gesture(GestureEvent::Tap(Point::new(1, 1)));
    for _ in 0..3 {
        v.handle_event(&tap, &mut hub, &mut rq, &mut ctx);
    }
    assert_eq!(v.taps_count, 3);
    assert_eq!(ctx.display.rotation, 0);

    // The fourth tap starts turning the display.
    v.handle_event(&tap, &mut hub, &mut rq, &mut ctx);
    assert_eq!(v.taps_count, 4);
    assert_eq!(ctx.display.rotation, 0);
    v.handle_event(&tap, &mut hub, &mut rq, &mut ctx);
    assert_eq!(ctx.display.rotation, 1);

    for _ in 0..2 {
        v.handle_event(&tap, &mut hub, &mut rq, &mut ctx);
    }
    assert_eq!(v.taps_count, 7);
    assert_eq!(ctx.display.rotation, 3);
    assert!(hub.events.is_empty());

    // The eighth tap finishes and asks to go back.
    v.handle_event(&tap, &mut hub, &mut rq, &mut ctx);
    assert!(matches!(hub.events[hub.events.len() - 1], Event::Back));
}

#[test]
fn render_requests_carry_region_and_mode() {
    let mut rq = RenderQueue::new();
    rq.add(inkshelf::render::RenderData::new(7, Rect::new(0, 0, 10, 10), UpdateMode::Partial));
    rq.add(inkshelf::render::RenderData::expose(Rect::new(0, 0, 5, 5), UpdateMode::Gui));
    assert_eq!(rq.len(), 2);
    assert_eq!(rq.entries[0].id, Some(7));
    assert_eq!(rq.entries[1].id, None);
    assert_eq!(rq.entries[1].mode, UpdateMode::Gui);
}

#[test]
fn rotation_values_opt_out_of_gesture_rotation() {
    let mut ctx = test_context();
    let mut rq = RenderQueue::new();
    let v = RotationValues::new(Rect::new(0, 0, 600, 800), &mut rq, &mut ctx);
    assert!(!v.might_rotate());
    assert_eq!(rq.len(), 1);
}
