//! The home screen: construction of its chrome and its rows.

use inkshelf::context::{Context, Dims, DisplayState, IdFeeder, IndexData, Settings};
use inkshelf::event::{Hub, SortMethod, ViewId};
use inkshelf::geom::Rect;
use inkshelf::home::Home;
use inkshelf::node::{KindTag, NodeKind};
use inkshelf::render::RenderQueue;
use inkshelf::common::{locate, rlocate};

fn test_context() -> Context {
    Context {
        ids: IdFeeder::new(),
        dims: Dims { thickness: 2, small_height: 68, big_height: 84, fave_height: 57 },
        kb_rect: Rect::new(0, 0, 0, 0),
        settings: Settings {
            sort_method: SortMethod::Added,
            keyboard_layout: "english".to_string(),
            thumbnail_previews: false,
            show_hidden: false,
        },
        keyboard_layouts: vec!["english".to_string()],
        input_history: Vec::new(),
        battery_text: "Discharging 80%".to_string(),
        clock_text: "12:00".to_string(),
        random: 7,
        display: DisplayState {
            rotation: 0,
            width: 600,
            height: 800,
            mirror_dir: 1,
            mirror_x: false,
            mirror_y: false,
            swap_xy: false,
        },
        fb_rotation: 0,
        main_menu_entries: Vec::new(),
        library: Vec::new(),
        index: IndexData { max_page: 1, max_works: 0, max_lines: 10 },
    }
}

#[test]
#[allow(non_snake_case)]
fn WHEN_createBackgroundIsCalled_THEN_aFullSizeWhiteRectangleIsAddedToChildren() {
    let mut ctx = test_context();
    let mut home = Home::new_empty(Rect::new(0, 0, 600, 800), &mut ctx);
    home.create_background(&mut ctx);
    assert_eq!(home.children().len(), 1);
    assert_eq!(home.children()[0].rect, Rect::new(0, 0, 600, 800));
    assert!(matches!(home.children()[0].kind, NodeKind::Filler { color: 255 }));
}

#[test]
#[allow(non_snake_case)]
fn WHEN_createTopBarIsCalled_THEN_aTopBarIsAddedToChildren() {
    let mut ctx = test_context();
    let mut home = Home::new_empty(Rect::new(0, 0, 600, 800), &mut ctx);
    home.create_top_bar("%H:%M".to_string(), true, &mut ctx);
    assert_eq!(home.children().len(), 1);
    assert_eq!(home.children()[0].rect, Rect::new(0, 0, 600, 68));
    assert!(matches!(home.children()[0].kind, NodeKind::TopBar { .. }));
}

#[test]
#[allow(non_snake_case)]
fn WHEN_createMarkedForLaterIsCalled_THEN_aMarkedForLaterLabelIsAddedToChildren() {
    let mut ctx = test_context();
    let mut home = Home::new_empty(Rect::new(0, 0, 600, 800), &mut ctx);
    home.create_marked_for_later(5, &mut ctx);
    assert_eq!(home.children().len(), 1);
    assert_eq!(home.children()[0].rect, Rect::new(0, 5, 600, 62));
    assert!(matches!(home.children()[0].kind, NodeKind::Fave { .. }));
}

#[test]
#[allow(non_snake_case)]
fn WHEN_createFaveSearchIsCalled_THEN_aFaveLabelIsAddedToChildren() {
    let mut ctx = test_context();
    let mut home = Home::new_empty(Rect::new(0, 0, 600, 800), &mut ctx);
    home.create_fav_search(
        (
            "Test Fave".to_string(),
            "https://fakeo3.org/tags/super-fake".to_string(),
        ),
        5,
        &mut ctx,
    );
    assert_eq!(home.children().len(), 1);
    assert_eq!(home.children()[0].rect, Rect::new(0, 5, 600, 62));
    assert!(matches!(home.children()[0].kind, NodeKind::Fave { .. }));
}

#[test]
#[allow(non_snake_case)]
fn GIVEN_loggedInUser_WHEN_homeNewIsCalled_THEN_aHomePageWithTheStandardChildrenPlusMarkedForLaterIsCreated(
) {
    let mut ctx = test_context();
    let mut rq = RenderQueue::new();
    let faves = vec![(
        "Test Fave".to_string(),
        "https://fakeo3.org/tags/super-fake".to_string(),
    )];
    let home = Home::new(
        Rect::new(0, 0, 600, 800),
        &mut rq,
        "%H:%M".to_string(),
        true,
        true,
        &faves,
        &mut ctx,
    );
    assert_eq!(locate(home.children(), KindTag::Filler).unwrap(), 0);
    assert_eq!(locate(home.children(), KindTag::TopBar).unwrap(), 1);
    assert_eq!(locate(home.children(), KindTag::Fave).unwrap(), 2);
    assert_eq!(rlocate(home.children(), KindTag::Fave).unwrap(), 3);
    assert_eq!(rlocate(home.children(), KindTag::BottomBar).unwrap(), 5);
}

#[test]
fn home_new_queues_one_full_refresh_and_anchor_fills_remaining_band() {
    let mut ctx = test_context();
    let mut rq = RenderQueue::new();
    let home = Home::new(
        Rect::new(0, 0, 600, 800),
        &mut rq,
        "%H:%M".to_string(),
        true,
        false,
        &Vec::new(),
        &mut ctx,
    );
    assert_eq!(rq.len(), 1);
    // With neither history row nor favourites the top bar is the anchor,
    // stretched to the bottom chrome (800 - 68 - 1).
    assert_eq!(home.shelf_index, 1);
    assert_eq!(home.children()[home.shelf_index].rect.max.y, 731);
}

#[test]
fn rlocate_finds_the_last_of_many_favourites() {
    let mut ctx = test_context();
    let mut rq = RenderQueue::new();
    let faves = vec![
        ("one".to_string(), "https://fakeo3.org/tags/one".to_string()),
        ("two".to_string(), "https://fakeo3.org/tags/two".to_string()),
        ("three".to_string(), "https://fakeo3.org/tags/three".to_string()),
    ];
    let home = Home::new(
        Rect::new(0, 0, 600, 800),
        &mut rq,
        "%H:%M".to_string(),
        true,
        false,
        &faves,
        &mut ctx,
    );
    // Children: background, top bar, three favourite rows, then the chrome.
    assert_eq!(locate(home.children(), KindTag::Fave).unwrap(), 2);
    assert_eq!(rlocate(home.children(), KindTag::Fave).unwrap(), 4);
    assert_eq!(home.shelf_index, 4);
}

#[test]
fn home_search_toggle_round_trip_restores_the_children() {
    let mut ctx = test_context();
    let mut rq = RenderQueue::new();
    let faves = vec![(
        "Test Fave".to_string(),
        "https://fakeo3.org/tags/super-fake".to_string(),
    )];
    let mut home = Home::new(
        Rect::new(0, 0, 600, 800),
        &mut rq,
        "%H:%M".to_string(),
        true,
        true,
        &faves,
        &mut ctx,
    );
    let before: Vec<(u64, Rect)> = home.children().iter().map(|n| (n.id, n.rect)).collect();

    let mut hub = Hub::new();
    let mut rq2 = RenderQueue::new();
    home.toggle_search_bar(None, true, &mut hub, &mut rq2, &mut ctx);
    assert_eq!(home.children().len(), before.len() + 2);
    assert_eq!(rlocate(home.children(), KindTag::SearchBar), Some(home.shelf_index + 2));

    home.toggle_search_bar(Some(false), true, &mut hub, &mut rq2, &mut ctx);
    let after: Vec<(u64, Rect)> = home.children().iter().map(|n| (n.id, n.rect)).collect();
    assert_eq!(after, before);
}

#[test]
fn home_focus_cascade_opens_both_overlays_and_submit_closes_them() {
    let mut ctx = test_context();
    let mut rq = RenderQueue::new();
    let mut home = Home::new(
        Rect::new(0, 0, 600, 800),
        &mut rq,
        "%H:%M".to_string(),
        true,
        false,
        &Vec::new(),
        &mut ctx,
    );
    let mut hub = inkshelf::event::Hub::new();
    let len = home.children().len();

    home.handle_event(
        &inkshelf::event::Event::Focus(Some(ViewId::SiteTextSearchInput)),
        &mut hub,
        &mut rq,
        &mut ctx,
    );
    assert_eq!(home.children().len(), len + 4);
    assert!(rlocate(home.children(), KindTag::Keyboard).is_some());

    home.handle_event(
        &inkshelf::event::Event::Submit(ViewId::SiteTextSearchInput, "dragons".to_string()),
        &mut hub,
        &mut rq,
        &mut ctx,
    );
    assert_eq!(home.children().len(), len);
    assert!(rlocate(home.children(), KindTag::Keyboard).is_none());
    assert!(rlocate(home.children(), KindTag::SearchBar).is_none());
    // The committed text is forwarded for loading.
    assert!(hub
        .events
        .iter()
        .any(|e| matches!(e, inkshelf::event::Event::LoadSearch(t) if t == "dragons")));
}
