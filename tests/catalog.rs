use tidal_term::controller::{Command, Controller, Effect, FetchError, PlayError};
use tidal_term::elements::{Direction, ItemList, Ui, UiElement};
use tidal_term::item::{Album, Artist, Item, Items, RequiredFetch, SearchResult, Tint, Track};

fn artist(id: u64, name: &str) -> Artist {
    Artist { id, name: name.to_string() }
}

fn track(id: u64, title: &str) -> Item {
    Item::Track(Track { id, title: title.to_string(), artists: vec![artist(100 + id, "Band")], duration: 180 })
}

fn album(id: u64, title: &str) -> Item {
    Item::Album(Album { id, title: title.to_string(), artists: vec![] })
}

fn ids(frame: &Vec<Item>) -> Vec<u64> {
    frame
        .iter()
        .map(|i| match i {
            Item::Track(t) => t.id,
            Item::Album(a) => a.id,
            Item::Artist(a) => a.id,
        })
        .collect()
}

#[test]
fn new_list_shows_empty_root() {
    let list = ItemList::new();
    assert!(list.current_frame().is_empty());
    assert_eq!(list.current_selection(), None);
    assert_eq!(list.depth(), 0);
}

#[test]
fn push_selects_first_entry() {
    let mut list = ItemList::new();
    list.push(vec![track(1, "a"), track(2, "b")]);
    assert_eq!(list.depth(), 1);
    assert_eq!(list.current_selection(), Some(0));
    list.push(vec![]);
    assert_eq!(list.depth(), 2);
    assert_eq!(list.current_selection(), None);
}

#[test]
fn push_then_back_clamps_selection_to_restored_frame() {
    let mut list = ItemList::new();
    list.push(vec![track(1, "a"), track(2, "b")]);
    list.select_next();
    assert_eq!(list.current_selection(), Some(1));
    list.push(vec![track(3, "c"), track(4, "d"), track(5, "e")]);
    list.select_next();
    list.select_next();
    assert_eq!(list.current_selection(), Some(2));
    list.back();
    assert_eq!(list.depth(), 1);
    assert_eq!(ids(list.current_frame()), vec![1, 2]);
    assert_eq!(list.current_selection(), Some(1));
}

#[test]
fn push_empty_then_back_selects_first_of_restored() {
    let mut list = ItemList::new();
    list.push(vec![track(1, "a"), track(2, "b")]);
    list.push(vec![]);
    list.back();
    assert_eq!(list.current_selection(), Some(0));
}

#[test]
fn back_at_root_is_no_op() {
    let mut list = ItemList::new();
    list.back();
    assert_eq!(list.depth(), 0);
    assert_eq!(list.current_selection(), None);
    assert!(list.current_frame().is_empty());
}

#[test]
fn back_keeps_forward_frames_until_collapse() {
    let mut list = ItemList::new();
    list.push(vec![track(1, "a")]);
    list.push(vec![track(2, "b")]);
    list.back();
    assert_eq!(list.items().depth(), 1);
    list.collapse();
    list.back();
    assert_eq!(ids(list.current_frame()), Vec::<u64>::new());
}

#[test]
fn push_after_back_drops_forward_frame() {
    let mut list = ItemList::new();
    list.push(vec![track(1, "A")]);
    list.push(vec![track(2, "B")]);
    list.back();
    list.push(vec![track(3, "C")]);
    assert_eq!(list.depth(), 2);
    assert_eq!(ids(list.current_frame()), vec![3]);
    list.back();
    assert_eq!(ids(list.current_frame()), vec![1]);
    list.back();
    assert!(list.current_frame().is_empty());
    assert_eq!(list.depth(), 0);
}

#[test]
fn selection_moves_are_clamped() {
    let mut list = ItemList::new();
    list.select_next();
    assert_eq!(list.current_selection(), None);
    list.select_previous();
    assert_eq!(list.current_selection(), None);
    list.push(vec![track(1, "a"), track(2, "b"), track(3, "c")]);
    list.select_previous();
    assert_eq!(list.current_selection(), Some(0));
    for _ in 0..5 {
        list.move_selection(Direction::Down);
        let sel = list.current_selection().unwrap();
        assert!(sel < 3);
    }
    assert_eq!(list.current_selection(), Some(2));
    list.move_selection(Direction::Up);
    assert_eq!(list.current_selection(), Some(1));
}

#[test]
fn set_items_clamps_selection() {
    let mut list = ItemList::new();
    list.push(vec![track(1, "a"), track(2, "b"), track(3, "c")]);
    list.select_next();
    list.select_next();
    let mut items = Items::new();
    items.push(vec![track(7, "x")]);
    list.set_items(items);
    assert_eq!(list.current_selection(), Some(0));
    assert_eq!(ids(list.current_frame()), vec![7]);
}

#[test]
fn search_result_order_is_artists_albums_tracks() {
    let result = SearchResult {
        artists: Some(vec![artist(10, "x"), artist(11, "y")]),
        albums: None,
        tracks: Some(vec![Track { id: 30, title: "t".to_string(), artists: vec![], duration: 1 }]),
    };
    let mut list = ItemList::new();
    list.from_search(result);
    assert_eq!(ids(list.current_frame()), vec![10, 11, 30]);
    let result = SearchResult {
        artists: None,
        albums: Some(vec![Album { id: 20, title: "al".to_string(), artists: vec![] }]),
        tracks: Some(vec![]),
    };
    let mut items = Items::new();
    items.from_search(result);
    assert_eq!(ids(items.get()), vec![20]);
    assert_eq!(items.depth(), 1);
}

#[test]
fn drill_into_by_kind() {
    assert_eq!(track(1, "a").drill_into(), RequiredFetch::Play(1));
    assert_eq!(album(2, "b").drill_into(), RequiredFetch::AlbumTracks(2));
    assert_eq!(Item::Artist(artist(3, "c")).drill_into(), RequiredFetch::ArtistAlbums(3));
    let mut list = ItemList::new();
    assert_eq!(list.drill_into(), None);
    list.push(vec![album(2, "b"), track(1, "a")]);
    list.select_next();
    assert_eq!(list.drill_into(), Some(RequiredFetch::Play(1)));
}

fn pad(text: &str, width: usize) -> String {
    let mut s: String = text.chars().take(width).collect();
    while s.chars().count() < width {
        s.push(' ');
    }
    s
}

#[test]
fn labels_of_each_kind() {
    let line = track(1, "Song").to_line();
    let texts: Vec<(String, usize, Tint)> = line.spans.iter().map(|s| (s.text.clone(), s.width, s.tint)).collect();
    assert_eq!(
        texts,
        vec![
            ("[track]  ".to_string(), 9, Tint::Green),
            ("Band          ".to_string(), 14, Tint::Magenta),
            (" ".to_string(), 1, Tint::Plain),
            (pad("Song", 35), 35, Tint::Plain),
        ]
    );
    let line = album(2, "Record").to_line();
    assert_eq!(line.spans[0].text, "[album]  ");
    assert_eq!(line.spans[0].tint, Tint::Cyan);
    assert_eq!(line.spans[1].text, pad("?", 14));
    assert_eq!(line.spans[3].text, pad("Record", 35));
    let line = Item::Artist(artist(3, "Singer")).to_line();
    assert_eq!(line.spans.len(), 2);
    assert_eq!(line.spans[0].text, "[artist] ");
    assert_eq!(line.spans[1].text, pad("Singer", 40));
    assert_eq!(line.spans[1].width, 40);
}

#[test]
fn labels_cut_long_texts_by_characters() {
    let long_title = "a".repeat(50);
    let item = Item::Track(Track {
        id: 1,
        title: long_title.clone(),
        artists: vec![artist(2, "Ünïcödé Ärtist Nämé")],
        duration: 1,
    });
    let line = item.to_line();
    assert_eq!(line.spans[1].text, "Ünïcödé Ärtist");
    assert_eq!(line.spans[3].text, "a".repeat(35));
    let width: usize = line.spans.iter().map(|s| s.text.chars().count()).sum();
    assert_eq!(width, 59);
    let line = Item::Artist(artist(3, &"é".repeat(45))).to_line();
    assert_eq!(line.spans[1].text, "é".repeat(40));
    let width: usize = line.spans.iter().map(|s| s.text.chars().count()).sum();
    assert_eq!(width, 49);
    let line = Item::Artist(artist(4, "")).to_line();
    assert_eq!(line.spans[1].text, " ".repeat(40));
}

#[test]
fn ui_element_steps() {
    assert_eq!(UiElement::ItemList.next(), UiElement::StatusInfo);
    assert_eq!(UiElement::StatusInfo.next(), UiElement::InputField);
    assert_eq!(UiElement::InputField.next(), UiElement::ItemList);
    assert_eq!(UiElement::InputField.prev(), UiElement::StatusInfo);
    assert_eq!(UiElement::ItemList.prev(), UiElement::InputField);
    assert_eq!(UiElement::StatusInfo.prev(), UiElement::ItemList);
    for e in [UiElement::ItemList, UiElement::StatusInfo, UiElement::InputField] {
        assert_eq!(e.next().prev(), e);
        assert_eq!(e.prev().next(), e);
    }
    assert_eq!(UiElement::from_u8(1), UiElement::StatusInfo);
    assert_eq!(UiElement::StatusInfo.to_u8(), 1);
}

#[test]
fn ui_starts_on_the_list() {
    let ui = Ui::new();
    assert_eq!(ui.selected_element, UiElement::ItemList);
    assert!(ui.input_field.is_empty());
    assert_eq!(ui.item_list.current_selection(), None);
}

#[test]
fn search_select_back_end_to_end() {
    let mut ctl = Controller::new(Ui::new());
    let (ticket, effect) = ctl.dispatch(Command::Search("test".to_string()));
    match effect {
        Effect::Search(q) => assert_eq!(q, "test"),
        _ => panic!("a search asks for a search"),
    }
    let applied = ctl.settle_results(ticket, Ok(vec![track(1, "a"), track(2, "b"), track(3, "c")]));
    assert_eq!(applied, Ok(true));
    assert_eq!(ctl.ui.item_list.current_selection(), Some(0));
    ctl.dispatch(Command::Select(Direction::Down));
    ctl.dispatch(Command::Select(Direction::Down));
    assert_eq!(ctl.ui.item_list.current_selection(), Some(2));
    ctl.dispatch(Command::Select(Direction::Down));
    assert_eq!(ctl.ui.item_list.current_selection(), Some(2));
    ctl.dispatch(Command::Back);
    assert_eq!(ctl.ui.item_list.depth(), 0);
    assert!(ctl.ui.item_list.current_frame().is_empty());
    assert_eq!(ctl.ui.item_list.current_selection(), None);
}

#[test]
fn stale_results_are_dropped() {
    let mut ctl = Controller::new(Ui::new());
    let (first, _) = ctl.dispatch(Command::Search("one".to_string()));
    let (second, _) = ctl.dispatch(Command::Search("two".to_string()));
    assert_eq!(second, first + 1);
    assert_eq!(ctl.settle_results(first, Ok(vec![track(1, "a")])), Ok(false));
    assert_eq!(ctl.ui.item_list.depth(), 0);
    assert_eq!(ctl.settle_results(second, Err(FetchError)), Err(FetchError));
    assert_eq!(ctl.ui.item_list.depth(), 0);
    assert_eq!(ctl.settle_results(second, Ok(vec![track(2, "b")])), Ok(true));
    assert_eq!(ids(ctl.ui.item_list.current_frame()), vec![2]);
    let (third, _) = ctl.dispatch(Command::Search("three".to_string()));
    ctl.dispatch(Command::Back);
    assert_eq!(ctl.settle_results(third, Ok(vec![track(3, "c")])), Ok(false));
    assert_eq!(ids(ctl.ui.item_list.current_frame()), Vec::<u64>::new());
}

#[test]
fn activate_installs_once_on_success_only() {
    let mut ctl = Controller::new(Ui::new());
    let (ticket, _) = ctl.dispatch(Command::Search("x".to_string()));
    ctl.settle_results(ticket, Ok(vec![track(5, "a")])).unwrap();
    let (ticket, effect) = ctl.dispatch(Command::Activate);
    assert!(matches!(effect, Effect::Fetch(RequiredFetch::Play(5))));

    let outcomes: Vec<(u64, Result<u32, PlayError>)> = vec![
        (ticket, Ok(9)),
        (ticket, Err(PlayError::StreamResolution)),
        (ticket, Err(PlayError::Decode)),
        (ticket - 1, Ok(8)),
    ];
    let mut installed: Vec<u32> = Vec::new();
    let mut results = Vec::new();
    for (t, outcome) in outcomes {
        let r = ctl.settle_play(t, outcome);
        if let Ok(Some(source)) = r {
            installed.push(source);
        }
        results.push(r);
    }
    assert_eq!(
        results,
        vec![Ok(Some(9)), Err(PlayError::StreamResolution), Err(PlayError::Decode), Ok(None)]
    );
    assert_eq!(installed, vec![9]);
}

#[test]
fn activate_on_empty_frame_does_nothing() {
    let mut ctl = Controller::new(Ui::new());
    let (ticket, effect) = ctl.dispatch(Command::Activate);
    assert_eq!(ticket, 1);
    assert!(matches!(effect, Effect::Nothing));
    let (_, effect) = ctl.dispatch(Command::Quit);
    assert!(matches!(effect, Effect::Quit));
    assert!(!ctl.running);
}
