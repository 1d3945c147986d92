use minui::minarch::config::frontend_options;
use minui::minarch::menu::{
    disc_memory_path, slot_memory_path, ConfirmAction, ItemKind, MainAction, MainMenu, MenuInput,
    MenuItem, OptionMenu, OptionMenuEvent, SaveStateIo, ITEM_LOAD, ITEM_OPTS, ITEM_QUIT,
    ITEM_SAVE, MAIN_ITEMS, MENU_ITEM_COUNT, MENU_SLOT_COUNT,
};

fn key(f: impl Fn(&mut MenuInput)) -> MenuInput {
    let mut i = MenuInput::default();
    f(&mut i);
    i
}

#[test]
fn main_menu_wraps_and_confirms() {
    let mut m = MainMenu::new(false, 1);
    assert_eq!(m.update(&key(|i| i.up = true)), None);
    assert_eq!(m.selected, ITEM_QUIT);
    assert_eq!(m.update(&key(|i| i.down = true)), None);
    assert_eq!(m.selected, 0);
    assert_eq!(m.update(&key(|i| i.a = true)), Some(MainAction::Continue));
    assert_eq!(m.update(&key(|i| i.b = true)), Some(MainAction::Continue));
    m.selected = ITEM_QUIT;
    assert_eq!(m.update(&key(|i| i.a = true)), Some(MainAction::Quit));
    assert_eq!(MAIN_ITEMS.len(), MENU_ITEM_COUNT);
}

#[test]
fn main_menu_slots_and_discs() {
    let mut m = MainMenu::new(false, 3);
    m.selected = ITEM_SAVE;
    m.update(&key(|i| i.left = true));
    assert_eq!(m.slot, MENU_SLOT_COUNT - 1);
    m.update(&key(|i| i.right = true));
    assert_eq!(m.slot, 0);
    assert_eq!(m.update(&key(|i| i.a = true)), Some(MainAction::Save));
    m.selected = ITEM_LOAD;
    assert_eq!(m.update(&key(|i| i.a = true)), Some(MainAction::Load));
    m.selected = 0;
    m.update(&key(|i| i.left = true));
    assert_eq!(m.disc, 2);
    assert_eq!(m.update(&key(|i| i.a = true)), Some(MainAction::DiscChange));
    let mut simple = MainMenu::new(true, 1);
    simple.selected = ITEM_OPTS;
    assert_eq!(simple.update(&key(|i| i.a = true)), Some(MainAction::Reset));
    simple.simple_mode = false;
    assert_eq!(simple.update(&key(|i| i.a = true)), Some(MainAction::Options));
}

fn items(n: usize) -> Vec<MenuItem> {
    (0..n).map(|i| MenuItem::list(&format!("item {i}"))).collect()
}

#[test]
fn option_menu_window_scrolls_and_wraps() {
    let mut m = OptionMenu::new(items(10), 4, None, None);
    assert_eq!((m.selected, m.start, m.end), (0, 0, 4));
    for _ in 0..4 {
        m.update(&key(|i| i.down = true));
    }
    assert_eq!((m.selected, m.start, m.end), (4, 1, 5));
    m.update(&key(|i| i.up = true));
    m.update(&key(|i| i.up = true));
    m.update(&key(|i| i.up = true));
    m.update(&key(|i| i.up = true));
    assert_eq!((m.selected, m.start, m.end), (0, 0, 4));
    m.update(&key(|i| i.up = true));
    assert_eq!((m.selected, m.start, m.end), (9, 6, 10));
    m.update(&key(|i| i.down = true));
    assert_eq!((m.selected, m.start, m.end), (0, 0, 4));
    let short = OptionMenu::new(items(2), 5, None, None);
    assert_eq!(short.end, 2);
}

#[test]
fn option_menu_values_and_events() {
    let values = vec!["a".to_string(), "b".to_string(), "c".to_string()];
    let mut list = vec![MenuItem::var("v", values, 0)];
    list.push(MenuItem::list("plain"));
    let mut m = OptionMenu::new(list, 5, None, None);
    assert_eq!(m.update(&key(|i| i.left = true)), OptionMenuEvent::Change(0));
    assert_eq!(m.items[0].value, 2);
    assert_eq!(m.items[0].value_text(), "c");
    assert_eq!(m.update(&key(|i| i.right = true)), OptionMenuEvent::Change(0));
    assert_eq!(m.items[0].value_text(), "a");
    assert_eq!(m.update(&key(|i| i.b = true)), OptionMenuEvent::Close);
    assert_eq!(m.update(&key(|i| i.a = true)), OptionMenuEvent::Idle);
    m.update(&key(|i| i.down = true));
    assert_eq!(m.update(&key(|i| i.right = true)), OptionMenuEvent::Idle);
    assert_eq!(m.items[1].value_text(), "");
}

#[test]
fn option_menu_binding_flow() {
    let mut bind = MenuItem::list("Up");
    bind.kind = ItemKind::Input;
    bind.values = vec!["NONE".to_string(), "UP".to_string()];
    bind.value = 1;
    let mut list = vec![bind, MenuItem::list("next")];
    list[1].on_confirm = Some(ConfirmAction::OpenSubmenu(3));
    let mut m = OptionMenu::new(list, 5, None, None);
    assert_eq!(m.update(&key(|i| i.a = true)), OptionMenuEvent::Confirm(0));
    assert!(m.awaiting);
    assert_eq!(m.update(&key(|i| i.down = true)), OptionMenuEvent::Advance);
    m.finish_await();
    assert!(!m.awaiting);
    assert_eq!(m.selected, 1);
    assert_eq!(m.update(&key(|i| i.a = true)), OptionMenuEvent::Confirm(1));
    assert!(!m.awaiting);
    m.update(&key(|i| i.up = true));
    assert_eq!(m.update(&key(|i| i.x = true)), OptionMenuEvent::Change(1));
    assert_eq!(m.items[0].value, 0);
}

#[test]
fn option_items_skip_locked_options() {
    let mut opts = frontend_options(false);
    opts[1].lock = true;
    let list = OptionMenu::from_options(&opts, ItemKind::Var);
    assert_eq!(list.len(), 7);
    assert_eq!(list[0].name, "Screen Scaling");
    assert_eq!(list[1].name, "Screen Sharpness");
    assert_eq!(list[0].key.as_deref(), Some("minarch_screen_scaling"));
    assert_eq!(list[0].value, 1);
    assert_eq!(list[0].values, vec!["Native", "Aspect", "Fullscreen"]);
}

#[test]
fn memory_paths() {
    assert_eq!(slot_memory_path("/u/.minui/GB", "game.gb"), "/u/.minui/GB/game.gb.txt");
    assert_eq!(disc_memory_path("/u/.minui/PS", "ff7.m3u", 3), "/u/.minui/PS/ff7.m3u.3.txt");
}

#[test]
fn save_state_io_decisions() {
    let io = SaveStateIo::new(
        "/u",
        "/s",
        "ff7.m3u",
        vec!["/roms/ff7/disc1.chd".to_string(), "/roms/ff7/disc2.chd".to_string()],
        "/roms/ff7/",
    );
    assert_eq!(io.load_slot(None), 0);
    assert_eq!(io.load_slot(Some(8)), 0);
    assert_eq!(io.load_slot(Some(-3)), 0);
    assert_eq!(io.load_slot(Some(5)), 5);
    assert_eq!(io.disc_memory_text(1).as_deref(), Some("disc2.chd"));
    assert_eq!(io.disc_memory_text(2), None);
    let r = io.disc_change_request(0, Some(" disc2.chd\n".to_string())).unwrap();
    assert_eq!(r.path, "/roms/ff7/disc2.chd");
    assert!(io.disc_change_request(1, Some("disc2.chd".to_string())).is_none());
    assert!(io.disc_change_request(0, Some("   ".to_string())).is_none());
    assert!(io.disc_change_request(0, None).is_none());
    let abs = io.disc_change_request(0, Some("/other/x.chd".to_string())).unwrap();
    assert_eq!(abs.path, "/other/x.chd");
    let single = SaveStateIo::new("/u", "/s", "g.gb", vec![], "/");
    assert!(single.disc_change_request(0, Some("x".to_string())).is_none());
}
