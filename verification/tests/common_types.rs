use minui::common::types::{Button, Directory, Entry, EntryType, PadContext, BUTTON_UP_MASK};
use minui::common::input::{BTN_A, BTN_ANALOG_UP, BTN_B, BTN_DPAD_UP, BTN_NONE};

#[test]
fn test_button_basics() {
    let mut b = Button(BTN_NONE);
    assert!(b.is_empty());

    b.insert(Button(BTN_A));
    assert!(b.contains(Button(BTN_A)));
    assert!(!b.contains(Button(BTN_B)));

    let dir = Button(BUTTON_UP_MASK);
    assert!(dir.contains(Button(BTN_DPAD_UP)));
    assert!(dir.contains(Button(BTN_ANALOG_UP)));
}

#[test]
fn test_button_combined() {
    let dpad_and_btn = Button(BTN_DPAD_UP).union(Button(BTN_A));
    assert!(dpad_and_btn.contains(Button(BTN_DPAD_UP)));
    assert!(dpad_and_btn.contains(Button(BTN_A)));
    assert!(!dpad_and_btn.contains(Button(BTN_B)));
}

#[test]
fn test_directory_empty() {
    let dir = Directory {
        path: String::from("/test"),
        name: String::from("Test"),
        entries: vec![],
        alphas: vec![],
        selected: 0,
        start: 0,
        end: 0,
    };
    assert!(dir.is_empty());
    assert_eq!(dir.total(), 0);
}

#[test]
fn test_directory_total() {
    let dir = Directory {
        path: String::from("/test"),
        name: String::from("Test"),
        entries: vec![
            Entry {
                path: "/test/a.gb".into(),
                name: "a".into(),
                unique: None,
                entry_type: EntryType::Rom,
                alpha: 0,
            },
            Entry {
                path: "/test/b.gb".into(),
                name: "b".into(),
                unique: None,
                entry_type: EntryType::Rom,
                alpha: 0,
            },
        ],
        alphas: vec![0],
        selected: 0,
        start: 0,
        end: 2,
    };
    assert_eq!(dir.total(), 2);
    assert!(!dir.is_empty());
}

#[test]
fn test_pad_context_default() {
    let pad = PadContext::default();
    assert!(pad.is_pressed.is_empty());
    assert!(pad.just_pressed.is_empty());
}
