//! The in-game menu: the main menu and the option submenus as state
//! machines driven by one frame of input at a time, and the file-level
//! bookkeeping of save slots and discs.

use vstd::prelude::*;
use crate::common::text::{
    chars_eq, chars_of, push_char, push_decimal, decimal, string_of, sub_chars, trim,
    trim_end_index, trim_start_index,
};
use crate::minarch::config::ConfigOption;
use crate::common::video::{blit_source, in_rect, rect_inside, Rect, VideoBuffer};
use vstd::arithmetic::div_mod::lemma_fundamental_div_mod_converse_mod;

verus! {

/// Number of main menu items.
pub const MENU_ITEM_COUNT: usize = 5;
/// Number of save slots.
pub const MENU_SLOT_COUNT: usize = 8;

/// Main menu item: Continue (changes disc first with several discs).
pub const ITEM_CONT: usize = 0;
/// Main menu item: Save to the current slot.
pub const ITEM_SAVE: usize = 1;
/// Main menu item: Load from the current slot.
pub const ITEM_LOAD: usize = 2;
/// Main menu item: Options (Reset in simple mode).
pub const ITEM_OPTS: usize = 3;
/// Main menu item: Quit.
pub const ITEM_QUIT: usize = 4;

/// Labels of the main menu items.
pub const MAIN_ITEMS: [&'static str; 5] = ["Continue", "Save", "Load", "Options", "Quit"];

/// Label of the fourth item in simple mode.
pub const SIMPLE_MODE_OPTS_LABEL: &'static str = "Reset";

/// What the main menu asks the frontend to do.
#[derive(Debug, Clone, Copy, PartialEq, Eq, Structural)]
pub enum MainAction {
    /// Resume the game.
    Continue,
    /// Save the state.
    Save,
    /// Load the state.
    Load,
    /// Open the options.
    Options,
    /// Reset the game (simple mode).
    Reset,
    /// Change disc, then resume.
    DiscChange,
    /// Quit the game.
    Quit,
}

/// One frame of menu input: directions repeat while held, the buttons
/// count when pressed.
#[derive(Debug, Default, Clone, Copy)]
pub struct MenuInput {
    /// Up (repeating).
    pub up: bool,
    /// Down (repeating).
    pub down: bool,
    /// Left (repeating).
    pub left: bool,
    /// Right (repeating).
    pub right: bool,
    /// A (pressed).
    pub a: bool,
    /// B (pressed).
    pub b: bool,
    /// X (pressed).
    pub x: bool,
    /// MENU (pressed).
    pub menu: bool,
}

/// State of the main menu.
#[derive(Debug, Clone)]
pub struct MainMenu {
    /// Selected item, 0 to 4.
    pub selected: usize,
    /// Current disc.
    pub disc: usize,
    /// Current save slot, 0 to 7.
    pub slot: usize,
    /// Simple mode: the fourth item resets.
    pub simple_mode: bool,
    /// Number of discs (1 for a single disc).
    pub disc_count: usize,
}

/// `x` moved by one step (`up` or down) around `0..n`.
pub open spec fn cycle(x: int, up: bool, n: int) -> int {
    if up {
        (x + 1) % n
    } else {
        (x - 1) % n
    }
}

/// The action of A on the selected item.
pub open spec fn main_confirm(m: MainMenu) -> MainAction {
    if m.selected == ITEM_CONT {
        if m.disc_count > 1 && m.disc != 0 {
            MainAction::DiscChange
        } else {
            MainAction::Continue
        }
    } else if m.selected == ITEM_SAVE {
        MainAction::Save
    } else if m.selected == ITEM_LOAD {
        MainAction::Load
    } else if m.selected == ITEM_OPTS {
        if m.simple_mode {
            MainAction::Reset
        } else {
            MainAction::Options
        }
    } else {
        MainAction::Quit
    }
}

/// LEFT/RIGHT: on Continue the disc changes (several discs), on Save or
/// Load the slot, elsewhere nothing.
pub open spec fn main_step(m: MainMenu, up: bool) -> MainMenu {
    if m.selected == ITEM_CONT && m.disc_count > 1 {
        MainMenu { disc: cycle(m.disc as int, up, m.disc_count as int) as usize, ..m }
    } else if m.selected == ITEM_SAVE || m.selected == ITEM_LOAD {
        MainMenu { slot: cycle(m.slot as int, up, MENU_SLOT_COUNT as int) as usize, ..m }
    } else {
        m
    }
}

/// One frame of the main menu: Up/Down move the selection around the five
/// items, Left/Right change disc or slot, B resumes, A confirms; the first
/// of these in that order wins.
pub open spec fn main_update(m: MainMenu, input: MenuInput) -> (MainMenu, Option<MainAction>) {
    if input.up {
        (MainMenu { selected: cycle(m.selected as int, false, 5) as usize, ..m }, None)
    } else if input.down {
        (MainMenu { selected: cycle(m.selected as int, true, 5) as usize, ..m }, None)
    } else if input.left {
        (main_step(m, false), None)
    } else if input.right {
        (main_step(m, true), None)
    } else if input.b {
        (m, Some(MainAction::Continue))
    } else if input.a {
        (m, Some(main_confirm(m)))
    } else {
        (m, None)
    }
}

/// `x` moved by one step around `0..n`, for `x < n`.
fn cycle_step(x: usize, up: bool, n: usize) -> (r: usize)
    requires
        x < n,
    ensures
        r == cycle(x as int, up, n as int),
        r < n,
{
    proof {
        let ni = n as int;
        let xi = x as int;
        if up {
            if xi + 1 == ni {
                lemma_fundamental_div_mod_converse_mod(xi + 1, ni, 1, 0);
            } else {
                lemma_fundamental_div_mod_converse_mod(xi + 1, ni, 0, xi + 1);
            }
        } else {
            if xi == 0 {
                lemma_fundamental_div_mod_converse_mod(xi - 1, ni, -1, ni - 1);
            } else {
                lemma_fundamental_div_mod_converse_mod(xi - 1, ni, 0, xi - 1);
            }
        }
    }
    if up {
        if x + 1 == n {
            0
        } else {
            x + 1
        }
    } else {
        if x == 0 {
            n - 1
        } else {
            x - 1
        }
    }
}

impl MainMenu {
    /// Selection, slot and disc are in range.
    pub open spec fn wf(&self) -> bool {
        &&& self.selected < MENU_ITEM_COUNT
        &&& self.slot < MENU_SLOT_COUNT
        &&& self.disc_count > 1 ==> self.disc < self.disc_count
    }

    /// A menu on Continue, disc 0, slot 0.
    pub fn new(simple_mode: bool, disc_count: usize) -> (m: Self)
        ensures
            m.selected == ITEM_CONT,
            m.disc == 0,
            m.slot == 0,
            m.simple_mode == simple_mode,
            m.disc_count == disc_count,
            m.wf(),
    {
        MainMenu { selected: ITEM_CONT, disc: 0, slot: 0, simple_mode, disc_count }
    }

    /// Applies one frame of input; returns the action to perform, if any.
    pub fn update(&mut self, input: &MenuInput) -> (r: Option<MainAction>)
        requires
            old(self).wf(),
        ensures
            (*final(self), r) == main_update(*old(self), *input),
            final(self).wf(),
    {
        if input.up {
            self.selected = cycle_step(self.selected, false, MENU_ITEM_COUNT);
        } else if input.down {
            self.selected = cycle_step(self.selected, true, MENU_ITEM_COUNT);
        } else if input.left {
            self.step(false);
        } else if input.right {
            self.step(true);
        } else if input.b {
            return Some(MainAction::Continue);
        } else if input.a {
            return Some(self.confirm());
        }
        None
    }

    fn step(&mut self, up: bool)
        requires
            old(self).wf(),
        ensures
            *final(self) == main_step(*old(self), up),
    {
        if self.selected == ITEM_CONT && self.disc_count > 1 {
            self.disc = cycle_step(self.disc, up, self.disc_count);
        } else if self.selected == ITEM_SAVE || self.selected == ITEM_LOAD {
            self.slot = cycle_step(self.slot, up, MENU_SLOT_COUNT);
        }
    }

    fn confirm(&self) -> (r: MainAction)
        ensures
            r == main_confirm(*self),
    {
        if self.selected == ITEM_CONT {
            if self.disc_count > 1 && self.disc != 0 {
                MainAction::DiscChange
            } else {
                MainAction::Continue
            }
        } else if self.selected == ITEM_SAVE {
            MainAction::Save
        } else if self.selected == ITEM_LOAD {
            MainAction::Load
        } else if self.selected == ITEM_OPTS {
            if self.simple_mode {
                MainAction::Reset
            } else {
                MainAction::Options
            }
        } else {
            MainAction::Quit
        }
    }
}

/// How an option item looks and behaves.
#[derive(Debug, Clone, Copy, PartialEq, Eq, Structural)]
pub enum ItemKind {
    /// Plain entry; A confirms or opens a submenu.
    List,
    /// Value cycled with Left/Right.
    Var,
    /// Fixed-layout value row.
    Fixed,
    /// Button binding; A waits for a button.
    Input,
}

/// What A does on an item.
#[derive(Debug, Clone, PartialEq, Eq, Structural)]
pub enum ConfirmAction {
    /// Opens submenu number `n`.
    OpenSubmenu(usize),
    /// Asks the frontend for an action.
    Request(MainAction),
    /// Waits for a button to bind.
    Bind,
}

/// What follows a value change.
#[derive(Debug, Clone, PartialEq, Eq, Structural)]
pub enum ChangeAction {
    /// Apply the configuration.
    ApplyConfig,
    /// Clear a binding.
    ClearBinding,
}

/// One menu item.
#[derive(Debug, Clone)]
pub struct MenuItem {
    /// Name.
    pub name: String,
    /// Description shown while selected.
    pub desc: Option<String>,
    /// Values cycled with Left/Right (none: not editable).
    pub values: Vec<String>,
    /// Option key, for configuration items.
    pub key: Option<String>,
    /// Binding id, for binding items.
    pub id: usize,
    /// Index of the current value.
    pub value: usize,
    /// Kind.
    pub kind: ItemKind,
    /// What A does.
    pub on_confirm: Option<ConfirmAction>,
    /// What follows a change.
    pub on_change: Option<ChangeAction>,
}

impl MenuItem {
    /// A plain entry.
    pub fn list(name: &str) -> (m: Self)
        ensures
            m.name@ == name@,
            m.desc is None,
            m.values@.len() == 0,
            m.key is None,
            m.id == 0,
            m.value == 0,
            m.kind == ItemKind::List,
            m.on_confirm is None,
            m.on_change is None,
    {
        MenuItem {
            name: String::from_str(name),
            desc: None,
            values: Vec::new(),
            key: None,
            id: 0,
            value: 0,
            kind: ItemKind::List,
            on_confirm: None,
            on_change: None,
        }
    }

    /// An entry whose value cycles through `values`, at index `value`.
    pub fn var(name: &str, values: Vec<String>, value: usize) -> (m: Self)
        ensures
            m.name@ == name@,
            m.desc is None,
            m.values@ == values@,
            m.key is None,
            m.id == 0,
            m.value == value,
            m.kind == ItemKind::Var,
            m.on_confirm is None,
            m.on_change is None,
    {
        MenuItem {
            name: String::from_str(name),
            desc: None,
            values,
            key: None,
            id: 0,
            value,
            kind: ItemKind::Var,
            on_confirm: None,
            on_change: None,
        }
    }

    /// The current value's text, or the empty text without one.
    pub fn value_text(&self) -> (r: &str)
        ensures
            r@ == if self.value < self.values@.len() {
                self.values@[self.value as int]@
            } else {
                Seq::<char>::empty()
            },
    {
        proof {
            reveal_strlit("");
        }
        if self.value < self.values.len() {
            self.values[self.value].as_str()
        } else {
            ""
        }
    }
}

/// What one frame of an option menu produced.
#[derive(Debug, Clone, PartialEq, Eq, Structural)]
pub enum OptionMenuEvent {
    /// Nothing happened.
    Idle,
    /// A confirmed item `n`.
    Confirm(usize),
    /// The value of item `n` changed.
    Change(usize),
    /// B: back to the previous level.
    Close,
    /// A binding wait is over; the caller finishes it.
    Advance,
}

/// State of an option submenu: its items, the selection and the visible
/// window `start..end`.
#[derive(Debug, Clone)]
pub struct OptionMenu {
    /// Items.
    pub items: Vec<MenuItem>,
    /// Selected item.
    pub selected: usize,
    /// First visible item.
    pub start: usize,
    /// One past the last visible item.
    pub end: usize,
    /// Number of visible rows.
    pub max_visible: usize,
    /// Waiting for a button to bind.
    pub awaiting: bool,
    /// What A does on items without an action of their own.
    pub on_confirm: Option<ConfirmAction>,
    /// Description of the whole list.
    pub desc: Option<String>,
}

/// The smaller of two sizes.
pub open spec fn min_size(a: usize, b: usize) -> usize {
    if a <= b {
        a
    } else {
        b
    }
}

/// Selection and window `(selected, start, end)` after Up: one item up,
/// the window following; from the top, to the last item and the last page.
pub open spec fn window_up(sel: usize, start: usize, end: usize, count: usize, mv: usize) -> (
    usize,
    usize,
    usize,
) {
    if sel == 0 {
        ((count - 1) as usize, (if count >= mv { count - mv } else { 0 }) as usize, count)
    } else if sel - 1 < start {
        ((sel - 1) as usize, (start - 1) as usize, (end - 1) as usize)
    } else {
        ((sel - 1) as usize, start, end)
    }
}

/// Selection and window after Down: one item down, the window following;
/// from the bottom, to the first item and the first page.
pub open spec fn window_down(sel: usize, start: usize, end: usize, count: usize, mv: usize) -> (
    usize,
    usize,
    usize,
) {
    if sel + 1 >= count {
        (0, 0, min_size(count, mv))
    } else if sel + 1 >= end {
        ((sel + 1) as usize, (start + 1) as usize, (end + 1) as usize)
    } else {
        ((sel + 1) as usize, start, end)
    }
}

/// Item `k` with a new value index.
pub open spec fn item_with_value(items: Seq<MenuItem>, k: int, value: usize) -> Seq<MenuItem> {
    items.update(k, MenuItem { value: value, ..items[k] })
}

/// The selected item's value after Left/Right, around its value list.
pub open spec fn cycled_value(item: MenuItem, up: bool) -> usize {
    cycle(item.value as int, up, item.values@.len() as int) as usize
}

/// Left/Right can be computed for the item: its index and value count fit
/// in `i32`.
pub open spec fn value_step_ok(item: MenuItem) -> bool {
    item.values@.len() > 0 ==> item.value < i32::MAX && item.values@.len() <= i32::MAX
}

/// `x` moved by one step around `0..n`, for any `x`.
fn cycle_any(x: usize, up: bool, n: usize) -> (r: usize)
    requires
        n > 0,
        x < usize::MAX,
    ensures
        r == cycle(x as int, up, n as int),
{
    if up {
        (x + 1) % n
    } else if x == 0 {
        proof {
            lemma_fundamental_div_mod_converse_mod(-1, n as int, -1, n - 1);
        }
        n - 1
    } else {
        (x - 1) % n
    }
}

impl OptionMenu {
    /// The selection lies in the visible window, which shows
    /// `min(count, max_visible)` items.
    pub open spec fn wf(&self) -> bool {
        &&& self.items@.len() > 0
        &&& self.max_visible > 0
        &&& self.start <= self.selected < self.end <= self.items@.len()
        &&& self.end - self.start == min_size(self.items@.len() as usize, self.max_visible)
    }

    /// A menu on its first item, showing the first page.
    pub fn new(
        items: Vec<MenuItem>,
        max_visible: usize,
        on_confirm: Option<ConfirmAction>,
        desc: Option<String>,
    ) -> (m: Self)
        ensures
            m.items@ == items@,
            m.selected == 0,
            m.start == 0,
            m.end == min_size(items@.len() as usize, max_visible),
            m.max_visible == max_visible,
            !m.awaiting,
            m.on_confirm == on_confirm,
            m.desc == desc,
            items@.len() > 0 && max_visible > 0 ==> m.wf(),
    {
        let count = items.len();
        let end = if count <= max_visible {
            count
        } else {
            max_visible
        };
        OptionMenu {
            items,
            selected: 0,
            start: 0,
            end,
            max_visible,
            awaiting: false,
            on_confirm,
            desc,
        }
    }

    fn move_up(&mut self)
        requires
            old(self).wf(),
        ensures
            (final(self).selected, final(self).start, final(self).end) == window_up(
                old(self).selected,
                old(self).start,
                old(self).end,
                old(self).items@.len() as usize,
                old(self).max_visible,
            ),
            final(self).items@ == old(self).items@,
            final(self).max_visible == old(self).max_visible,
            final(self).awaiting == old(self).awaiting,
            final(self).on_confirm == old(self).on_confirm,
            final(self).desc == old(self).desc,
            final(self).wf(),
    {
        let count = self.items.len();
        if self.selected == 0 {
            self.selected = count - 1;
            self.start = if count >= self.max_visible {
                count - self.max_visible
            } else {
                0
            };
            self.end = count;
        } else {
            self.selected = self.selected - 1;
            if self.selected < self.start {
                self.start = self.start - 1;
                self.end = self.end - 1;
            }
        }
    }

    fn move_down(&mut self)
        requires
            old(self).wf(),
        ensures
            (final(self).selected, final(self).start, final(self).end) == window_down(
                old(self).selected,
                old(self).start,
                old(self).end,
                old(self).items@.len() as usize,
                old(self).max_visible,
            ),
            final(self).items@ == old(self).items@,
            final(self).max_visible == old(self).max_visible,
            final(self).awaiting == old(self).awaiting,
            final(self).on_confirm == old(self).on_confirm,
            final(self).desc == old(self).desc,
            final(self).wf(),
    {
        let count = self.items.len();
        if self.selected + 1 >= count {
            self.selected = 0;
            self.start = 0;
            self.end = if count <= self.max_visible {
                count
            } else {
                self.max_visible
            };
        } else {
            self.selected = self.selected + 1;
            if self.selected >= self.end {
                self.start = self.start + 1;
                self.end = self.end + 1;
            }
        }
    }
}

/// The outcome of A: the item's own action first (a binding action starts
/// the wait), then a binding item with values waits, then the list's
/// action; otherwise nothing. The result is the new wait flag and the event.
pub open spec fn option_confirm(m: OptionMenu) -> (bool, OptionMenuEvent) {
    let item = m.items@[m.selected as int];
    match item.on_confirm {
        Some(ConfirmAction::Bind) => (true, OptionMenuEvent::Confirm(m.selected)),
        Some(_) => (m.awaiting, OptionMenuEvent::Confirm(m.selected)),
        None => if item.kind == ItemKind::Input && item.values@.len() > 0 {
            (true, OptionMenuEvent::Confirm(m.selected))
        } else if m.on_confirm is Some {
            (m.awaiting, OptionMenuEvent::Confirm(m.selected))
        } else {
            (m.awaiting, OptionMenuEvent::Idle)
        },
    }
}

/// One frame of an option menu as `(items, selected, start, end,
/// awaiting, event)`. While waiting for a binding nothing moves and the
/// event is `Advance`. Otherwise the first of Up, Down, Left, Right, B, A
/// and X acts: Up/Down move the selection and window, Left/Right cycle the
/// selected item's value, B closes, A confirms, X clears a binding item
/// and moves down.
pub open spec fn option_update(m: OptionMenu, input: MenuInput) -> (
    Seq<MenuItem>,
    usize,
    usize,
    usize,
    bool,
    OptionMenuEvent,
) {
    let count = m.items@.len() as usize;
    let item = m.items@[m.selected as int];
    if m.awaiting {
        (m.items@, m.selected, m.start, m.end, m.awaiting, OptionMenuEvent::Advance)
    } else if input.up {
        let w = window_up(m.selected, m.start, m.end, count, m.max_visible);
        (m.items@, w.0, w.1, w.2, m.awaiting, OptionMenuEvent::Idle)
    } else if input.down {
        let w = window_down(m.selected, m.start, m.end, count, m.max_visible);
        (m.items@, w.0, w.1, w.2, m.awaiting, OptionMenuEvent::Idle)
    } else if input.left || input.right {
        if item.values@.len() == 0 {
            (m.items@, m.selected, m.start, m.end, m.awaiting, OptionMenuEvent::Idle)
        } else {
            (
                item_with_value(m.items@, m.selected as int, cycled_value(item, !input.left)),
                m.selected,
                m.start,
                m.end,
                m.awaiting,
                OptionMenuEvent::Change(m.selected),
            )
        }
    } else if input.b {
        (m.items@, m.selected, m.start, m.end, m.awaiting, OptionMenuEvent::Close)
    } else if input.a {
        let c = option_confirm(m);
        (m.items@, m.selected, m.start, m.end, c.0, c.1)
    } else if input.x && item.kind == ItemKind::Input {
        let w = window_down(m.selected, m.start, m.end, count, m.max_visible);
        (
            item_with_value(m.items@, m.selected as int, 0),
            w.0,
            w.1,
            w.2,
            m.awaiting,
            OptionMenuEvent::Change(w.0),
        )
    } else {
        (m.items@, m.selected, m.start, m.end, m.awaiting, OptionMenuEvent::Idle)
    }
}

impl OptionMenu {
    fn set_selected_value(&mut self, value: usize)
        requires
            old(self).wf(),
        ensures
            final(self).items@ == item_with_value(
                old(self).items@,
                old(self).selected as int,
                value,
            ),
            final(self).selected == old(self).selected,
            final(self).start == old(self).start,
            final(self).end == old(self).end,
            final(self).max_visible == old(self).max_visible,
            final(self).awaiting == old(self).awaiting,
            final(self).on_confirm == old(self).on_confirm,
            final(self).desc == old(self).desc,
            final(self).wf(),
    {
        let k = self.selected;
        let mut item = self.items.remove(k);
        item.value = value;
        self.items.insert(k, item);
        assert(self.items@ =~= item_with_value(old(self).items@, k as int, value));
    }

    /// Applies one frame of input; the window keeps its shape.
    pub fn update(&mut self, input: &MenuInput) -> (r: OptionMenuEvent)
        requires
            old(self).wf(),
            value_step_ok(old(self).items@[old(self).selected as int]),
        ensures
            (
                final(self).items@,
                final(self).selected,
                final(self).start,
                final(self).end,
                final(self).awaiting,
                r,
            ) == option_update(*old(self), *input),
            final(self).max_visible == old(self).max_visible,
            final(self).on_confirm == old(self).on_confirm,
            final(self).desc == old(self).desc,
            final(self).wf(),
    {
        if self.awaiting {
            return OptionMenuEvent::Advance;
        }
        if input.up {
            self.move_up();
        } else if input.down {
            self.move_down();
        } else if input.left || input.right {
            let k = self.selected;
            let len = self.items[k].values.len();
            if len == 0 {
                return OptionMenuEvent::Idle;
            }
            let v = cycle_any(self.items[k].value, !input.left, len);
            self.set_selected_value(v);
            return OptionMenuEvent::Change(k);
        } else if input.b {
            return OptionMenuEvent::Close;
        } else if input.a {
            return self.confirm();
        } else if input.x {
            if self.items[self.selected].kind == ItemKind::Input {
                self.set_selected_value(0);
                self.move_down();
                return OptionMenuEvent::Change(self.selected);
            }
        }
        OptionMenuEvent::Idle
    }

    fn confirm(&mut self) -> (r: OptionMenuEvent)
        requires
            old(self).wf(),
        ensures
            (final(self).awaiting, r) == option_confirm(*old(self)),
            final(self).items@ == old(self).items@,
            final(self).selected == old(self).selected,
            final(self).start == old(self).start,
            final(self).end == old(self).end,
            final(self).max_visible == old(self).max_visible,
            final(self).on_confirm == old(self).on_confirm,
            final(self).desc == old(self).desc,
    {
        let k = self.selected;
        match &self.items[k].on_confirm {
            Some(ConfirmAction::Bind) => {
                self.awaiting = true;
                OptionMenuEvent::Confirm(k)
            },
            Some(_) => OptionMenuEvent::Confirm(k),
            None => {
                if self.items[k].kind == ItemKind::Input && self.items[k].values.len() > 0 {
                    self.awaiting = true;
                    return OptionMenuEvent::Confirm(k);
                }
                if self.on_confirm.is_some() {
                    OptionMenuEvent::Confirm(k)
                } else {
                    OptionMenuEvent::Idle
                }
            },
        }
    }

    /// Ends a binding wait and moves the selection down.
    pub fn finish_await(&mut self)
        requires
            old(self).wf(),
        ensures
            !final(self).awaiting,
            (final(self).selected, final(self).start, final(self).end) == window_down(
                old(self).selected,
                old(self).start,
                old(self).end,
                old(self).items@.len() as usize,
                old(self).max_visible,
            ),
            final(self).items@ == old(self).items@,
            final(self).wf(),
    {
        self.awaiting = false;
        self.move_down();
    }
}

/// The options that are not locked, in order.
pub open spec fn unlocked(opts: Seq<ConfigOption>) -> Seq<ConfigOption>
    decreases opts.len(),
{
    if opts.len() == 0 {
        Seq::empty()
    } else if opts.last().lock {
        unlocked(opts.drop_last())
    } else {
        unlocked(opts.drop_last()).push(opts.last())
    }
}

/// The menu item shown for an option.
pub open spec fn item_of_option(m: MenuItem, o: ConfigOption, kind: ItemKind) -> bool {
    &&& m.name@ == o.name@
    &&& match o.desc {
        Some(d) => m.desc matches Some(x) && x@ == d@,
        None => m.desc is None,
    }
    &&& m.values@.len() == o.labels@.len()
    &&& forall|j: int| 0 <= j < m.values@.len() ==> (#[trigger] m.values@[j])@ == o.labels@[j]@
    &&& m.key matches Some(k) && k@ == o.key@
    &&& m.id == 0
    &&& m.value == o.value
    &&& m.kind == kind
    &&& m.on_confirm is None
    &&& m.on_change == Some(ChangeAction::ApplyConfig)
}

fn copy_strings(v: &Vec<String>) -> (r: Vec<String>)
    ensures
        r@.len() == v@.len(),
        forall|j: int| 0 <= j < v@.len() ==> (#[trigger] r@[j])@ == v@[j]@,
{
    let mut r: Vec<String> = Vec::new();
    let mut i: usize = 0;
    while i < v.len()
        invariant
            0 <= i <= v@.len(),
            r@.len() == i,
            forall|j: int| 0 <= j < i ==> (#[trigger] r@[j])@ == v@[j]@,
        decreases v@.len() - i,
    {
        r.push(v[i].clone());
        i = i + 1;
    }
    r
}

impl OptionMenu {
    /// Menu items for the options that are not locked, in order; each
    /// shows the option's labels and applies the configuration on change.
    pub fn from_options(options: &[ConfigOption], kind: ItemKind) -> (r: Vec<MenuItem>)
        ensures
            r@.len() == unlocked(options@).len(),
            forall|i: int|
                0 <= i < r@.len() ==> item_of_option(#[trigger] r@[i], unlocked(options@)[i], kind),
    {
        let mut r: Vec<MenuItem> = Vec::new();
        let mut i: usize = 0;
        while i < options.len()
            invariant
                0 <= i <= options@.len(),
                r@.len() == unlocked(options@.take(i as int)).len(),
                forall|j: int|
                    0 <= j < r@.len() ==> item_of_option(
                        #[trigger] r@[j],
                        unlocked(options@.take(i as int))[j],
                        kind,
                    ),
            decreases options@.len() - i,
        {
            let o = &options[i];
            assert(options@.take(i + 1).drop_last() =~= options@.take(i as int));
            assert(options@.take(i + 1).last() == options@[i as int]);
            if !o.lock {
                let desc = match &o.desc {
                    Some(d) => Some(d.clone()),
                    None => None,
                };
                let item = MenuItem {
                    name: o.name.clone(),
                    desc,
                    values: copy_strings(&o.labels),
                    key: Some(o.key.clone()),
                    id: 0,
                    value: o.value,
                    kind,
                    on_confirm: None,
                    on_change: Some(ChangeAction::ApplyConfig),
                };
                r.push(item);
            }
            i = i + 1;
        }
        assert(options@.take(options@.len() as int) =~= options@);
        r
    }
}

/// `{minui_dir}/{game_name}.txt`: where the last used slot is remembered.
pub open spec fn slot_memory(minui_dir: Seq<char>, game_name: Seq<char>) -> Seq<char> {
    minui_dir + seq!['/'] + game_name + seq!['.', 't', 'x', 't']
}

/// `{minui_dir}/{game_name}.{slot}.txt`: where the disc of a slot is
/// remembered.
pub open spec fn disc_memory(minui_dir: Seq<char>, game_name: Seq<char>, slot: nat) -> Seq<char> {
    minui_dir + seq!['/'] + game_name + seq!['.'] + decimal(slot) + seq!['.', 't', 'x', 't']
}

/// Appends `.txt`.
fn push_txt(s: &mut String)
    ensures
        final(s)@ == old(s)@ + seq!['.', 't', 'x', 't'],
{
    push_char(s, '.');
    push_char(s, 't');
    push_char(s, 'x');
    push_char(s, 't');
    assert(s@ =~= old(s)@ + seq!['.', 't', 'x', 't']);
}

/// The slot memory file of a game.
pub fn slot_memory_path(minui_dir: &str, game_name: &str) -> (r: String)
    ensures
        r@ == slot_memory(minui_dir@, game_name@),
{
    let mut s = String::from_str(minui_dir);
    push_char(&mut s, '/');
    s.append(game_name);
    push_txt(&mut s);
    assert(s@ =~= slot_memory(minui_dir@, game_name@));
    s
}

/// The disc memory file of a game's slot.
pub fn disc_memory_path(minui_dir: &str, game_name: &str, slot: usize) -> (r: String)
    ensures
        r@ == disc_memory(minui_dir@, game_name@, slot as nat),
{
    let mut s = String::from_str(minui_dir);
    push_char(&mut s, '/');
    s.append(game_name);
    push_char(&mut s, '.');
    push_decimal(&mut s, slot as u64);
    push_txt(&mut s);
    assert(s@ =~= disc_memory(minui_dir@, game_name@, slot as nat));
    s
}

/// `{minui_dir}/{game_name}.{slot}.bmp`: the preview picture of a slot.
pub open spec fn slot_preview(minui_dir: Seq<char>, game_name: Seq<char>, slot: nat) -> Seq<char> {
    minui_dir + seq!['/'] + game_name + seq!['.'] + decimal(slot) + seq!['.', 'b', 'm', 'p']
}

/// The preview picture of a game's slot.
pub fn preview_path(minui_dir: &str, game_name: &str, slot: usize) -> (r: String)
    ensures
        r@ == slot_preview(minui_dir@, game_name@, slot as nat),
{
    let mut s = String::from_str(minui_dir);
    push_char(&mut s, '/');
    s.append(game_name);
    push_char(&mut s, '.');
    push_decimal(&mut s, slot as u64);
    push_char(&mut s, '.');
    push_char(&mut s, 'b');
    push_char(&mut s, 'm');
    push_char(&mut s, 'p');
    assert(s@ =~= slot_preview(minui_dir@, game_name@, slot as nat));
    s
}

/// A disc change wanted before loading a slot.
#[derive(Debug, Clone)]
pub struct DiscRequest {
    /// Absolute path of the wanted disc.
    pub path: String,
}

/// Where the menu keeps its per-game files.
#[derive(Debug, Clone)]
pub struct SaveStateIo {
    /// The game's own directory.
    pub minui_dir: String,
    /// Directory of the state snapshots.
    pub states_dir: String,
    /// The game's file name, extension included.
    pub game_name: String,
    /// Absolute paths of the discs (empty for a single disc).
    pub disc_paths: Vec<String>,
    /// Directory the disc paths are remembered relative to.
    pub base_path: String,
}

/// The slot a stored slot number selects: 8 and anything not positive
/// mean slot 0.
pub open spec fn slot_of_memory(stored: Option<i32>) -> usize {
    match stored {
        Some(v) => if v == 8 || v <= 0 {
            0
        } else {
            v as usize
        },
        None => 0,
    }
}

/// The disc a memory file asks for: its trimmed text, as a path relative
/// to `base` unless it is absolute; none for an empty memory.
pub open spec fn remembered_disc(base: Seq<char>, memory: Seq<char>) -> Option<Seq<char>> {
    let m = trim(memory);
    if m.len() == 0 {
        None
    } else if m[0] == '/' {
        Some(m)
    } else {
        Some(base + m)
    }
}

/// `s` without `prefix`, or `s` when it does not start with it.
pub open spec fn strip_prefix(s: Seq<char>, prefix: Seq<char>) -> Seq<char> {
    if prefix.len() <= s.len() && s.take(prefix.len() as int) == prefix {
        s.skip(prefix.len() as int)
    } else {
        s
    }
}

impl SaveStateIo {
    /// The per-game file locations.
    pub fn new(
        minui_dir: &str,
        states_dir: &str,
        game_name: &str,
        disc_paths: Vec<String>,
        base_path: &str,
    ) -> (r: Self)
        ensures
            r.minui_dir@ == minui_dir@,
            r.states_dir@ == states_dir@,
            r.game_name@ == game_name@,
            r.disc_paths@ == disc_paths@,
            r.base_path@ == base_path@,
    {
        SaveStateIo {
            minui_dir: String::from_str(minui_dir),
            states_dir: String::from_str(states_dir),
            game_name: String::from_str(game_name),
            disc_paths,
            base_path: String::from_str(base_path),
        }
    }

    /// The slot to start on, from the number stored in the slot memory file
    /// (`None` when there is none).
    pub fn load_slot(&self, stored: Option<i32>) -> (r: usize)
        ensures
            r == slot_of_memory(stored),
    {
        match stored {
            Some(v) => {
                if v == 8 || v <= 0 {
                    0
                } else {
                    v as usize
                }
            },
            None => 0,
        }
    }

    /// What the disc memory file of a slot should hold for `disc`: its path
    /// relative to the base directory. `None` when there is no such disc.
    pub fn disc_memory_text(&self, disc: usize) -> (r: Option<String>)
        ensures
            match r {
                Some(t) => disc < self.disc_paths@.len() && t@ == strip_prefix(
                    self.disc_paths@[disc as int]@,
                    self.base_path@,
                ),
                None => disc >= self.disc_paths@.len(),
            },
    {
        if disc >= self.disc_paths.len() {
            return None;
        }
        let p = chars_of(self.disc_paths[disc].as_str());
        let b = chars_of(self.base_path.as_str());
        if b.len() <= p.len() && chars_eq(&sub_chars(&p, 0, b.len()), &b) {
            assert(p@.subrange(0, b@.len() as int) =~= p@.take(b@.len() as int));
            assert(p@.subrange(b@.len() as int, p@.len() as int) =~= p@.skip(b@.len() as int));
            Some(string_of(&p, b.len(), p.len()))
        } else {
            proof {
                if b@.len() <= p@.len() {
                    assert(p@.subrange(0, b@.len() as int) =~= p@.take(b@.len() as int));
                }
            }
            assert(p@.subrange(0, p@.len() as int) =~= p@);
            Some(string_of(&p, 0, p.len()))
        }
    }

    /// Before loading a slot: the disc its memory file names, when that is
    /// not the current disc. Nothing for a single disc, without a memory
    /// (`None`), for an empty memory or an unknown current disc.
    pub fn disc_change_request(
        &self,
        current_disc: usize,
        memory: Option<String>,
    ) -> (r: Option<DiscRequest>)
        ensures
            match r {
                Some(d) => {
                    &&& self.disc_paths@.len() > 0
                    &&& memory matches Some(m) && remembered_disc(self.base_path@, m@) == Some(
                        d.path@,
                    )
                    &&& current_disc < self.disc_paths@.len()
                    &&& d.path@ != self.disc_paths@[current_disc as int]@
                },
                None => self.disc_paths@.len() == 0 || memory is None || ({
                    let m = memory->0@;
                    remembered_disc(self.base_path@, m) is None || current_disc
                        >= self.disc_paths@.len() || remembered_disc(self.base_path@, m)
                        == Some(self.disc_paths@[current_disc as int]@)
                }),
            },
    {
        if self.disc_paths.len() == 0 {
            return None;
        }
        let mem = match &memory {
            Some(m) => m,
            None => {
                return None;
            },
        };
        let v = chars_of(mem.as_str());
        let lo = trim_start_index(&v, 0, v.len());
        let hi = trim_end_index(&v, lo, v.len());
        assert(v@.subrange(0, v@.len() as int) =~= v@);
        assert(v@.subrange(lo as int, hi as int) == trim(mem@));
        if lo == hi {
            return None;
        }
        let target = if v[lo] == '/' {
            string_of(&v, lo, hi)
        } else {
            let mut t = self.base_path.clone();
            crate::common::text::append_chars(&mut t, &v, lo, hi);
            t
        };
        if current_disc >= self.disc_paths.len() {
            return None;
        }
        if crate::common::text::str_eq(target.as_str(), self.disc_paths[current_disc].as_str()) {
            None
        } else {
            Some(DiscRequest { path: target })
        }
    }
}

/// What the menu shows of the selected slot while Save or Load is selected.
pub struct SlotState<'a> {
    /// The slot holds a snapshot.
    pub save_exists: bool,
    /// The decoded preview picture, if there is one.
    pub preview: Option<&'a VideoBuffer>,
}

/// What an option submenu is drawn from.
pub struct OptionDrawState<'a> {
    /// The submenu.
    pub menu: &'a OptionMenu,
    /// Whether the brightness/volume hint is shown.
    pub show_settings: bool,
}

/// Lays the darkening overlay over the screen: the top-left block that both
/// buffers cover is copied from the overlay.
pub fn blit_overlay(screen: &mut VideoBuffer, overlay: &VideoBuffer)
    requires
        old(screen).wf(),
        overlay.wf(),
    ensures
        final(screen).width == old(screen).width,
        final(screen).height == old(screen).height,
        final(screen).pitch == old(screen).pitch,
        final(screen).pixels@.len() == old(screen).pixels@.len(),
        ({
            let block = Rect {
                x: 0,
                y: 0,
                w: if old(screen).width <= overlay.width { old(screen).width } else { overlay.width },
                h: if old(screen).height <= overlay.height { old(screen).height } else { overlay.height },
            };
            forall|i: int|
                0 <= i < old(screen).pixels@.len() ==> final(screen).pixels@[i] == if block.w > 0
                    && block.h > 0 && in_rect(i, old(screen).pitch as int, block) {
                    overlay.pixels@[blit_source(i, old(screen).pitch as int, block, overlay.pitch as int)]
                } else {
                    old(screen).pixels@[i]
                }
        }),
{
    let rows = if screen.height <= overlay.height { screen.height } else { overlay.height };
    let cols = if screen.width <= overlay.width { screen.width } else { overlay.width };
    let block = Rect { x: 0, y: 0, w: cols, h: rows };
    if rows > 0 && cols > 0 {
        proof {
            lemma_rows_fit(rows as int, overlay.height as int, overlay.pitch as int, cols as int);
        }
    }
    screen.blit(overlay.pixels.as_slice(), overlay.pitch as usize, block);
}

/// `h` rows of `w` pixels, `pitch` apart, fit in `height` rows of a buffer
/// of that pitch.
proof fn lemma_rows_fit(h: int, height: int, pitch: int, w: int)
    requires
        0 < h <= height,
        0 <= w <= pitch,
    ensures
        (h - 1) * pitch + w <= pitch * height,
{
    assert((h - 1) * pitch + w <= pitch * height) by (nonlinear_arith)
        requires
            0 < h <= height,
            0 <= w <= pitch,
    ;
}

/// Copies the `w` by `h` block whose rows start at `r * src.pitch` in
/// `src` to `(dx, dy)` on the screen. The block must lie inside the visible
/// area of the screen, and its rows inside the pixels of `src`.
pub fn blit_buffer_region(screen: &mut VideoBuffer, src: &VideoBuffer, dx: u32, dy: u32, w: u32, h: u32)
    requires
        w > 0 && h > 0 ==> {
            &&& old(screen).wf()
            &&& rect_inside(*old(screen), Rect { x: dx, y: dy, w, h })
            &&& (h - 1) * src.pitch + w <= src.pixels@.len()
        },
    ensures
        final(screen).width == old(screen).width,
        final(screen).height == old(screen).height,
        final(screen).pitch == old(screen).pitch,
        final(screen).pixels@.len() == old(screen).pixels@.len(),
        forall|i: int|
            0 <= i < old(screen).pixels@.len() ==> final(screen).pixels@[i] == if w > 0 && h > 0
                && in_rect(i, old(screen).pitch as int, Rect { x: dx, y: dy, w, h }) {
                src.pixels@[blit_source(
                    i,
                    old(screen).pitch as int,
                    Rect { x: dx, y: dy, w, h },
                    src.pitch as int,
                )]
            } else {
                old(screen).pixels@[i]
            },
{
    screen.blit(src.pixels.as_slice(), src.pitch as usize, Rect { x: dx, y: dy, w, h });
}

} // verus!
