//! A menu that takes the whole screen and answers to keys.

use super::menu::Menu;
use crate::canvas::{painted, same_shape, CanvasLike};
use crate::drawable::Drawable;
use crate::input::{Event, KeyCode, KeyEvent, KeyEventKind, Keylist};
use crate::layout::align::Align;
use crate::layout::sized::{KnownHeight, KnownWidth};
use crate::layout::{Dims, Pos};
use vstd::prelude::*;

verus! {

/// Why a menu gave no result.
#[derive(Debug, Clone, Copy, PartialEq, Eq, Structural)]
pub enum MenuError {
    /// The menu has no items to choose from.
    Empty,
}

impl MenuError {
    /// The error in words.
    pub fn message(&self) -> (text: &'static str)
        ensures
            text@ == "menu is empty"@,
    {
        "menu is empty"
    }
}

/// The choice made in a menu.
#[derive(Debug)]
pub struct MenuResult<'a, T> {
    /// The key that made the choice.
    pub code: KeyCode,
    /// The index of the chosen item.
    pub index: usize,
    /// The chosen item.
    pub data: &'a T,
}

/// What a key does to a menu.
#[derive(Debug, Clone, Copy, PartialEq, Eq, Structural)]
pub enum MenuAction {
    /// The selection moves one item up.
    Up,
    /// The selection moves one item down.
    Down,
    /// The selected item is chosen with this key.
    Select(KeyCode),
    /// Nothing happens.
    Ignore,
}

/// A menu with the keys that move its selection and the keys that choose.
pub struct FullscreenMenu<T> {
    pub menu: Menu<T>,
    /// The keys that choose the selected item.
    pub select_keys: Keylist,
    /// The keys that move the selection up.
    pub up_keys: Keylist,
    /// The keys that move the selection down.
    pub down_keys: Keylist,
}

/// The characters that move the selection up.
pub open spec fn up_chars() -> Seq<char> {
    seq!['s', 'S', 'k']
}

/// The characters that move the selection down.
pub open spec fn down_chars() -> Seq<char> {
    seq!['w', 'W', 'j']
}

impl<T> FullscreenMenu<T> {
    /// What `event` does to the menu: the release of a key and every event
    /// that is no key do nothing; a key moves the selection up if it is
    /// among the keys for that, else down if it is among the keys for that,
    /// else chooses if it is among the keys that choose.
    pub open spec fn spec_action(&self, event: Event) -> MenuAction {
        match event {
            Event::Key(KeyEvent { code, kind }) => {
                if kind == KeyEventKind::Release {
                    MenuAction::Ignore
                } else if self.up_keys.spec_contains(code) {
                    MenuAction::Up
                } else if self.down_keys.spec_contains(code) {
                    MenuAction::Down
                } else if self.select_keys.spec_contains(code) {
                    MenuAction::Select(code)
                } else {
                    MenuAction::Ignore
                }
            },
            _ => MenuAction::Ignore,
        }
    }

    /// The menu with its usual keys: `s`, `S`, `k` and the up arrow move
    /// the selection up; `w`, `W`, `j` and the down arrow move it down; every
    /// key but those six letters chooses.
    pub fn new(menu: Menu<T>) -> (screen: Self)
        ensures
            screen.menu == menu,
            screen.select_keys.spec_all(),
            !screen.select_keys.spec_case_insensitive(),
            screen.select_keys.spec_keys() == crate::input::char_keys(up_chars())
                + crate::input::char_keys(down_chars()),
            !screen.up_keys.spec_all(),
            !screen.up_keys.spec_case_insensitive(),
            screen.up_keys.spec_keys() == crate::input::char_keys(up_chars()) + seq![KeyCode::Up],
            !screen.down_keys.spec_all(),
            !screen.down_keys.spec_case_insensitive(),
            screen.down_keys.spec_keys() == crate::input::char_keys(down_chars())
                + seq![KeyCode::Down],
    {
        let up: [char; 3] = ['s', 'S', 'k'];
        let down: [char; 3] = ['w', 'W', 'j'];
        let up_arrow: [KeyCode; 1] = [KeyCode::Up];
        let down_arrow: [KeyCode; 1] = [KeyCode::Down];
        let select_keys = Keylist::new(false).except_chars(up.as_slice()).except_chars(
            down.as_slice(),
        );
        let up_keys = Keylist::new(false).with_chars(up.as_slice()).with_keys(up_arrow.as_slice());
        let down_keys = Keylist::new(false).with_chars(down.as_slice()).with_keys(
            down_arrow.as_slice(),
        );
        Self { menu, select_keys, up_keys, down_keys }
    }

    /// Whether the menu can be shown: a menu without items cannot.
    pub fn validate(&self) -> (checked: Result<(), MenuError>)
        ensures
            checked == (if self.menu.items@.len() == 0 {
                Err::<(), MenuError>(MenuError::Empty)
            } else {
                Ok::<(), MenuError>(())
            }),
    {
        if self.menu.items().len() == 0 {
            Err(MenuError::Empty)
        } else {
            Ok(())
        }
    }

    /// Lets `event` act on the menu: the selection moves one item up or
    /// down, going round, or the selected item is chosen, or nothing
    /// happens. Gives the key that chose and the index of the chosen item,
    /// if one was chosen.
    pub fn on_event(&mut self, event: &Event) -> (chosen: Option<(KeyCode, usize)>)
        requires
            old(self).menu.items@.len() > 0,
            old(self).spec_action(*event) == MenuAction::Down ==> old(self).menu.selected
                < usize::MAX,
        ensures
            final(self).menu.same_but_selection(&old(self).menu),
            final(self).select_keys == old(self).select_keys,
            final(self).up_keys == old(self).up_keys,
            final(self).down_keys == old(self).down_keys,
            final(self).menu.selected == (match old(self).spec_action(*event) {
                MenuAction::Up => crate::ui::menu::stepped_up(
                    old(self).menu.selected as int,
                    1,
                    old(self).menu.items@.len() as int,
                ),
                MenuAction::Down => crate::ui::menu::stepped_down(
                    old(self).menu.selected as int,
                    1,
                    old(self).menu.items@.len() as int,
                ),
                _ => old(self).menu.selected as int,
            }),
            chosen == (match old(self).spec_action(*event) {
                MenuAction::Select(code) => Some((code, old(self).menu.selected)),
                _ => None,
            }),
    {
        match self.action(event) {
            MenuAction::Up => {
                self.menu.up(1);
                None
            },
            MenuAction::Down => {
                let len: usize = self.menu.items.len();
                assert(1int % (len as int) <= 1) by {
                    if self.menu.items@.len() > 1 {
                        vstd::arithmetic::div_mod::lemma_small_mod(1, self.menu.items@.len());
                    }
                }
                self.menu.down(1);
                None
            },
            MenuAction::Select(code) => Some((code, self.menu.selected)),
            MenuAction::Ignore => None,
        }
    }

    /// The choice of the selected item with the key `code`, or `None`
    /// where the selection names no item.
    pub fn result(&self, code: KeyCode) -> (chosen: Option<MenuResult<'_, T>>)
        ensures
            match chosen {
                Some(result) => {
                    &&& self.menu.selected < self.menu.items@.len()
                    &&& result.code == code
                    &&& result.index == self.menu.selected
                    &&& *result.data == self.menu.items@[self.menu.selected as int]
                },
                None => self.menu.selected >= self.menu.items@.len(),
            },
    {
        match self.menu.selected() {
            Some(data) => Some(MenuResult { code, index: self.menu.selected, data }),
            None => None,
        }
    }

    /// What `event` does to the menu.
    pub fn action(&self, event: &Event) -> (action: MenuAction)
        ensures
            action == self.spec_action(*event),
    {
        match *event {
            Event::Key(KeyEvent { code, kind }) => {
                if kind == KeyEventKind::Release {
                    MenuAction::Ignore
                } else if self.up_keys.contains(code) {
                    MenuAction::Up
                } else if self.down_keys.contains(code) {
                    MenuAction::Down
                } else if self.select_keys.contains(code) {
                    MenuAction::Select(code)
                } else {
                    MenuAction::Ignore
                }
            },
            _ => MenuAction::Ignore,
        }
    }
}

impl<T: Drawable + KnownWidth + KnownHeight> FullscreenMenu<T> {
    /// Where a menu that is aligned by `pos` lies on a target of extent
    /// `extent`, or `None` where the menu cannot be drawn there: its extent
    /// or its position is beyond the values of `i32`.
    pub open spec fn spec_place(&self, pos: Pos<Align, Align>, extent: Dims) -> Option<Dims> {
        if self.menu.well_sized() && pos.both_defined(self.menu.spec_dims(), extent) {
            Some(pos.spec_calc_both(self.menu.spec_dims(), extent))
        } else {
            None
        }
    }

    /// Draws the menu on `target` where `pos` aligns it, as `Menu::draw_on`
    /// does, and says that it did; or gives the target back as it is, and
    /// says so, where the menu cannot be drawn there.
    pub fn try_draw_on<P: CanvasLike>(&self, pos: Pos<Align, Align>, target: P) -> (out: (P, bool))
        ensures
            match self.spec_place(pos, target.spec_size()) {
                Some(at) => {
                    &&& out.1
                    &&& out.0.cells() == painted(
                        &self.menu.frame(at, target),
                        target.cells(),
                        self.menu.menu_writes(),
                    )
                    &&& same_shape(&out.0, &target)
                },
                None => !out.1 && out.0 == target,
            },
    {
        match self.menu.checked_dims() {
            Some(dims) => match pos.checked_calc_both(dims, target.size()) {
                Some(at) => (self.menu.draw_on(at, target), true),
                None => (target, false),
            },
            None => (target, false),
        }
    }
}

} // verus!
