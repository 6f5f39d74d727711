//! A list of items, one of which is selected.

use crate::canvas::{
    lemma_painted_empty, lemma_painted_step, lemma_same_shape, painted, same_shape, CanvasLike,
    CellWrite,
};
use crate::drawable::core_impl::{draw_text_from, text_writes};
use crate::drawable::dbox::{box_writes, Dbox};
use crate::drawable::misc::text_width;
use crate::drawable::Drawable;
use crate::frame::{fits_i32, Frame};
use crate::layout::axis::in_i32;
use crate::layout::pos::half;
use crate::layout::strings::{decimal, push_char, push_decimal, repeated};
use crate::width::str_columns;
use vstd::string::StringExecFns;
use crate::layout::sized::{KnownHeight, KnownWidth};
use crate::layout::strings::{decimal_digits, decimal_len};
use crate::layout::{Dims, Pos};
use crate::style::{Attributes, Color, Style};
use vstd::prelude::*;

verus! {

/// The style that marks a selected item: the two colors of `style`
/// exchanged, white on black where `style` names none, and no attributes.
pub open spec fn spec_flip_fg_bg(style: Style) -> Style {
    Style {
        background_color: Some(
            match style.foreground_color {
                Some(c) => c,
                None => Color::White,
            },
        ),
        foreground_color: Some(
            match style.background_color {
                Some(c) => c,
                None => Color::Black,
            },
        ),
        attributes: Attributes { bits: 0 },
    }
}

/// The style that marks a selected item.
pub fn flip_fg_bg(style: Style) -> (flipped: Style)
    ensures
        flipped == spec_flip_fg_bg(style),
{
    let background = match style.foreground_color {
        Some(c) => c,
        None => Color::White,
    };
    let foreground = match style.background_color {
        Some(c) => c,
        None => Color::Black,
    };
    Style {
        background_color: Some(background),
        foreground_color: Some(foreground),
        attributes: Attributes { bits: 0 },
    }
}

/// A titled list of items with a selection.
pub struct Menu<T> {
    pub title: String,
    pub items: Vec<T>,
    /// Whether the items are shown with their number.
    pub numbered: bool,
    /// The index of the selection.
    pub selected: usize,
    /// The style of the box around the menu.
    pub box_style: Style,
    /// The style of the title.
    pub text_style: Style,
    /// The style of the items.
    pub item_style: Style,
    /// The style of the selected item, where it has one of its own.
    pub selected_style: Option<Style>,
}

/// The index that `count` steps up from `selected` lead to in a list of
/// `len` items, going round from the first item to the last.
pub open spec fn stepped_up(selected: int, count: int, len: int) -> int {
    let c = count % len;
    if selected >= c {
        selected - c
    } else {
        len - (c - selected)
    }
}

/// The index that `count` steps down from `selected` lead to in a list of
/// `len` items, going round from the last item to the first.
pub open spec fn stepped_down(selected: int, count: int, len: int) -> int {
    (selected + count % len) % len
}

impl<T> Menu<T> {
    /// Whether `self` differs from `before` in its selection at most.
    pub open spec fn same_but_selection(&self, before: &Self) -> bool {
        &&& self.title@ == before.title@
        &&& self.items@ == before.items@
        &&& self.numbered == before.numbered
        &&& self.box_style == before.box_style
        &&& self.text_style == before.text_style
        &&& self.item_style == before.item_style
        &&& self.selected_style == before.selected_style
    }

    /// A menu without items, in the plain style.
    pub fn new(title: String) -> (menu: Self)
        ensures
            menu.title@ == title@,
            menu.items@ == Seq::<T>::empty(),
            menu.selected == 0,
            !menu.numbered,
            menu.box_style == Style::plain(),
            menu.text_style == Style::plain(),
            menu.item_style == Style::plain(),
            menu.selected_style is None,
    {
        Self {
            title,
            items: Vec::new(),
            numbered: false,
            selected: 0,
            box_style: Style::default(),
            text_style: Style::default(),
            item_style: Style::default(),
            selected_style: None,
        }
    }

    /// The menu with `items` in place of its own. The selection keeps its index.
    pub fn with_items(self, items: Vec<T>) -> (menu: Self)
        ensures
            menu.items@ == items@,
            menu.title@ == self.title@,
            menu.selected == self.selected,
            menu.numbered == self.numbered,
            menu.box_style == self.box_style,
            menu.text_style == self.text_style,
            menu.item_style == self.item_style,
            menu.selected_style == self.selected_style,
    {
        let mut menu = self;
        menu.items = items;
        menu
    }

    /// The title of the menu.
    pub fn title(&self) -> (title: &str)
        ensures
            title@ == self.title@,
    {
        self.title.as_str()
    }

    /// The items of the menu.
    pub fn items(&self) -> (items: &[T])
        ensures
            items@ == self.items@,
    {
        self.items.as_slice()
    }

    /// The selected item, if the selection names one.
    pub fn selected(&self) -> (item: Option<&T>)
        ensures
            item == (if self.selected < self.items@.len() {
                Some(&self.items@[self.selected as int])
            } else {
                None
            }),
    {
        if self.selected < self.items.len() {
            Some(&self.items[self.selected])
        } else {
            None
        }
    }

    /// The index of the selection, or `None` in a menu without items.
    pub fn selected_index(&self) -> (index: Option<usize>)
        ensures
            index == (if self.items@.len() == 0 {
                None
            } else {
                Some(self.selected)
            }),
    {
        if self.items.len() == 0 {
            None
        } else {
            Some(self.selected)
        }
    }

    /// Selects item `i`, or the last item where the menu has no item `i`.
    pub fn select(&mut self, i: usize)
        requires
            old(self).items@.len() > 0,
        ensures
            final(self).same_but_selection(old(self)),
            final(self).selected == (if i < old(self).items@.len() {
                i as int
            } else {
                old(self).items@.len() - 1
            }),
    {
        let last: usize = self.items.len() - 1;
        self.selected = if i > last {
            last
        } else {
            i
        };
    }

    /// Selects the first item.
    pub fn first(&mut self)
        ensures
            final(self).same_but_selection(old(self)),
            final(self).selected == 0,
    {
        self.selected = 0;
    }

    /// Selects the last item.
    pub fn last(&mut self)
        requires
            old(self).items@.len() > 0,
        ensures
            final(self).same_but_selection(old(self)),
            final(self).selected == old(self).items@.len() - 1,
    {
        self.selected = self.items.len() - 1;
    }

    /// Moves the selection `c` items up, going round from the first item to
    /// the last.
    pub fn up(&mut self, c: usize)
        requires
            old(self).items@.len() > 0,
        ensures
            final(self).same_but_selection(old(self)),
            final(self).selected == stepped_up(
                old(self).selected as int,
                c as int,
                old(self).items@.len() as int,
            ),
    {
        let len: usize = self.items.len();
        let c: usize = c % len;
        if self.selected >= c {
            self.selected = self.selected - c;
        } else {
            self.selected = len - (c - self.selected);
        }
    }

    /// Moves the selection `c` items down, going round from the last item
    /// to the first.
    pub fn down(&mut self, c: usize)
        requires
            old(self).items@.len() > 0,
            old(self).selected + (c as int) % (old(self).items@.len() as int) <= usize::MAX,
        ensures
            final(self).same_but_selection(old(self)),
            final(self).selected == stepped_down(
                old(self).selected as int,
                c as int,
                old(self).items@.len() as int,
            ),
    {
        let len: usize = self.items.len();
        let c: usize = c % len;
        self.selected = (self.selected + c) % len;
    }
}

/// The greatest width among the first `count` items; among no items, the
/// least number there is.
pub open spec fn widest_item<T: KnownWidth>(items: Seq<T>, count: nat) -> int
    decreases count,
{
    if count == 0 {
        i32::MIN as int
    } else {
        let before = widest_item(items, (count - 1) as nat);
        let width = items[count - 1].spec_w() as int;
        if width > before {
            width
        } else {
            before
        }
    }
}

/// The heights of the first `count` items, added up.
pub open spec fn total_height<T: KnownHeight>(items: Seq<T>, count: nat) -> int
    decreases count,
{
    if count == 0 {
        0
    } else {
        total_height(items, (count - 1) as nat) + items[count - 1].spec_h()
    }
}

/// The heights of items add up to a number of limited size.
pub proof fn lemma_total_height_bounds<T: KnownHeight>(items: Seq<T>, count: nat)
    requires
        count <= items.len(),
    ensures
        -0x8000_0000 * count <= total_height(items, count) <= 0x7fff_ffff * count,
    decreases count,
{
    if count > 0 {
        lemma_total_height_bounds(items, (count - 1) as nat);
    }
}

/// The heights of as many items as a list can hold add up to a number
/// that 128 bits hold with room to spare.
pub proof fn lemma_total_height_range<T: KnownHeight>(items: Seq<T>, count: nat)
    requires
        count <= items.len(),
        count <= 0x1_0000_0000_0000_0000,
    ensures
        -0x8000_0000_0000_0000_0000_0000 <= total_height(items, count)
            <= 0x8000_0000_0000_0000_0000_0000,
{
    lemma_total_height_bounds(items, count);
    assert(-0x8000_0000 * count >= -0x8000_0000 * 0x1_0000_0000_0000_0000) by (nonlinear_arith)
        requires
            0 <= count <= 0x1_0000_0000_0000_0000,
    ;
    assert(0x7fff_ffff * count <= 0x7fff_ffff * 0x1_0000_0000_0000_0000) by (nonlinear_arith)
        requires
            0 <= count <= 0x1_0000_0000_0000_0000,
    ;
}

impl<T> Menu<T> {
    /// The number of columns that the numbers of the items take, with the
    /// point and the space behind each: as many as the number after the
    /// last has digits, and two; none in a menu without numbers.
    pub open spec fn spec_number_columns(&self) -> int {
        if self.numbered {
            decimal_len(self.items@.len() + 1) as int + 2
        } else {
            0
        }
    }

    /// The number of columns that the title takes: its length in bytes
    /// and a space on either side.
    pub open spec fn spec_title_columns(&self) -> int {
        ((vstd::utf8::encode_utf8(self.title@).len() as usize) as i32) + 2
    }
}

impl<T: KnownWidth> Menu<T> {
    /// The number of columns that the items take: the widest item and
    /// the numbers before it; none in a menu without items.
    pub open spec fn spec_items_columns(&self) -> int {
        if self.items@.len() > 0 {
            self.spec_number_columns() + widest_item(self.items@, self.items@.len())
        } else {
            0
        }
    }

    /// The width of the menu: what its items or its title take, whichever
    /// is more, and four columns for the box and the mark of the selection.
    pub open spec fn spec_width(&self) -> int {
        2 + 2 + (if self.spec_items_columns() > self.spec_title_columns() {
            self.spec_items_columns()
        } else {
            self.spec_title_columns()
        })
    }

    /// The width of the menu, where it is a value of `i32`.
    pub fn w(&self) -> (width: i32)
        requires
            self.items@.len() < usize::MAX,
            in_i32(self.spec_width()),
        ensures
            width == self.spec_width(),
    {
        self.wide_width() as i32
    }

    /// The width of the menu, or `None` where it is no value of `i32`.
    pub fn checked_w(&self) -> (width: Option<i32>)
        ensures
            width == (if self.items@.len() < usize::MAX && in_i32(self.spec_width()) {
                Some(self.spec_width() as i32)
            } else {
                None
            }),
    {
        if self.items.len() == usize::MAX {
            return None;
        }
        let wide: i64 = self.wide_width();
        if wide >= i32::MIN as i64 && wide <= i32::MAX as i64 {
            Some(self.w())
        } else {
            None
        }
    }

    /// The width of the menu as a number that cannot overflow.
    fn wide_width(&self) -> (width: i64)
        requires
            self.items@.len() < usize::MAX,
        ensures
            width == self.spec_width(),
    {
        let number_columns: i64 = if self.numbered {
            decimal_digits(self.items.len() + 1) as i64 + 2
        } else {
            0
        };
        let mut widest: i64 = i32::MIN as i64;
        let mut i: usize = 0;
        while i < self.items.len()
            invariant
                0 <= i <= self.items@.len(),
                i32::MIN <= widest <= i32::MAX,
                widest == widest_item(self.items@, i as nat),
            decreases self.items@.len() - i,
        {
            let width: i64 = self.items[i].w() as i64;
            if width > widest {
                widest = width;
            }
            i = i + 1;
        }
        let items_columns: i64 = if self.items.len() > 0 {
            number_columns + widest
        } else {
            0
        };
        let title_bytes: i32 = #[verifier::truncate]
        (self.title.as_str().len() as i32);
        let title_columns: i64 = title_bytes as i64 + 2;
        2 + 2 + if items_columns > title_columns {
            items_columns
        } else {
            title_columns
        }
    }
}

impl<T: KnownHeight> Menu<T> {
    /// The height of the menu: the heights of its items and four rows for
    /// the box, the title and the rule below it.
    pub open spec fn spec_height(&self) -> int {
        total_height(self.items@, self.items@.len()) + 2 + 2
    }

    /// The height of the menu, where it is a value of `i32`.
    pub fn h(&self) -> (height: i32)
        requires
            in_i32(self.spec_height()),
        ensures
            height == self.spec_height(),
    {
        self.wide_height() as i32
    }

    /// The height of the menu, or `None` where it is no value of `i32`.
    pub fn checked_h(&self) -> (height: Option<i32>)
        ensures
            height == (if in_i32(self.spec_height()) {
                Some(self.spec_height() as i32)
            } else {
                None
            }),
    {
        let wide: i128 = self.wide_height();
        if wide >= i32::MIN as i128 && wide <= i32::MAX as i128 {
            Some(self.h())
        } else {
            None
        }
    }

    /// The height of the menu as a number that cannot overflow.
    fn wide_height(&self) -> (height: i128)
        ensures
            height == self.spec_height(),
    {
        let mut total: i128 = 0;
        let mut i: usize = 0;
        while i < self.items.len()
            invariant
                0 <= i <= self.items@.len(),
                total == total_height(self.items@, i as nat),
            decreases self.items@.len() - i,
        {
            proof {
                lemma_total_height_range(self.items@, i as nat);
            }
            total = total + self.items[i].h() as i128;
            i = i + 1;
        }
        proof {
            lemma_total_height_range(self.items@, i as nat);
        }
        total + 2 + 2
    }
}

/// The mark that stands before the selected item.
pub open spec fn selection_mark() -> Seq<char> {
    seq!['>', ' ']
}

/// The number that stands before item `i` of a numbered menu: counted
/// from one, with a point and a space behind it.
pub open spec fn number_label(i: int) -> Seq<char> {
    decimal((i + 1) as nat) + seq!['.', ' ']
}

impl<T> Menu<T> {
    /// The style that item `i` is drawn in: the style of the selection,
    /// where the menu has one, for the selected item, and the style of the
    /// items for every other item.
    pub open spec fn spec_style_of(&self, i: int) -> Style {
        if self.selected == i {
            match self.selected_style {
                Some(style) => style,
                None => self.item_style,
            }
        } else {
            self.item_style
        }
    }

    /// The title as it is drawn: with a space on either side.
    pub open spec fn title_line(&self) -> Seq<char> {
        seq![' '] + self.title@ + seq![' ']
    }

    /// The style that item `i` is drawn in.
    pub fn style_of(&self, i: usize) -> (style: Style)
        ensures
            style == self.spec_style_of(i as int),
    {
        if self.selected == i {
            match self.selected_style {
                Some(style) => style,
                None => self.item_style,
            }
        } else {
            self.item_style
        }
    }
}

impl<T: Drawable + KnownWidth + KnownHeight> Menu<T> {
    /// The extent of the menu.
    pub open spec fn spec_dims(&self) -> Dims {
        Pos { x: self.spec_width() as i32, y: self.spec_height() as i32 }
    }

    /// The frame through which a menu at `pos` is drawn on `target`: as
    /// large as the menu, and clipping.
    pub open spec fn frame<P: CanvasLike>(&self, pos: Dims, target: P) -> Frame<P> {
        Frame { rel_pos: pos, size: self.spec_dims(), clip: true, parent: target }
    }

    /// The cells of item `i` in row `row` of the menu: the mark of the
    /// selection before the selected item, the number in a numbered menu,
    /// and the item itself behind them. A row outside the range of the
    /// coordinates holds nothing.
    pub open spec fn item_writes(&self, i: int, row: int) -> Seq<CellWrite> {
        if fits_i32(row) {
            self.item_row_writes(i, row as i32, self.spec_dims())
        } else {
            Seq::empty()
        }
    }

    /// The cells that item `i` hands to a target of extent `size` when it
    /// is drawn in row `row`: the mark of the selection before the selected
    /// item, the number in a numbered menu, and the item itself behind them.
    pub open spec fn item_row_writes(&self, i: int, row: i32, size: Dims) -> Seq<CellWrite> {
        (if self.selected == i {
            text_writes(selection_mark(), 1, row, size, self.spec_style_of(i))
        } else {
            Seq::empty()
        }) + (if self.numbered {
            text_writes(number_label(i), 3, row, size, self.spec_style_of(i))
        } else {
            Seq::empty()
        }) + self.items@[i].styled_writes(
            Pos { x: (self.spec_number_columns() + 3) as i32, y: row },
            size,
            self.spec_style_of(i),
        )
    }

    /// Draws item `i` in row `row` of `frame`: the mark of the selection
    /// if the item is selected, its number in a numbered menu, and the item
    /// itself behind them, all in the style of the item.
    pub fn draw_item<F: CanvasLike>(&self, i: usize, row: i32, frame: &mut F)
        requires
            i < self.items@.len(),
            self.items@.len() < usize::MAX,
        ensures
            (*final(frame)).cells() == painted(
                &*old(frame),
                (*old(frame)).cells(),
                self.item_row_writes(i as int, row, (*old(frame)).spec_size()),
            ),
            same_shape(&*final(frame), &*old(frame)),
    {
        let ghost size = (*old(frame)).spec_size();
        let ghost grid = (*old(frame)).cells();
        let ghost mut drawn: Seq<CellWrite> = Seq::empty();
        proof {
            lemma_painted_empty(&*old(frame), grid);
            lemma_same_shape(&*frame, &*old(frame));
        }
        let style = self.style_of(i);
        if self.selected == i {
            let ghost before = *frame;
            proof {
                reveal_strlit("> ");
                assert("> "@ =~= selection_mark());
            }
            draw_text_from("> ", 1, row, frame, style);
            proof {
                let cells = text_writes(selection_mark(), 1, row, size, style);
                lemma_painted_step(&*old(frame), &before, &*frame, grid, drawn, cells);
                drawn = drawn + cells;
            }
        }
        if self.numbered {
            let ghost before = *frame;
            let mut label = String::new();
            push_decimal(&mut label, i + 1);
            push_char(&mut label, '.');
            push_char(&mut label, ' ');
            assert(label@ =~= number_label(i as int));
            draw_text_from(label.as_str(), 3, row, frame, style);
            proof {
                let cells = text_writes(number_label(i as int), 3, row, size, style);
                lemma_painted_step(&*old(frame), &before, &*frame, grid, drawn, cells);
                drawn = drawn + cells;
            }
        }
        let number_columns: i32 = if self.numbered {
            decimal_digits(self.items.len() + 1) as i32 + 2
        } else {
            0
        };
        let ghost before = *frame;
        self.items[i].draw_styled(Pos::new(number_columns + 3, row), frame, style);
        proof {
            let cells = self.items@[i as int].styled_writes(
                Pos { x: (number_columns + 3) as i32, y: row },
                size,
                style,
            );
            lemma_painted_step(&*old(frame), &before, &*frame, grid, drawn, cells);
            drawn = drawn + cells;
            assert(drawn =~= self.item_row_writes(i as int, row, size));
        }
    }

    /// The cells of the first `count` items: each item below the one
    /// before it, the first in the fourth row of the menu.
    pub open spec fn items_writes(&self, count: nat) -> Seq<CellWrite>
        decreases count,
    {
        if count == 0 {
            Seq::empty()
        } else {
            self.items_writes((count - 1) as nat) + self.item_writes(
                count - 1,
                3 + total_height(self.items@, (count - 1) as nat),
            )
        }
    }

    /// The cells of what stands above the items: the box, the rule below
    /// the title, and the title in the middle of the second row.
    pub open spec fn head_writes(&self) -> Seq<CellWrite> {
        box_writes(self.spec_dims(), Pos { x: 0, y: 0 }, self.spec_dims(), self.box_style)
            + text_writes(
            Seq::new((self.spec_dims().x - 2) as nat, |i: int| '─'),
            1,
            2,
            self.spec_dims(),
            self.box_style,
        ) + text_writes(
            self.title_line(),
            half(self.spec_dims().x - text_width(self.title_line())),
            1,
            self.spec_dims(),
            self.text_style,
        )
    }

    /// The cells of the menu, in the order in which they are drawn.
    pub open spec fn menu_writes(&self) -> Seq<CellWrite> {
        self.head_writes() + self.items_writes(self.items@.len())
    }

    /// Whether the menu can be drawn: its width and its height are values
    /// of `i32`, and it is wide enough for the two sides of its box.
    pub open spec fn well_sized(&self) -> bool {
        &&& self.items@.len() < usize::MAX
        &&& 2 <= self.spec_width() <= i32::MAX
        &&& in_i32(self.spec_height())
    }

    /// The extent of the menu, or `None` for a menu that cannot be drawn.
    pub fn checked_dims(&self) -> (dims: Option<Dims>)
        ensures
            dims == (if self.well_sized() {
                Some(self.spec_dims())
            } else {
                None
            }),
    {
        match (self.checked_w(), self.checked_h()) {
            (Some(width), Some(height)) => if width >= 2 {
                Some(Pos::new(width, height))
            } else {
                None
            },
            _ => None,
        }
    }

    /// Draws the menu on `target` with its upper left corner at `pos`, and
    /// gives the target back. Everything is drawn through one clipping frame
    /// as large as the menu: the box, the rule below the title, the title,
    /// and the items from the top down.
    pub fn draw_on<P: CanvasLike>(&self, pos: Dims, target: P) -> (out: P)
        requires
            self.well_sized(),
        ensures
            out.cells() == painted(&self.frame(pos, target), target.cells(), self.menu_writes()),
            same_shape(&out, &target),
    {
        let size = Pos::new(self.w(), self.h());
        let mut frame = Frame { rel_pos: pos, size, clip: true, parent: target };
        let ghost start = frame;
        let ghost grid = target.cells();
        let ghost box_cells = box_writes(size, Pos { x: 0, y: 0 }, size, self.box_style);
        Dbox::new(size).draw_styled(Pos::new(0, 0), &mut frame, self.box_style);
        let ghost boxed = frame;
        let ghost rule_cells = text_writes(
            Seq::new((size.x - 2) as nat, |i: int| '─'),
            1,
            2,
            size,
            self.box_style,
        );
        draw_text_from(repeated('─', size.x - 2).as_str(), 1, 2, &mut frame, self.box_style);
        proof {
            lemma_painted_step(&start, &boxed, &frame, grid, box_cells, rule_cells);
        }
        let ghost ruled = frame;
        let mut line = String::new();
        push_char(&mut line, ' ');
        line.append(self.title.as_str());
        push_char(&mut line, ' ');
        assert(line@ =~= self.title_line());
        let line_width: i32 = #[verifier::truncate]
        (str_columns(line.as_str()) as i32);
        let column: i64 = (size.x as i64 - line_width as i64) / 2;
        draw_text_from(line.as_str(), column, 1, &mut frame, self.text_style);
        proof {
            lemma_painted_step(
                &start,
                &ruled,
                &frame,
                grid,
                box_cells + rule_cells,
                text_writes(self.title_line(), column as int, 1, size, self.text_style),
            );
            assert(self.head_writes() + self.items_writes(0) =~= self.head_writes());
        }
        let mut row: i128 = 3;
        let mut i: usize = 0;
        while i < self.items.len()
            invariant
                0 <= i <= self.items@.len(),
                self.well_sized(),
                size == self.spec_dims(),
                size == start.size,
                row == 3 + total_height(self.items@, i as nat),
                same_shape(&frame, &start),
                frame.cells() == painted(
                    &start,
                    grid,
                    self.head_writes() + self.items_writes(i as nat),
                ),
            decreases self.items@.len() - i,
        {
            let ghost above = self.head_writes() + self.items_writes(i as nat);
            let ghost before = frame;
            proof {
                lemma_total_height_range(self.items@, i as nat);
                lemma_painted_empty(&start, frame.cells());
            }
            if row >= i32::MIN as i128 && row <= i32::MAX as i128 {
                self.draw_item(i, row as i32, &mut frame);
                proof {
                    lemma_painted_step(
                        &start,
                        &before,
                        &frame,
                        grid,
                        above,
                        self.item_row_writes(i as int, row as i32, size),
                    );
                }
            }
            proof {
                assert(self.head_writes() + self.items_writes((i + 1) as nat) =~= above
                    + self.item_writes(i as int, row as int));
            }
            row = row + self.items[i].h() as i128;
            i = i + 1;
        }
        let out = frame.into_parent();
        proof {
            lemma_same_shape(&out, &target);
        }
        out
    }
}

} // verus!
