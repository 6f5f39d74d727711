//! A titled box of text.

use super::fullscreen_popup::FullScreenPopup;
use crate::canvas::{
    lemma_painted_concat, lemma_painted_empty, lemma_painted_same_target, lemma_same_shape, painted,
    same_shape, CanvasLike, CellWrite,
};
use crate::drawable::core_impl::{draw_text_from, text_writes};
use crate::drawable::dbox::{box_writes, text_row_writes, Dbox};
use crate::drawable::misc::text_width;
use crate::drawable::Drawable;
use crate::frame::Frame;
use crate::layout::align::Align;
use crate::layout::axis::Axis;
use crate::layout::pos::half;
use crate::layout::strings::{push_char, repeated};
use crate::layout::{Dims, Pos};
use crate::style::Style;
use crate::width::{str_columns, unicode_str_width};
use vstd::prelude::*;
use vstd::string::StringExecFns;

verus! {

/// A box with a title and, below it, lines of text.
pub struct Popup {
    pub title: String,
    /// The lines of text, if the popup has any.
    pub texts: Option<Vec<String>>,
    /// The style of the box.
    pub box_style: Style,
    /// The style of the title and of the text.
    pub text_style: Style,
}

/// The greatest width among the first `count` of `texts`, and 0 for none.
pub open spec fn longest(texts: Seq<Seq<char>>, count: nat) -> usize
    decreases count,
{
    if count == 0 {
        0
    } else {
        let before = longest(texts, (count - 1) as nat);
        let width = unicode_str_width(texts[count - 1]);
        if width > before {
            width
        } else {
            before
        }
    }
}

/// The greater of two numbers.
pub open spec fn larger(a: usize, b: usize) -> usize {
    if a > b {
        a
    } else {
        b
    }
}

/// The cells of the first `count` lines of text of a popup: each line in
/// a row of its own, from the third row of what the box holds, one column in.
pub open spec fn lines_writes(texts: Seq<Seq<char>>, count: nat, size: Dims, style: Style) -> Seq<
    CellWrite,
>
    decreases count,
{
    if count == 0 {
        Seq::empty()
    } else {
        lines_writes(texts, (count - 1) as nat, size, style) + text_row_writes(
            texts[count - 1],
            1,
            count - 1 + 2,
            size,
            style,
        )
    }
}

impl Popup {
    /// The lines of text of the popup, if it has any.
    pub open spec fn spec_texts(&self) -> Option<Seq<Seq<char>>> {
        match self.texts {
            Some(texts) => Some(Seq::new(texts@.len(), |i: int| texts@[i]@)),
            None => None,
        }
    }

    /// The width of what the box of the popup holds: with text, the width
    /// of the widest line or of the title, whichever is greater; without
    /// text, the number of characters of the title.
    pub open spec fn spec_inner_width(&self) -> i32 {
        match self.spec_texts() {
            Some(texts) => larger(longest(texts, texts.len()), unicode_str_width(self.title@)) as i32,
            None => self.title@.len() as i32,
        }
    }

    /// The number of lines of text, and 0 for a popup without text.
    pub open spec fn spec_text_rows(&self) -> i32 {
        match self.spec_texts() {
            Some(texts) => texts.len() as i32,
            None => 0,
        }
    }

    /// The width of the popup: what its box holds, and four columns for
    /// the box and its margin.
    pub open spec fn spec_width(&self) -> int {
        self.spec_inner_width() + 2 + 2
    }

    /// The height of the popup: three rows without text; with text, one
    /// row for each line and four for the box, the title and the rule below it.
    pub open spec fn spec_height(&self) -> int {
        match self.spec_texts() {
            Some(_) => 2 + 2 + self.spec_text_rows(),
            None => 3,
        }
    }

    /// The extent of the popup.
    pub open spec fn spec_size(&self) -> Dims {
        Pos { x: self.spec_width() as i32, y: self.spec_height() as i32 }
    }

    /// The extent of what the box holds.
    pub open spec fn spec_inner_size(&self) -> Dims {
        Pos { x: (self.spec_width() - 2) as i32, y: (self.spec_height() - 2) as i32 }
    }

    /// Whether the extent of the popup is one that can be drawn: neither
    /// its width nor its number of lines is beyond the values of `i32`.
    pub open spec fn well_sized(&self) -> bool {
        &&& 0 <= self.spec_inner_width() <= i32::MAX - 4
        &&& 0 <= self.spec_text_rows() <= i32::MAX - 4
    }

    /// The frame through which the box of a popup at `at` is drawn on
    /// `target`: as large as the popup, clipped by the extent of the target.
    pub open spec fn box_frame<P: CanvasLike>(&self, at: Dims, target: P) -> Frame<Frame<P>> {
        Frame { rel_pos: at, size: self.spec_size(), clip: true, parent: Frame::spec_new(target) }
    }

    /// The frame through which the title and the text of a popup at `at`
    /// are drawn on `target`: what the box leaves free.
    pub open spec fn inner_frame<P: CanvasLike>(&self, at: Dims, target: P) -> Frame<Frame<P>> {
        Frame {
            rel_pos: Pos { x: (at.x + 1) as i32, y: (at.y + 1) as i32 },
            size: self.spec_inner_size(),
            clip: true,
            parent: Frame::spec_new(target),
        }
    }

    /// The title as it is drawn: with a space on either side.
    pub open spec fn title_line(&self) -> Seq<char> {
        seq![' '] + self.title@ + seq![' ']
    }

    /// The column of the title line within what the box holds: in the middle.
    pub open spec fn title_column(&self) -> int {
        half(self.spec_inner_size().x - (text_width(self.title@) + 2))
    }

    /// The rule below the title: as long as what the box holds is wide.
    pub open spec fn rule(&self) -> Seq<char> {
        Seq::new(
            if self.spec_inner_size().x > 0 {
                self.spec_inner_size().x as nat
            } else {
                0
            },
            |i: int| '─',
        )
    }

    /// The cells of what the box holds: the title line in the first row
    /// and, where the popup has text, the rule in the second row and the
    /// lines of text below it.
    pub open spec fn inner_writes(&self) -> Seq<CellWrite> {
        text_writes(
            self.title_line(),
            self.title_column(),
            0,
            self.spec_inner_size(),
            self.text_style,
        ) + (match self.spec_texts() {
            Some(texts) => text_writes(self.rule(), 0, 1, self.spec_inner_size(), Style::plain())
                + lines_writes(texts, texts.len(), self.spec_inner_size(), self.text_style),
            None => Seq::empty(),
        })
    }

    /// A popup with a title and no text, in the plain style.
    pub fn new(title: String) -> (popup: Self)
        ensures
            popup.title@ == title@,
            popup.spec_texts() is None,
            popup.box_style == Style::plain(),
            popup.text_style == Style::plain(),
    {
        Self { title, texts: None, box_style: Style::default(), text_style: Style::default() }
    }

    /// The popup with the given lines of text.
    pub fn with_texts(self, texts: Vec<String>) -> (popup: Self)
        ensures
            popup.title@ == self.title@,
            popup.spec_texts() == Some(Seq::new(texts@.len(), |i: int| texts@[i]@)),
            popup.box_style == self.box_style,
            popup.text_style == self.text_style,
    {
        let mut popup = self;
        popup.texts = Some(texts);
        popup
    }

    /// The popup with another style for its box.
    pub fn with_box_style(self, style: Style) -> (popup: Self)
        ensures
            popup.title@ == self.title@,
            popup.spec_texts() == self.spec_texts(),
            popup.box_style == style,
            popup.text_style == self.text_style,
    {
        let mut popup = self;
        popup.box_style = style;
        popup
    }

    /// The popup with another style for its title and text.
    pub fn with_text_style(self, style: Style) -> (popup: Self)
        ensures
            popup.title@ == self.title@,
            popup.spec_texts() == self.spec_texts(),
            popup.box_style == self.box_style,
            popup.text_style == style,
    {
        let mut popup = self;
        popup.text_style = style;
        popup
    }

    /// The popup as a screen of its own.
    pub fn to_window(self) -> (screen: FullScreenPopup)
        ensures
            screen.0 == self,
    {
        FullScreenPopup::new(self)
    }

    /// The title of the popup.
    pub fn title(&self) -> (title: &str)
        ensures
            title@ == self.title@,
    {
        self.title.as_str()
    }

    /// The width of what the box of the popup holds.
    fn inner_width(&self) -> (width: i32)
        ensures
            width == self.spec_inner_width(),
    {
        match &self.texts {
            Some(texts) => {
                let mut widest: usize = 0;
                let mut i: usize = 0;
                let ghost all = Seq::new(texts@.len(), |i: int| texts@[i]@);
                while i < texts.len()
                    invariant
                        0 <= i <= texts@.len(),
                        all.len() == texts@.len(),
                        forall|j: int| 0 <= j < texts@.len() ==> (#[trigger] texts@[j])@ == all[j],
                        widest == longest(all, i as nat),
                    decreases texts@.len() - i,
                {
                    let width: usize = str_columns(texts[i].as_str());
                    if width > widest {
                        widest = width;
                    }
                    i = i + 1;
                }
                let title_width: usize = str_columns(self.title.as_str());
                if title_width > widest {
                    widest = title_width;
                }
                #[verifier::truncate]
                (widest as i32)
            },
            None => #[verifier::truncate]
            (self.title.as_str().unicode_len() as i32),
        }
    }

    /// The number of lines of text, and 0 for a popup without text.
    fn text_rows(&self) -> (rows: i32)
        ensures
            rows == self.spec_text_rows(),
    {
        match &self.texts {
            Some(texts) => {
                #[verifier::truncate]
                (texts.len() as i32)
            },
            None => 0,
        }
    }

    /// The extent of the popup, where its width and height are values of `i32`.
    pub fn size(&self) -> (size: Dims)
        requires
            self.spec_width() <= i32::MAX,
            self.spec_height() <= i32::MAX,
        ensures
            size.x == self.spec_width(),
            size.y == self.spec_height(),
    {
        let height: i32 = if self.texts.is_some() {
            2 + 2 + self.text_rows()
        } else {
            3
        };
        Pos::new(self.inner_width() + 2 + 2, height)
    }

    /// The extent of the popup, or `None` where its width or its height
    /// is no value of `i32`.
    pub fn checked_size(&self) -> (size: Option<Dims>)
        ensures
            size == (if self.spec_width() <= i32::MAX && self.spec_height() <= i32::MAX {
                Some(Pos { x: self.spec_width() as i32, y: self.spec_height() as i32 })
            } else {
                None
            }),
    {
        if self.inner_width() <= i32::MAX - 4 && self.text_rows() <= i32::MAX - 4 {
            Some(self.size())
        } else {
            None
        }
    }

    /// Draws the popup on `target` with its upper left corner at `at`, and
    /// gives the target back: first the box, through a frame as large as
    /// the popup; then, through a frame over what the box leaves free, the
    /// title and the text. Both frames are clipped by the extent of the target.
    pub fn draw_on<P: CanvasLike>(&self, at: Dims, target: P) -> (out: P)
        requires
            self.well_sized(),
            at.x < i32::MAX,
            at.y < i32::MAX,
        ensures
            out.cells() == painted(
                &self.inner_frame(at, target),
                painted(
                    &self.box_frame(at, target),
                    target.cells(),
                    box_writes(self.spec_size(), Pos { x: 0, y: 0 }, self.spec_size(), self.box_style),
                ),
                self.inner_writes(),
            ),
            same_shape(&out, &target),
    {
        let size = self.size();
        let inner_size = Pos::new(size.x - 2, size.y - 2);
        let screen = Frame::new(target);
        let mut outer = Frame { rel_pos: at, size, clip: true, parent: screen };
        Dbox::new(size).draw_styled(Pos::new(0, 0), &mut outer, self.box_style);
        let screen = outer.into_parent();
        let mut inner = Frame {
            rel_pos: Pos::new(at.x + 1, at.y + 1),
            size: inner_size,
            clip: true,
            parent: screen,
        };
        let ghost start = inner;
        let ghost boxed = inner.cells();
        proof {
            lemma_same_shape(&start, &self.inner_frame(at, target));
        }
        let mut line = String::new();
        push_char(&mut line, ' ');
        line.append(self.title.as_str());
        push_char(&mut line, ' ');
        assert(line@ =~= self.title_line());
        let title_width: i32 = #[verifier::truncate]
        (str_columns(self.title.as_str()) as i32);
        let column: i64 = (inner_size.x as i64 - (title_width as i64 + 2)) / 2;
        draw_text_from(line.as_str(), column, 0, &mut inner, self.text_style);
        let ghost title_cells = text_writes(
            self.title_line(),
            self.title_column(),
            0,
            inner_size,
            self.text_style,
        );
        match &self.texts {
            Some(texts) => {
                let ghost all = self.spec_texts()->0;
                let ghost rule_cells = text_writes(self.rule(), 0, 1, inner_size, Style::plain());
                let ghost before = inner;
                draw_text_from(
                    repeated('─', inner_size.x).as_str(),
                    0,
                    1,
                    &mut inner,
                    Style::default(),
                );
                proof {
                    lemma_painted_same_target(&before, &start, before.cells(), rule_cells);
                    lemma_painted_concat(&start, boxed, title_cells, rule_cells);
                    lemma_painted_empty(&start, inner.cells());
                }
                let mut i: usize = 0;
                while i < texts.len()
                    invariant
                        0 <= i <= texts@.len(),
                        all.len() == texts@.len(),
                        forall|j: int| 0 <= j < texts@.len() ==> (#[trigger] texts@[j])@ == all[j],
                        inner_size == start.size,
                        same_shape(&inner, &start),
                        inner.cells() == painted(
                            &start,
                            boxed,
                            title_cells + rule_cells + lines_writes(
                                all,
                                i as nat,
                                inner_size,
                                self.text_style,
                            ),
                        ),
                    decreases texts@.len() - i,
                {
                    let ghost before = inner;
                    let ghost above = title_cells + rule_cells + lines_writes(
                        all,
                        i as nat,
                        inner_size,
                        self.text_style,
                    );
                    let ghost row_cells = text_row_writes(
                        all[i as int],
                        1,
                        i + 2,
                        inner_size,
                        self.text_style,
                    );
                    if i <= i32::MAX as usize - 2 {
                        draw_text_from(
                            texts[i].as_str(),
                            1,
                            (i + 2) as i32,
                            &mut inner,
                            self.text_style,
                        );
                        proof {
                            lemma_painted_same_target(&before, &start, before.cells(), row_cells);
                        }
                    } else {
                        proof {
                            lemma_painted_empty(&start, inner.cells());
                        }
                    }
                    proof {
                        lemma_painted_concat(&start, boxed, above, row_cells);
                        assert(title_cells + rule_cells + lines_writes(
                            all,
                            (i + 1) as nat,
                            inner_size,
                            self.text_style,
                        ) =~= above + row_cells);
                    }
                    i = i + 1;
                }
                proof {
                    assert(self.inner_writes() =~= title_cells + rule_cells + lines_writes(
                        all,
                        all.len(),
                        inner_size,
                        self.text_style,
                    ));
                }
            },
            None => {},
        }
        proof {
            lemma_painted_same_target(
                &start,
                &self.inner_frame(at, target),
                boxed,
                self.inner_writes(),
            );
        }
        let out = inner.into_parent().into_parent();
        proof {
            lemma_same_shape(&out, &target);
        }
        out
    }

    /// Where a popup that is aligned by `pos` lies on a target of extent
    /// `extent`, or `None` where the popup cannot be drawn there: its extent
    /// or its position is beyond the values of `i32`.
    pub open spec fn spec_place(&self, pos: Pos<Align, Align>, extent: Dims) -> Option<Dims> {
        let at = pos.spec_calc_both(self.spec_size(), extent);
        if self.well_sized() && pos.both_defined(self.spec_size(), extent) && at.x < i32::MAX && at.y
            < i32::MAX {
            Some(at)
        } else {
            None
        }
    }

    /// Where a popup that is aligned by `pos` lies on a target of extent
    /// `extent`, or `None` where the popup cannot be drawn there.
    pub fn place(&self, pos: Pos<Align, Align>, extent: Dims) -> (at: Option<Dims>)
        ensures
            at == self.spec_place(pos, extent),
    {
        let width = self.inner_width();
        let rows = self.text_rows();
        if width < 0 || width > i32::MAX - 4 || rows < 0 || rows > i32::MAX - 4 {
            return None;
        }
        match pos.checked_calc_both(self.size(), extent) {
            Some(at) => if at.x < i32::MAX && at.y < i32::MAX {
                Some(at)
            } else {
                None
            },
            None => None,
        }
    }

    /// Draws the popup on `target` where `pos` aligns it, as `draw_on`
    /// does, and says that it did; or gives the target back as it is, and
    /// says so, where the popup cannot be drawn there.
    pub fn try_draw_on<P: CanvasLike>(&self, pos: Pos<Align, Align>, target: P) -> (out: (P, bool))
        ensures
            match self.spec_place(pos, target.spec_size()) {
                Some(at) => {
                    &&& out.1
                    &&& out.0.cells() == painted(
                        &self.inner_frame(at, target),
                        painted(
                            &self.box_frame(at, target),
                            target.cells(),
                            box_writes(
                                self.spec_size(),
                                Pos { x: 0, y: 0 },
                                self.spec_size(),
                                self.box_style,
                            ),
                        ),
                        self.inner_writes(),
                    )
                    &&& same_shape(&out.0, &target)
                },
                None => !out.1 && out.0 == target,
            },
    {
        match self.place(pos, target.size()) {
            Some(at) => (self.draw_on(at, target), true),
            None => (target, false),
        }
    }
}

} // verus!
