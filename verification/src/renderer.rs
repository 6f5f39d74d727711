//! The double-buffered renderer.
//!
//! The renderer holds two canvases. Drawing goes to the hidden one; the
//! shown one holds what the terminal displays. `Renderer::render` compares
//! the two row by row and gives the terminal commands that bring the terminal
//! up to date. Once those commands are written and flushed,
//! `Renderer::present` exchanges the two canvases and blanks the hidden one
//! for the next frame.
//!
//! The renderer never talks to a terminal itself: it says what is to be
//! sent, as a sequence of `Command` values.

use crate::canvas::{blank_grid, resized_grid, written, Buffer, Canvas, CanvasLike};
use crate::cell::Cell;
use crate::input::Event;
use crate::layout::{Dims, Pos};
use crate::style::{Attribute, Attributes, Color, Style};
use vstd::prelude::*;

verus! {

/// One instruction for the terminal.
#[derive(Debug, Clone, Copy, PartialEq, Eq, Structural)]
pub enum Command {
    /// Take keys as they are typed, without echo.
    EnableRawMode,
    /// Go back to line-wise input.
    DisableRawMode,
    /// Switch to the alternate screen.
    EnterAlternateScreen,
    /// Switch back to the primary screen.
    LeaveAlternateScreen,
    /// Hide the cursor.
    HideCursor,
    /// Show the cursor.
    ShowCursor,
    /// Set both colors back to the terminal's own.
    ResetColor,
    /// Move the cursor to a column and a row.
    MoveTo(u16, u16),
    /// Set the color behind the characters.
    SetBackgroundColor(Color),
    /// Set the color of the characters.
    SetForegroundColor(Color),
    /// Switch one attribute on. `Attribute::Reset` clears attributes and colors.
    SetAttribute(Attribute),
    /// Switch every attribute of the set on.
    SetAttributes(Attributes),
    /// Print a character where the cursor is, which moves the cursor on.
    Print(char),
}

/// The color to ask for: the terminal's own where the style names none.
pub open spec fn color_or_reset(color: Option<Color>) -> Color {
    match color {
        Some(c) => c,
        None => Color::Reset,
    }
}

/// The command that sets a color again after attributes were cleared, if
/// the style names one.
pub open spec fn reassert(color: Option<Color>, foreground: bool) -> Seq<Command> {
    match color {
        Some(c) => if foreground {
            seq![Command::SetForegroundColor(c)]
        } else {
            seq![Command::SetBackgroundColor(c)]
        },
        None => Seq::empty(),
    }
}

/// The commands that take the terminal from the style `from` to the style
/// `to`: the background if it differs, then the foreground if it differs,
/// then, if the attributes differ, a reset of all attributes, which also
/// clears the colors, followed by the colors that `to` names and its attributes.
pub open spec fn style_commands(from: Style, to: Style) -> Seq<Command> {
    (if from.background_color != to.background_color {
        seq![Command::SetBackgroundColor(color_or_reset(to.background_color))]
    } else {
        Seq::empty()
    }) + (if from.foreground_color != to.foreground_color {
        seq![Command::SetForegroundColor(color_or_reset(to.foreground_color))]
    } else {
        Seq::empty()
    }) + (if from.attributes != to.attributes {
        seq![Command::SetAttribute(Attribute::Reset)] + reassert(to.foreground_color, true)
            + reassert(to.background_color, false) + seq![Command::SetAttributes(to.attributes)]
    } else {
        Seq::empty()
    })
}

/// The commands for one cell while `style` is in force: nothing for a
/// placeholder, and for a character the change of style and the character.
pub open spec fn cell_commands(style: Style, cell: Cell) -> Seq<Command> {
    match cell {
        Cell::PlaceHolder => Seq::empty(),
        Cell::Content(content) => style_commands(style, content.style).push(
            Command::Print(content.character),
        ),
    }
}

/// The style in force after a cell was sent.
pub open spec fn style_after(style: Style, cell: Cell) -> Style {
    match cell {
        Cell::PlaceHolder => style,
        Cell::Content(content) => content.style,
    }
}

/// The style in force after the cells of `row` were sent, starting in `style`.
pub open spec fn row_style(row: Seq<Cell>, style: Style) -> Style
    decreases row.len(),
{
    if row.len() == 0 {
        style
    } else {
        style_after(row_style(row.drop_last(), style), row.last())
    }
}

/// The commands for the cells of `row` from left to right, starting in `style`.
pub open spec fn row_commands(row: Seq<Cell>, style: Style) -> Seq<Command>
    decreases row.len(),
{
    if row.len() == 0 {
        Seq::empty()
    } else {
        row_commands(row.drop_last(), style) + cell_commands(
            row_style(row.drop_last(), style),
            row.last(),
        )
    }
}

/// The terminal row of grid row `y`: the terminal has no row beyond 65535.
pub open spec fn terminal_row(y: int) -> u16 {
    if y > u16::MAX {
        u16::MAX
    } else {
        y as u16
    }
}

/// Whether row `y` of `hidden` is sent: always in a full redraw, and else
/// where it differs from the row that is shown.
pub open spec fn row_is_sent(
    hidden: Seq<Seq<Cell>>,
    shown: Seq<Seq<Cell>>,
    full_redraw: bool,
    y: int,
) -> bool {
    full_redraw || y >= shown.len() || hidden[y] != shown[y]
}

/// The style in force after the first `rows` rows were handled.
pub open spec fn rows_style(
    hidden: Seq<Seq<Cell>>,
    shown: Seq<Seq<Cell>>,
    full_redraw: bool,
    rows: nat,
) -> Style
    decreases rows,
{
    if rows == 0 {
        Style::plain()
    } else {
        let before = rows_style(hidden, shown, full_redraw, (rows - 1) as nat);
        if row_is_sent(hidden, shown, full_redraw, rows - 1) {
            row_style(hidden[rows - 1], before)
        } else {
            before
        }
    }
}

/// The commands for the first `rows` rows: for each row that is sent, a
/// move to its start and then its cells; nothing for the others.
pub open spec fn rows_commands(
    hidden: Seq<Seq<Cell>>,
    shown: Seq<Seq<Cell>>,
    full_redraw: bool,
    rows: nat,
) -> Seq<Command>
    decreases rows,
{
    if rows == 0 {
        Seq::empty()
    } else {
        rows_commands(hidden, shown, full_redraw, (rows - 1) as nat) + (if row_is_sent(
            hidden,
            shown,
            full_redraw,
            rows - 1,
        ) {
            seq![Command::MoveTo(0, terminal_row(rows - 1))] + row_commands(
                hidden[rows - 1],
                rows_style(hidden, shown, full_redraw, (rows - 1) as nat),
            )
        } else {
            Seq::empty()
        })
    }
}

/// The commands of one frame: a reset of the colors, then the rows of
/// `hidden` from the top.
pub open spec fn frame_commands(
    hidden: Seq<Seq<Cell>>,
    shown: Seq<Seq<Cell>>,
    full_redraw: bool,
) -> Seq<Command> {
    seq![Command::ResetColor] + rows_commands(hidden, shown, full_redraw, hidden.len())
}

/// Where the first `rows` rows of the hidden grid are the rows that are
/// shown, and the frame is not sent in full, those rows give no command and
/// leave the style as it was.
pub proof fn lemma_same_rows_send_nothing(hidden: Seq<Seq<Cell>>, shown: Seq<Seq<Cell>>, rows: nat)
    requires
        rows <= hidden.len(),
        rows <= shown.len(),
        forall|y: int| 0 <= y < rows ==> hidden[y] == shown[y],
    ensures
        rows_commands(hidden, shown, false, rows) == Seq::<Command>::empty(),
        rows_style(hidden, shown, false, rows) == Style::plain(),
    decreases rows,
{
    if rows > 0 {
        lemma_same_rows_send_nothing(hidden, shown, (rows - 1) as nat);
    }
}

/// A frame that holds what is shown already, and is not sent in full, asks
/// the terminal for nothing but the reset of the colors that every frame
/// starts with: no row is sent.
pub proof fn lemma_same_frame_sends_no_row(hidden: Seq<Seq<Cell>>, shown: Seq<Seq<Cell>>)
    requires
        hidden == shown,
    ensures
        frame_commands(hidden, shown, false) == seq![Command::ResetColor],
{
    lemma_same_rows_send_nothing(hidden, shown, hidden.len());
}

/// Appends the commands that change the style from `from` to `to`.
pub fn push_style_change(out: &mut Vec<Command>, from: Style, to: Style)
    ensures
        final(out)@ == old(out)@ + style_commands(from, to),
{
    if !same_color(from.background_color, to.background_color) {
        match to.background_color {
            Some(c) => {
                out.push(Command::SetBackgroundColor(c));
            },
            None => {
                out.push(Command::SetBackgroundColor(Color::Reset));
            },
        }
    }
    if !same_color(from.foreground_color, to.foreground_color) {
        match to.foreground_color {
            Some(c) => {
                out.push(Command::SetForegroundColor(c));
            },
            None => {
                out.push(Command::SetForegroundColor(Color::Reset));
            },
        }
    }
    if from.attributes != to.attributes {
        out.push(Command::SetAttribute(Attribute::Reset));
        if let Some(c) = to.foreground_color {
            out.push(Command::SetForegroundColor(c));
        }
        if let Some(c) = to.background_color {
            out.push(Command::SetBackgroundColor(c));
        }
        out.push(Command::SetAttributes(to.attributes));
    }
}

/// Whether two optional colors are the same.
pub fn same_color(a: Option<Color>, b: Option<Color>) -> (same: bool)
    ensures
        same == (a == b),
{
    match (a, b) {
        (Some(x), Some(y)) => x == y,
        (None, None) => true,
        _ => false,
    }
}

/// Whether two rows hold the same cells.
pub fn same_row(a: &Vec<Cell>, b: &Vec<Cell>) -> (same: bool)
    ensures
        same == (a@ == b@),
{
    if a.len() != b.len() {
        return false;
    }
    let mut i: usize = 0;
    while i < a.len()
        invariant
            a@.len() == b@.len(),
            0 <= i <= a@.len(),
            forall|k: int| 0 <= k < i ==> a@[k] == b@[k],
        decreases a@.len() - i,
    {
        if a[i] != b[i] {
            return false;
        }
        i = i + 1;
    }
    assert(a@ =~= b@);
    true
}

/// Appends the commands for the cells of `row`, starting in `style`, and
/// gives the style in force afterwards.
pub fn push_row(out: &mut Vec<Command>, row: &Vec<Cell>, style: Style) -> (after: Style)
    ensures
        final(out)@ == old(out)@ + row_commands(row@, style),
        after == row_style(row@, style),
{
    let mut current = style;
    let mut x: usize = 0;
    while x < row.len()
        invariant
            0 <= x <= row@.len(),
            current == row_style(row@.take(x as int), style),
            out@ == old(out)@ + row_commands(row@.take(x as int), style),
        decreases row@.len() - x,
    {
        assert(row@.take(x + 1).drop_last() =~= row@.take(x as int));
        match row[x] {
            Cell::Content(content) => {
                push_style_change(out, current, content.style);
                out.push(Command::Print(content.character));
                current = content.style;
            },
            Cell::PlaceHolder => {},
        }
        x = x + 1;
    }
    assert(row@.take(row@.len() as int) =~= row@);
    current
}

/// The two canvases of a renderer: the hidden one, which is drawn on, and
/// the shown one, which holds what the terminal displays.
pub struct RenderSpace {
    shown: Canvas,
    hidden: Canvas,
}

impl RenderSpace {
    /// The canvas that is drawn on.
    pub closed spec fn spec_hidden(&self) -> Canvas {
        self.hidden
    }

    /// The canvas that holds what the terminal displays.
    pub closed spec fn spec_shown(&self) -> Canvas {
        self.shown
    }

    /// Two blank canvases of the given extent.
    pub fn new(size: Dims) -> (space: Self)
        requires
            Buffer::can_hold(size),
        ensures
            space.spec_hidden().buffer.wf(),
            space.spec_hidden().buffer.spec_size() == size,
            space.spec_hidden().buffer.cells() == blank_grid(size.x as int, size.y as int),
            space.spec_shown().buffer.wf(),
            space.spec_shown().buffer.spec_size() == size,
            space.spec_shown().buffer.cells() == blank_grid(size.x as int, size.y as int),
    {
        Self { shown: Canvas::from_dims(size), hidden: Canvas::from_dims(size) }
    }

    /// The canvas that is drawn on.
    pub fn canvas(&mut self) -> (canvas: &mut Canvas)
        ensures
            *canvas == old(self).spec_hidden(),
            final(self).spec_hidden() == *final(canvas),
            final(self).spec_shown() == old(self).spec_shown(),
    {
        &mut self.hidden
    }

    /// The canvas that holds what the terminal displays.
    pub fn other(&self) -> (canvas: &Canvas)
        ensures
            *canvas == self.spec_shown(),
    {
        &self.shown
    }

    /// Both canvases: the hidden one first.
    pub fn both_mut(&mut self) -> (both: (&mut Canvas, &mut Canvas))
        ensures
            *both.0 == old(self).spec_hidden(),
            *both.1 == old(self).spec_shown(),
            final(self).spec_hidden() == *final(both.0),
            final(self).spec_shown() == *final(both.1),
    {
        (&mut self.hidden, &mut self.shown)
    }

    /// Gives both canvases the extent `size`.
    pub fn on_resize(&mut self, size: Dims)
        requires
            Buffer::can_resize_to(size),
        ensures
            final(self).spec_hidden().buffer.spec_size() == size,
            final(self).spec_hidden().buffer.cells() == (if old(self).spec_hidden().buffer.spec_size()
                == size {
                old(self).spec_hidden().buffer.cells()
            } else {
                resized_grid(old(self).spec_hidden().buffer.cells(), size.x as int, size.y as int)
            }),
            final(self).spec_shown().buffer.spec_size() == size,
            final(self).spec_shown().buffer.cells() == (if old(self).spec_shown().buffer.spec_size()
                == size {
                old(self).spec_shown().buffer.cells()
            } else {
                resized_grid(old(self).spec_shown().buffer.cells(), size.x as int, size.y as int)
            }),
    {
        self.shown.resize(size);
        self.hidden.resize(size);
    }

    /// Exchanges the two canvases.
    pub fn swap(&mut self)
        ensures
            final(self).spec_hidden() == old(self).spec_shown(),
            final(self).spec_shown() == old(self).spec_hidden(),
    {
        core::mem::swap(&mut self.hidden, &mut self.shown);
    }
}

impl CanvasLike for RenderSpace {
    type Shape = (Dims, Canvas);

    open spec fn cells(&self) -> Seq<Seq<Cell>> {
        self.spec_hidden().buffer.cells()
    }

    open spec fn shape(&self) -> (Dims, Canvas) {
        (self.spec_hidden().buffer.spec_size(), self.spec_shown())
    }

    open spec fn landing(&self, pos: Dims) -> Option<Dims> {
        Some(pos)
    }

    open spec fn spec_pos(&self) -> Dims {
        Pos { x: 0, y: 0 }
    }

    open spec fn spec_size(&self) -> Dims {
        self.spec_hidden().buffer.spec_size()
    }

    proof fn lemma_shape_decides(&self, other: &Self) {
    }

    /// Writes `cell` at `pos` of the hidden canvas.
    fn set(&mut self, pos: Dims, cell: Cell)
        ensures
            final(self).spec_shown() == old(self).spec_shown(),
    {
        self.hidden.set(pos, cell);
    }

    fn pos(&self) -> (p: Dims) {
        Pos::new(0, 0)
    }

    fn size(&self) -> (s: Dims) {
        self.hidden.size()
    }
}

/// The commands that bring the terminal into the state that the renderer
/// works in: raw input, a hidden cursor, the alternate screen.
pub open spec fn setup_commands() -> Seq<Command> {
    seq![Command::EnableRawMode, Command::HideCursor, Command::EnterAlternateScreen]
}

/// The commands that give the terminal back: the cursor, the primary
/// screen, line-wise input.
pub open spec fn teardown_commands() -> Seq<Command> {
    seq![Command::ShowCursor, Command::LeaveAlternateScreen, Command::DisableRawMode]
}

/// The commands that give the terminal back before a panic is reported.
pub open spec fn panic_commands() -> Seq<Command> {
    seq![Command::LeaveAlternateScreen, Command::ShowCursor, Command::DisableRawMode]
}

/// The state of a renderer: the two canvases, the extent of the terminal,
/// whether the next frame is sent in full, and whether the terminal is set up.
pub struct Renderer {
    size: Dims,
    render_space: RenderSpace,
    full_redraw: bool,
    active: bool,
}

impl Renderer {
    /// The extent of the terminal as the renderer knows it.
    pub closed spec fn spec_size(&self) -> Dims {
        self.size
    }

    /// The two canvases.
    pub closed spec fn space(&self) -> RenderSpace {
        self.render_space
    }

    /// Whether the next frame is sent in full.
    pub closed spec fn spec_full_redraw(&self) -> bool {
        self.full_redraw
    }

    /// Whether the terminal is set up and not yet given back.
    pub closed spec fn spec_active(&self) -> bool {
        self.active
    }

    /// The cells that are drawn on.
    pub open spec fn hidden_cells(&self) -> Seq<Seq<Cell>> {
        self.space().spec_hidden().buffer.cells()
    }

    /// The cells that the terminal displays.
    pub open spec fn shown_cells(&self) -> Seq<Seq<Cell>> {
        self.space().spec_shown().buffer.cells()
    }

    /// A renderer for a terminal of the given extent, with two blank
    /// canvases. The terminal is not set up yet, and the first frame will be
    /// sent in full.
    pub fn new(size: Dims) -> (renderer: Self)
        requires
            Buffer::can_hold(size),
        ensures
            renderer.spec_size() == size,
            renderer.spec_full_redraw(),
            !renderer.spec_active(),
            renderer.hidden_cells() == blank_grid(size.x as int, size.y as int),
            renderer.shown_cells() == blank_grid(size.x as int, size.y as int),
            renderer.space().spec_hidden().buffer.wf(),
            renderer.space().spec_shown().buffer.wf(),
            renderer.space().spec_hidden().buffer.spec_size() == size,
            renderer.space().spec_shown().buffer.spec_size() == size,
    {
        Renderer { size, render_space: RenderSpace::new(size), full_redraw: true, active: false }
    }

    /// Marks the terminal as set up and gives the commands that set it up.
    pub fn turn_on(&mut self) -> (commands: Vec<Command>)
        ensures
            commands@ == setup_commands(),
            final(self).spec_active(),
            final(self).spec_full_redraw(),
            final(self).spec_size() == old(self).spec_size(),
            final(self).space() == old(self).space(),
    {
        self.active = true;
        self.full_redraw = true;
        let mut commands: Vec<Command> = Vec::new();
        commands.push(Command::EnableRawMode);
        commands.push(Command::HideCursor);
        commands.push(Command::EnterAlternateScreen);
        commands
    }

    /// Gives the commands that hand the terminal back, once: a renderer
    /// whose terminal is not set up, or was handed back already, gives none.
    pub fn turn_off(&mut self) -> (commands: Vec<Command>)
        ensures
            commands@ == (if old(self).spec_active() {
                teardown_commands()
            } else {
                Seq::empty()
            }),
            !final(self).spec_active(),
            final(self).spec_full_redraw() == old(self).spec_full_redraw(),
            final(self).spec_size() == old(self).spec_size(),
            final(self).space() == old(self).space(),
    {
        let mut commands: Vec<Command> = Vec::new();
        if self.active {
            self.active = false;
            commands.push(Command::ShowCursor);
            commands.push(Command::LeaveAlternateScreen);
            commands.push(Command::DisableRawMode);
        }
        commands
    }

    /// The commands that hand the terminal back before a panic is reported.
    /// They do not depend on any renderer, and sending them twice does no harm.
    pub fn restore_commands() -> (commands: Vec<Command>)
        ensures
            commands@ == panic_commands(),
    {
        let mut commands: Vec<Command> = Vec::new();
        commands.push(Command::LeaveAlternateScreen);
        commands.push(Command::ShowCursor);
        commands.push(Command::DisableRawMode);
        commands
    }

    /// Whether `self` is what `before` becomes when the terminal gets the
    /// extent `size`: both canvases have that extent, keeping the cells that
    /// lie within it and blank elsewhere, and the next frame is sent in full.
    pub open spec fn is_resized(&self, before: &Renderer, size: Dims) -> bool {
        &&& self.spec_size() == size
        &&& self.spec_full_redraw()
        &&& self.spec_active() == before.spec_active()
        &&& self.space().spec_hidden().buffer.spec_size() == size
        &&& self.space().spec_shown().buffer.spec_size() == size
        &&& self.hidden_cells() == (if before.space().spec_hidden().buffer.spec_size() == size {
            before.hidden_cells()
        } else {
            resized_grid(before.hidden_cells(), size.x as int, size.y as int)
        })
        &&& self.shown_cells() == (if before.space().spec_shown().buffer.spec_size() == size {
            before.shown_cells()
        } else {
            resized_grid(before.shown_cells(), size.x as int, size.y as int)
        })
    }

    /// Takes over a new extent of the terminal: both canvases get it, and
    /// the next frame is sent in full.
    pub fn on_resize(&mut self, size: Dims)
        requires
            Buffer::can_resize_to(size),
        ensures
            final(self).is_resized(old(self), size),
    {
        self.size = size;
        self.render_space.on_resize(size);
        self.full_redraw = true;
    }

    /// Takes note of an event: a new extent of the terminal is taken over
    /// as `on_resize` does, and no other event changes the renderer.
    pub fn on_event(&mut self, event: &Event)
        ensures
            match *event {
                Event::Resize(x, y) => final(self).is_resized(
                    old(self),
                    Pos { x: x as i32, y: y as i32 },
                ),
                _ => *final(self) == *old(self),
            },
    {
        if let Event::Resize(x, y) = *event {
            self.on_resize(Pos::new(x as i32, y as i32));
        }
    }

    /// The extent of the terminal as the renderer knows it.
    pub fn size(&self) -> (size: Dims)
        ensures
            size == self.spec_size(),
    {
        self.size
    }

    /// Whether the next frame is sent in full.
    pub fn full_redraw(&self) -> (full: bool)
        ensures
            full == self.spec_full_redraw(),
    {
        self.full_redraw
    }

    /// Whether the terminal is set up and not yet given back.
    pub fn is_active(&self) -> (active: bool)
        ensures
            active == self.spec_active(),
    {
        self.active
    }

    /// The canvas to draw the next frame on.
    pub fn canvas(&mut self) -> (canvas: &mut Canvas)
        ensures
            *canvas == old(self).space().spec_hidden(),
            final(self).space().spec_hidden() == *final(canvas),
            final(self).space().spec_shown() == old(self).space().spec_shown(),
            final(self).spec_size() == old(self).spec_size(),
            final(self).spec_full_redraw() == old(self).spec_full_redraw(),
            final(self).spec_active() == old(self).spec_active(),
    {
        self.render_space.canvas()
    }

    /// The canvas that holds what the terminal displays.
    pub fn shown(&self) -> (canvas: &Canvas)
        ensures
            *canvas == self.space().spec_shown(),
    {
        self.render_space.other()
    }

    /// The two canvases, as a target to draw the next frame on.
    pub fn get_render_space(&mut self) -> (space: &mut RenderSpace)
        ensures
            *space == old(self).space(),
            final(self).space() == *final(space),
            final(self).spec_size() == old(self).spec_size(),
            final(self).spec_full_redraw() == old(self).spec_full_redraw(),
            final(self).spec_active() == old(self).spec_active(),
    {
        &mut self.render_space
    }

    /// The commands that bring the terminal from what is shown to what is
    /// hidden: a reset of the colors, then, from the top, each row that
    /// differs from the row shown (every row in a full redraw), as a move
    /// to its start followed by its characters, each with the change of
    /// style that it needs. The renderer itself is left as it is: the frame
    /// counts as shown only once `present` is called.
    pub fn render(&self) -> (commands: Vec<Command>)
        ensures
            commands@ == frame_commands(
                self.hidden_cells(),
                self.shown_cells(),
                self.spec_full_redraw(),
            ),
    {
        let hidden = self.render_space.hidden.get_buf().buf_ref();
        let shown = self.render_space.shown.get_buf().buf_ref();
        let ghost hidden_cells = self.hidden_cells();
        let ghost shown_cells = self.shown_cells();
        let full = self.full_redraw;
        let mut commands: Vec<Command> = Vec::new();
        let mut style = Style::default();
        commands.push(Command::ResetColor);
        let mut y: usize = 0;
        while y < hidden.len()
            invariant
                0 <= y <= hidden@.len(),
                hidden@.len() == hidden_cells.len(),
                shown@.len() == shown_cells.len(),
                forall|j: int| 0 <= j < hidden@.len() ==> (#[trigger] hidden@[j])@ == hidden_cells[j],
                forall|j: int| 0 <= j < shown@.len() ==> (#[trigger] shown@[j])@ == shown_cells[j],
                style == rows_style(hidden_cells, shown_cells, full, y as nat),
                commands@ == seq![Command::ResetColor] + rows_commands(
                    hidden_cells,
                    shown_cells,
                    full,
                    y as nat,
                ),
            decreases hidden@.len() - y,
        {
            let sent = full || y >= shown.len() || !same_row(&hidden[y], &shown[y]);
            if sent {
                let row: u16 = if y > u16::MAX as usize {
                    u16::MAX
                } else {
                    y as u16
                };
                commands.push(Command::MoveTo(0, row));
                style = push_row(&mut commands, &hidden[y], style);
            }
            y = y + 1;
        }
        commands
    }

    /// Takes note that the frame of `render` was written and flushed: what
    /// was hidden is now shown, the hidden canvas is what was shown before
    /// with every cell blank, and the next frame is sent by difference.
    pub fn present(&mut self)
        ensures
            !final(self).spec_full_redraw(),
            final(self).spec_size() == old(self).spec_size(),
            final(self).spec_active() == old(self).spec_active(),
            final(self).space().spec_shown() == old(self).space().spec_hidden(),
            final(self).space().spec_hidden().buffer.spec_size()
                == old(self).space().spec_shown().buffer.spec_size(),
            final(self).hidden_cells().len() == old(self).shown_cells().len(),
            forall|y: int|
                0 <= y < old(self).shown_cells().len() ==> #[trigger] final(self).hidden_cells()[y]
                    == Seq::new(old(self).shown_cells()[y].len(), |x: int| Cell::blank()),
            old(self).space().spec_shown().buffer.wf() ==> {
                &&& final(self).space().spec_hidden().buffer.wf()
                &&& final(self).hidden_cells() == blank_grid(
                    old(self).space().spec_shown().buffer.spec_size().x as int,
                    old(self).space().spec_shown().buffer.spec_size().y as int,
                )
            },
    {
        self.full_redraw = false;
        self.render_space.swap();
        self.render_space.canvas().clear();
    }
}

} // verus!
