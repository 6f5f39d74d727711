use fyodor::canvas::Canvas;
use fyodor::cell::Cell;
use fyodor::drawable::dbox::Dbox;
use fyodor::drawable::misc::{
    CenteredString, CenteredStringExt, RightAlignedString, RightAlignedStringExt,
};
use fyodor::drawable::multiline::Multiline;
use fyodor::drawable::styled::Stylable;
use fyodor::drawable::Drawable;
use fyodor::frame::Frame;
use fyodor::layout::Pos;
use fyodor::style::{Color, Style};

fn at(x: i32, y: i32) -> Pos<i32, i32> {
    Pos::new(x, y)
}

fn row(canvas: &Canvas, y: i32) -> String {
    let mut text = String::new();
    for x in 0..canvas.size().x {
        match canvas.get(at(x, y)) {
            Some(Cell::Content(content)) => text.push(content.character),
            Some(Cell::PlaceHolder) => text.push('_'),
            None => unreachable!(),
        }
    }
    text
}

#[test]
fn narrow_character_takes_one_cell() {
    let mut canvas = Canvas::from_dims(at(4, 2));
    'A'.draw(at(2, 1), &mut canvas);
    assert_eq!(canvas.get(at(2, 1)), Some(Cell::new('A')));
    assert_eq!(row(&canvas, 0), "    ");
    assert_eq!(row(&canvas, 1), "  A ");
}

#[test]
fn wide_character_takes_a_cell_and_a_placeholder() {
    let mut canvas = Canvas::from_dims(at(3, 1));
    canvas.set(at(2, 0), Cell::new('k'));
    '中'.draw(at(0, 0), &mut canvas);
    assert_eq!(canvas.get(at(0, 0)), Some(Cell::new('中')));
    assert_eq!(canvas.get(at(1, 0)), Some(Cell::PlaceHolder));
    assert_eq!(canvas.get(at(2, 0)), Some(Cell::new('k')));
}

#[test]
fn wide_character_is_cut_at_the_right_bound() {
    let mut canvas = Canvas::from_dims(at(3, 2));
    '中'.draw(at(2, 0), &mut canvas);
    assert_eq!(canvas.get(at(2, 0)), Some(Cell::new('中')));
    assert_eq!(row(&canvas, 0), "  中");
    assert_eq!(row(&canvas, 1), "   ");
}

#[test]
fn wide_character_left_of_the_grid_leaves_its_placeholder() {
    let mut canvas = Canvas::from_dims(at(3, 1));
    '中'.draw(at(-1, 0), &mut canvas);
    assert_eq!(row(&canvas, 0), "_  ");
}

#[test]
fn three_column_character() {
    let mut canvas = Canvas::from_dims(at(5, 1));
    '\u{17D8}'.draw(at(1, 0), &mut canvas);
    assert_eq!(canvas.get(at(1, 0)), Some(Cell::new('\u{17D8}')));
    assert_eq!(canvas.get(at(2, 0)), Some(Cell::PlaceHolder));
    assert_eq!(canvas.get(at(3, 0)), Some(Cell::PlaceHolder));
    assert_eq!(canvas.get(at(4, 0)), Some(Cell::new(' ')));
}

#[test]
fn character_without_width_is_not_drawn() {
    let mut canvas = Canvas::from_dims(at(3, 1));
    '\u{0301}'.draw(at(1, 0), &mut canvas);
    assert_eq!(row(&canvas, 0), "   ");
}

#[test]
fn character_at_or_beyond_the_bounds_is_not_drawn() {
    let mut canvas = Canvas::from_dims(at(3, 2));
    'x'.draw(at(3, 0), &mut canvas);
    'x'.draw(at(0, 2), &mut canvas);
    'x'.draw(at(7, 7), &mut canvas);
    'x'.draw(at(0, -1), &mut canvas);
    'x'.draw(at(-1, 0), &mut canvas);
    'x'.draw(at(i32::MAX, 0), &mut canvas);
    assert_eq!(row(&canvas, 0), "   ");
    assert_eq!(row(&canvas, 1), "   ");
}

#[test]
fn character_checks_the_declared_extent_of_an_open_frame() {
    // The frame does not clip, but it says that it is two columns wide: a
    // character at its column 2 is not drawn at all, and the placeholder of
    // a wide character at column 1 goes through.
    let mut frame = Frame::new(Canvas::from_dims(at(6, 1))).with_size(at(2, 1)).no_clip();
    'x'.draw(at(2, 0), &mut frame);
    '中'.draw(at(1, 0), &mut frame);
    let canvas = frame.into_parent();
    assert_eq!(row(&canvas, 0), " 中_   ");
}

#[test]
fn styled_character() {
    let mut canvas = Canvas::from_dims(at(2, 1));
    let red = Style::foreground(Color::Red);
    'r'.draw_styled(at(0, 0), &mut canvas, red);
    assert_eq!(canvas.get(at(0, 0)), Some(Cell::styled('r', red)));
    'p'.draw(at(1, 0), &mut canvas);
    assert_eq!(canvas.get(at(1, 0)), Some(Cell::styled('p', Style::default())));
}

#[test]
fn string_advances_by_display_width() {
    let mut canvas = Canvas::from_dims(at(8, 1));
    "a中b\u{0301}c".draw(at(1, 0), &mut canvas);
    assert_eq!(row(&canvas, 0), " a中_bc  ");
    assert_eq!(canvas.get(at(2, 0)), Some(Cell::new('中')));
    assert_eq!(canvas.get(at(3, 0)), Some(Cell::PlaceHolder));
}

#[test]
fn string_is_cut_at_the_right_bound() {
    let mut canvas = Canvas::from_dims(at(4, 2));
    "abcdefgh".draw(at(2, 0), &mut canvas);
    assert_eq!(row(&canvas, 0), "  ab");
    assert_eq!(row(&canvas, 1), "    ");
}

#[test]
fn string_starting_left_of_the_grid() {
    let mut canvas = Canvas::from_dims(at(4, 1));
    "abcdef".draw(at(-2, 0), &mut canvas);
    assert_eq!(row(&canvas, 0), "cdef");
}

#[test]
fn string_far_outside_the_coordinates() {
    let mut canvas = Canvas::from_dims(at(4, 1));
    "abc".draw(at(i32::MAX, 0), &mut canvas);
    "abc".draw(at(i32::MIN, 0), &mut canvas);
    "abc".draw(at(0, i32::MAX), &mut canvas);
    assert_eq!(row(&canvas, 0), "    ");
}

#[test]
fn empty_string_draws_nothing() {
    let mut canvas = Canvas::from_dims(at(2, 1));
    "".draw(at(0, 0), &mut canvas);
    assert_eq!(row(&canvas, 0), "  ");
}

#[test]
fn owned_string_draws_like_a_slice() {
    let mut canvas = Canvas::from_dims(at(4, 1));
    let green = Style::foreground(Color::Green);
    String::from("ab").draw(at(0, 0), &mut canvas);
    String::from("cd").draw_styled(at(2, 0), &mut canvas, green);
    assert_eq!(canvas.get(at(1, 0)), Some(Cell::new('b')));
    assert_eq!(canvas.get(at(2, 0)), Some(Cell::styled('c', green)));
    assert_eq!(canvas.get(at(3, 0)), Some(Cell::styled('d', green)));
}

#[test]
fn cell_draws_itself() {
    let mut canvas = Canvas::from_dims(at(3, 1));
    let red = Style::foreground(Color::Red);
    let blue = Style::background(Color::Blue);
    Cell::styled('a', red).draw(at(0, 0), &mut canvas);
    Cell::styled('b', red).draw_styled(at(1, 0), &mut canvas, blue);
    Cell::PlaceHolder.draw_styled(at(2, 0), &mut canvas, blue);
    assert_eq!(canvas.get(at(0, 0)), Some(Cell::styled('a', red)));
    assert_eq!(canvas.get(at(1, 0)), Some(Cell::styled('b', blue)));
    assert_eq!(canvas.get(at(2, 0)), Some(Cell::PlaceHolder));
}

#[test]
fn style_paired_with_content_overrides_the_style() {
    let mut canvas = Canvas::from_dims(at(4, 1));
    let red = Style::foreground(Color::Red);
    let blue = Style::foreground(Color::Blue);
    (red, "ab").draw(at(0, 0), &mut canvas);
    (red, 'c').draw_styled(at(2, 0), &mut canvas, blue);
    'd'.styled(blue).draw(at(3, 0), &mut canvas);
    assert_eq!(canvas.get(at(0, 0)), Some(Cell::styled('a', red)));
    assert_eq!(canvas.get(at(1, 0)), Some(Cell::styled('b', red)));
    assert_eq!(canvas.get(at(2, 0)), Some(Cell::styled('c', blue)));
    assert_eq!(canvas.get(at(3, 0)), Some(Cell::styled('d', blue)));
}

#[test]
fn reference_draws_like_its_content() {
    let mut canvas = Canvas::from_dims(at(2, 1));
    let c = 'q';
    (&c).draw(at(0, 0), &mut canvas);
    (&&c).draw_styled(at(1, 0), &mut canvas, Style::default());
    assert_eq!(row(&canvas, 0), "qq");
}

#[test]
fn box_outline() {
    let mut canvas = Canvas::from_dims(at(6, 5));
    let dbox = Dbox::new(at(4, 3));
    assert_eq!(dbox.size(), at(4, 3));
    dbox.draw(at(1, 1), &mut canvas);
    assert_eq!(row(&canvas, 0), "      ");
    assert_eq!(row(&canvas, 1), " ╭──╮ ");
    assert_eq!(row(&canvas, 2), " │  │ ");
    assert_eq!(row(&canvas, 3), " ╰──╯ ");
    assert_eq!(row(&canvas, 4), "      ");
}

#[test]
fn smallest_boxes() {
    let mut canvas = Canvas::from_dims(at(3, 3));
    Dbox::new(at(2, 2)).draw(at(0, 0), &mut canvas);
    assert_eq!(row(&canvas, 0), "╭╮ ");
    assert_eq!(row(&canvas, 1), "╰╯ ");
    assert_eq!(row(&canvas, 2), "   ");
    // One row high: the bottom line lies over the top line.
    let mut canvas = Canvas::from_dims(at(3, 3));
    Dbox::new(at(3, 1)).draw(at(0, 1), &mut canvas);
    assert_eq!(row(&canvas, 0), "   ");
    assert_eq!(row(&canvas, 1), "╰─╯");
    assert_eq!(row(&canvas, 2), "   ");
    // No row high: the bottom line lies above the top line.
    let mut canvas = Canvas::from_dims(at(3, 3));
    Dbox::new(at(3, 0)).draw(at(0, 1), &mut canvas);
    assert_eq!(row(&canvas, 0), "╰─╯");
    assert_eq!(row(&canvas, 1), "╭─╮");
    assert_eq!(row(&canvas, 2), "   ");
}

#[test]
fn box_is_cut_by_the_grid() {
    let mut canvas = Canvas::from_dims(at(3, 3));
    let style = Style::foreground(Color::Cyan);
    Dbox::new(at(4, 4)).draw_styled(at(1, 1), &mut canvas, style);
    assert_eq!(row(&canvas, 0), "   ");
    assert_eq!(row(&canvas, 1), " ╭─");
    assert_eq!(row(&canvas, 2), " │ ");
    assert_eq!(canvas.get(at(1, 1)), Some(Cell::styled('╭', style)));
    assert_eq!(canvas.get(at(1, 2)), Some(Cell::styled('│', style)));
    assert_eq!(canvas.get(at(2, 2)), Some(Cell::new(' ')));
}

#[test]
fn centered_string() {
    let mut canvas = Canvas::from_dims(at(9, 2));
    CenteredString::new("abc").draw(at(7, 1), &mut canvas);
    "中文".center().draw(at(0, 0), &mut canvas);
    assert_eq!(row(&canvas, 1), "   abc   ");
    assert_eq!(row(&canvas, 0), "  中_文_   ");
}

#[test]
fn centered_string_wider_than_its_target() {
    let mut canvas = Canvas::from_dims(at(3, 1));
    "abcdefg".center().draw(at(0, 0), &mut canvas);
    assert_eq!(row(&canvas, 0), "cde");
    let mut canvas = Canvas::from_dims(at(4, 1));
    "abcdefg".center().draw_styled(at(0, 0), &mut canvas, Style::default());
    assert_eq!(row(&canvas, 0), "bcde");
}

#[test]
fn right_aligned_string() {
    let mut canvas = Canvas::from_dims(at(6, 2));
    RightAlignedString::new("abc").draw(at(0, 0), &mut canvas);
    "中文".right().draw_styled(at(3, 1), &mut canvas, Style::default());
    assert_eq!(row(&canvas, 0), "   abc");
    assert_eq!(row(&canvas, 1), "  中_文_");
}

#[test]
fn right_aligned_string_wider_than_its_target() {
    let mut canvas = Canvas::from_dims(at(3, 1));
    "abcdefg".right().draw(at(0, 0), &mut canvas);
    assert_eq!(row(&canvas, 0), "efg");
}

#[test]
fn multiline_splits_and_measures() {
    let text = Multiline::new("ab\ncdef\n\ng");
    assert_eq!(text.lines, vec!["ab", "cdef", "", "g"]);
    assert_eq!(text.width, 4);
}

#[test]
fn multiline_of_nothing_is_one_empty_line() {
    let text = Multiline::new("");
    assert_eq!(text.lines, vec![""]);
    assert_eq!(text.width, 0);
    let text = Multiline::new("\n");
    assert_eq!(text.lines, vec!["", ""]);
    assert_eq!(text.width, 0);
}

#[test]
fn multiline_drops_what_has_no_width() {
    let text = Multiline::new("a\tb\u{0301}\n中文\r\nx");
    assert_eq!(text.lines, vec!["ab", "中文", "x"]);
    assert_eq!(text.width, 4);
}
