use fyodor::canvas::Canvas;
use fyodor::cell::Cell;
use fyodor::frame::Frame;
use fyodor::helpers::{box_center, box_center_screen, line_center};
use fyodor::layout::align::{Align, Aligned, AlignedOnX, AlignedOnY};
use fyodor::layout::axis::Axis;
use fyodor::layout::sized::{FullyKnown, KnownHeight, KnownWidth};
use fyodor::layout::strings::string_of;
use fyodor::layout::Pos;
use fyodor::style::{Color, Style};

fn at(x: i32, y: i32) -> Pos<i32, i32> {
    Pos::new(x, y)
}

fn row(canvas: &Canvas, y: i32) -> String {
    let mut text = String::new();
    for x in 0..canvas.size().x {
        match canvas.get(at(x, y)) {
            Some(Cell::Content(content)) => text.push(content.character),
            Some(Cell::PlaceHolder) => text.push('_'),
            None => unreachable!(),
        }
    }
    text
}

#[test]
fn pairs() {
    let p = Pos::new(1, 'a');
    assert_eq!((p.x, p.y), (1, 'a'));
    assert_eq!(p.with_x("x"), Pos::new("x", 'a'));
    assert_eq!(p.with_y(2u8), Pos::new(1, 2u8));
    assert_eq!(p.transmute(), Pos::new('a', 1));
    assert_eq!(Pos::new_x(3), Pos::new(3, ()));
    assert_eq!(Pos::new_y(4), Pos::new((), 4));
    assert_eq!(Pos::sq(5), Pos::new(5, 5));
    let from_pair: Pos<i32, i32> = (6, 7).into();
    assert_eq!(from_pair, Pos::new(6, 7));
    assert_eq!(Pos::from((8u8, 'z')), Pos::new(8u8, 'z'));
}

#[test]
fn parts_and_conversion() {
    let p = Pos::new(3u8, 4u16);
    assert_eq!(p.x(), 3);
    assert_eq!(p.y(), 4);
    let wide: Pos<i32, i64> = p.to();
    assert_eq!(wide, Pos::new(3, 4));
}

#[test]
fn arithmetic_axis_by_axis() {
    assert_eq!(at(1, 2) + at(10, 20), at(11, 22));
    assert_eq!(at(1, 2) - at(10, 20), at(-9, -18));
    assert_eq!(at(3, 4) * at(5, 6), at(15, 24));
    assert_eq!(at(7, -7) / at(2, 2), at(3, -3));
    assert_eq!(at(1, 2) + 5, at(6, 7));
    assert_eq!(at(1, 2) - 5, at(-4, -3));
    assert_eq!(at(1, 2) * 5, at(5, 10));
    assert_eq!(at(9, -9) / 2, at(4, -4));
    assert_eq!((at(9, 7) - at(4, 2)) / 2, at(2, 2));
}

#[test]
fn line_center_rounds_towards_zero() {
    assert_eq!(line_center(0, 10, 4), 3);
    assert_eq!(line_center(0, 10, 5), 2);
    assert_eq!(line_center(3, 13, 4), 6);
    assert_eq!(line_center(0, 4, 9), -2);
    assert_eq!(line_center(0, 4, 10), -3);
    assert_eq!(line_center(-10, 0, 4), -7);
    assert_eq!(line_center(5, 5, 0), 5);
}

#[test]
fn box_center_centers_on_both_axes() {
    assert_eq!(box_center(at(0, 0), at(80, 24), at(20, 10)), at(30, 7));
    assert_eq!(box_center(at(10, 2), at(20, 8), at(3, 3)), at(13, 3));
    assert_eq!(box_center_screen(at(80, 24), at(20, 10)), at(30, 7));
    assert_eq!(box_center_screen(at(10, 5), at(20, 10)), at(-5, -2));
}

#[test]
fn alignment_along_an_axis() {
    assert_eq!(Align::Start.calc(3, 10), 0);
    assert_eq!(Align::Center.calc(3, 10), 3);
    assert_eq!(Align::Center.calc(4, 10), 3);
    assert_eq!(Align::End.calc(3, 10), 7);
    assert_eq!(Align::Center.calc(10, 3), -3);
    assert_eq!(Align::End.calc(10, 3), -7);
    assert_eq!(Align::Start.calc(i32::MAX, i32::MIN), 0);
}

#[test]
fn numbers_are_their_own_coordinate() {
    assert_eq!(5i32.calc(3, 10), 5);
    assert_eq!((-5i32).calc(3, 10), -5);
    assert_eq!(5u32.calc(3, 10), 5);
    assert_eq!(5i64.calc(3, 10), 5);
    assert_eq!(5u64.calc(3, 10), 5);
    assert_eq!(5i128.calc(3, 10), 5);
    assert_eq!(5u128.calc(3, 10), 5);
    assert_eq!((-5i16).calc(3, 10), -5);
    assert_eq!(5u16.calc(3, 10), 5);
    assert_eq!((-5i8).calc(3, 10), -5);
    assert_eq!(5u8.calc(3, 10), 5);
    assert_eq!(5usize.calc(3, 10), 5);
    assert_eq!((-5isize).calc(3, 10), -5);
}

#[test]
fn position_from_two_axes() {
    assert_eq!(Pos::new(Align::Center, Align::End).calc_both(at(4, 2), at(10, 6)), at(3, 4));
    assert_eq!(Pos::new(2i32, Align::Start).calc_both(at(4, 2), at(10, 6)), at(2, 0));
    assert_eq!(Pos::new(Align::End, 7u8).calc_both(at(4, 2), at(10, 6)), at(6, 7));
}

#[test]
fn known_extents_of_text() {
    assert_eq!("abc".w(), 3);
    assert_eq!("中文".w(), 4);
    assert_eq!("".w(), 0);
    assert_eq!(String::from("a中").w(), 3);
    assert_eq!('a'.w(), 1);
    assert_eq!('中'.w(), 2);
    assert_eq!('\t'.w(), 0);
    assert_eq!('\u{0301}'.w(), 0);
    assert_eq!("abc".h(), 1);
    assert_eq!(String::new().h(), 1);
    assert_eq!('a'.h(), 1);
    assert_eq!("abc".dims(), at(3, 1));
    assert_eq!('中'.dims(), at(2, 1));
}

#[test]
fn known_extents_of_targets() {
    let canvas = Canvas::from_dims(at(7, 3));
    assert_eq!((canvas.w(), canvas.h()), (7, 3));
    assert_eq!(canvas.dims(), at(7, 3));
    let frame = Frame::new(canvas).with_size(at(4, 2));
    assert_eq!((frame.w(), frame.h()), (4, 2));
}

#[test]
fn aligned_on_x() {
    let mut canvas = Canvas::from_dims(at(7, 3));
    AlignedOnX("abc").draw(Pos::new(Align::Center, 0), &mut canvas);
    AlignedOnX("abc").draw(Pos::new(Align::End, 1), &mut canvas);
    AlignedOnX('x').draw_styled(Pos::new(Align::Start, 2), &mut canvas, Style::default());
    assert_eq!(row(&canvas, 0), "  abc  ");
    assert_eq!(row(&canvas, 1), "    abc");
    assert_eq!(row(&canvas, 2), "x      ");
}

#[test]
fn aligned_on_y() {
    let mut canvas = Canvas::from_dims(at(3, 5));
    AlignedOnY('a').draw(Pos::new(0, Align::Start), &mut canvas);
    AlignedOnY('b').draw(Pos::new(1, Align::Center), &mut canvas);
    AlignedOnY('c').draw_styled(Pos::new(2, Align::End), &mut canvas, Style::default());
    assert_eq!(canvas.get(at(0, 0)), Some(Cell::new('a')));
    assert_eq!(canvas.get(at(1, 2)), Some(Cell::new('b')));
    assert_eq!(canvas.get(at(2, 4)), Some(Cell::new('c')));
}

#[test]
fn aligned_on_both() {
    let red = Style::foreground(Color::Red);
    let mut canvas = Canvas::from_dims(at(6, 3));
    Aligned("ab").draw(Pos::new(Align::Center, Align::Center), &mut canvas);
    Aligned("cd").draw_styled(Pos::new(Align::End, Align::End), &mut canvas, red);
    assert_eq!(row(&canvas, 0), "      ");
    assert_eq!(row(&canvas, 1), "  ab  ");
    assert_eq!(row(&canvas, 2), "    cd");
    assert_eq!(canvas.get(at(4, 2)), Some(Cell::styled('c', red)));
}

#[test]
fn aligned_content_that_cannot_be_placed() {
    let narrow = Frame::new(Canvas::from_dims(at(3, 1))).with_size(at(i32::MIN, 1));
    let mut frame = narrow;
    assert!(!AlignedOnX("abc").try_draw(Pos::new(Align::End, 0), &mut frame));
    assert!(!AlignedOnX("abc").try_draw_styled(
        Pos::new(Align::Center, 0),
        &mut frame,
        Style::default()
    ));
    assert!(AlignedOnX("abc").try_draw(Pos::new(Align::Start, 0), &mut frame));
    let canvas = frame.into_parent();
    assert_eq!(row(&canvas, 0), "   ");
    let mut canvas = Canvas::from_dims(at(5, 3));
    assert!(AlignedOnX("ab").try_draw(Pos::new(Align::End, 0), &mut canvas));
    assert!(AlignedOnY('c').try_draw(Pos::new(0, Align::End), &mut canvas));
    assert!(AlignedOnY('d').try_draw_styled(Pos::new(1, Align::Center), &mut canvas, Style::default()));
    assert!(Aligned("e").try_draw(Pos::new(Align::Center, Align::Center), &mut canvas));
    assert!(Aligned("f").try_draw_styled(
        Pos::new(Align::End, Align::End),
        &mut canvas,
        Style::default()
    ));
    assert_eq!(row(&canvas, 0), "   ab");
    assert_eq!(row(&canvas, 1), " de  ");
    assert_eq!(row(&canvas, 2), "c   f");
    assert_eq!(Align::End.checked_calc(3, 10), Some(7));
    assert_eq!(Align::End.checked_calc(i32::MIN, 10), None);
    assert_eq!(Align::Center.checked_calc(10, i32::MIN), None);
    assert_eq!(Align::Start.checked_calc(10, i32::MIN), Some(0));
    assert_eq!(
        Pos::new(Align::Center, Align::End).checked_calc_both(at(4, 2), at(10, 6)),
        Some(at(3, 4))
    );
    assert_eq!(
        Pos::new(Align::Center, Align::End).checked_calc_both(at(4, i32::MAX), at(10, -6)),
        None
    );
}

#[test]
fn string_from_characters() {
    assert_eq!(string_of(&vec!['a', '中', 'b']), "a中b");
    assert_eq!(string_of(&vec![]), "");
}
