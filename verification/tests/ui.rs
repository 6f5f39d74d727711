use fyodor::canvas::Canvas;
use fyodor::cell::Cell;
use fyodor::layout::align::Align;
use fyodor::layout::strings::{decimal_digits, push_decimal, repeated};
use fyodor::layout::Pos;
use fyodor::style::{Color, Style};
use fyodor::ui::fullscreen_menu::FullscreenMenu;
use fyodor::ui::menu::Menu;
use fyodor::ui::popup::Popup;

fn at(x: i32, y: i32) -> Pos<i32, i32> {
    Pos::new(x, y)
}

fn rows(canvas: &Canvas) -> Vec<String> {
    let size = canvas.size();
    let mut all = Vec::new();
    for y in 0..size.y {
        let mut text = String::new();
        for x in 0..size.x {
            match canvas.get(at(x, y)) {
                Some(Cell::Content(content)) => text.push(content.character),
                Some(Cell::PlaceHolder) => text.push('_'),
                None => unreachable!(),
            }
        }
        all.push(text);
    }
    all
}

#[test]
fn decimal_numbers() {
    let mut s = String::from("n=");
    push_decimal(&mut s, 0);
    push_decimal(&mut s, 7);
    push_decimal(&mut s, 10);
    push_decimal(&mut s, 1905);
    assert_eq!(s, "n=07101905");
    let mut s = String::new();
    push_decimal(&mut s, usize::MAX);
    assert_eq!(s, usize::MAX.to_string());
    assert_eq!(decimal_digits(0), 1);
    assert_eq!(decimal_digits(9), 1);
    assert_eq!(decimal_digits(10), 2);
    assert_eq!(decimal_digits(99999), 5);
    assert_eq!(decimal_digits(usize::MAX), usize::MAX.to_string().len());
}

#[test]
fn repeated_characters() {
    assert_eq!(repeated('─', 3), "───");
    assert_eq!(repeated('x', 0), "");
    assert_eq!(repeated('x', -4), "");
}

#[test]
fn extent_of_a_menu() {
    let menu = Menu::new(String::from("Menu")).with_items(vec!["Item 1", "Item 2", "Item 3"]);
    assert_eq!(menu.w(), 10);
    assert_eq!(menu.h(), 7);
    assert_eq!(menu.checked_w(), Some(10));
    assert_eq!(menu.checked_h(), Some(7));
    assert_eq!(menu.checked_dims(), Some(at(10, 7)));
    let mut numbered = menu;
    numbered.numbered = true;
    assert_eq!(numbered.w(), 13);
    let empty: Menu<&str> = Menu::new(String::from("A long title"));
    assert_eq!(empty.w(), 18);
    assert_eq!(empty.h(), 4);
    // The title counts by its bytes.
    let wide: Menu<&str> = Menu::new(String::from("中文"));
    assert_eq!(wide.w(), 12);
    let mut ten = Menu::new(String::new()).with_items(vec!['a'; 9]);
    ten.numbered = true;
    assert_eq!(ten.w(), 4 + 2 + 2 + 1);
    assert_eq!(ten.h(), 13);
}

#[test]
fn menu_on_a_canvas() {
    let mut menu = Menu::new(String::from("Menu")).with_items(vec!["one", "two", "three"]);
    menu.select(1);
    assert_eq!(menu.checked_dims(), Some(at(10, 7)));
    let canvas = menu.draw_on(at(1, 0), Canvas::from_dims(at(11, 8)));
    assert_eq!(
        rows(&canvas),
        vec![
            " ╭────────╮",
            " │  Menu  │",
            " │────────│",
            " │  one   │",
            " │> two   │",
            " │  three │",
            " ╰────────╯",
            "           ",
        ]
    );
}

#[test]
fn numbered_menu_in_styles() {
    let red = Style::foreground(Color::Red);
    let blue = Style::foreground(Color::Blue);
    let green = Style::foreground(Color::Green);
    let mut menu = Menu::new(String::from("T")).with_items(vec!["a", "b"]);
    menu.numbered = true;
    menu.box_style = red;
    menu.item_style = blue;
    menu.selected_style = Some(green);
    let canvas = menu.draw_on(at(0, 0), Canvas::from_dims(at(9, 6)));
    assert_eq!(
        rows(&canvas),
        vec![
            "╭──────╮ ",
            "│  T   │ ",
            "│──────│ ",
            "│> 1. a│ ",
            "│  2. b│ ",
            "╰──────╯ ",
        ]
    );
    assert_eq!(canvas.get(at(0, 0)), Some(Cell::styled('╭', red)));
    assert_eq!(canvas.get(at(3, 2)), Some(Cell::styled('─', red)));
    assert_eq!(canvas.get(at(3, 1)), Some(Cell::styled('T', Style::default())));
    assert_eq!(canvas.get(at(1, 3)), Some(Cell::styled('>', green)));
    assert_eq!(canvas.get(at(3, 3)), Some(Cell::styled('1', green)));
    assert_eq!(canvas.get(at(6, 3)), Some(Cell::styled('a', green)));
    assert_eq!(canvas.get(at(3, 4)), Some(Cell::styled('2', blue)));
    assert_eq!(canvas.get(at(6, 4)), Some(Cell::styled('b', blue)));
}

#[test]
fn menu_is_cut_by_the_canvas() {
    let menu = Menu::new(String::from("t")).with_items(vec!["abc"]);
    assert_eq!(menu.checked_dims(), Some(at(7, 5)));
    let canvas = menu.draw_on(at(-2, -1), Canvas::from_dims(at(4, 3)));
    assert_eq!(rows(&canvas), vec![" t  ", "────", " abc"]);
}

#[test]
fn menu_of_two_items() {
    let one = Menu::new(String::from("in")).with_items(vec!["a"]);
    let menu = Menu::new(String::from("out")).with_items(vec!["x", "y"]);
    assert_eq!(one.h(), 5);
    assert_eq!(menu.h(), 6);
    assert_eq!(menu.w(), 9);
    let canvas = menu.draw_on(at(0, 0), Canvas::from_dims(at(9, 6)));
    assert_eq!(
        rows(&canvas),
        vec![
            "╭───────╮",
            "│  out  │",
            "│───────│",
            "│> x    │",
            "│  y    │",
            "╰───────╯",
        ]
    );
}

#[test]
fn single_item_of_a_menu() {
    let mut menu = Menu::new(String::from("T")).with_items(vec!["a", "b"]);
    menu.numbered = true;
    menu.select(1);
    let mut canvas = Canvas::from_dims(at(8, 2));
    menu.draw_item(0, 0, &mut canvas);
    menu.draw_item(1, 1, &mut canvas);
    assert_eq!(rows(&canvas), vec!["   1. a ", " > 2. b "]);
    assert_eq!(menu.style_of(0), Style::default());
}

#[test]
fn menu_that_cannot_be_drawn() {
    let screen = FullscreenMenu::new(Menu::new(String::from("M")).with_items(vec!["x"]));
    let target =
        fyodor::frame::Frame::new(Canvas::from_dims(at(3, 3))).with_size(at(i32::MIN, 3));
    let (target, drawn) = screen.try_draw_on(Pos::new(Align::End, Align::Start), target);
    assert!(!drawn);
    assert_eq!(rows(&target.into_parent()), vec!["   ", "   ", "   "]);
}

#[test]
fn fullscreen_menu_in_the_middle() {
    let screen = FullscreenMenu::new(Menu::new(String::from("M")).with_items(vec!["x"]));
    let pos = Pos::new(Align::Center, Align::Center);
    let (canvas, drawn) = screen.try_draw_on(pos, Canvas::from_dims(at(11, 7)));
    assert!(drawn);
    assert_eq!(
        rows(&canvas),
        vec![
            "           ",
            "  ╭─────╮  ",
            "  │  M  │  ",
            "  │─────│  ",
            "  │> x  │  ",
            "  ╰─────╯  ",
            "           ",
        ]
    );
}

#[test]
fn popup_without_text() {
    let popup = Popup::new(String::from("Hi"));
    let canvas = popup.draw_on(at(1, 1), Canvas::from_dims(at(8, 5)));
    assert_eq!(
        rows(&canvas),
        vec!["        ", " ╭────╮ ", " │ Hi │ ", " ╰────╯ ", "        "]
    );
}

#[test]
fn popup_with_text() {
    let red = Style::foreground(Color::Red);
    let blue = Style::foreground(Color::Blue);
    let popup = Popup::new(String::from("T"))
        .with_texts(vec![String::from("one"), String::from("three")])
        .with_box_style(red)
        .with_text_style(blue);
    let (canvas, drawn) =
        popup.try_draw_on(Pos::new(Align::Center, Align::Start), Canvas::from_dims(at(11, 7)));
    assert!(drawn);
    assert_eq!(
        rows(&canvas),
        vec![
            " ╭───────╮ ",
            " │   T   │ ",
            " │───────│ ",
            " │ one   │ ",
            " │ three │ ",
            " ╰───────╯ ",
            "           ",
        ]
    );
    assert_eq!(canvas.get(at(1, 0)), Some(Cell::styled('╭', red)));
    assert_eq!(canvas.get(at(5, 1)), Some(Cell::styled('T', blue)));
    assert_eq!(canvas.get(at(4, 1)), Some(Cell::styled(' ', blue)));
    assert_eq!(canvas.get(at(2, 2)), Some(Cell::styled('─', Style::default())));
    assert_eq!(canvas.get(at(3, 3)), Some(Cell::styled('o', blue)));
}

#[test]
fn popup_larger_than_its_target_is_clipped() {
    let popup = Popup::new(String::from("Title")).with_texts(vec![String::from("text")]);
    let (canvas, drawn) =
        popup.try_draw_on(Pos::new(Align::Center, Align::Center), Canvas::from_dims(at(5, 3)));
    assert!(drawn);
    assert_eq!(rows(&canvas), vec!["Title", "─────", "text "]);
}

#[test]
fn popup_as_a_window() {
    let screen = Popup::new(String::from("Hi")).to_window();
    assert_eq!(screen.0.title(), "Hi");
    assert_eq!(screen.0.checked_size(), Some(at(6, 3)));
    assert_eq!(
        screen.0.place(Pos::new(Align::End, Align::Center), at(10, 9)),
        Some(at(4, 3))
    );
    assert_eq!(screen.0.place(Pos::new(Align::End, Align::End), at(i32::MIN, 9)), None);
}
