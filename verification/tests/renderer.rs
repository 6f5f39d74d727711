use fyodor::canvas::{CanvasLike, CanvasLikeExt};
use fyodor::cell::Cell;
use fyodor::drawable::Drawable;
use fyodor::frame::Frame;
use fyodor::helpers::term_size;
use fyodor::input::{Event, KeyCode, KeyEvent, KeyEventKind};
use fyodor::layout::Pos;
use fyodor::renderer::{Command, RenderSpace, Renderer};
use fyodor::style::{Attribute, Attributes, Color, Style};

fn at(x: i32, y: i32) -> Pos<i32, i32> {
    Pos::new(x, y)
}

/// A renderer whose first, full frame is already shown.
fn settled(size: Pos<i32, i32>) -> Renderer {
    let mut renderer = Renderer::new(size);
    renderer.render();
    renderer.present();
    renderer
}

fn prints(text: &str) -> Vec<Command> {
    text.chars().map(Command::Print).collect()
}

#[test]
fn new_renderer_is_blank_and_redraws_in_full() {
    let mut renderer = Renderer::new(at(3, 2));
    assert_eq!(renderer.size(), at(3, 2));
    assert!(renderer.full_redraw());
    assert!(!renderer.is_active());
    assert_eq!(renderer.canvas().size(), at(3, 2));
    assert_eq!(renderer.shown().size(), at(3, 2));
    let mut expected = vec![Command::ResetColor];
    for y in 0..2 {
        expected.push(Command::MoveTo(0, y));
        expected.extend(prints("   "));
    }
    assert_eq!(renderer.render(), expected);
}

#[test]
fn render_leaves_the_renderer_as_it_is() {
    let mut renderer = Renderer::new(at(3, 2));
    renderer.canvas().set(at(1, 1), Cell::new('x'));
    let first = renderer.render();
    let second = renderer.render();
    assert_eq!(first, second);
    assert!(renderer.full_redraw());
    assert_eq!(renderer.canvas().get(at(1, 1)), Some(Cell::new('x')));
    assert_eq!(renderer.shown().get(at(1, 1)), Some(Cell::new(' ')));
}

#[test]
fn present_swaps_and_blanks() {
    let mut renderer = Renderer::new(at(3, 2));
    renderer.canvas().set(at(1, 1), Cell::new('x'));
    renderer.render();
    renderer.present();
    assert!(!renderer.full_redraw());
    assert_eq!(renderer.size(), at(3, 2));
    for y in 0..2 {
        for x in 0..3 {
            let shown = if x == 1 && y == 1 { Cell::new('x') } else { Cell::new(' ') };
            assert_eq!(renderer.shown().get(at(x, y)), Some(shown));
            assert_eq!(renderer.canvas().get(at(x, y)), Some(Cell::new(' ')));
        }
    }
}

#[test]
fn one_character_sends_one_row() {
    let mut renderer = settled(at(10, 5));
    'A'.draw(at(2, 2), renderer.canvas());
    let commands = renderer.render();
    let mut expected = vec![Command::ResetColor, Command::MoveTo(0, 2)];
    expected.extend(prints("  A       "));
    assert_eq!(commands, expected);
    let moves = commands.iter().filter(|c| matches!(c, Command::MoveTo(..))).count();
    assert_eq!(moves, 1);
    let letters =
        commands.iter().filter(|c| matches!(c, Command::Print(ch) if *ch != ' ')).count();
    assert_eq!(letters, 1);
    let styles = commands.iter().filter(|c| {
        matches!(
            c,
            Command::SetBackgroundColor(_)
                | Command::SetForegroundColor(_)
                | Command::SetAttribute(_)
                | Command::SetAttributes(_)
        )
    });
    assert_eq!(styles.count(), 0);
}

#[test]
fn same_content_twice_sends_nothing_the_second_time() {
    let mut renderer = Renderer::new(at(10, 5));
    "hello".draw(at(1, 1), renderer.canvas());
    let first = renderer.render();
    assert_eq!(first.len(), 1 + 5 * 11);
    renderer.present();
    "hello".draw(at(1, 1), renderer.canvas());
    assert_eq!(renderer.render(), vec![Command::ResetColor]);
    renderer.present();
    "hello".draw(at(1, 1), renderer.canvas());
    assert_eq!(renderer.render(), vec![Command::ResetColor]);
}

#[test]
fn blank_frame_after_blank_frame_sends_nothing() {
    let mut renderer = settled(at(4, 3));
    assert_eq!(renderer.render(), vec![Command::ResetColor]);
}

#[test]
fn frame_without_drawing_blanks_what_was_shown() {
    let mut renderer = Renderer::new(at(3, 2));
    'x'.draw(at(0, 1), renderer.canvas());
    renderer.render();
    renderer.present();
    let mut expected = vec![Command::ResetColor, Command::MoveTo(0, 1)];
    expected.extend(prints("   "));
    assert_eq!(renderer.render(), expected);
}

#[test]
fn only_rows_that_differ_are_sent() {
    let mut renderer = settled(at(3, 4));
    'a'.draw(at(0, 1), renderer.canvas());
    'b'.draw(at(2, 3), renderer.canvas());
    let mut expected = vec![Command::ResetColor, Command::MoveTo(0, 1)];
    expected.extend(prints("a  "));
    expected.push(Command::MoveTo(0, 3));
    expected.extend(prints("  b"));
    assert_eq!(renderer.render(), expected);
}

#[test]
fn placeholders_are_not_printed() {
    let mut renderer = settled(at(4, 1));
    "中a".draw(at(0, 0), renderer.canvas());
    let mut expected = vec![Command::ResetColor, Command::MoveTo(0, 0)];
    expected.extend(prints("中a "));
    assert_eq!(renderer.render(), expected);
}

#[test]
fn style_changes_are_sent_once() {
    let mut renderer = settled(at(4, 1));
    let red = Style::foreground(Color::Red);
    "ab".draw_styled(at(0, 0), renderer.canvas(), red);
    assert_eq!(
        renderer.render(),
        vec![
            Command::ResetColor,
            Command::MoveTo(0, 0),
            Command::SetForegroundColor(Color::Red),
            Command::Print('a'),
            Command::Print('b'),
            Command::SetForegroundColor(Color::Reset),
            Command::Print(' '),
            Command::Print(' '),
        ]
    );
}

#[test]
fn background_comes_before_foreground() {
    let mut renderer = settled(at(2, 1));
    let style = Style {
        foreground_color: Some(Color::Black),
        background_color: Some(Color::White),
        attributes: Attributes::none(),
    };
    'a'.draw_styled(at(0, 0), renderer.canvas(), style);
    assert_eq!(
        renderer.render(),
        vec![
            Command::ResetColor,
            Command::MoveTo(0, 0),
            Command::SetBackgroundColor(Color::White),
            Command::SetForegroundColor(Color::Black),
            Command::Print('a'),
            Command::SetBackgroundColor(Color::Reset),
            Command::SetForegroundColor(Color::Reset),
            Command::Print(' '),
        ]
    );
}

#[test]
fn attribute_change_resets_and_reasserts() {
    let mut renderer = settled(at(3, 1));
    let bold = Attributes::none().with(Attribute::Bold);
    let plain_red = Style::foreground(Color::Red);
    let bold_red = plain_red.with_attributes(bold);
    let bold_on_blue = Style::background(Color::Blue).with_attributes(bold);
    'a'.draw_styled(at(0, 0), renderer.canvas(), plain_red);
    'b'.draw_styled(at(1, 0), renderer.canvas(), bold_red);
    'c'.draw_styled(at(2, 0), renderer.canvas(), bold_on_blue);
    assert_eq!(
        renderer.render(),
        vec![
            Command::ResetColor,
            Command::MoveTo(0, 0),
            Command::SetForegroundColor(Color::Red),
            Command::Print('a'),
            Command::SetAttribute(Attribute::Reset),
            Command::SetForegroundColor(Color::Red),
            Command::SetAttributes(bold),
            Command::Print('b'),
            Command::SetBackgroundColor(Color::Blue),
            Command::SetForegroundColor(Color::Reset),
            Command::Print('c'),
        ]
    );
}

#[test]
fn attribute_change_with_both_colors() {
    let mut renderer = settled(at(1, 1));
    let italic = Attributes::none().with(Attribute::Italic);
    let style = Style {
        foreground_color: Some(Color::Green),
        background_color: Some(Color::DarkGrey),
        attributes: italic,
    };
    'a'.draw_styled(at(0, 0), renderer.canvas(), style);
    assert_eq!(
        renderer.render(),
        vec![
            Command::ResetColor,
            Command::MoveTo(0, 0),
            Command::SetBackgroundColor(Color::DarkGrey),
            Command::SetForegroundColor(Color::Green),
            Command::SetAttribute(Attribute::Reset),
            Command::SetForegroundColor(Color::Green),
            Command::SetBackgroundColor(Color::DarkGrey),
            Command::SetAttributes(italic),
            Command::Print('a'),
        ]
    );
}

#[test]
fn style_carries_over_to_the_next_row() {
    let mut renderer = Renderer::new(at(1, 2));
    let red = Style::foreground(Color::Red);
    'a'.draw_styled(at(0, 0), renderer.canvas(), red);
    'b'.draw_styled(at(0, 1), renderer.canvas(), red);
    assert_eq!(
        renderer.render(),
        vec![
            Command::ResetColor,
            Command::MoveTo(0, 0),
            Command::SetForegroundColor(Color::Red),
            Command::Print('a'),
            Command::MoveTo(0, 1),
            Command::Print('b'),
        ]
    );
}

#[test]
fn resize_forces_a_full_redraw() {
    let mut renderer = settled(at(2, 2));
    renderer.on_resize(at(3, 1));
    assert_eq!(renderer.size(), at(3, 1));
    assert!(renderer.full_redraw());
    assert_eq!(renderer.canvas().size(), at(3, 1));
    assert_eq!(renderer.shown().size(), at(3, 1));
    let mut expected = vec![Command::ResetColor, Command::MoveTo(0, 0)];
    expected.extend(prints("   "));
    assert_eq!(renderer.render(), expected);
}

#[test]
fn resize_to_the_same_extent_redraws_in_full_too() {
    let mut renderer = settled(at(2, 1));
    renderer.on_resize(at(2, 1));
    assert!(renderer.full_redraw());
    let mut expected = vec![Command::ResetColor, Command::MoveTo(0, 0)];
    expected.extend(prints("  "));
    assert_eq!(renderer.render(), expected);
}

#[test]
fn resize_event_is_a_resize() {
    let mut renderer = settled(at(2, 2));
    renderer.canvas().set(at(0, 0), Cell::new('k'));
    renderer.on_event(&Event::Resize(4, 3));
    assert_eq!(renderer.size(), at(4, 3));
    assert!(renderer.full_redraw());
    assert_eq!(renderer.canvas().get(at(0, 0)), Some(Cell::new('k')));
    assert_eq!(renderer.canvas().get(at(3, 2)), Some(Cell::new(' ')));
}

#[test]
fn other_events_change_nothing() {
    let mut renderer = settled(at(2, 2));
    renderer.canvas().set(at(0, 0), Cell::new('k'));
    let key = KeyEvent { code: KeyCode::Enter, kind: KeyEventKind::Press };
    renderer.on_event(&Event::Key(key));
    renderer.on_event(&Event::Other);
    assert_eq!(renderer.size(), at(2, 2));
    assert!(!renderer.full_redraw());
    assert_eq!(renderer.canvas().get(at(0, 0)), Some(Cell::new('k')));
}

#[test]
fn setup_and_teardown() {
    let mut renderer = settled(at(2, 2));
    assert!(!renderer.is_active());
    assert_eq!(renderer.turn_off(), vec![]);
    assert_eq!(
        renderer.turn_on(),
        vec![Command::EnableRawMode, Command::HideCursor, Command::EnterAlternateScreen]
    );
    assert!(renderer.is_active());
    assert!(renderer.full_redraw());
    assert_eq!(
        renderer.turn_off(),
        vec![Command::ShowCursor, Command::LeaveAlternateScreen, Command::DisableRawMode]
    );
    assert!(!renderer.is_active());
    assert_eq!(renderer.turn_off(), vec![]);
    assert_eq!(
        Renderer::restore_commands(),
        vec![Command::LeaveAlternateScreen, Command::ShowCursor, Command::DisableRawMode]
    );
}

#[test]
fn render_space_draws_on_the_hidden_canvas() {
    let mut renderer = settled(at(4, 2));
    {
        let space = renderer.get_render_space();
        assert_eq!(CanvasLike::size(&*space), at(4, 2));
        assert_eq!(CanvasLike::pos(&*space), at(0, 0));
        space.set(at(0, 0), Cell::new('s'));
        let mut frame = Frame::new(space).with_pos(at(1, 1));
        frame.draw(at(0, 0), "ab");
    }
    assert_eq!(renderer.canvas().get(at(0, 0)), Some(Cell::new('s')));
    assert_eq!(renderer.canvas().get(at(1, 1)), Some(Cell::new('a')));
    assert_eq!(renderer.canvas().get(at(2, 1)), Some(Cell::new('b')));
    assert_eq!(renderer.shown().get(at(0, 0)), Some(Cell::new(' ')));
}

#[test]
fn render_space_by_itself() {
    let mut space = RenderSpace::new(at(2, 2));
    space.canvas().set(at(0, 0), Cell::new('h'));
    assert_eq!(space.other().get(at(0, 0)), Some(Cell::new(' ')));
    {
        let (hidden, shown) = space.both_mut();
        assert_eq!(hidden.get(at(0, 0)), Some(Cell::new('h')));
        shown.set(at(1, 1), Cell::new('s'));
    }
    space.swap();
    assert_eq!(space.canvas().get(at(1, 1)), Some(Cell::new('s')));
    assert_eq!(space.other().get(at(0, 0)), Some(Cell::new('h')));
    space.on_resize(at(1, 1));
    assert_eq!(space.canvas().size(), at(1, 1));
    assert_eq!(space.other().size(), at(1, 1));
    assert_eq!(space.other().get(at(0, 0)), Some(Cell::new('h')));
}

#[test]
fn terminal_extent_from_a_query() {
    assert_eq!(term_size(Some((120, 40))), at(120, 40));
    assert_eq!(term_size(Some((0, 0))), at(0, 0));
    assert_eq!(term_size(Some((u16::MAX, u16::MAX))), at(65535, 65535));
    assert_eq!(term_size(None), at(80, 24));
}
