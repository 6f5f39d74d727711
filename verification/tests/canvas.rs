use fyodor::canvas::{Buffer, Canvas, CanvasLike, CanvasLikeExt};
use fyodor::cell::{Cell, CellContent};
use fyodor::layout::Pos;
use fyodor::style::{Color, Style};

fn at(x: i32, y: i32) -> Pos<i32, i32> {
    Pos::new(x, y)
}

#[test]
fn new_buffer_is_blank() {
    let buffer = Buffer::new(at(3, 2));
    assert_eq!(buffer.size(), at(3, 2));
    assert_eq!(buffer.buf_ref().len(), 2);
    for y in 0..2 {
        assert_eq!(buffer.buf_ref()[y as usize].len(), 3);
        for x in 0..3 {
            assert_eq!(buffer.get(at(x, y)), Some(Cell::new(' ')));
        }
    }
}

#[test]
fn blank_cell_is_a_plain_space_of_width_one() {
    let blank = Cell::new(' ');
    assert_eq!(
        blank,
        Cell::Content(CellContent { character: ' ', width: 1, style: Style::default() })
    );
}

#[test]
fn empty_buffer_has_no_cells() {
    let buffer = Buffer::new(at(0, 0));
    assert_eq!(buffer.size(), at(0, 0));
    assert_eq!(buffer.get(at(0, 0)), None);
    let flat = Buffer::new(at(4, 0));
    assert_eq!(flat.buf_ref().len(), 0);
    assert_eq!(flat.get(at(0, 0)), None);
    let thin = Buffer::new(at(0, 3));
    assert_eq!(thin.buf_ref().len(), 3);
    assert_eq!(thin.get(at(0, 0)), None);
}

#[test]
fn negative_extent_holds_nothing() {
    let buffer = Buffer::new(at(-1, 0));
    assert_eq!(buffer.size(), at(-1, 0));
    assert_eq!(buffer.buf_ref().len(), 0);
    let buffer = Buffer::new(at(5, -2));
    assert_eq!(buffer.size(), at(5, -2));
    assert_eq!(buffer.buf_ref().len(), 0);
    assert_eq!(buffer.get(at(0, 0)), None);
    let mut canvas = Canvas::from_dims(at(-3, -3));
    canvas.set(at(0, 0), Cell::new('x'));
    canvas.clear();
    assert_eq!(canvas.get(at(0, 0)), None);
    canvas.resize(at(2, 1));
    assert_eq!(canvas.size(), at(2, 1));
    assert_eq!(canvas.get(at(1, 0)), Some(Cell::new(' ')));
    canvas.resize(at(-7, 0));
    assert_eq!(canvas.size(), at(-7, 0));
    assert_eq!(canvas.get(at(0, 0)), None);
}

#[test]
fn rows_changed_in_place() {
    let mut buffer = Buffer::new(at(2, 2));
    buffer.buf_mut()[1][0] = Cell::new('m');
    assert_eq!(buffer.get(at(0, 1)), Some(Cell::new('m')));
    assert_eq!(buffer.get(at(1, 1)), Some(Cell::new(' ')));
    assert_eq!(buffer.size(), at(2, 2));
    // A row that was made shorter has no cell where it ends.
    buffer.buf_mut()[0].pop();
    assert_eq!(buffer.get(at(1, 0)), None);
    buffer.set(at(1, 0), Cell::new('x'));
    assert_eq!(buffer.get(at(1, 0)), None);
    assert_eq!(buffer.get(at(0, 0)), Some(Cell::new(' ')));
}

#[test]
fn get_outside_the_grid_is_none() {
    let buffer = Buffer::new(at(3, 2));
    assert_eq!(buffer.get(at(3, 0)), None);
    assert_eq!(buffer.get(at(0, 2)), None);
    assert_eq!(buffer.get(at(-1, 0)), None);
    assert_eq!(buffer.get(at(0, -1)), None);
    assert_eq!(buffer.get(at(i32::MAX, i32::MAX)), None);
    assert_eq!(buffer.get(at(i32::MIN, i32::MIN)), None);
}

#[test]
fn set_outside_the_grid_is_dropped() {
    let mut canvas = Canvas::from_dims(at(3, 2));
    let before = Canvas::from_dims(at(3, 2));
    for pos in [at(3, 0), at(0, 2), at(-1, 0), at(0, -1), at(i32::MAX, 0), at(0, i32::MIN)] {
        canvas.set(pos, Cell::new('x'));
    }
    for y in 0..2 {
        for x in 0..3 {
            assert_eq!(canvas.get(at(x, y)), before.get(at(x, y)));
        }
    }
    assert_eq!(canvas.size(), at(3, 2));
}

#[test]
fn set_changes_one_cell_only() {
    let mut canvas = Canvas::from_dims(at(3, 3));
    canvas.set(at(1, 1), Cell::new('x'));
    for y in 0..3 {
        for x in 0..3 {
            let expected = if x == 1 && y == 1 { Cell::new('x') } else { Cell::new(' ') };
            assert_eq!(canvas.get(at(x, y)), Some(expected));
        }
    }
}

#[test]
fn last_write_wins() {
    let mut canvas = Canvas::from_dims(at(4, 4));
    let cells = [
        Cell::new('a'),
        Cell::PlaceHolder,
        Cell::styled('b', Style::foreground(Color::Red)),
        Cell::new('z'),
    ];
    for cell in cells {
        canvas.set(at(1, 2), cell);
        assert_eq!(canvas.get(at(1, 2)), Some(cell));
    }
    assert_eq!(canvas.get(at(1, 2)), Some(Cell::new('z')));
}

#[test]
fn resize_to_the_same_extent_changes_nothing() {
    let mut canvas = Canvas::from_dims(at(3, 2));
    canvas.set(at(2, 1), Cell::new('k'));
    canvas.resize(at(3, 2));
    assert_eq!(canvas.size(), at(3, 2));
    assert_eq!(canvas.get(at(2, 1)), Some(Cell::new('k')));
}

#[test]
fn resize_keeps_what_lies_within_and_pads_with_blanks() {
    let mut canvas = Canvas::from_dims(at(2, 2));
    canvas.set(at(0, 0), Cell::new('a'));
    canvas.set(at(1, 1), Cell::new('d'));
    canvas.resize(at(4, 3));
    assert_eq!(canvas.size(), at(4, 3));
    assert_eq!(canvas.get(at(0, 0)), Some(Cell::new('a')));
    assert_eq!(canvas.get(at(1, 1)), Some(Cell::new('d')));
    for (x, y) in [(2, 0), (3, 0), (2, 1), (3, 1), (0, 2), (1, 2), (2, 2), (3, 2)] {
        assert_eq!(canvas.get(at(x, y)), Some(Cell::new(' ')));
    }
    assert_eq!(canvas.get(at(4, 0)), None);
    assert_eq!(canvas.get(at(0, 3)), None);
}

#[test]
fn resize_down_then_up_leaves_no_stale_content() {
    let mut canvas = Canvas::from_dims(at(10, 5));
    for y in 0..5 {
        for x in 0..10 {
            canvas.set(at(x, y), Cell::new('#'));
        }
    }
    canvas.resize(at(5, 3));
    assert_eq!(canvas.size(), at(5, 3));
    assert_eq!(canvas.get(at(5, 0)), None);
    assert_eq!(canvas.get(at(0, 3)), None);
    canvas.resize(at(10, 5));
    assert_eq!(canvas.size(), at(10, 5));
    for y in 0..5 {
        for x in 0..10 {
            let expected = if x < 5 && y < 3 { Cell::new('#') } else { Cell::new(' ') };
            assert_eq!(canvas.get(at(x, y)), Some(expected), "at ({x}, {y})");
        }
    }
}

#[test]
fn clear_blanks_every_cell() {
    let mut canvas = Canvas::from_dims(at(3, 2));
    canvas.set(at(0, 0), Cell::new('a'));
    canvas.set(at(2, 1), Cell::PlaceHolder);
    canvas.clear();
    assert_eq!(canvas.size(), at(3, 2));
    for y in 0..2 {
        for x in 0..3 {
            assert_eq!(canvas.get(at(x, y)), Some(Cell::new(' ')));
        }
    }
}

#[test]
fn canvas_as_a_target() {
    let mut canvas = Canvas::from_dims(at(3, 2));
    assert_eq!(CanvasLike::pos(&canvas), at(0, 0));
    assert_eq!(CanvasLike::size(&canvas), at(3, 2));
    CanvasLike::set(&mut canvas, at(1, 0), Cell::new('q'));
    assert_eq!(canvas.get(at(1, 0)), Some(Cell::new('q')));
    assert_eq!(canvas.get_buf().get(at(1, 0)), Some(Cell::new('q')));
}

#[test]
fn borrowed_canvas_is_a_target_too() {
    let mut canvas = Canvas::from_dims(at(3, 2));
    {
        let mut target = &mut canvas;
        CanvasLike::set(&mut target, at(2, 1), Cell::new('r'));
        assert_eq!(CanvasLike::size(&target), at(3, 2));
    }
    assert_eq!(canvas.get(at(2, 1)), Some(Cell::new('r')));
}

#[test]
fn fill_writes_every_cell_of_the_extent() {
    let mut canvas = Canvas::from_dims(at(3, 2));
    canvas.fill(Cell::new('.'));
    for y in 0..2 {
        for x in 0..3 {
            assert_eq!(canvas.get(at(x, y)), Some(Cell::new('.')));
        }
    }
}

#[test]
fn draw_through_the_target() {
    let mut canvas = Canvas::from_dims(at(4, 1));
    canvas.draw(at(1, 0), "ab");
    assert_eq!(canvas.get(at(0, 0)), Some(Cell::new(' ')));
    assert_eq!(canvas.get(at(1, 0)), Some(Cell::new('a')));
    assert_eq!(canvas.get(at(2, 0)), Some(Cell::new('b')));
    assert_eq!(canvas.get(at(3, 0)), Some(Cell::new(' ')));
}
