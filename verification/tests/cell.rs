use fyodor::cell::{Cell, CellContent};
use fyodor::style::{Attribute, Attributes, Color, Style};
use fyodor::width::{char_columns, char_layout_columns, str_columns};

#[test]
fn cell_width_is_the_display_width() {
    let narrow = Cell::new('A');
    let wide = Cell::new('中');
    let mark = Cell::new('\u{0301}');
    let control = Cell::new('\t');
    let khmer = Cell::new('\u{17D8}');
    let width = |cell: Cell| match cell {
        Cell::Content(content) => content.width,
        Cell::PlaceHolder => unreachable!(),
    };
    assert_eq!(width(narrow), 1);
    assert_eq!(width(wide), 2);
    assert_eq!(width(mark), 0);
    assert_eq!(width(control), 1);
    assert_eq!(width(khmer), 3);
}

#[test]
fn styled_cell_keeps_character_and_style() {
    let style = Style::foreground(Color::Rgb { r: 227, g: 166, b: 211 });
    assert_eq!(
        Cell::styled('x', style),
        Cell::Content(CellContent { character: 'x', width: 1, style })
    );
    assert_eq!(Cell::new('x'), Cell::styled('x', Style::default()));
    assert_ne!(Cell::new('x'), Cell::styled('x', style));
    assert_ne!(Cell::new('x'), Cell::new('y'));
    assert_ne!(Cell::new('x'), Cell::PlaceHolder);
}

#[test]
fn default_cell_is_a_placeholder() {
    assert_eq!(Cell::default(), Cell::PlaceHolder);
    assert_eq!(
        CellContent::default(),
        CellContent { character: '\0', width: 0, style: Style::default() }
    );
}

#[test]
fn restyled_cell() {
    let red = Style::foreground(Color::Red);
    assert_eq!(Cell::new('x').restyled(red), Cell::styled('x', red));
    assert_eq!(Cell::PlaceHolder.restyled(red), Cell::PlaceHolder);
}

#[test]
fn widths_of_characters_and_strings() {
    assert_eq!(char_columns('a'), 1);
    assert_eq!(char_columns('\u{ff21}'), 2);
    assert_eq!(char_columns('\n'), 1);
    assert_eq!(char_layout_columns('\n'), 0);
    assert_eq!(char_layout_columns('a'), 1);
    assert_eq!(char_layout_columns('\u{0301}'), 0);
    assert_eq!(str_columns(""), 0);
    assert_eq!(str_columns("abc"), 3);
    assert_eq!(str_columns("中文"), 4);
    assert_eq!(str_columns("e\u{0301}"), 1);
}

#[test]
fn default_style_is_plain() {
    let style = Style::default();
    assert_eq!(style.foreground_color, None);
    assert_eq!(style.background_color, None);
    assert_eq!(style.attributes, Attributes::none());
    assert!(style.attributes.is_empty());
    assert_eq!(Attributes::default(), Attributes::none());
}

#[test]
fn style_builders() {
    assert_eq!(
        Style::foreground(Color::Blue),
        Style { foreground_color: Some(Color::Blue), ..Style::default() }
    );
    assert_eq!(
        Style::background(Color::AnsiValue(7)),
        Style { background_color: Some(Color::AnsiValue(7)), ..Style::default() }
    );
    let bold = Attributes::none().with(Attribute::Bold);
    assert_eq!(
        Style::foreground(Color::Blue).with_attributes(bold),
        Style { foreground_color: Some(Color::Blue), background_color: None, attributes: bold }
    );
}

#[test]
fn attribute_sets() {
    let none = Attributes::none();
    assert!(!none.has(Attribute::Bold));
    let bold = none.with(Attribute::Bold);
    assert!(bold.has(Attribute::Bold));
    assert!(!bold.has(Attribute::Italic));
    assert!(!bold.is_empty());
    let both = bold.with(Attribute::Italic);
    assert!(both.has(Attribute::Bold) && both.has(Attribute::Italic));
    assert_eq!(both.with(Attribute::Bold), both);
    assert_eq!(both.without(Attribute::Italic), bold);
    assert_eq!(bold.without(Attribute::Italic), bold);
    assert_eq!(bold.without(Attribute::Bold), none);
}

#[test]
fn attribute_bits() {
    assert_eq!(Attribute::Reset.ordinal(), 0);
    assert_eq!(Attribute::Reset.bytes(), 0b10);
    assert_eq!(Attribute::Bold.ordinal(), 1);
    assert_eq!(Attribute::Bold.bytes(), 0b100);
    assert_eq!(Attribute::NotOverLined.ordinal(), 27);
    assert_eq!(Attribute::NotOverLined.bytes(), 1 << 28);
    assert_eq!(Attributes::none().with(Attribute::Underlined).bits, 1 << 5);
}
