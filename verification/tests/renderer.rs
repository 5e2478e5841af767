use phystty::frame::{compose_frame, compose_screen, field_row, frame_line, glyphs, hud, Glyphs, Screen};
use phystty::layout::{field_cells, fits_terminal};
use phystty::text::{decimal_string, repeat_char, take_chars};

fn ascii() -> Glyphs {
    glyphs(true)
}

#[test]
fn frame_line_is_exactly_terminal_width() {
    let line = frame_line("hello", 12, '|');

    assert_eq!(line.chars().count(), 12);
    assert_eq!(line, "|hello     |");
}

#[test]
fn field_bounds_reserve_hud_and_borders() {
    let (columns, rows) = field_cells((82, 30));
    let width = f32::from(columns);
    let height = f32::from(rows) * 2.0;

    assert_eq!(width, 80.0);
    assert_eq!(height, 52.0);
}

#[test]
fn frame_line_cuts_long_content() {
    let line = frame_line("abcdefghij", 6, '|');
    assert_eq!(line, "|abcd|");
    assert_eq!(frame_line("", 2, '#'), "##");
    assert_eq!(frame_line("xyz", 2, '#'), "##");
}

#[test]
fn frame_line_counts_characters_not_bytes() {
    let line = frame_line("\u{25cf}\u{25cf}", 5, '\u{2502}');
    assert_eq!(line, "\u{2502}\u{25cf}\u{25cf} \u{2502}");
    assert_eq!(line.chars().count(), 5);
}

#[test]
fn field_cells_never_below_two() {
    assert_eq!(field_cells((0, 0)), (2, 2));
    assert_eq!(field_cells((3, 5)), (2, 2));
    assert_eq!(field_cells((4, 6)), (2, 2));
    assert_eq!(field_cells((5, 7)), (3, 3));
    assert_eq!(field_cells((u16::MAX, u16::MAX)), (u16::MAX - 2, u16::MAX - 4));
}

#[test]
fn minimum_terminal_size() {
    assert!(fits_terminal((24, 8)));
    assert!(!fits_terminal((23, 8)));
    assert!(!fits_terminal((24, 7)));
    assert!(fits_terminal((200, 60)));
}

#[test]
fn decimal_strings() {
    assert_eq!(decimal_string(0), "0");
    assert_eq!(decimal_string(7), "7");
    assert_eq!(decimal_string(10), "10");
    assert_eq!(decimal_string(1234), "1234");
    assert_eq!(decimal_string(usize::MAX), usize::MAX.to_string());
}

#[test]
fn text_helpers() {
    assert_eq!(repeat_char('-', 3), "---");
    assert_eq!(repeat_char('-', 0), "");
    assert_eq!(take_chars("hello", 3), ("hel".to_string(), 3));
    assert_eq!(take_chars("hi", 3), ("hi".to_string(), 2));
}

#[test]
fn hud_reports_world_state() {
    assert_eq!(hud(3, true, false), " PhysTTY | Bodies: 3 | Gravity: ON | Running ");
    assert_eq!(hud(12, false, true), " PhysTTY | Bodies: 12 | Gravity: OFF | Paused ");
}

#[test]
fn field_row_marks_ball_cells() {
    let balls = vec![(1, 0), (3, 0), (2, 1), (-1, 0), (9, 0), (1, 0)];
    assert_eq!(field_row(&balls, 0, 5, ascii()), "| o o |");
    assert_eq!(field_row(&balls, 1, 5, ascii()), "|  o  |");
    assert_eq!(field_row(&balls, 2, 5, ascii()), "|     |");
}

#[test]
fn glyph_sets() {
    let g = glyphs(true);
    assert_eq!(
        (g.border, g.top_left, g.top_right, g.bottom_left, g.bottom_right, g.side, g.ball),
        ('-', '+', '+', '+', '+', '|', 'o')
    );
    let g = glyphs(false);
    assert_eq!(
        (g.border, g.top_left, g.top_right, g.bottom_left, g.bottom_right, g.side, g.ball),
        ('\u{2500}', '\u{250c}', '\u{2510}', '\u{2514}', '\u{2518}', '\u{2502}', '\u{25cf}')
    );
}

#[test]
fn box_drawing_frame_has_proper_corners() {
    match compose_screen((24, 8), &vec![], true, false, false) {
        Screen::Frame(frame) => {
            let lines: Vec<&str> = frame.split("\r\n").collect();
            assert_eq!(lines.len(), 8);
            assert_eq!(lines[0], format!("\u{250c}{}\u{2510}", "\u{2500}".repeat(22)));
            assert_eq!(lines[7], format!("\u{2514}{}\u{2518}", "\u{2500}".repeat(22)));
            assert_eq!(lines[2], format!("\u{2502}{}\u{2502}", " ".repeat(22)));
        }
        Screen::TooSmall(_) => panic!("expected a frame"),
    }
}

#[test]
fn small_frame_text() {
    let balls = vec![(0, 0), (5, 1), (-3, 2)];
    let frame = compose_frame(8, 2, &balls, true, false, ascii());
    let expected = [
        "+------+",
        "| PhysT|",
        "|o     |",
        "|     o|",
        "| SPACE|",
        "+------+",
    ]
    .join("\r\n");
    assert_eq!(frame, expected);
}

#[test]
fn too_small_terminal_shows_notice() {
    match compose_screen((23, 30), &vec![], true, false, false) {
        Screen::TooSmall(message) => {
            assert_eq!(message, "PhysTTY needs a larger terminal window.")
        }
        Screen::Frame(_) => panic!("expected the notice"),
    }
    assert!(matches!(compose_screen((80, 7), &vec![], true, false, true), Screen::TooSmall(_)));
}

#[test]
fn frame_fills_the_terminal() {
    let balls = vec![(3, 2), (100, 100)];
    for ascii in [true, false] {
        match compose_screen((30, 10), &balls, false, true, ascii) {
            Screen::Frame(frame) => {
                let lines: Vec<&str> = frame.split("\r\n").collect();
                assert_eq!(lines.len(), 10);
                for line in &lines {
                    assert_eq!(line.chars().count(), 30);
                }
                let ball = if ascii { 'o' } else { '\u{25cf}' };
                assert_eq!(lines[4].chars().nth(4), Some(ball));
                assert_eq!(lines[2..8].iter().map(|l| l.matches(ball).count()).sum::<usize>(), 1);
                assert!(lines[1].contains(" PhysTTY | Bodies: 2 | Gravi"));
            }
            Screen::TooSmall(_) => panic!("expected a frame"),
        }
    }
}

#[test]
fn ascii_frame_uses_only_ascii() {
    let balls = vec![(0, 0), (21, 3), (5, 2)];
    match compose_screen((24, 8), &balls, true, true, true) {
        Screen::Frame(frame) => {
            assert!(frame.is_ascii());
            let lines: Vec<&str> = frame.split("\r\n").collect();
            assert_eq!(lines[0], format!("+{}+", "-".repeat(22)));
            assert_eq!(lines[7], format!("+{}+", "-".repeat(22)));
        }
        Screen::TooSmall(_) => panic!("expected a frame"),
    }
}
