//! The text of one frame: borders, the HUD line, the field with its balls
//! and the help line.

use vstd::prelude::*;

use crate::layout::{fits_terminal, spec_field_cells, spec_fits, RESERVED_ROWS};
use crate::text::{decimal, decimal_string, push_char, repeat_char, repeated, take_chars};

verus! {

/// The characters a frame is drawn with.
#[derive(Clone, Copy, Debug, PartialEq, Eq, Structural)]
pub struct Glyphs {
    pub border: char,
    pub top_left: char,
    pub top_right: char,
    pub bottom_left: char,
    pub bottom_right: char,
    pub side: char,
    pub ball: char,
}

/// Plain ASCII glyphs when `ascii` holds (`+` at every corner), box-drawing
/// glyphs otherwise (a proper corner at each of the four corners).
pub open spec fn spec_glyphs(ascii: bool) -> Glyphs {
    if ascii {
        Glyphs {
            border: '-',
            top_left: '+',
            top_right: '+',
            bottom_left: '+',
            bottom_right: '+',
            side: '|',
            ball: 'o',
        }
    } else {
        Glyphs {
            border: '\u{2500}',
            top_left: '\u{250c}',
            top_right: '\u{2510}',
            bottom_left: '\u{2514}',
            bottom_right: '\u{2518}',
            side: '\u{2502}',
            ball: '\u{25cf}',
        }
    }
}

/// The glyph set for ASCII or box-drawing output.
pub fn glyphs(ascii: bool) -> (g: Glyphs)
    ensures
        g == spec_glyphs(ascii),
{
    if ascii {
        Glyphs {
            border: '-',
            top_left: '+',
            top_right: '+',
            bottom_left: '+',
            bottom_right: '+',
            side: '|',
            ball: 'o',
        }
    } else {
        Glyphs {
            border: '\u{2500}',
            top_left: '\u{250c}',
            top_right: '\u{2510}',
            bottom_left: '\u{2514}',
            bottom_right: '\u{2518}',
            side: '\u{2502}',
            ball: '\u{25cf}',
        }
    }
}

/// A line of `width` characters: `side`, then `content` cut to `width - 2`
/// characters and padded with spaces to that length, then `side`.
pub open spec fn spec_frame_line(content: Seq<char>, width: nat, side: char) -> Seq<char> {
    let inner = (width - 2) as nat;
    let shown = if content.len() < inner {
        content
    } else {
        content.take(inner as int)
    };
    seq![side] + shown + repeated(' ', (inner - shown.len()) as nat) + seq![side]
}

/// Frames `content` between two `side` characters on a line exactly `width`
/// characters wide, cutting or padding it with spaces.
pub fn frame_line(content: &str, width: usize, side: char) -> (line: String)
    requires
        width >= 2,
    ensures
        line@ == spec_frame_line(content@, width as nat, side),
        line@.len() == width,
{
    let inner_width = width - 2;
    let (shown, count) = take_chars(content, inner_width);
    let padding = repeat_char(' ', inner_width - count);
    let mut line = String::new();
    push_char(&mut line, side);
    line.append(shown.as_str());
    line.append(padding.as_str());
    push_char(&mut line, side);
    assert(line@ =~= spec_frame_line(content@, width as nat, side));
    line
}

/// The text of the HUD line: the number of bodies, whether gravity is on and
/// whether the simulation is paused.
pub open spec fn hud_text(body_count: nat, gravity_enabled: bool, paused: bool) -> Seq<char> {
    " PhysTTY | Bodies: "@ + decimal(body_count) + " | Gravity: "@ + (if gravity_enabled {
        "ON"@
    } else {
        "OFF"@
    }) + " | "@ + (if paused {
        "Paused"@
    } else {
        "Running"@
    }) + " "@
}

/// The HUD text for the given world state.
pub fn hud(body_count: usize, gravity_enabled: bool, paused: bool) -> (text: String)
    ensures
        text@ == hud_text(body_count as nat, gravity_enabled, paused),
{
    let mut text = String::from_str(" PhysTTY | Bodies: ");
    let count = decimal_string(body_count);
    text.append(count.as_str());
    text.append(" | Gravity: ");
    if gravity_enabled {
        text.append("ON");
    } else {
        text.append("OFF");
    }
    text.append(" | ");
    if paused {
        text.append("Paused");
    } else {
        text.append("Running");
    }
    text.append(" ");
    assert(text@ =~= hud_text(body_count as nat, gravity_enabled, paused));
    text
}


/// The text of the help line at the bottom of the frame.
pub open spec fn help_text() -> Seq<char> {
    " SPACE spawn | G gravity | P pause | R reset | C clear | Q quit "@
}

/// A top or bottom border: the `left` and `right` corners around
/// `width - 2` border glyphs.
pub open spec fn spec_edge(width: nat, left: char, border: char, right: char) -> Seq<char> {
    seq![left] + repeated(border, (width - 2) as nat) + seq![right]
}

/// Whether some ball lies on the field cell in column `x` and row `y`.
pub open spec fn ball_in_cell(balls: Seq<(isize, isize)>, x: int, y: int) -> bool {
    exists|i: int| 0 <= i < balls.len() && balls[i].0 == x && balls[i].1 == y
}

/// Row `y` of the field, `inner` cells wide between two side glyphs: a cell
/// shows the ball glyph when a ball lies on it and a space otherwise.
pub open spec fn spec_field_row(balls: Seq<(isize, isize)>, y: int, inner: nat, g: Glyphs) -> Seq<
    char,
> {
    seq![g.side] + Seq::new(
        inner,
        |x: int|
            if ball_in_cell(balls, x, y) {
                g.ball
            } else {
                ' '
            },
    ) + seq![g.side]
}

/// Which of the `inner` cells of field row `y` hold a ball.
fn occupied_cells(balls: &Vec<(isize, isize)>, y: usize, inner: usize) -> (marks: Vec<bool>)
    ensures
        marks@.len() == inner,
        forall|x: int| 0 <= x < inner ==> marks@[x] == ball_in_cell(balls@, x, y as int),
{
    let mut marks: Vec<bool> = Vec::new();
    let mut x: usize = 0;
    while x < inner
        invariant
            x <= inner,
            marks@.len() == x,
            forall|k: int| 0 <= k < x ==> !marks@[k],
        decreases inner - x,
    {
        marks.push(false);
        x = x + 1;
    }
    let mut i: usize = 0;
    while i < balls.len()
        invariant
            i <= balls@.len(),
            marks@.len() == inner,
            forall|k: int|
                0 <= k < inner ==> marks@[k] == (exists|j: int|
                    0 <= j < i && balls@[j].0 == k && balls@[j].1 == y),
        decreases balls.len() - i,
    {
        let (bx, by) = balls[i];
        let ghost old_marks = marks@;
        if by >= 0 && by as usize == y && bx >= 0 && (bx as usize) < inner {
            marks.set(bx as usize, true);
        }
        assert forall|k: int| 0 <= k < inner implies marks@[k] == (exists|j: int|
            0 <= j < i + 1 && balls@[j].0 == k && balls@[j].1 == y) by {
            if balls@[i as int].0 == k && balls@[i as int].1 == y {
                assert(0 <= i < i + 1 && balls@[i as int].0 == k && balls@[i as int].1 == y);
            } else {
                if exists|j: int| 0 <= j < i + 1 && balls@[j].0 == k && balls@[j].1 == y {
                    let j = choose|j: int|
                        0 <= j < i + 1 && balls@[j].0 == k && balls@[j].1 == y;
                    assert(j < i);
                }
            }
        }
        i = i + 1;
    }
    marks
}

/// Row `y` of the field, `inner` cells wide.
pub fn field_row(balls: &Vec<(isize, isize)>, y: usize, inner: usize, g: Glyphs) -> (row: String)
    ensures
        row@ == spec_field_row(balls@, y as int, inner as nat, g),
{
    let marks = occupied_cells(balls, y, inner);
    let mut row = String::new();
    push_char(&mut row, g.side);
    let mut x: usize = 0;
    while x < inner
        invariant
            x <= inner,
            marks@.len() == inner,
            forall|k: int| 0 <= k < inner ==> marks@[k] == ball_in_cell(balls@, k, y as int),
            row@ == seq![g.side] + Seq::new(
                x as nat,
                |k: int|
                    if ball_in_cell(balls@, k, y as int) {
                        g.ball
                    } else {
                        ' '
                    },
            ),
        decreases inner - x,
    {
        let c = if marks[x] {
            g.ball
        } else {
            ' '
        };
        push_char(&mut row, c);
        x = x + 1;
        assert(row@ =~= seq![g.side] + Seq::new(
            x as nat,
            |k: int|
                if ball_in_cell(balls@, k, y as int) {
                    g.ball
                } else {
                    ' '
                },
        ));
    }
    push_char(&mut row, g.side);
    assert(row@ =~= spec_field_row(balls@, y as int, inner as nat, g));
    row
}


/// The lines of a frame `width` characters wide with a field of
/// `field_rows` rows: the top border, the HUD line, the field rows, the help
/// line and the bottom border.
pub open spec fn spec_frame_lines(
    width: nat,
    field_rows: nat,
    balls: Seq<(isize, isize)>,
    gravity_enabled: bool,
    paused: bool,
    g: Glyphs,
) -> Seq<Seq<char>> {
    seq![
        spec_edge(width, g.top_left, g.border, g.top_right),
        spec_frame_line(hud_text(balls.len(), gravity_enabled, paused), width, g.side),
    ] + Seq::new(field_rows, |y: int| spec_field_row(balls, y, (width - 2) as nat, g)) + seq![
        spec_frame_line(help_text(), width, g.side),
        spec_edge(width, g.bottom_left, g.border, g.bottom_right),
    ]
}

/// The lines joined into one text, with a carriage return and a line feed
/// between two lines.
pub open spec fn join_lines(lines: Seq<Seq<char>>) -> Seq<char>
    decreases lines.len(),
{
    if lines.len() == 0 {
        seq![]
    } else if lines.len() == 1 {
        lines[0]
    } else {
        join_lines(lines.drop_last()) + "\r\n"@ + lines.last()
    }
}

proof fn lemma_join_step(lines: Seq<Seq<char>>, k: int)
    requires
        1 <= k < lines.len(),
    ensures
        join_lines(lines.take(k + 1)) == join_lines(lines.take(k)) + "\r\n"@ + lines[k],
{
    assert(lines.take(k + 1).drop_last() =~= lines.take(k));
}

/// The top or bottom border of a frame `width` characters wide.
fn edge(width: usize, left: char, border: char, right: char) -> (line: String)
    requires
        width >= 2,
    ensures
        line@ == spec_edge(width as nat, left, border, right),
{
    let middle = repeat_char(border, width - 2);
    let mut line = String::new();
    push_char(&mut line, left);
    line.append(middle.as_str());
    push_char(&mut line, right);
    assert(line@ =~= spec_edge(width as nat, left, border, right));
    line
}

/// Appends a line break and `line` to `text`.
fn append_line(text: &mut String, line: &str)
    ensures
        final(text)@ == old(text)@ + "\r\n"@ + line@,
{
    text.append("\r\n");
    text.append(line);
}

/// The text of a frame `width` characters wide whose field has `field_rows`
/// rows, for a world whose bodies lie on the cells `balls` (column, row).
pub fn compose_frame(
    width: u16,
    field_rows: u16,
    balls: &Vec<(isize, isize)>,
    gravity_enabled: bool,
    paused: bool,
    g: Glyphs,
) -> (frame: String)
    requires
        width >= 2,
    ensures
        frame@ == join_lines(
            spec_frame_lines(width as nat, field_rows as nat, balls@, gravity_enabled, paused, g),
        ),
{
    let ghost lines = spec_frame_lines(
        width as nat,
        field_rows as nat,
        balls@,
        gravity_enabled,
        paused,
        g,
    );
    let w = width as usize;
    let mut frame = edge(w, g.top_left, g.border, g.top_right);
    assert(lines.take(1) =~= seq![lines[0]]);
    let status = hud(balls.len(), gravity_enabled, paused);
    let hud_line = frame_line(status.as_str(), w, g.side);
    append_line(&mut frame, hud_line.as_str());
    proof {
        lemma_join_step(lines, 1);
    }
    let mut y: u16 = 0;
    while y < field_rows
        invariant
            y <= field_rows,
            w == width,
            w >= 2,
            lines == spec_frame_lines(
                width as nat,
                field_rows as nat,
                balls@,
                gravity_enabled,
                paused,
                g,
            ),
            frame@ == join_lines(lines.take(2 + y)),
        decreases field_rows - y,
    {
        let row = field_row(balls, y as usize, w - 2, g);
        append_line(&mut frame, row.as_str());
        proof {
            lemma_join_step(lines, 2 + y);
        }
        y = y + 1;
    }
    let help = frame_line(" SPACE spawn | G gravity | P pause | R reset | C clear | Q quit ", w, g.side);
    append_line(&mut frame, help.as_str());
    proof {
        lemma_join_step(lines, 2 + field_rows);
    }
    let bottom = edge(w, g.bottom_left, g.border, g.bottom_right);
    append_line(&mut frame, bottom.as_str());
    proof {
        lemma_join_step(lines, 3 + field_rows);
        assert(lines.take(lines.len() as int) =~= lines);
    }
    frame
}


/// Every line of a frame `width` characters wide is exactly `width`
/// characters long, and the frame has four lines more than its field.
pub proof fn frame_lines_have_frame_width(
    width: nat,
    field_rows: nat,
    balls: Seq<(isize, isize)>,
    gravity_enabled: bool,
    paused: bool,
    g: Glyphs,
)
    requires
        width >= 2,
    ensures
        spec_frame_lines(width, field_rows, balls, gravity_enabled, paused, g).len() == field_rows
            + 4,
        forall|i: int|
            0 <= i < field_rows + 4 ==> #[trigger] spec_frame_lines(
                width,
                field_rows,
                balls,
                gravity_enabled,
                paused,
                g,
            )[i].len() == width,
{
    let lines = spec_frame_lines(width, field_rows, balls, gravity_enabled, paused, g);
    assert forall|i: int| 0 <= i < field_rows + 4 implies #[trigger] lines[i].len() == width by {
        if 2 <= i < field_rows + 2 {
            assert(lines[i] == spec_field_row(balls, i - 2, (width - 2) as nat, g));
        }
    }
}

/// What is shown on a terminal: a notice when the terminal is too small for
/// the frame, the frame otherwise.
#[derive(Debug)]
pub enum Screen {
    TooSmall(String),
    Frame(String),
}

/// The notice shown on a terminal that is too small for the frame.
pub open spec fn too_small_text() -> Seq<char> {
    "PhysTTY needs a larger terminal window."@
}

/// The lines of the frame for a terminal of `size` (columns, rows) that is
/// large enough: the field takes all rows but the four reserved ones.
pub open spec fn spec_screen_lines(
    size: (u16, u16),
    balls: Seq<(isize, isize)>,
    gravity_enabled: bool,
    paused: bool,
    ascii: bool,
) -> Seq<Seq<char>> {
    spec_frame_lines(
        size.0 as nat,
        (size.1 - RESERVED_ROWS) as nat,
        balls,
        gravity_enabled,
        paused,
        spec_glyphs(ascii),
    )
}

/// What to show on a terminal of `size` (columns, rows) for a world whose
/// bodies lie on the field cells `balls` (column, row), with gravity on or
/// off and the simulation paused or running, in ASCII or box-drawing glyphs.
pub fn compose_screen(
    size: (u16, u16),
    balls: &Vec<(isize, isize)>,
    gravity_enabled: bool,
    paused: bool,
    ascii: bool,
) -> (screen: Screen)
    ensures
        !spec_fits(size) ==> (screen matches Screen::TooSmall(m) && m@ == too_small_text()),
        spec_fits(size) ==> (screen matches Screen::Frame(f) && f@ == join_lines(
            spec_screen_lines(size, balls@, gravity_enabled, paused, ascii),
        )),
{
    if !fits_terminal(size) {
        return Screen::TooSmall(String::from_str("PhysTTY needs a larger terminal window."));
    }
    let g = glyphs(ascii);
    let frame = compose_frame(size.0, size.1 - RESERVED_ROWS, balls, gravity_enabled, paused, g);
    Screen::Frame(frame)
}

/// On a terminal large enough for the frame, the frame fills it exactly:
/// one line per terminal row, each as wide as the terminal, and its field
/// has the size in cells that the simulation is given.
pub proof fn frame_fills_terminal(
    size: (u16, u16),
    balls: Seq<(isize, isize)>,
    gravity_enabled: bool,
    paused: bool,
    ascii: bool,
)
    requires
        spec_fits(size),
    ensures
        spec_screen_lines(size, balls, gravity_enabled, paused, ascii).len() == size.1,
        forall|i: int|
            0 <= i < size.1 ==> #[trigger] spec_screen_lines(
                size,
                balls,
                gravity_enabled,
                paused,
                ascii,
            )[i].len() == size.0,
        spec_field_cells(size).0 == size.0 - 2,
        spec_field_cells(size).1 == size.1 - RESERVED_ROWS,
        forall|y: int|
            0 <= y < spec_field_cells(size).1 ==> #[trigger] spec_screen_lines(
                size,
                balls,
                gravity_enabled,
                paused,
                ascii,
            )[2 + y] == spec_field_row(
                balls,
                y,
                spec_field_cells(size).0 as nat,
                spec_glyphs(ascii),
            ),
{
    frame_lines_have_frame_width(
        size.0 as nat,
        (size.1 - RESERVED_ROWS) as nat,
        balls,
        gravity_enabled,
        paused,
        spec_glyphs(ascii),
    );
}

/// The frame is closed by its borders: the top line runs from the top-left
/// to the top-right corner and the bottom line from the bottom-left to the
/// bottom-right corner, with border glyphs between; in box-drawing glyphs
/// these are `┌─…─┐` and `└─…─┘`.
pub proof fn frame_borders(
    size: (u16, u16),
    balls: Seq<(isize, isize)>,
    gravity_enabled: bool,
    paused: bool,
    ascii: bool,
)
    requires
        spec_fits(size),
    ensures
        spec_screen_lines(size, balls, gravity_enabled, paused, ascii)[0] == spec_edge(
            size.0 as nat,
            spec_glyphs(ascii).top_left,
            spec_glyphs(ascii).border,
            spec_glyphs(ascii).top_right,
        ),
        spec_screen_lines(size, balls, gravity_enabled, paused, ascii)[size.1 - 1] == spec_edge(
            size.0 as nat,
            spec_glyphs(ascii).bottom_left,
            spec_glyphs(ascii).border,
            spec_glyphs(ascii).bottom_right,
        ),
        !ascii ==> spec_glyphs(ascii).top_left == '\u{250c}' && spec_glyphs(ascii).top_right
            == '\u{2510}' && spec_glyphs(ascii).bottom_left == '\u{2514}'
            && spec_glyphs(ascii).bottom_right == '\u{2518}' && spec_glyphs(ascii).border
            == '\u{2500}',
        ascii ==> spec_glyphs(ascii).top_left == '+' && spec_glyphs(ascii).top_right == '+'
            && spec_glyphs(ascii).bottom_left == '+' && spec_glyphs(ascii).bottom_right == '+'
            && spec_glyphs(ascii).border == '-',
{
}

/// Whether every character of `s` is an ASCII character.
pub open spec fn all_ascii(s: Seq<char>) -> bool {
    forall|i: int| 0 <= i < s.len() ==> (s[i] as u32) < 128
}

proof fn lemma_decimal_ascii(n: nat)
    ensures
        all_ascii(decimal(n)),
    decreases n,
{
    if n >= 10 {
        lemma_decimal_ascii(n / 10);
    }
}

proof fn lemma_hud_ascii(body_count: nat, gravity_enabled: bool, paused: bool)
    ensures
        all_ascii(hud_text(body_count, gravity_enabled, paused)),
{
    reveal_strlit(" PhysTTY | Bodies: ");
    reveal_strlit(" | Gravity: ");
    reveal_strlit("ON");
    reveal_strlit("OFF");
    reveal_strlit(" | ");
    reveal_strlit("Paused");
    reveal_strlit("Running");
    reveal_strlit(" ");
    lemma_decimal_ascii(body_count);
}

proof fn lemma_frame_line_ascii(content: Seq<char>, width: nat, side: char)
    requires
        width >= 2,
        all_ascii(content),
        (side as u32) < 128,
    ensures
        all_ascii(spec_frame_line(content, width, side)),
{
}

/// With ASCII glyphs every character of the frame is an ASCII character.
pub proof fn ascii_frame_is_ascii(
    size: (u16, u16),
    balls: Seq<(isize, isize)>,
    gravity_enabled: bool,
    paused: bool,
)
    requires
        spec_fits(size),
    ensures
        forall|i: int|
            0 <= i < size.1 ==> all_ascii(
                #[trigger] spec_screen_lines(size, balls, gravity_enabled, paused, true)[i],
            ),
{
    let lines = spec_screen_lines(size, balls, gravity_enabled, paused, true);
    let g = spec_glyphs(true);
    let w = size.0 as nat;
    lemma_hud_ascii(balls.len(), gravity_enabled, paused);
    lemma_frame_line_ascii(hud_text(balls.len(), gravity_enabled, paused), w, g.side);
    reveal_strlit(" SPACE spawn | G gravity | P pause | R reset | C clear | Q quit ");
    lemma_frame_line_ascii(help_text(), w, g.side);
    assert forall|i: int| 0 <= i < size.1 implies all_ascii(#[trigger] lines[i]) by {
        if 2 <= i < size.1 - 2 {
            assert(lines[i] == spec_field_row(balls, i - 2, (w - 2) as nat, g));
        }
    }
}

/// A framed line is `width` characters: `side` at both ends, the content's
/// characters in order from the second column as far as they fit, and
/// spaces after them.
pub proof fn frame_line_layout(content: Seq<char>, width: nat, side: char)
    requires
        width >= 2,
    ensures
        spec_frame_line(content, width, side).len() == width,
        spec_frame_line(content, width, side)[0] == side,
        spec_frame_line(content, width, side)[width - 1] == side,
        forall|i: int|
            0 <= i < width - 2 && i < content.len() ==> #[trigger] spec_frame_line(
                content,
                width,
                side,
            )[1 + i] == content[i],
        forall|i: int|
            0 <= i < width - 2 && content.len() <= i ==> #[trigger] spec_frame_line(
                content,
                width,
                side,
            )[1 + i] == ' ',
{
    let line = spec_frame_line(content, width, side);
    let inner = (width - 2) as nat;
    let shown = if content.len() < inner {
        content
    } else {
        content.take(inner as int)
    };
    assert forall|i: int| 0 <= i < width - 2 && i < content.len() implies #[trigger] line[1
        + i] == content[i] by {
        assert(line[1 + i] == shown[i]);
    }
    assert forall|i: int| 0 <= i < width - 2 && content.len() <= i implies #[trigger] line[1
        + i] == ' ' by {
        assert(line[1 + i] == repeated(' ', (inner - shown.len()) as nat)[i - shown.len()]);
    }
}

/// A border is `width` characters: the left corner, border glyphs, the right
/// corner.
pub proof fn edge_layout(width: nat, left: char, border: char, right: char)
    requires
        width >= 2,
    ensures
        spec_edge(width, left, border, right).len() == width,
        spec_edge(width, left, border, right)[0] == left,
        spec_edge(width, left, border, right)[width - 1] == right,
        forall|i: int|
            0 < i < width - 1 ==> #[trigger] spec_edge(width, left, border, right)[i] == border,
{
}

/// The glyph sets: in ASCII, `-` borders, `+` corners, `|` sides and `o`
/// balls; otherwise `─` borders, `┌ ┐ └ ┘` corners, `│` sides and `●` balls.
pub proof fn glyph_sets(ascii: bool)
    ensures
        ascii ==> spec_glyphs(ascii) == (Glyphs {
            border: '-',
            top_left: '+',
            top_right: '+',
            bottom_left: '+',
            bottom_right: '+',
            side: '|',
            ball: 'o',
        }),
        !ascii ==> spec_glyphs(ascii) == (Glyphs {
            border: '\u{2500}',
            top_left: '\u{250c}',
            top_right: '\u{2510}',
            bottom_left: '\u{2514}',
            bottom_right: '\u{2518}',
            side: '\u{2502}',
            ball: '\u{25cf}',
        }),
{
}

/// A field row is `inner + 2` characters between two side glyphs; the cell
/// of every ball of the list that lies on the row shows the ball glyph, and
/// a cell on which no ball of the list lies shows a space.
pub proof fn field_row_layout(balls: Seq<(isize, isize)>, y: int, inner: nat, g: Glyphs)
    ensures
        spec_field_row(balls, y, inner, g).len() == inner + 2,
        spec_field_row(balls, y, inner, g)[0] == g.side,
        spec_field_row(balls, y, inner, g)[inner + 1int] == g.side,
        forall|i: int|
            0 <= i < balls.len() && 0 <= #[trigger] balls[i].0 < inner && balls[i].1 == y
                ==> spec_field_row(balls, y, inner, g)[1 + balls[i].0] == g.ball,
        forall|x: int|
            0 <= x < inner && (forall|i: int|
                0 <= i < balls.len() ==> !(#[trigger] balls[i].0 == x && balls[i].1 == y))
                ==> #[trigger] spec_field_row(balls, y, inner, g)[1 + x] == ' ',
{
    let row = spec_field_row(balls, y, inner, g);
    assert forall|i: int|
        0 <= i < balls.len() && 0 <= #[trigger] balls[i].0 < inner && balls[i].1 == y implies row[1
        + balls[i].0] == g.ball by {
        assert(ball_in_cell(balls, balls[i].0 as int, y));
    }
}

/// The notation `\r\n` separates lines: joining one more line appends a
/// carriage return, a line feed and that line, and a single line is joined
/// to itself.
pub proof fn join_lines_layout(lines: Seq<Seq<char>>, line: Seq<char>)
    ensures
        join_lines(seq![line]) == line,
        lines.len() > 0 ==> join_lines(lines.push(line)) == join_lines(lines) + seq!['\r', '\n']
            + line,
{
    reveal_strlit("\r\n");
    if lines.len() > 0 {
        assert(lines.push(line).drop_last() =~= lines);
    }
}

/// The second line of the frame is the HUD for the balls' number, the gravity
/// flag and the pause flag it was given, and the line above the bottom border
/// is the help line.
pub proof fn hud_line_in_frame(
    size: (u16, u16),
    balls: Seq<(isize, isize)>,
    gravity_enabled: bool,
    paused: bool,
    ascii: bool,
)
    requires
        spec_fits(size),
    ensures
        spec_screen_lines(size, balls, gravity_enabled, paused, ascii)[1] == spec_frame_line(
            hud_text(balls.len(), gravity_enabled, paused),
            size.0 as nat,
            spec_glyphs(ascii).side,
        ),
        spec_screen_lines(size, balls, gravity_enabled, paused, ascii)[size.1 - 2]
            == spec_frame_line(help_text(), size.0 as nat, spec_glyphs(ascii).side),
{
}

/// The HUD reads ` PhysTTY | Bodies: `, then the body count in decimal, then
/// ` | Gravity: ON | ` exactly when gravity is on (` | Gravity: OFF | `
/// otherwise), and ends with `Paused ` exactly when the simulation is paused
/// (`Running ` otherwise); nothing else is in it.
pub proof fn hud_layout(body_count: nat, gravity_enabled: bool, paused: bool)
    ensures
        hud_text(body_count, gravity_enabled, paused).len() == 19 + (decimal(body_count).len() as int) + (
        if gravity_enabled {
            17int
        } else {
            18int
        }) + (if paused {
            7int
        } else {
            8int
        }),
        hud_text(body_count, gravity_enabled, paused).take(19) == " PhysTTY | Bodies: "@,
        hud_text(body_count, gravity_enabled, paused).subrange(
            19,
            19 + (decimal(body_count).len() as int),
        ) == decimal(body_count),
        gravity_enabled ==> hud_text(body_count, gravity_enabled, paused).subrange(
            19 + (decimal(body_count).len() as int),
            36 + (decimal(body_count).len() as int),
        ) == " | Gravity: ON | "@,
        !gravity_enabled ==> hud_text(body_count, gravity_enabled, paused).subrange(
            19 + (decimal(body_count).len() as int),
            37 + (decimal(body_count).len() as int),
        ) == " | Gravity: OFF | "@,
        paused ==> hud_text(body_count, gravity_enabled, paused).skip(
            hud_text(body_count, gravity_enabled, paused).len() - 7,
        ) == "Paused "@,
        !paused ==> hud_text(body_count, gravity_enabled, paused).skip(
            hud_text(body_count, gravity_enabled, paused).len() - 8,
        ) == "Running "@,
{
    reveal_strlit(" PhysTTY | Bodies: ");
    reveal_strlit(" | Gravity: ");
    reveal_strlit("ON");
    reveal_strlit("OFF");
    reveal_strlit(" | ");
    reveal_strlit("Paused");
    reveal_strlit("Running");
    reveal_strlit(" ");
    reveal_strlit(" | Gravity: ON | ");
    reveal_strlit(" | Gravity: OFF | ");
    reveal_strlit("Paused ");
    reveal_strlit("Running ");
    let t = hud_text(body_count, gravity_enabled, paused);
    let k = decimal(body_count).len() as int;
    let head = " PhysTTY | Bodies: "@;
    let digits = decimal(body_count);
    let gravity = " | Gravity: "@ + (if gravity_enabled {
        "ON"@
    } else {
        "OFF"@
    }) + " | "@;
    let status = (if paused {
        "Paused"@
    } else {
        "Running"@
    }) + " "@;
    assert(t =~= head + digits + gravity + status);
    assert(t.take(19) =~= head);
    assert(t.subrange(19, 19 + k) =~= digits);
    if gravity_enabled {
        assert(t.subrange(19 + k, 36 + k) =~= gravity);
        assert(gravity =~= " | Gravity: ON | "@);
    } else {
        assert(t.subrange(19 + k, 37 + k) =~= gravity);
        assert(gravity =~= " | Gravity: OFF | "@);
    }
    if paused {
        assert(t.skip(t.len() - 7) =~= status);
        assert(status =~= "Paused "@);
    } else {
        assert(t.skip(t.len() - 8) =~= status);
        assert(status =~= "Running "@);
    }
}

} // verus!
