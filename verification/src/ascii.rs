//! ASCII art: a picture as lines of characters, coloured by a second
//! picture of the same shape whose characters stand for colours.

use crate::layout::{capped16, Area};
use crate::text::{chars_of, lines, rows_view, split_lines};
use ratatui::style::Color;
use std::collections::HashMap;
use vstd::prelude::*;

verus! {

/// `ratatui::style::Color`. The library hands colours on and never looks
/// into one.
#[verifier::external_type_specification]
#[verifier::external_body]
pub struct ExColor(Color);

/// One character of a picture: where it stands and in which colour.
#[derive(Clone, Copy, Debug, PartialEq, Eq)]
pub struct AsciiCell {
    pub ch: char,
    pub x: u16,
    pub y: u16,
    pub color: Color,
}

/// Whether two pictures have the same shape: as many lines, and each line
/// as long as the line it lies on.
pub open spec fn same_shape(art: Seq<Seq<char>>, colors: Seq<Seq<char>>) -> bool {
    &&& art.len() == colors.len()
    &&& forall|row: int| 0 <= row < art.len() ==> (#[trigger] art[row]).len() == colors[row].len()
}

/// The colour that `key` stands for: the one the palette gives it, or
/// `default_color` where it gives none.
pub open spec fn color_of(palette: Map<u32, Color>, default_color: Color, key: char) -> Color {
    if palette.contains_key(key as u32) {
        palette[key as u32]
    } else {
        default_color
    }
}

/// The cell at line `row`, column `col` of a picture. Its place is cut
/// down to sixteen bits each way.
pub open spec fn cell_at(
    art: Seq<Seq<char>>,
    colors: Seq<Seq<char>>,
    palette: Map<u32, Color>,
    default_color: Color,
    row: usize,
    col: usize,
) -> AsciiCell {
    AsciiCell {
        ch: art[row as int][col as int],
        x: col as u16,
        y: row as u16,
        color: color_of(palette, default_color, colors[row as int][col as int]),
    }
}

/// The first `cols` cells of line `row`, left to right.
pub open spec fn row_cells(
    art: Seq<Seq<char>>,
    colors: Seq<Seq<char>>,
    palette: Map<u32, Color>,
    default_color: Color,
    row: usize,
    cols: nat,
) -> Seq<AsciiCell> {
    Seq::new(cols, |col: int| cell_at(art, colors, palette, default_color, row, col as usize))
}

/// The cells of the first `rows` lines of a picture, line by line from
/// the top, each line left to right.
pub open spec fn painted(
    art: Seq<Seq<char>>,
    colors: Seq<Seq<char>>,
    palette: Map<u32, Color>,
    default_color: Color,
    rows: nat,
) -> Seq<AsciiCell>
    decreases rows,
{
    if rows == 0 {
        Seq::empty()
    } else {
        let row = (rows - 1) as usize;
        painted(art, colors, palette, default_color, (rows - 1) as nat) + row_cells(
            art,
            colors,
            palette,
            default_color,
            row,
            art[row as int].len(),
        )
    }
}

/// The largest column among the cells, or zero where there are none.
pub open spec fn last_column(cells: Seq<AsciiCell>) -> int
    decreases cells.len(),
{
    if cells.len() == 0 {
        0
    } else if cells.last().x > last_column(cells.drop_last()) {
        cells.last().x as int
    } else {
        last_column(cells.drop_last())
    }
}

/// The largest row among the cells, or zero where there are none.
pub open spec fn last_row(cells: Seq<AsciiCell>) -> int
    decreases cells.len(),
{
    if cells.len() == 0 {
        0
    } else if cells.last().y > last_row(cells.drop_last()) {
        cells.last().y as int
    } else {
        last_row(cells.drop_last())
    }
}

/// Whether a cell of a picture drawn into `area` falls on the grid and
/// inside `area`.
pub open spec fn shows(cell: AsciiCell, area: Area) -> bool {
    &&& cell.x + area.x <= u16::MAX
    &&& cell.y + area.y <= u16::MAX
    &&& area.holds(cell.x + area.x, cell.y + area.y)
}

/// A cell of a picture drawn into `area`, at its place on the grid.
pub open spec fn placed(cell: AsciiCell, area: Area) -> AsciiCell {
    AsciiCell { x: (cell.x + area.x) as u16, y: (cell.y + area.y) as u16, ..cell }
}

/// No cell lies right of the last column or under the last row, and
/// where there are cells, one lies in the last column and one in the last
/// row.
pub proof fn lemma_last_column_and_row(cells: Seq<AsciiCell>)
    ensures
        forall|i: int| 0 <= i < cells.len() ==> (#[trigger] cells[i]).x <= last_column(cells),
        forall|i: int| 0 <= i < cells.len() ==> (#[trigger] cells[i]).y <= last_row(cells),
        cells.len() > 0 ==> exists|i: int|
            0 <= i < cells.len() && (#[trigger] cells[i]).x == last_column(cells),
        cells.len() > 0 ==> exists|i: int|
            0 <= i < cells.len() && (#[trigger] cells[i]).y == last_row(cells),
    decreases cells.len(),
{
    if cells.len() > 0 {
        let rest = cells.drop_last();
        let last = cells.len() - 1;
        lemma_last_column_and_row(rest);
        assert forall|i: int| 0 <= i < cells.len() implies (#[trigger] cells[i]).x <= last_column(
            cells,
        ) && cells[i].y <= last_row(cells) by {
            if i < last {
                assert(rest[i] == cells[i]);
            }
        }
        if rest.len() > 0 {
            let i = choose|i: int| 0 <= i < rest.len() && (#[trigger] rest[i]).x == last_column(rest);
            let j = choose|j: int| 0 <= j < rest.len() && (#[trigger] rest[j]).y == last_row(rest);
            assert(cells[i] == rest[i] && cells[j] == rest[j]);
        }
        assert(cells[last].x == last_column(cells) || (rest.len() > 0 && last_column(cells)
            == last_column(rest)));
        assert(cells[last].y == last_row(cells) || (rest.len() > 0 && last_row(cells) == last_row(
            rest,
        )));
    }
}

/// Whether two pictures, given as lines, have the same shape.
pub fn rows_same_shape(art: &Vec<Vec<char>>, colors: &Vec<Vec<char>>) -> (same: bool)
    ensures
        same == same_shape(rows_view(art@), rows_view(colors@)),
{
    if art.len() != colors.len() {
        return false;
    }
    let mut row: usize = 0;
    while row < art.len()
        invariant
            row <= art.len() == colors.len(),
            forall|r: int|
                0 <= r < row ==> (#[trigger] rows_view(art@)[r]).len() == rows_view(colors@)[r].len(),
        decreases art.len() - row,
    {
        if art[row].len() != colors[row].len() {
            assert(rows_view(art@)[row as int].len() != rows_view(colors@)[row as int].len());
            return false;
        }
        row += 1;
    }
    true
}

/// Whether a picture and the picture of its colours have the same shape,
/// so that the one can be coloured by the other.
pub fn can_paint(art: &str, color_map_str: &str) -> (same: bool)
    ensures
        same == same_shape(lines(art@), lines(color_map_str@)),
{
    let art_lines: Vec<Vec<char>> = split_lines(&chars_of(art));
    let color_lines: Vec<Vec<char>> = split_lines(&chars_of(color_map_str));
    rows_same_shape(&art_lines, &color_lines)
}

/// Reads a picture: one cell for each character of `art`, line by line,
/// in the colour that the character at the same place in `color_map_str`
/// stands for in `color_map`, or in `default_color` where it stands for
/// none. The palette is keyed by the code points of the characters. The
/// two pictures must have the same shape.
pub fn parse_ascii_art(
    art: String,
    color_map_str: String,
    color_map: &HashMap<u32, Color>,
    default_color: Color,
) -> (cells: Vec<AsciiCell>)
    requires
        same_shape(lines(art@), lines(color_map_str@)),
    ensures
        cells@ == painted(
            lines(art@),
            lines(color_map_str@),
            color_map@,
            default_color,
            lines(art@).len(),
        ),
{
    broadcast use vstd::std_specs::hash::group_hash_axioms;

    let art_lines: Vec<Vec<char>> = split_lines(&chars_of(art.as_str()));
    let color_lines: Vec<Vec<char>> = split_lines(&chars_of(color_map_str.as_str()));
    let ghost art_rows = lines(art@);
    let ghost color_rows = lines(color_map_str@);
    assert(rows_view(art_lines@).len() == art_lines@.len());
    assert(rows_view(color_lines@).len() == color_lines@.len());
    let mut pixels: Vec<AsciiCell> = Vec::new();
    let mut y: usize = 0;
    while y < art_lines.len()
        invariant
            y <= art_lines.len() == color_lines.len(),
            art_rows == rows_view(art_lines@),
            color_rows == rows_view(color_lines@),
            same_shape(art_rows, color_rows),
            pixels@ == painted(art_rows, color_rows, color_map@, default_color, y as nat),
        decreases art_lines.len() - y,
    {
        let art_row: &Vec<char> = &art_lines[y];
        let color_row: &Vec<char> = &color_lines[y];
        assert(art_rows[y as int] == art_row@ && color_rows[y as int] == color_row@);
        assert(art_row.len() == color_row.len());
        let ghost above = pixels@;
        let mut x: usize = 0;
        while x < art_row.len()
            invariant
                x <= art_row.len() == color_row.len(),
                y < art_lines.len() == art_rows.len() == color_rows.len(),
                art_rows[y as int] == art_row@,
                color_rows[y as int] == color_row@,
                pixels@ == above + row_cells(
                    art_rows,
                    color_rows,
                    color_map@,
                    default_color,
                    y,
                    x as nat,
                ),
            decreases art_row.len() - x,
        {
            let ch: char = art_row[x];
            let key: u32 = color_row[x] as u32;
            let color: Color = match color_map.get(&key) {
                Some(found) => *found,
                None => default_color,
            };
            assert(color == color_of(color_map@, default_color, color_row@[x as int])) by {
                assert(vstd::std_specs::hash::obeys_key_model::<u32>());
                assert(vstd::std_specs::hash::builds_valid_hashers::<std::hash::RandomState>());
            }
            let column: u16 = #[verifier::truncate] (x as u16);
            let line: u16 = #[verifier::truncate] (y as u16);
            let cell = AsciiCell { ch, x: column, y: line, color };
            proof {
                let row = row_cells(art_rows, color_rows, color_map@, default_color, y, (x + 1) as nat);
                assert(row[x as int] == cell);
            }
            pixels.push(cell);
            assert(pixels@ =~= above + row_cells(
                art_rows,
                color_rows,
                color_map@,
                default_color,
                y,
                (x + 1) as nat,
            ));
            x += 1;
        }
        y += 1;
    }
    pixels
}

/// The cells of a picture.
pub struct AsciiCells {
    pub cells: Vec<AsciiCell>,
}

impl AsciiCells {
    /// The picture made of the given cells.
    pub fn new(cells: Vec<AsciiCell>) -> (collection: Self)
        ensures
            collection.cells == cells,
    {
        Self { cells }
    }

    /// Reads a picture; see `parse_ascii_art`.
    pub fn from(
        art: String,
        color_map_str: String,
        color_map: &HashMap<u32, Color>,
        default_color: Color,
    ) -> (collection: Self)
        requires
            same_shape(lines(art@), lines(color_map_str@)),
        ensures
            collection.cells@ == painted(
                lines(art@),
                lines(color_map_str@),
                color_map@,
                default_color,
                lines(art@).len(),
            ),
    {
        Self { cells: parse_ascii_art(art, color_map_str, color_map, default_color) }
    }

    /// The columns the picture takes: one more than its last column, as far
    /// as that fits in sixteen bits.
    pub fn get_width(&self) -> (width: u16)
        ensures
            width == capped16(last_column(self.cells@) + 1),
    {
        let mut most: u16 = 0;
        let mut i: usize = 0;
        assert(self.cells@.take(0) =~= Seq::<AsciiCell>::empty());
        while i < self.cells.len()
            invariant
                i <= self.cells.len(),
                most == last_column(self.cells@.take(i as int)),
            decreases self.cells.len() - i,
        {
            proof {
                let upto = self.cells@.take(i + 1);
                assert(upto.drop_last() =~= self.cells@.take(i as int));
                assert(upto.last() == self.cells@[i as int]);
            }
            if self.cells[i].x > most {
                most = self.cells[i].x;
            }
            i += 1;
        }
        assert(self.cells@.take(self.cells.len() as int) =~= self.cells@);
        most.saturating_add(1)
    }

    /// The rows the picture takes: one more than its last row, as far as
    /// that fits in sixteen bits.
    pub fn get_height(&self) -> (height: u16)
        ensures
            height == capped16(last_row(self.cells@) + 1),
    {
        let mut most: u16 = 0;
        let mut i: usize = 0;
        assert(self.cells@.take(0) =~= Seq::<AsciiCell>::empty());
        while i < self.cells.len()
            invariant
                i <= self.cells.len(),
                most == last_row(self.cells@.take(i as int)),
            decreases self.cells.len() - i,
        {
            proof {
                let upto = self.cells@.take(i + 1);
                assert(upto.drop_last() =~= self.cells@.take(i as int));
                assert(upto.last() == self.cells@[i as int]);
            }
            if self.cells[i].y > most {
                most = self.cells[i].y;
            }
            i += 1;
        }
        assert(self.cells@.take(self.cells.len() as int) =~= self.cells@);
        most.saturating_add(1)
    }

    /// A rectangle of the size of the picture, centred in `area`.
    pub fn get_centered_area(&self, area: Area) -> (centered: Area)
        ensures
            centered == area.centered(
                capped16(last_column(self.cells@) + 1),
                capped16(last_row(self.cells@) + 1),
            ),
    {
        let width: u16 = self.get_width();
        let height: u16 = self.get_height();
        area.get_centered_area(width, height)
    }
}

/// A picture that can be drawn.
pub struct AsciiArtWidget {
    collection: AsciiCells,
}

impl AsciiArtWidget {
    /// The cells of the picture.
    pub closed spec fn cells(self) -> Seq<AsciiCell> {
        self.collection.cells@
    }

    /// The picture made ready to be drawn.
    pub fn new(collection: AsciiCells) -> (widget: Self)
        ensures
            widget.cells() == collection.cells@,
    {
        Self { collection }
    }

    /// What drawing the picture into `area` puts on the grid: its cells,
    /// with the corner of `area` as their origin, but for those that fall
    /// outside `area`; in the order of the picture.
    pub fn render(&self, area: Area) -> (drawn: Vec<AsciiCell>)
        ensures
            drawn@ == self.cells().filter(|cell: AsciiCell| shows(cell, area)).map_values(
                |cell: AsciiCell| placed(cell, area),
            ),
    {
        let ghost visible = |cell: AsciiCell| shows(cell, area);
        let ghost place = |cell: AsciiCell| placed(cell, area);
        let mut drawn: Vec<AsciiCell> = Vec::new();
        let mut i: usize = 0;
        let cells: &Vec<AsciiCell> = &self.collection.cells;
        assert(cells@.take(0) =~= Seq::<AsciiCell>::empty());
        assert(cells@.take(0).filter(visible) =~= Seq::<AsciiCell>::empty()) by {
            reveal(Seq::filter);
        }
        while i < cells.len()
            invariant
                i <= cells.len(),
                visible == |cell: AsciiCell| shows(cell, area),
                place == |cell: AsciiCell| placed(cell, area),
                drawn@ == cells@.take(i as int).filter(visible).map_values(place),
            decreases cells.len() - i,
        {
            let cell: AsciiCell = cells[i];
            proof {
                reveal(Seq::filter);
                let upto = cells@.take(i + 1);
                assert(upto.drop_last() =~= cells@.take(i as int));
                assert(upto.last() == cell);
            }
            let x: u32 = cell.x as u32 + area.x as u32;
            let y: u32 = cell.y as u32 + area.y as u32;
            if x <= u16::MAX as u32 && y <= u16::MAX as u32 && area.contains(x as u16, y as u16) {
                drawn.push(AsciiCell { ch: cell.ch, x: x as u16, y: y as u16, color: cell.color });
                assert(drawn@ =~= cells@.take(i + 1).filter(visible).map_values(place));
            } else {
                assert(!shows(cell, area));
                assert(drawn@ =~= cells@.take(i + 1).filter(visible).map_values(place));
            }
            i += 1;
        }
        assert(cells@.take(cells.len() as int) =~= cells@);
        drawn
    }
}

} // verus!
