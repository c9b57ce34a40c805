//! What a renderer needs beyond the memories themselves: which glyph a
//! character code stands for, which cells of a line are in the window, which
//! pixels of a glyph are lit, and where on the screen they lie.
use crate::graphics::GraphicData;
use crate::graphics::Point;
use crate::graphics::Snapshot;
use crate::graphics::CUSTOM_GLYPHS;
use crate::graphics::LINE_CELLS;
use vstd::prelude::*;

verus! {

/// The first character code that stands for a glyph of the ROM.
pub const FIRST_ROM_CODE: u8 = 32;

/// Where the rows of a character's glyph are found.
#[derive(Clone, Copy, Debug, PartialEq, Eq, Structural)]
pub enum Glyph {
    /// A slot of the glyph memory, from 0 to 7.
    Custom { slot: u8 },
    /// A slot of the glyph ROM, from 0 to 223.
    Rom { slot: u8 },
}

/// A character code that stands for no glyph.
#[derive(Clone, Copy, Debug, PartialEq, Eq, Structural)]
pub struct ResolutionError {
    pub code: u8,
}

/// The glyph that a character code stands for: the codes below 8 stand for
/// the glyphs of the glyph memory, the codes from 32 on for the glyphs of
/// the ROM in their order, and the codes in between for nothing.
pub open spec fn spec_resolve(code: u8) -> Result<Glyph, ResolutionError> {
    if code < CUSTOM_GLYPHS {
        Ok(Glyph::Custom { slot: code })
    } else if code >= FIRST_ROM_CODE {
        Ok(Glyph::Rom { slot: (code - FIRST_ROM_CODE) as u8 })
    } else {
        Err(ResolutionError { code })
    }
}

#[verifier::when_used_as_spec(spec_resolve)]
pub fn resolve(code: u8) -> (r: Result<Glyph, ResolutionError>)
    ensures
        r == spec_resolve(code),
        r is Err <==> CUSTOM_GLYPHS <= code < FIRST_ROM_CODE,
{
    if code < CUSTOM_GLYPHS {
        Ok(Glyph::Custom { slot: code })
    } else if code >= FIRST_ROM_CODE {
        Ok(Glyph::Rom { slot: code - FIRST_ROM_CODE })
    } else {
        Err(ResolutionError { code })
    }
}

/// Whether the pixel in column `column` of a glyph row is lit. A row holds
/// its five pixels in its low five bits, the leftmost in the highest of them.
pub open spec fn spec_pixel_lit(row: u8, column: u8) -> bool {
    row & (1u8 << ((4 - column) as u8)) != 0
}

#[verifier::when_used_as_spec(spec_pixel_lit)]
pub fn pixel_lit(row: u8, column: u8) -> (r: bool)
    requires
        column < 5,
    ensures
        r == spec_pixel_lit(row, column),
{
    (row & (1u8 << (4 - column))) != 0
}

impl Snapshot {
    /// Whether `glyph` names a slot that its table has. The ROM holds the
    /// glyphs of the codes from 32 to 127 only.
    pub open spec fn has_glyph(self, glyph: Glyph) -> bool {
        match glyph {
            Glyph::Custom { slot } => slot < self.cgram.len(),
            Glyph::Rom { slot } => slot < self.cgrom.len(),
        }
    }

    /// The rows of `glyph`, from top to bottom.
    pub open spec fn glyph_rows(self, glyph: Glyph) -> Seq<u8> {
        match glyph {
            Glyph::Custom { slot } => self.cgram[slot as int],
            Glyph::Rom { slot } => self.cgrom[slot as int],
        }
    }

    /// Whether the character code `code` stands for a glyph that is there.
    pub open spec fn drawable(self, code: u8) -> bool {
        spec_resolve(code) is Ok && self.has_glyph(spec_resolve(code)->Ok_0)
    }

    /// `glyphs` holds, code by code, the rows of the glyphs that `codes`
    /// stand for.
    pub open spec fn shows(self, codes: Seq<u8>, glyphs: Seq<Seq<u8>>) -> bool {
        &&& glyphs.len() == codes.len()
        &&& forall|i: int|
            0 <= i < codes.len() ==> self.drawable(#[trigger] codes[i]) && glyphs[i]
                == self.glyph_rows(spec_resolve(codes[i])->Ok_0)
    }

    /// The code in place `i` of `codes` is the first that stands for no glyph.
    pub open spec fn fails_at(self, codes: Seq<u8>, i: int) -> bool {
        &&& 0 <= i < codes.len()
        &&& !self.drawable(codes[i])
        &&& forall|j: int| 0 <= j < i ==> self.drawable(#[trigger] codes[j])
    }

    /// The `width` cells of line `line` that are in the window: those from
    /// the window's offset on, going round to the start of the line at its
    /// end.
    pub open spec fn window(self, line: int, width: nat) -> Seq<u8> {
        Seq::new(width, |i: int| self.ddram[line][(self.offset + i) % (LINE_CELLS as int)])
    }
}

impl GraphicData {
    /// The rows of the glyph that is drawn for the character code `code`.
    pub fn glyph(&self, code: u8) -> (r: Result<&[u8; 8], ResolutionError>)
        ensures
            r is Ok <==> self@.drawable(code),
            r is Ok ==> r->Ok_0@ == self@.glyph_rows(spec_resolve(code)->Ok_0),
            r is Err ==> r->Err_0 == (ResolutionError { code }),
    {
        match resolve(code) {
            Ok(Glyph::Custom { slot }) => Ok(&self.cgram[slot as usize]),
            Ok(Glyph::Rom { slot }) => {
                if (slot as usize) < self.cgrom.len() {
                    Ok(&self.cgrom[slot as usize])
                } else {
                    Err(ResolutionError { code })
                }
            },
            Err(e) => Err(e),
        }
    }

    /// The `width` character codes of line `line` that are in the window.
    pub fn visible(&self, line: usize, width: usize) -> (r: Vec<u8>)
        requires
            line < 2,
            self.offset < LINE_CELLS,
        ensures
            r@ == self@.window(line as int, width as nat),
    {
        let mut r: Vec<u8> = Vec::new();
        let mut column: usize = self.offset as usize;
        let mut i: usize = 0;
        while i < width
            invariant
                line < 2,
                self.offset < LINE_CELLS,
                i <= width,
                column == (self.offset + i) % (LINE_CELLS as int),
                r@ == self@.window(line as int, i as nat),
            decreases width - i,
        {
            r.push(self.ddram[line][column]);
            column = if column + 1 == LINE_CELLS as usize {
                0
            } else {
                column + 1
            };
            i = i + 1;
            assert(r@ =~= self@.window(line as int, i as nat));
        }
        r
    }

    /// The glyphs of the `width` cells of line `line` that are in the window,
    /// each as its eight rows, or the first character code among them that
    /// stands for no glyph.
    pub fn render_line(&self, line: usize, width: usize) -> (r: Result<
        Vec<[u8; 8]>,
        ResolutionError,
    >)
        requires
            line < 2,
            self.offset < LINE_CELLS,
        ensures
            match r {
                Ok(glyphs) => self@.shows(
                    self@.window(line as int, width as nat),
                    glyphs.deep_view(),
                ),
                Err(e) => exists|i: int| #[trigger]
                    self@.fails_at(self@.window(line as int, width as nat), i) && e == (
                    ResolutionError { code: self@.window(line as int, width as nat)[i] }),
            },
    {
        let codes = self.visible(line, width);
        let mut glyphs: Vec<[u8; 8]> = Vec::new();
        let mut i: usize = 0;
        while i < width
            invariant
                i <= width,
                codes@ == self@.window(line as int, width as nat),
                self@.shows(codes@.take(i as int), glyphs.deep_view()),
            decreases width - i,
        {
            match self.glyph(codes[i]) {
                Ok(rows) => {
                    glyphs.push(*rows);
                },
                Err(e) => {
                    assert(codes@.take(i as int) =~= codes@.subrange(0, i as int));
                    assert forall|j: int| 0 <= j < i implies self@.drawable(
                        #[trigger] codes@[j],
                    ) by {
                        assert(codes@.take(i as int)[j] == codes@[j]);
                    }
                    assert(self@.fails_at(codes@, i as int));
                    return Err(e);
                },
            }
            i = i + 1;
            assert forall|k: int| 0 <= k < i implies self@.drawable(
                #[trigger] codes@.take(i as int)[k],
            ) && glyphs.deep_view()[k] == self@.glyph_rows(
                spec_resolve(codes@.take(i as int)[k])->Ok_0,
            ) by {
                if k < i - 1 {
                    assert(codes@.take(i - 1)[k] == codes@[k]);
                }
            }
        }
        assert(codes@.take(width as int) =~= codes@);
        Ok(glyphs)
    }
}

/// The width of the window that the screen is drawn in, in pixels.
pub const SCREEN_WIDTH: u32 = 483;

/// The height of the window that the screen is drawn in, in pixels.
pub const SCREEN_HEIGHT: u32 = 206;

/// The number of cells of each line that are drawn.
pub const VISIBLE_CELLS: usize = 16;

/// The side of the square that is drawn for a lit pixel.
pub const PIXEL_FILL: usize = 3;

/// The gap between two pixels of a glyph.
pub const PIXEL_SPACING: usize = 1;

/// The gap between two cells, and between the two lines.
pub const CHAR_SPACING: usize = 3;

/// The distance from one pixel of a glyph to the next.
pub open spec fn pixel_size() -> int {
    PIXEL_FILL + PIXEL_SPACING
}

/// The distance from one cell to the next, along the line and from line to
/// line: five pixels by eight, and the gap.
pub open spec fn char_size() -> (int, int) {
    (5 * pixel_size() + CHAR_SPACING, 8 * pixel_size() + CHAR_SPACING)
}

/// The top left corner of the first cell of the first line.
pub fn screen_origin() -> (r: Point)
    ensures
        r == (Point { x: 60, y: 66 }),
{
    Point { x: 60, y: 66 }
}

/// The top left corner of the cell that is drawn in place `cell` of line
/// `line`, on a screen whose first cell starts at `origin`.
pub fn cell_origin(origin: Point, line: usize, cell: usize) -> (r: Point)
    requires
        origin.x + cell * char_size().0 <= usize::MAX,
        origin.y + line * char_size().1 <= usize::MAX,
    ensures
        r.x == origin.x + cell * char_size().0,
        r.y == origin.y + line * char_size().1,
{
    let width: usize = (PIXEL_FILL + PIXEL_SPACING) * 5 + CHAR_SPACING;
    let height: usize = (PIXEL_FILL + PIXEL_SPACING) * 8 + CHAR_SPACING;
    Point { x: origin.x + cell * width, y: origin.y + line * height }
}

/// The top left corner of the square for the pixel in column `column` of
/// row `row` of a glyph whose cell starts at `cell`.
pub fn pixel_origin(cell: Point, column: usize, row: usize) -> (r: Point)
    requires
        cell.x + column * pixel_size() <= usize::MAX,
        cell.y + row * pixel_size() <= usize::MAX,
    ensures
        r.x == cell.x + column * pixel_size(),
        r.y == cell.y + row * pixel_size(),
{
    let size: usize = PIXEL_FILL + PIXEL_SPACING;
    Point { x: cell.x + column * size, y: cell.y + row * size }
}

} // verus!
