//! The playfield: its measures, the objects on it, and the grid of
//! characters that shows them.

use crate::binary32::Binary32;
use crate::wire::overwrite;
use vstd::prelude::*;
use vstd::string::StringSliceAdditionalSpecFns;

verus! {

pub const X_MINIMUM: u16 = 0;

pub const Y_MINIMUM: u16 = 0;

pub const X_MAXIMUM: u16 = 79;

pub const Y_MAXIMUM: u16 = 24;

/// The length of one tick of the game loop.
pub const GAME_TICK_MILLISECONDS: u64 = 15;

/// The cells of the field: 24 rows of 79.
pub const FIELD_SIZE: u16 = 1896;

/// `FIELD_SIZE` as a length.
pub const FIELD_LENGTH: usize = 1896;

/// An empty cell: a space.
pub const PIXEL_EMPTY: u8 = 32;

/// The top and bottom border: `-`.
pub const PIXEL_WALL: u8 = 45;

/// The centre line: `'`.
pub const PIXEL_NET: u8 = 39;

/// The left and right border: `|`.
pub const PIXEL_SIDE: u8 = 124;

/// The ball or a paddle. It covers the cells of column `x_position` from row
/// `y_position` down to, but not including, row `y_position + size`.
#[derive(Debug, Clone, Copy, PartialEq, Eq, Structural)]
pub struct GameObject {
    pub x_position: u16,
    pub y_position: u16,
    pub size: u16,
    pub pixel: u8,
    /// Columns per tick.
    pub x_movement: Binary32,
    /// Rows per tick.
    pub y_movement: Binary32,
    /// The column with its fraction.
    pub x_subpixel: Binary32,
    /// The row with its fraction.
    pub y_subpixel: Binary32,
}

impl GameObject {
    /// An object at rest, exactly on the cell `(x, y)`.
    pub open spec fn at_rest(x: u16, y: u16, size: u16, pixel: u8) -> GameObject {
        GameObject {
            x_position: x,
            y_position: y,
            size,
            pixel,
            x_movement: Binary32 { bits: 0 },
            y_movement: Binary32 { bits: 0 },
            x_subpixel: Binary32::of_u16(x),
            y_subpixel: Binary32::of_u16(y),
        }
    }

    /// The first row that the object covers.
    pub fn get_ymin(self: &Self) -> (row: u16)
        ensures
            row == self.y_position,
    {
        self.y_position
    }

    /// The row below the last one that the object covers.
    pub fn get_ymax(self: &Self) -> (row: u16)
        requires
            self.y_position + self.size <= u16::MAX,
        ensures
            row == self.y_position + self.size,
    {
        self.y_position + self.size
    }

    /// An object at rest, exactly on the cell `(x, y)`.
    pub fn new(x: u16, y: u16, size: u16, pixel: u8) -> (object: Self)
        ensures
            object == Self::at_rest(x, y, size, pixel),
    {
        Self {
            x_position: x,
            y_position: y,
            size,
            pixel,
            x_movement: Binary32::from_bits(0),
            y_movement: Binary32::from_bits(0),
            x_subpixel: Binary32::from_u16(x),
            y_subpixel: Binary32::from_u16(y),
        }
    }
}

/// What an empty field shows in cell `i`: the borders, the centre line, and
/// spaces.
pub open spec fn border_cell(i: int) -> u8 {
    let x = i % 79;
    let y = i / 79;
    if y == 0 || y == 23 {
        PIXEL_WALL
    } else if x == 39 {
        PIXEL_NET
    } else if x == 0 || x == 78 {
        PIXEL_SIDE
    } else {
        PIXEL_EMPTY
    }
}

/// The empty field.
pub open spec fn cleared() -> Seq<u8> {
    Seq::new(FIELD_LENGTH as nat, |i: int| border_cell(i))
}

/// The index of the cell in column `x` of row `y`.
pub open spec fn cell_index(x: int, y: int) -> int {
    x + y * 79
}

/// Whether the object covers cell `i`.
pub open spec fn covers(object: GameObject, i: int) -> bool {
    covers_above(object, i, object.y_position + object.size)
}

/// Whether the object covers cell `i` in a row above `row`.
pub open spec fn covers_above(object: GameObject, i: int, row: int) -> bool {
    let above = i - object.x_position;
    above >= 0 && above % 79 == 0 && object.y_position <= above / 79 < row
}

/// The cells with the object drawn over them.
pub open spec fn drawn(cells: Seq<u8>, object: GameObject) -> Seq<u8> {
    Seq::new(
        cells.len(),
        |i: int|
            if covers(object, i) {
                object.pixel
            } else {
                cells[i]
            },
    )
}

/// The grid of characters, row after row.
pub struct Field {
    pub field_data: [u8; FIELD_LENGTH],
}

impl View for Field {
    type V = Seq<u8>;

    open spec fn view(&self) -> Seq<u8> {
        self.field_data@
    }
}

impl Field {
    /// A field of spaces.
    pub fn new() -> (field: Self)
        ensures
            field@ == Seq::new(FIELD_LENGTH as nat, |i: int| PIXEL_EMPTY),
    {
        let field = Self { field_data: [PIXEL_EMPTY;FIELD_LENGTH] };
        assert(field@ =~= Seq::new(FIELD_LENGTH as nat, |i: int| PIXEL_EMPTY));
        field
    }

    /// Wipes the field: borders, centre line and spaces.
    pub fn clear(self: &mut Self)
        ensures
            final(self)@ == cleared(),
    {
        let mut i: usize = 0;
        while i < FIELD_LENGTH
            invariant
                i <= FIELD_LENGTH,
                forall|k: int| 0 <= k < i ==> self.field_data@[k] == border_cell(k),
            decreases FIELD_LENGTH - i,
        {
            let x: usize = i % 79;
            let y: usize = i / 79;
            let c: u8;
            if y == 0 || y == 23 {
                c = PIXEL_WALL;
            } else if x == 39 {
                c = PIXEL_NET;
            } else if x == 0 || x == 78 {
                c = PIXEL_SIDE;
            } else {
                c = PIXEL_EMPTY;
            }
            self.field_data[i] = c;
            i += 1;
        }
        assert(self@ =~= cleared());
    }

    /// The index of the cell in column `x` of row `y`.
    pub fn get_idx(self: &Self, x: &u16, y: &u16) -> (index: usize)
        ensures
            index == cell_index(*x as int, *y as int),
    {
        *x as usize + *y as usize * 79
    }

    /// Draws the object; what of it lies outside the field is left out.
    pub fn draw(self: &mut Self, game: &GameObject)
        ensures
            final(self)@ == drawn(old(self)@, *game),
    {
        let x: usize = game.x_position as usize;
        let end: u32 = game.y_position as u32 + game.size as u32;
        let mut y: u32 = game.y_position as u32;
        while y < end
            invariant
                game.y_position <= y <= end,
                end == game.y_position + game.size,
                x == game.x_position,
                forall|i: int|
                    0 <= i < FIELD_LENGTH ==> self.field_data@[i] == if covers_above(
                        *game,
                        i,
                        y as int,
                    ) {
                        game.pixel
                    } else {
                        old(self).field_data@[i]
                    },
            decreases end - y,
        {
            let index: usize = x + y as usize * 79;
            if index < FIELD_LENGTH {
                self.field_data[index] = game.pixel;
            }
            assert forall|i: int| 0 <= i < FIELD_LENGTH implies self.field_data@[i]
                == if covers_above(*game, i, y + 1) {
                game.pixel
            } else {
                old(self).field_data@[i]
            } by {
                let above = i - game.x_position;
                if above >= 0 && above % 79 == 0 && above / 79 == y {
                    assert(i == index);
                }
                if i == index {
                    assert(above == y * 79);
                }
            }
            y += 1;
        }
        assert(self@ =~= drawn(old(self)@, *game));
    }

    /// Writes bytes into the row `y`, from column `x` on.
    pub fn write_bytes(self: &mut Self, x: u16, y: u16, bytes: &[u8])
        requires
            cell_index(x as int, y as int) + bytes@.len() <= FIELD_LENGTH,
        ensures
            final(self)@ == overwrite(old(self)@, cell_index(x as int, y as int), bytes@),
    {
        let i: usize = self.get_idx(&x, &y);
        let mut j: usize = 0;
        while j < bytes.len()
            invariant
                j <= bytes@.len(),
                i + bytes@.len() <= FIELD_LENGTH,
                self@ == overwrite(old(self)@, i as int, bytes@.subrange(0, j as int)),
            decreases bytes@.len() - j,
        {
            self.field_data[i + j] = bytes[j];
            assert(self@ =~= overwrite(old(self)@, i as int, bytes@.subrange(0, j + 1)));
            j += 1;
        }
        assert(bytes@.subrange(0, bytes@.len() as int) == bytes@);
    }

    /// Writes a text into the row `y`, from column `x` on.
    pub fn write(self: &mut Self, x: u16, y: u16, text: &str)
        requires
            cell_index(x as int, y as int) + text.spec_bytes().len() <= FIELD_LENGTH,
        ensures
            final(self)@ == overwrite(
                old(self)@,
                cell_index(x as int, y as int),
                text.spec_bytes(),
            ),
    {
        self.write_bytes(x, y, text.as_bytes());
    }
}

} // verus!
