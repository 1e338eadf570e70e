//! Drawing a sprite pixel by pixel: the states that the framebuffer passes
//! through while `Dxyn` walks over the rows and columns of its sprite, and
//! why the walk ends in the state that the instruction is defined to give.

use vstd::prelude::*;
use crate::op_code::OpCode;
use crate::state::MachineState;

verus! {

impl MachineState {
    /// Pixel `(x, y)` lies under a set bit of the sprite, in one of the
    /// first `rows` rows of the sprite or in one of the first `columns`
    /// columns of the row after them.
    pub open spec fn sprite_pixel_within(
        self,
        op: OpCode,
        rows: int,
        columns: int,
        x: int,
        y: int,
    ) -> bool {
        let column = x - (self.vx(op) % 64);
        let row = y - (self.vy(op) % 32);
        self.sprite_pixel(op, x, y) && (row < rows || (row == rows && column < columns))
    }

    /// The part of the sprite that `sprite_pixel_within` describes has a set
    /// bit on a pixel of the framebuffer that is on.
    pub open spec fn collides_within(self, op: OpCode, rows: int, columns: int) -> bool {
        exists|x: int, y: int|
            0 <= x < 64 && 0 <= y < 32 && self.display[x][y]
                && #[trigger] self.sprite_pixel_within(op, rows, columns, x, y)
    }

    /// The state with the part of the sprite drawn that
    /// `sprite_pixel_within` describes.
    pub open spec fn drawn_within(self, op: OpCode, rows: int, columns: int) -> MachineState {
        MachineState {
            display: Seq::new(
                64,
                |x: int|
                    Seq::new(
                        32,
                        |y: int|
                            self.display[x][y] != self.sprite_pixel_within(op, rows, columns, x, y),
                    ),
            ),
            ..self
        }
    }

    /// Before the first pixel nothing is drawn and nothing collides.
    pub proof fn lemma_draw_start(self, op: OpCode)
        requires
            self.wf(),
        ensures
            self.drawn_within(op, 0, 0) == self,
            !self.collides_within(op, 0, 0),
    {
        assert(self.drawn_within(op, 0, 0) =~~= self);
    }

    /// Drawing the pixel in column `column` of row `row` of the sprite
    /// inverts the pixel under it if the bit is set, and collides if that
    /// pixel was on.
    pub proof fn lemma_draw_pixel(self, op: OpCode, row: int, column: int)
        requires
            self.wf(),
            0 <= row < op.n,
            0 <= column < 8,
            (self.vx(op) % 64) + column < 64,
            (self.vy(op) % 32) + row < 32,
        ensures
            ({
                let x = (self.vx(op) % 64) + column;
                let y = (self.vy(op) % 32) + row;
                let before = self.drawn_within(op, row, column);
                let bit = self.sprite_pixel(op, x, y);
                &&& before.display[x][y] == self.display[x][y]
                &&& self.drawn_within(op, row, column + 1) == (MachineState {
                    display: before.display.update(
                        x,
                        before.display[x].update(y, before.display[x][y] != bit),
                    ),
                    ..before
                })
                &&& self.collides_within(op, row, column + 1) == (self.collides_within(
                    op,
                    row,
                    column,
                ) || (self.display[x][y] && bit))
            }),
    {
        let x = (self.vx(op) % 64) + column;
        let y = (self.vy(op) % 32) + row;
        let before = self.drawn_within(op, row, column);
        let bit = self.sprite_pixel(op, x, y);
        let after = MachineState {
            display: before.display.update(
                x,
                before.display[x].update(y, before.display[x][y] != bit),
            ),
            ..before
        };
        assert(self.drawn_within(op, row, column + 1) =~~= after);
        if self.collides_within(op, row, column + 1) {
            let (cx, cy) = choose|cx: int, cy: int|
                0 <= cx < 64 && 0 <= cy < 32 && self.display[cx][cy]
                    && #[trigger] self.sprite_pixel_within(op, row, column + 1, cx, cy);
            if cx == x && cy == y {
            } else {
                assert(self.sprite_pixel_within(op, row, column, cx, cy));
            }
        }
        if self.collides_within(op, row, column) {
            let (cx, cy) = choose|cx: int, cy: int|
                0 <= cx < 64 && 0 <= cy < 32 && self.display[cx][cy]
                    && #[trigger] self.sprite_pixel_within(op, row, column, cx, cy);
            assert(self.sprite_pixel_within(op, row, column + 1, cx, cy));
        }
        if self.display[x][y] && bit {
            assert(self.sprite_pixel_within(op, row, column + 1, x, y));
        }
    }

    /// Once the columns of row `row` that are on the screen are drawn, the
    /// row is drawn.
    pub proof fn lemma_draw_row_end(self, op: OpCode, row: int, column: int)
        requires
            self.wf(),
            0 <= row,
            0 <= column <= 8,
            column == 8 || (self.vx(op) % 64) + column >= 64,
        ensures
            self.drawn_within(op, row + 1, 0) == self.drawn_within(op, row, column),
            self.collides_within(op, row + 1, 0) == self.collides_within(op, row, column),
    {
        assert(self.drawn_within(op, row + 1, 0) =~~= self.drawn_within(op, row, column));
        if self.collides_within(op, row + 1, 0) {
            let (cx, cy) = choose|cx: int, cy: int|
                0 <= cx < 64 && 0 <= cy < 32 && self.display[cx][cy]
                    && #[trigger] self.sprite_pixel_within(op, row + 1, 0, cx, cy);
            assert(self.sprite_pixel_within(op, row, column, cx, cy));
        }
        if self.collides_within(op, row, column) {
            let (cx, cy) = choose|cx: int, cy: int|
                0 <= cx < 64 && 0 <= cy < 32 && self.display[cx][cy]
                    && #[trigger] self.sprite_pixel_within(op, row, column, cx, cy);
            assert(self.sprite_pixel_within(op, row + 1, 0, cx, cy));
        }
    }

    /// Once the rows of the sprite that are on the screen are drawn, the
    /// sprite is drawn.
    pub proof fn lemma_draw_end(self, op: OpCode, row: int)
        requires
            self.wf(),
            0 <= row <= op.n,
            row == op.n || (self.vy(op) % 32) + row >= 32,
        ensures
            self.drawn_within(op, row, 0).set_flag(self.collides_within(op, row, 0)) == self.draw(
                op,
            ),
    {
        assert(self.drawn_within(op, row, 0).display =~~= self.draw(op).display);
        if self.collides(op) {
            let (cx, cy) = choose|cx: int, cy: int|
                0 <= cx < 64 && 0 <= cy < 32 && self.display[cx][cy]
                    && #[trigger] self.sprite_pixel(op, cx, cy);
            assert(self.sprite_pixel_within(op, row, 0, cx, cy));
        }
        if self.collides_within(op, row, 0) {
            let (cx, cy) = choose|cx: int, cy: int|
                0 <= cx < 64 && 0 <= cy < 32 && self.display[cx][cy]
                    && #[trigger] self.sprite_pixel_within(op, row, 0, cx, cy);
            assert(self.sprite_pixel(op, cx, cy));
        }
    }
}

} // verus!
