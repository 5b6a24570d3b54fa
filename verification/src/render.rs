//! Byte-exact construction of everything the game writes to the
//! terminal: clear/home, cursor positioning, the border, the snake and
//! food glyphs, and the game-over screen. Every function returns the
//! bytes; writing them is the caller's affair.

use vstd::prelude::*;
use crate::digits::dec_digits;
use crate::digits::lemma_usize_digits_len;
use crate::digits::to_decimal;
use crate::game::Food;
use crate::game::Znake;
use crate::GAME_HEIGHT;
use crate::GAME_WIDTH;

verus! {

/// The clear-and-home control sequence `ESC [ 2 J ESC [ H`.
pub open spec fn clear_bytes() -> Seq<u8> {
    seq![27u8, 91u8, 50u8, 74u8, 27u8, 91u8, 72u8]
}

/// The cursor-positioning sequence `ESC [ row ; col H`, row and
/// column as decimal text with no leading zeros.
pub open spec fn cursor_bytes(col: nat, row: nat) -> Seq<u8> {
    seq![27u8, 91u8] + dec_digits(row) + seq![59u8] + dec_digits(col) + seq![72u8]
}

/// `n` copies of the byte `b`.
pub open spec fn repeat_byte(b: u8, n: nat) -> Seq<u8> {
    Seq::new(n, |i: int| b)
}

/// A horizontal border edge: `+`, `GAME_WIDTH` dashes, `+`, CR LF.
pub open spec fn h_edge_bytes() -> Seq<u8> {
    seq![43u8] + repeat_byte(45u8, GAME_WIDTH as nat) + seq![43u8, 13u8, 10u8]
}

/// One interior border row: `|`, `GAME_WIDTH` blanks, `|`, CR LF.
pub open spec fn mid_row_bytes() -> Seq<u8> {
    seq![124u8] + repeat_byte(32u8, GAME_WIDTH as nat) + seq![124u8, 13u8, 10u8]
}

/// `n` interior border rows, concatenated.
pub open spec fn mid_rows_bytes(n: nat) -> Seq<u8>
    decreases n,
{
    if n == 0 {
        Seq::empty()
    } else {
        mid_rows_bytes((n - 1) as nat) + mid_row_bytes()
    }
}

/// The whole border: top edge, `GAME_HEIGHT` interior rows, bottom
/// edge.
pub open spec fn border_bytes() -> Seq<u8> {
    h_edge_bytes() + mid_rows_bytes(GAME_HEIGHT as nat) + h_edge_bytes()
}

/// The glyph for segment `i`: `@` for the head, `o` for the body.
pub open spec fn seg_sym(i: int) -> u8 {
    if i == 0 {
        64u8
    } else {
        111u8
    }
}

/// The draw bytes for the first `n` segments: a cursor move and a
/// glyph per segment, in body order.
pub open spec fn snake_bytes_upto(segs: Seq<(usize, usize)>, n: int) -> Seq<u8>
    decreases n,
{
    if n <= 0 {
        Seq::empty()
    } else {
        snake_bytes_upto(segs, n - 1) + cursor_bytes(segs[n - 1].0 as nat, segs[n - 1].1 as nat)
            + seq![seg_sym(n - 1)]
    }
}

/// The draw bytes for a whole snake body.
pub open spec fn snake_bytes(segs: Seq<(usize, usize)>) -> Seq<u8> {
    snake_bytes_upto(segs, segs.len() as int)
}

/// The draw bytes for the food: a cursor move and `*`.
pub open spec fn food_bytes(f: Food) -> Seq<u8> {
    cursor_bytes(f.x as nat, f.y as nat) + seq![42u8]
}

/// `GAME OVER!` as ASCII bytes.
pub open spec fn text_game_over() -> Seq<u8> {
    seq![71u8, 65u8, 77u8, 69u8, 32u8, 79u8, 86u8, 69u8, 82u8, 33u8]
}

/// `Score: ` as ASCII bytes.
pub open spec fn text_score_prefix() -> Seq<u8> {
    seq![83u8, 99u8, 111u8, 114u8, 101u8, 58u8, 32u8]
}

/// `Press ENTER to retry` as ASCII bytes.
pub open spec fn text_retry() -> Seq<u8> {
    seq![
        80u8,
        114u8,
        101u8,
        115u8,
        115u8,
        32u8,
        69u8,
        78u8,
        84u8,
        69u8,
        82u8,
        32u8,
        116u8,
        111u8,
        32u8,
        114u8,
        101u8,
        116u8,
        114u8,
        121u8,
    ]
}

/// `Press ctrl+c to exit` as ASCII bytes.
pub open spec fn text_exit() -> Seq<u8> {
    seq![
        80u8,
        114u8,
        101u8,
        115u8,
        115u8,
        32u8,
        99u8,
        116u8,
        114u8,
        108u8,
        43u8,
        99u8,
        32u8,
        116u8,
        111u8,
        32u8,
        101u8,
        120u8,
        105u8,
        116u8,
    ]
}

/// The game-over screen: title, score line, and the two hint lines,
/// each centred on the board with the layout of the original screen.
pub open spec fn game_over_bytes(score: usize) -> Seq<u8> {
    let dlen = dec_digits(score as nat).len();
    cursor_bytes(17, 7) + text_game_over() + cursor_bytes(
        ((GAME_WIDTH - (7 + dlen)) / 2 + 2) as nat,
        10,
    ) + text_score_prefix() + dec_digits(score as nat) + cursor_bytes(12, 13) + text_retry()
        + cursor_bytes(12, 14) + text_exit()
}

/// One full playing frame: clear and home, the border, the snake,
/// the food.
pub open spec fn frame_bytes(z: Znake, f: Food) -> Seq<u8> {
    clear_bytes() + border_bytes() + snake_bytes(z.segments@) + food_bytes(f)
}

/// The bytes that clear the screen and home the cursor.
pub fn clear_screen() -> (r: Vec<u8>)
    ensures
        r@ == clear_bytes(),
{
    let mut buf: Vec<u8> = Vec::new();
    buf.push(27);  // ESC
    buf.push(91);  // [
    buf.push(50);  // 2
    buf.push(74);  // J
    buf.push(27);  // ESC
    buf.push(91);  // [
    buf.push(72);  // H
    proof {
        assert(buf@ =~= clear_bytes());
    }
    buf
}

/// The bytes that move the cursor to 1-based `col`, `row`.
pub fn move_cursor(col: usize, row: usize) -> (r: Vec<u8>)
    ensures
        r@ == cursor_bytes(col as nat, row as nat),
{
    let mut buf: Vec<u8> = Vec::new();
    buf.push(27);  // ESC
    buf.push(91);  // [
    let mut row_digits = to_decimal(row);
    buf.append(&mut row_digits);
    buf.push(59);  // ;
    let mut col_digits = to_decimal(col);
    buf.append(&mut col_digits);
    buf.push(72);  // H
    proof {
        assert(buf@ =~= cursor_bytes(col as nat, row as nat));
    }
    buf
}

/// Appends `n` copies of `b` to `buf`.
fn push_repeat(buf: &mut Vec<u8>, b: u8, n: usize)
    ensures
        final(buf)@ == old(buf)@ + repeat_byte(b, n as nat),
{
    let mut j: usize = 0;
    while j < n
        invariant
            j <= n,
            buf@ == old(buf)@ + repeat_byte(b, j as nat),
        decreases n - j,
    {
        let ghost prev = buf@;
        buf.push(b);
        proof {
            assert(repeat_byte(b, (j + 1) as nat) =~= repeat_byte(b, j as nat).push(b));
            assert(buf@ =~= old(buf)@ + repeat_byte(b, (j + 1) as nat));
        }
        j = j + 1;
    }
}

/// Appends one horizontal border edge to `buf`.
fn push_h_edge(buf: &mut Vec<u8>)
    ensures
        final(buf)@ == old(buf)@ + h_edge_bytes(),
{
    buf.push(43);  // +
    push_repeat(buf, 45, GAME_WIDTH);  // -
    buf.push(43);  // +
    buf.push(13);  // CR
    buf.push(10);  // LF
    proof {
        assert(buf@ =~= old(buf)@ + h_edge_bytes());
    }
}

/// Appends one interior border row to `buf`.
fn push_mid_row(buf: &mut Vec<u8>)
    ensures
        final(buf)@ == old(buf)@ + mid_row_bytes(),
{
    buf.push(124);  // |
    push_repeat(buf, 32, GAME_WIDTH);  // blank
    buf.push(124);  // |
    buf.push(13);  // CR
    buf.push(10);  // LF
    proof {
        assert(buf@ =~= old(buf)@ + mid_row_bytes());
    }
}

/// The bytes of the board border: a `GAME_WIDTH x GAME_HEIGHT`
/// interior framed by `+`, `-` and `|`, every row ended by CR LF.
pub fn draw_border() -> (r: Vec<u8>)
    ensures
        r@ == border_bytes(),
{
    let mut buf: Vec<u8> = Vec::new();
    push_h_edge(&mut buf);
    let mut row: usize = 0;
    while row < GAME_HEIGHT
        invariant
            row <= GAME_HEIGHT,
            buf@ == h_edge_bytes() + mid_rows_bytes(row as nat),
        decreases GAME_HEIGHT - row,
    {
        push_mid_row(&mut buf);
        proof {
            assert(mid_rows_bytes((row + 1) as nat) == mid_rows_bytes(row as nat)
                + mid_row_bytes());
            assert(buf@ =~= h_edge_bytes() + mid_rows_bytes((row + 1) as nat));
        }
        row = row + 1;
    }
    push_h_edge(&mut buf);
    proof {
        assert(buf@ =~= border_bytes());
    }
    buf
}

/// Appends the `GAME OVER!` text to `buf`.
fn push_text_game_over(buf: &mut Vec<u8>)
    ensures
        final(buf)@ == old(buf)@ + text_game_over(),
{
    buf.push(71);  // G
    buf.push(65);  // A
    buf.push(77);  // M
    buf.push(69);  // E
    buf.push(32);
    buf.push(79);  // O
    buf.push(86);  // V
    buf.push(69);  // E
    buf.push(82);  // R
    buf.push(33);  // !
    proof {
        assert(buf@ =~= old(buf)@ + text_game_over());
    }
}

/// Appends the `Score: ` text to `buf`.
fn push_text_score_prefix(buf: &mut Vec<u8>)
    ensures
        final(buf)@ == old(buf)@ + text_score_prefix(),
{
    buf.push(83);  // S
    buf.push(99);  // c
    buf.push(111);  // o
    buf.push(114);  // r
    buf.push(101);  // e
    buf.push(58);  // :
    buf.push(32);
    proof {
        assert(buf@ =~= old(buf)@ + text_score_prefix());
    }
}

/// Appends the `Press ENTER to retry` text to `buf`.
fn push_text_retry(buf: &mut Vec<u8>)
    ensures
        final(buf)@ == old(buf)@ + text_retry(),
{
    buf.push(80);  // P
    buf.push(114);  // r
    buf.push(101);  // e
    buf.push(115);  // s
    buf.push(115);  // s
    buf.push(32);
    buf.push(69);  // E
    buf.push(78);  // N
    buf.push(84);  // T
    buf.push(69);  // E
    buf.push(82);  // R
    buf.push(32);
    buf.push(116);  // t
    buf.push(111);  // o
    buf.push(32);
    buf.push(114);  // r
    buf.push(101);  // e
    buf.push(116);  // t
    buf.push(114);  // r
    buf.push(121);  // y
    proof {
        assert(buf@ =~= old(buf)@ + text_retry());
    }
}

/// Appends the `Press ctrl+c to exit` text to `buf`.
fn push_text_exit(buf: &mut Vec<u8>)
    ensures
        final(buf)@ == old(buf)@ + text_exit(),
{
    buf.push(80);  // P
    buf.push(114);  // r
    buf.push(101);  // e
    buf.push(115);  // s
    buf.push(115);  // s
    buf.push(32);
    buf.push(99);  // c
    buf.push(116);  // t
    buf.push(114);  // r
    buf.push(108);  // l
    buf.push(43);  // +
    buf.push(99);  // c
    buf.push(32);
    buf.push(116);  // t
    buf.push(111);  // o
    buf.push(32);
    buf.push(101);  // e
    buf.push(120);  // x
    buf.push(105);  // i
    buf.push(116);  // t
    proof {
        assert(buf@ =~= old(buf)@ + text_exit());
    }
}

/// The bytes of the game-over screen for the given score, laid out as
/// `game_over_bytes` states.
pub fn draw_game_over_screen(score: usize) -> (r: Vec<u8>)
    ensures
        r@ == game_over_bytes(score),
{
    let mut buf: Vec<u8> = Vec::new();
    let mut c1 = move_cursor(17, 7);
    buf.append(&mut c1);
    push_text_game_over(&mut buf);
    let mut score_digits = to_decimal(score);
    proof {
        lemma_usize_digits_len(score);
    }
    let col: usize = (GAME_WIDTH - (7 + score_digits.len())) / 2 + 2;
    let mut c2 = move_cursor(col, 10);
    buf.append(&mut c2);
    push_text_score_prefix(&mut buf);
    buf.append(&mut score_digits);
    let mut c3 = move_cursor(12, 13);
    buf.append(&mut c3);
    push_text_retry(&mut buf);
    let mut c4 = move_cursor(12, 14);
    buf.append(&mut c4);
    push_text_exit(&mut buf);
    proof {
        assert(buf@ =~= game_over_bytes(score));
    }
    buf
}

/// The bytes of one full playing frame: clear and home, border,
/// snake, food, in that order.
pub fn render_frame(z: &Znake, f: &Food) -> (r: Vec<u8>)
    ensures
        r@ == frame_bytes(*z, *f),
{
    let mut buf = clear_screen();
    let mut border = draw_border();
    buf.append(&mut border);
    let mut snake = z.draw();
    buf.append(&mut snake);
    let mut food = f.draw();
    buf.append(&mut food);
    proof {
        assert(buf@ =~= frame_bytes(*z, *f));
    }
    buf
}

impl Znake {
    /// The bytes that draw the whole body: per segment a cursor move
    /// and a glyph, `@` for the head and `o` for the rest.
    pub fn draw(&self) -> (r: Vec<u8>)
        ensures
            r@ == snake_bytes(self.segments@),
    {
        let mut buf: Vec<u8> = Vec::new();
        let mut i: usize = 0;
        while i < self.segments.len()
            invariant
                i <= self.segments@.len(),
                buf@ == snake_bytes_upto(self.segments@, i as int),
            decreases self.segments@.len() - i,
        {
            let seg = self.segments[i];
            let mut c = move_cursor(seg.0, seg.1);
            buf.append(&mut c);
            let sym: u8 = if i == 0 {
                64  // @
            } else {
                111  // o
            };
            buf.push(sym);
            proof {
                assert(sym == seg_sym(i as int));
                assert(buf@ =~= snake_bytes_upto(self.segments@, i + 1));
            }
            i = i + 1;
        }
        buf
    }
}

impl Food {
    /// The bytes that draw the food glyph `*` at its cell.
    pub fn draw(&self) -> (r: Vec<u8>)
        ensures
            r@ == food_bytes(*self),
    {
        let mut buf = move_cursor(self.x, self.y);
        buf.push(42);  // *
        proof {
            assert(buf@ =~= food_bytes(*self));
        }
        buf
    }
}

} // verus!
