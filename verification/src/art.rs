//! Sprite strips drawn as text: a grid of palette characters, one text
//! line per pixel row, `w * frames` characters wide and `h` rows high.
//! Blank lines and surrounding whitespace are ignored.

use vstd::prelude::*;

verus! {

/// Unicode `White_Space` characters (what `char::is_whitespace` accepts).
pub open spec fn is_ws(c: char) -> bool {
    c == '\t' || c == '\n' || c == '\u{0B}' || c == '\u{0C}' || c == '\r' || c == ' '
        || c == '\u{85}' || c == '\u{A0}' || c == '\u{1680}'
        || ('\u{2000}' <= c && c <= '\u{200A}')
        || c == '\u{2028}' || c == '\u{2029}' || c == '\u{202F}' || c == '\u{205F}' || c == '\u{3000}'
}

pub fn is_whitespace(c: char) -> (r: bool)
    ensures
        r == is_ws(c),
{
    c == '\t' || c == '\n' || c == '\u{0B}' || c == '\u{0C}' || c == '\r' || c == ' '
        || c == '\u{85}' || c == '\u{A0}' || c == '\u{1680}'
        || ('\u{2000}' <= c && c <= '\u{200A}')
        || c == '\u{2028}' || c == '\u{2029}' || c == '\u{202F}' || c == '\u{205F}' || c == '\u{3000}'
}

/// Text split at each newline: `(finished lines, line in progress)`.
pub open spec fn split_fold(s: Seq<char>) -> (Seq<Seq<char>>, Seq<char>)
    decreases s.len(),
{
    if s.len() == 0 {
        (seq![], seq![])
    } else {
        let (done, cur) = split_fold(s.drop_last());
        if s.last() == '\n' { (done.push(cur), seq![]) } else { (done, cur.push(s.last())) }
    }
}

/// The lines of a text (split at newlines; the text after the last
/// newline is a line too).
pub open spec fn split_lines(s: Seq<char>) -> Seq<Seq<char>> {
    split_fold(s).0.push(split_fold(s).1)
}

/// A line without its leading whitespace.
pub open spec fn trim_start(s: Seq<char>) -> Seq<char>
    decreases s.len(),
{
    if s.len() > 0 && is_ws(s[0]) { trim_start(s.drop_first()) } else { s }
}

/// A line without its trailing whitespace.
pub open spec fn trim_end(s: Seq<char>) -> Seq<char>
    decreases s.len(),
{
    if s.len() > 0 && is_ws(s.last()) { trim_end(s.drop_last()) } else { s }
}

pub open spec fn trim(s: Seq<char>) -> Seq<char> {
    trim_end(trim_start(s))
}

/// The pixel rows of a grid: its lines trimmed, blank ones dropped.
pub open spec fn grid_rows(s: Seq<char>) -> Seq<Seq<char>> {
    split_lines(s).map_values(|l: Seq<char>| trim(l)).filter(|l: Seq<char>| l.len() > 0)
}

/// Why a grid does not decode.
#[derive(Clone, Copy, Debug, PartialEq, Eq, Structural)]
pub enum GridError {
    /// A row (the first such) is `width` characters wide instead of `w * frames`.
    RowWidth { width: usize },
    /// There are `rows` rows instead of `h`.
    RowCount { rows: usize },
    /// A character (the first such) is not in the palette.
    BadChar { ch: char },
}

/// The first row whose width is not `w`, if any.
pub open spec fn first_bad_width(rows: Seq<Seq<char>>, w: int) -> Option<usize>
    decreases rows.len(),
{
    if rows.len() == 0 {
        None
    } else if rows[0].len() != w {
        Some(rows[0].len() as usize)
    } else {
        first_bad_width(rows.drop_first(), w)
    }
}

/// Checks a grid's shape: every row `expect_w` wide, `h` rows.
pub open spec fn spec_grid_rows(s: Seq<char>, expect_w: u32, h: u32) -> Result<Seq<Seq<char>>, GridError> {
    let rows = grid_rows(s);
    match first_bad_width(rows, expect_w as int) {
        Some(width) => Err(GridError::RowWidth { width }),
        None => if rows.len() != h { Err(GridError::RowCount { rows: rows.len() as usize }) } else { Ok(rows) },
    }
}

fn trimmed(line: &Vec<char>) -> (t: Vec<char>)
    ensures
        t@ == trim(line@),
{
    let mut a: usize = 0;
    let n = line.len();
    proof {
        assert(line@.subrange(0, n as int) =~= line@);
    }
    while a < n && is_whitespace(line[a])
        invariant
            a <= n,
            n == line@.len(),
            trim_start(line@) == trim_start(line@.subrange(a as int, n as int)),
        decreases n - a,
    {
        proof {
            let r = line@.subrange(a as int, n as int);
            assert(r.drop_first() =~= line@.subrange(a + 1, n as int));
        }
        a = a + 1;
    }
    proof {
        assert(line@.subrange(0, n as int) =~= line@);
    }
    let ghost start = line@.subrange(a as int, n as int);
    assert(trim_start(line@) == start) by {
        if a < n {
            assert(!is_ws(start[0]));
        }
    }
    let mut b: usize = n;
    while b > a && is_whitespace(line[b - 1])
        invariant
            a <= b <= n,
            n == line@.len(),
            start == line@.subrange(a as int, n as int),
            trim_end(start) == trim_end(line@.subrange(a as int, b as int)),
        decreases b - a,
    {
        proof {
            let r = line@.subrange(a as int, b as int);
            assert(r.drop_last() =~= line@.subrange(a as int, b - 1));
        }
        b = b - 1;
    }
    let mut t: Vec<char> = Vec::new();
    let mut i: usize = a;
    while i < b
        invariant
            a <= i <= b,
            b <= n,
            n == line@.len(),
            t@ == line@.subrange(a as int, i as int),
        decreases b - i,
    {
        t.push(line[i]);
        proof {
            assert(t@ =~= line@.subrange(a as int, i + 1));
        }
        i = i + 1;
    }
    proof {
        let r = line@.subrange(a as int, b as int);
        assert(t@ == r);
        if b > a {
            assert(!is_ws(r.last()));
        }
        assert(trim_end(r) == r);
    }
    t
}

/// Splits a grid into its pixel rows and checks their shape (see
/// `spec_grid_rows`).
pub fn grid_rows_checked(grid: &Vec<char>, expect_w: u32, h: u32) -> (r: Result<Vec<Vec<char>>, GridError>)
    ensures
        match r {
            Ok(rows) => spec_grid_rows(grid@, expect_w, h) matches Ok(s) && rows@.len() == s.len()
                && forall|i: int| 0 <= i < s.len() ==> #[trigger] rows@[i]@ == s[i],
            Err(e) => spec_grid_rows(grid@, expect_w, h) == Err::<Seq<Seq<char>>, GridError>(e),
        },
{
    let lines = split_at_newlines(grid);
    let mut rows: Vec<Vec<char>> = Vec::new();
    let ghost all = split_lines(grid@);
    let mut i: usize = 0;
    while i < lines.len()
        invariant
            i <= lines.len(),
            lines@.len() == all.len(),
            forall|k: int| 0 <= k < lines@.len() ==> #[trigger] lines@[k]@ == all[k],
            all == split_lines(grid@),
            rows@.len() == all.subrange(0, i as int).map_values(|l: Seq<char>| trim(l)).filter(|l: Seq<char>| l.len() > 0).len(),
            forall|k: int| 0 <= k < rows@.len() ==> #[trigger] rows@[k]@
                == all.subrange(0, i as int).map_values(|l: Seq<char>| trim(l)).filter(|l: Seq<char>| l.len() > 0)[k],
        decreases lines.len() - i,
    {
        let t = trimmed(&lines[i]);
        proof {
            let m = |l: Seq<char>| trim(l);
            let p = |l: Seq<char>| l.len() > 0;
            let s1 = all.subrange(0, i + 1);
            assert(s1.drop_last() =~= all.subrange(0, i as int));
            assert(s1.map_values(m).drop_last() =~= s1.drop_last().map_values(m));
            assert(s1.map_values(m).last() == trim(all[i as int]));
            reveal_with_fuel(Seq::filter, 1);
        }
        if t.len() > 0 {
            rows.push(t);
        }
        i = i + 1;
    }
    proof {
        assert(all.subrange(0, all.len() as int) =~= all);
    }
    let ghost srows = grid_rows(grid@);
    let mut k: usize = 0;
    proof {
        assert(srows.subrange(0, srows.len() as int) =~= srows);
    }
    while k < rows.len()
        invariant
            k <= rows.len(),
            srows == grid_rows(grid@),
            rows@.len() == srows.len(),
            forall|j: int| 0 <= j < rows@.len() ==> #[trigger] rows@[j]@ == srows[j],
            first_bad_width(srows, expect_w as int) == first_bad_width(srows.subrange(k as int, srows.len() as int), expect_w as int),
        decreases rows.len() - k,
    {
        proof {
            let r = srows.subrange(k as int, srows.len() as int);
            assert(r.drop_first() =~= srows.subrange(k + 1, srows.len() as int));
            assert(r[0] == srows[k as int]);
        }
        if rows[k].len() != expect_w as usize {
            return Err(GridError::RowWidth { width: rows[k].len() });
        }
        k = k + 1;
    }
    proof {
        assert(srows.subrange(rows@.len() as int, srows.len() as int).len() == 0);
    }
    if rows.len() != h as usize {
        return Err(GridError::RowCount { rows: rows.len() });
    }
    Ok(rows)
}

fn split_at_newlines(s: &Vec<char>) -> (lines: Vec<Vec<char>>)
    ensures
        lines@.len() == split_lines(s@).len(),
        forall|k: int| 0 <= k < lines@.len() ==> #[trigger] lines@[k]@ == split_lines(s@)[k],
{
    let mut done: Vec<Vec<char>> = Vec::new();
    let mut cur: Vec<char> = Vec::new();
    let mut i: usize = 0;
    proof {
        assert(s@.subrange(0, 0) =~= Seq::<char>::empty());
    }
    while i < s.len()
        invariant
            i <= s.len(),
            done@.len() == split_fold(s@.subrange(0, i as int)).0.len(),
            forall|k: int| 0 <= k < done@.len() ==> #[trigger] done@[k]@ == split_fold(s@.subrange(0, i as int)).0[k],
            cur@ == split_fold(s@.subrange(0, i as int)).1,
        decreases s.len() - i,
    {
        let c = s[i];
        proof {
            let p = s@.subrange(0, i + 1);
            assert(p.drop_last() =~= s@.subrange(0, i as int));
            assert(p.last() == c);
        }
        if c == '\n' {
            let finished = cur;
            done.push(finished);
            cur = Vec::new();
        } else {
            cur.push(c);
        }
        i = i + 1;
    }
    proof {
        assert(s@.subrange(0, s@.len() as int) =~= s@);
    }
    done.push(cur);
    done
}

/// The palette: each character's colour (its RGBA bytes), first entry
/// wins.
pub open spec fn colour_of(palette: Seq<(char, [u8; 4])>, c: char) -> Option<[u8; 4]>
    decreases palette.len(),
{
    if palette.len() == 0 {
        None
    } else if palette[0].0 == c {
        Some(palette[0].1)
    } else {
        colour_of(palette.drop_first(), c)
    }
}

/// RGBA bytes of a row, or the first character not in the palette.
pub open spec fn row_pixels(palette: Seq<(char, [u8; 4])>, row: Seq<char>) -> Result<Seq<u8>, char>
    decreases row.len(),
{
    if row.len() == 0 {
        Ok(seq![])
    } else {
        match row_pixels(palette, row.drop_last()) {
            Err(c) => Err(c),
            Ok(px) => match colour_of(palette, row.last()) {
                None => Err(row.last()),
                Some(rgba) => Ok(px + seq![rgba[0], rgba[1], rgba[2], rgba[3]]),
            },
        }
    }
}

/// RGBA bytes of all rows in order, or the first character not in the
/// palette.
pub open spec fn rows_pixels(palette: Seq<(char, [u8; 4])>, rows: Seq<Seq<char>>) -> Result<Seq<u8>, char>
    decreases rows.len(),
{
    if rows.len() == 0 {
        Ok(seq![])
    } else {
        match rows_pixels(palette, rows.drop_last()) {
            Err(c) => Err(c),
            Ok(px) => match row_pixels(palette, rows.last()) {
                Err(c) => Err(c),
                Ok(more) => Ok(px + more),
            },
        }
    }
}

fn lookup(palette: &Vec<(char, [u8; 4])>, c: char) -> (r: Option<[u8; 4]>)
    ensures
        r == colour_of(palette@, c),
{
    let mut i: usize = 0;
    assert(palette@.subrange(0, palette@.len() as int) =~= palette@);
    while i < palette.len()
        invariant
            i <= palette.len(),
            colour_of(palette@, c) == colour_of(palette@.subrange(i as int, palette@.len() as int), c),
        decreases palette.len() - i,
    {
        proof {
            let r = palette@.subrange(i as int, palette@.len() as int);
            assert(r.drop_first() =~= palette@.subrange(i + 1, palette@.len() as int));
        }
        if palette[i].0 == c {
            return Some(palette[i].1);
        }
        i = i + 1;
    }
    None
}

/// Decodes a strip: checks the grid's shape, then turns every character
/// into its palette colour, row by row (4 bytes a pixel).
pub fn decode_strip(grid: &Vec<char>, w: u32, h: u32, frames: u32, palette: &Vec<(char, [u8; 4])>) -> (r: Result<Vec<u8>, GridError>)
    requires
        w * frames <= u32::MAX,
    ensures
        match spec_grid_rows(grid@, (w * frames) as u32, h) {
            Err(e) => r == Err::<Vec<u8>, GridError>(e),
            Ok(rows) => match rows_pixels(palette@, rows) {
                Err(c) => r == Err::<Vec<u8>, GridError>(GridError::BadChar { ch: c }),
                Ok(px) => r matches Ok(v) && v@ == px,
            },
        },
{
    let expect_w: u32 = w * frames;
    let rows = match grid_rows_checked(grid, expect_w, h) {
        Err(e) => return Err(e),
        Ok(rows) => rows,
    };
    let ghost srows = match spec_grid_rows(grid@, expect_w, h) {
        Ok(s) => s,
        Err(_) => seq![],
    };
    let mut pixels: Vec<u8> = Vec::new();
    let mut i: usize = 0;
    proof {
        assert(srows.subrange(0, 0) =~= Seq::<Seq<char>>::empty());
    }
    while i < rows.len()
        invariant
            i <= rows.len(),
            expect_w == (w * frames) as u32,
            spec_grid_rows(grid@, expect_w, h) == Ok::<Seq<Seq<char>>, GridError>(srows),
            rows@.len() == srows.len(),
            forall|k: int| 0 <= k < rows@.len() ==> #[trigger] rows@[k]@ == srows[k],
            rows_pixels(palette@, srows.subrange(0, i as int)) == Ok::<Seq<u8>, char>(pixels@),
        decreases rows.len() - i,
    {
        proof {
            assert(srows.subrange(0, i + 1).drop_last() =~= srows.subrange(0, i as int));
            assert(srows.subrange(0, i + 1).last() == srows[i as int]);
        }
        let row = &rows[i];
        let mut j: usize = 0;
        let ghost base = pixels@;
        proof {
            assert(row@.subrange(0, 0) =~= Seq::<char>::empty());
            assert(pixels@ =~= base + Seq::<u8>::empty());
        }
        while j < row.len()
            invariant
                j <= row.len(),
                i < rows@.len(),
                expect_w == (w * frames) as u32,
                spec_grid_rows(grid@, expect_w, h) == Ok::<Seq<Seq<char>>, GridError>(srows),
                rows@.len() == srows.len(),
                forall|k: int| 0 <= k < rows@.len() ==> #[trigger] rows@[k]@ == srows[k],
                row@ == srows[i as int],
                rows_pixels(palette@, srows.subrange(0, i as int)) == Ok::<Seq<u8>, char>(base),
                row_pixels(palette@, row@.subrange(0, j as int)) matches Ok(px) && pixels@ == base + px,
            decreases row.len() - j,
        {
            let c = row[j];
            proof {
                assert(row@.subrange(0, j + 1).drop_last() =~= row@.subrange(0, j as int));
                assert(row@.subrange(0, j + 1).last() == c);
            }
            match lookup(palette, c) {
                None => {
                    proof {
                        lemma_rows_pixels_err(palette@, srows, i as int, j as int, c);
                    }
                    return Err(GridError::BadChar { ch: c });
                },
                Some(rgba) => {
                    pixels.push(rgba[0]);
                    pixels.push(rgba[1]);
                    pixels.push(rgba[2]);
                    pixels.push(rgba[3]);
                    proof {
                        let px = row_pixels(palette@, row@.subrange(0, j as int))->Ok_0;
                        assert(pixels@ =~= base + (px + seq![rgba[0], rgba[1], rgba[2], rgba[3]]));
                    }
                },
            }
            j = j + 1;
        }
        proof {
            assert(row@.subrange(0, row@.len() as int) =~= row@);
            let prev = rows_pixels(palette@, srows.subrange(0, i as int))->Ok_0;
            let more = row_pixels(palette@, row@)->Ok_0;
            assert(pixels@ =~= prev + more);
        }
        i = i + 1;
    }
    proof {
        assert(srows.subrange(0, srows.len() as int) =~= srows);
    }
    Ok(pixels)
}

/// A bad character in row `i` (after `j` good ones) is the strip's first
/// bad character when all rows before decode.
proof fn lemma_rows_pixels_err(palette: Seq<(char, [u8; 4])>, rows: Seq<Seq<char>>, i: int, j: int, c: char)
    requires
        0 <= i < rows.len(),
        0 <= j < rows[i].len(),
        rows[i][j] == c,
        colour_of(palette, c) is None,
        rows_pixels(palette, rows.subrange(0, i)) is Ok,
        row_pixels(palette, rows[i].subrange(0, j)) is Ok,
    ensures
        rows_pixels(palette, rows) == Err::<Seq<u8>, char>(c),
{
    lemma_row_err_prefix(palette, rows[i], j + 1, c);
    assert(rows[i].subrange(0, j + 1).drop_last() =~= rows[i].subrange(0, j));
    lemma_rows_err_prefix(palette, rows, i + 1, c);
    assert(rows.subrange(0, i + 1).drop_last() =~= rows.subrange(0, i));
}

/// An error in a prefix of a row is the row's error.
proof fn lemma_row_err_prefix(palette: Seq<(char, [u8; 4])>, row: Seq<char>, k: int, c: char)
    requires
        0 < k <= row.len(),
        row_pixels(palette, row.subrange(0, k - 1)) is Ok,
        colour_of(palette, row[k - 1]) is None,
        row[k - 1] == c,
    ensures
        row_pixels(palette, row) == Err::<Seq<u8>, char>(c),
    decreases row.len() - k,
{
    assert(row.subrange(0, k).drop_last() =~= row.subrange(0, k - 1));
    assert(row_pixels(palette, row.subrange(0, k)) == Err::<Seq<u8>, char>(c));
    lemma_row_err_extends(palette, row, k, c);
}

proof fn lemma_row_err_extends(palette: Seq<(char, [u8; 4])>, row: Seq<char>, k: int, c: char)
    requires
        0 <= k <= row.len(),
        row_pixels(palette, row.subrange(0, k)) == Err::<Seq<u8>, char>(c),
    ensures
        row_pixels(palette, row) == Err::<Seq<u8>, char>(c),
    decreases row.len() - k,
{
    if k == row.len() {
        assert(row.subrange(0, k) =~= row);
    } else {
        assert(row.subrange(0, k + 1).drop_last() =~= row.subrange(0, k));
        lemma_row_err_extends(palette, row, k + 1, c);
    }
}

proof fn lemma_rows_err_prefix(palette: Seq<(char, [u8; 4])>, rows: Seq<Seq<char>>, k: int, c: char)
    requires
        0 < k <= rows.len(),
        rows_pixels(palette, rows.subrange(0, k - 1)) is Ok,
        row_pixels(palette, rows[k - 1]) == Err::<Seq<u8>, char>(c),
    ensures
        rows_pixels(palette, rows) == Err::<Seq<u8>, char>(c),
    decreases rows.len() - k,
{
    assert(rows.subrange(0, k).drop_last() =~= rows.subrange(0, k - 1));
    assert(rows.subrange(0, k).last() == rows[k - 1]);
    lemma_rows_err_extends(palette, rows, k, c);
}

proof fn lemma_rows_err_extends(palette: Seq<(char, [u8; 4])>, rows: Seq<Seq<char>>, k: int, c: char)
    requires
        0 <= k <= rows.len(),
        rows_pixels(palette, rows.subrange(0, k)) == Err::<Seq<u8>, char>(c),
    ensures
        rows_pixels(palette, rows) == Err::<Seq<u8>, char>(c),
    decreases rows.len() - k,
{
    if k == rows.len() {
        assert(rows.subrange(0, k) =~= rows);
    } else {
        assert(rows.subrange(0, k + 1).drop_last() =~= rows.subrange(0, k));
        lemma_rows_err_extends(palette, rows, k + 1, c);
    }
}

} // verus!
