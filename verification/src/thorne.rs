//! Random text generators: rows of characters, digits or words.
//!
//! Every generator states what holds of each possible outcome: the shape of
//! the text (rows, separators) and the alphabet or vocabulary it is drawn from.
use vstd::prelude::*;
use rand::Rng;
use crate::text::{push_char, push_str, concat_all};

verus! {

/// How many lines the word table of the English generator holds; draws are
/// made uniformly over this many slots, the ones past the last line being empty.
pub const ENGLISH_TABLE_SIZE: usize = 370103;

/// Rows joined with a newline between consecutive rows (none after the last).
pub open spec fn join_lines(rows: Seq<Seq<char>>) -> Seq<char>
    decreases rows.len(),
{
    if rows.len() == 0 {
        Seq::empty()
    } else if rows.len() == 1 {
        rows[0]
    } else {
        join_lines(rows.drop_last()) + seq!['\n'] + rows.last()
    }
}

/// A row of exactly `width` characters, each drawn from `alphabet`.
pub open spec fn row_from(row: Seq<char>, alphabet: Seq<char>, width: nat) -> bool {
    row.len() == width && forall|j: int| 0 <= j < row.len() ==> alphabet.contains(#[trigger] row[j])
}

/// `count` rows of `width` characters from `alphabet`.
pub open spec fn char_rows(rows: Seq<Seq<char>>, alphabet: Seq<char>, width: nat, count: nat) -> bool {
    rows.len() == count && forall|r: int| 0 <= r < rows.len() ==> row_from(#[trigger] rows[r], alphabet, width)
}

/// Words, each followed by one space.
pub open spec fn spaced_words(words: Seq<Seq<char>>) -> Seq<char>
    decreases words.len(),
{
    if words.len() == 0 {
        Seq::empty()
    } else {
        spaced_words(words.drop_last()) + words.last() + seq![' ']
    }
}

/// A word that one draw from the English word table can give: a line of the
/// table, or the empty word of a slot past the last line.
pub open spec fn english_outcome(lines: Seq<String>, w: Seq<char>) -> bool {
    (exists|i: int| 0 <= i < lines.len() && #[trigger] lines[i]@ == w)
        || (w.len() == 0 && lines.len() < ENGLISH_TABLE_SIZE)
}

/// `count` rows of `width` draws from the word table.
pub open spec fn word_rows(rows: Seq<Seq<Seq<char>>>, lines: Seq<String>, width: nat, count: nat) -> bool {
    rows.len() == count && forall|r: int| 0 <= r < rows.len() ==> {
        &&& (#[trigger] rows[r]).len() == width
        &&& forall|j: int| 0 <= j < width ==> english_outcome(lines, #[trigger] rows[r][j])
    }
}

/// The characters that `gen` draws from.
pub open spec fn normal_charset() -> Seq<char> {
    seq![
        'a', 'b', 'c', 'd', 'e', 'f', 'g', 'h', 'i', 'j', 'k', 'l', 'm', 'n', 'o', 'p', 'q', 'r',
        's', 't', 'u', 'v', 'w', 'x', 'y', 'z', 'A', 'B', 'C', 'D', 'E', 'F', 'G', 'H', 'I', 'J',
        'K', 'L', 'M', 'N', 'O', 'P', 'Q', 'R', 'S', 'T', 'U', 'V', 'W', 'X', 'Y', 'Z', '1', '2',
        '3', '4', '5', '6', '7', '8', '9', '0', '-', '_', '+', '=', ')', '(', '*', '&', '^', '%',
        '$', '#', '@', '!', '}', '[', ']', '}', '"', '/', '?', '|', '"', '"', ':', ';', '.', '>',
        '<', ',', '`', '~',
    ]
}

/// The characters that `fullgen` draws from: those of `gen` and more.
pub open spec fn full_charset() -> Seq<char> {
    normal_charset() + seq![
        '¡', '™', '£', '¢', '∞', '¶', '•', 'ª', 'º', '–', '≠', '‘', 'æ', '«', '…', 'π', 'ø', 'ˆ',
        '¨', '¥', '†', '®', '´', '∑', 'œ', '“', '…', '¬', '˚', '∆', '˙', '©', 'ƒ', 'ß', '∂', 'å',
        '÷', '≥', '≤', 'µ', '˜', '∫', '√', 'ç', '≈', '`',
    ]
}

/// The digits that `number` draws from (`0` to `8`).
pub open spec fn number_charset() -> Seq<char> {
    seq!['0', '1', '2', '3', '4', '5', '6', '7', '8']
}

/// `number` draws only the digits `0` to `8`: never a `9`, nor anything else.
pub proof fn lemma_number_digits()
    ensures
        !number_charset().contains('9'),
        forall|c: char| number_charset().contains(c) <==> '0' <= c <= '8',
{
    assert forall|c: char| number_charset().contains(c) <==> '0' <= c <= '8' by {
        if '0' <= c <= '8' {
            let k = c as int - '0' as int;
            assert(number_charset()[k] == c);
        }
    }
}

/// `gen` draws from a part of what `fullgen` draws from.
pub proof fn lemma_normal_in_full()
    ensures
        forall|c: char| normal_charset().contains(c) ==> full_charset().contains(c),
{
    assert forall|c: char| normal_charset().contains(c) implies full_charset().contains(c) by {
        let k = choose|k: int| 0 <= k < normal_charset().len() && normal_charset()[k] == c;
        assert(full_charset()[k] == c);
    }
}

/// A uniformly drawn index below `n` (`rand::thread_rng().gen_range(0..n)`).
#[verifier::external_body]
fn random_index(n: usize) -> (r: usize)
    requires
        n > 0,
    ensures
        r < n,
{
    rand::thread_rng().gen_range(0..n)
}

fn normal_chars() -> (v: Vec<char>)
    ensures
        v@ == normal_charset(),
{
    let v = vec![
        'a', 'b', 'c', 'd', 'e', 'f', 'g', 'h', 'i', 'j', 'k', 'l', 'm', 'n', 'o', 'p', 'q', 'r',
        's', 't', 'u', 'v', 'w', 'x', 'y', 'z', 'A', 'B', 'C', 'D', 'E', 'F', 'G', 'H', 'I', 'J',
        'K', 'L', 'M', 'N', 'O', 'P', 'Q', 'R', 'S', 'T', 'U', 'V', 'W', 'X', 'Y', 'Z', '1', '2',
        '3', '4', '5', '6', '7', '8', '9', '0', '-', '_', '+', '=', ')', '(', '*', '&', '^', '%',
        '$', '#', '@', '!', '}', '[', ']', '}', '"', '/', '?', '|', '"', '"', ':', ';', '.', '>',
        '<', ',', '`', '~',
    ];
    assert(v@ =~= normal_charset());
    v
}

fn full_chars() -> (v: Vec<char>)
    ensures
        v@ == full_charset(),
{
    let mut v = normal_chars();
    let mut more = vec![
        '¡', '™', '£', '¢', '∞', '¶', '•', 'ª', 'º', '–', '≠', '‘', 'æ', '«', '…', 'π', 'ø', 'ˆ',
        '¨', '¥', '†', '®', '´', '∑', 'œ', '“', '…', '¬', '˚', '∆', '˙', '©', 'ƒ', 'ß', '∂', 'å',
        '÷', '≥', '≤', 'µ', '˜', '∫', '√', 'ç', '≈', '`',
    ];
    v.append(&mut more);
    assert(v@ =~= full_charset());
    v
}

/// `count` rows of `width` characters drawn at random from `alphabet`,
/// separated by newlines.
fn random_rows(alphabet: &Vec<char>, width: u128, count: u128) -> (out: String)
    requires
        alphabet.len() > 0,
    ensures
        exists|rows: Seq<Seq<char>>|
            #[trigger] char_rows(rows, alphabet@, width as nat, count as nat) && out@ == join_lines(
                rows,
            ),
{
    let mut out = String::new();
    let ghost mut rows: Seq<Seq<char>> = Seq::empty();
    let mut i: u128 = 0;
    while i < count
        invariant
            i <= count,
            alphabet.len() > 0,
            char_rows(rows, alphabet@, width as nat, i as nat),
            out@ == (if 0 < i < count {
                join_lines(rows) + seq!['\n']
            } else {
                join_lines(rows)
            }),
        decreases count - i,
    {
        let mut row = String::new();
        let mut j: u128 = 0;
        while j < width
            invariant
                j <= width,
                alphabet.len() > 0,
                row_from(row@, alphabet@, j as nat),
            decreases width - j,
        {
            let k = random_index(alphabet.len());
            let c = alphabet[k];
            let ghost before = row@;
            push_char(&mut row, c);
            assert(alphabet@.contains(alphabet@[k as int]));
            assert forall|m: int| 0 <= m < row@.len() implies alphabet@.contains(#[trigger] row@[m]) by {
                if m < before.len() {
                    assert(row@[m] == before[m]);
                }
            }
            j = j + 1;
        }
        let ghost old_rows = rows;
        proof {
            rows = rows.push(row@);
            assert(rows.drop_last() =~= old_rows);
            assert forall|r: int| 0 <= r < rows.len() implies row_from(#[trigger] rows[r], alphabet@, width as nat) by {
                if r < old_rows.len() {
                    assert(rows[r] == old_rows[r]);
                }
            }
        }
        push_str(&mut out, row.as_str());
        if i + 1 != count {
            push_char(&mut out, '\n');
        }
        i = i + 1;
    }
    assert(char_rows(rows, alphabet@, width as nat, count as nat));
    out
}

/// A random string of `times` lines of `charnr` characters each, drawn from
/// the normal character list.
pub fn gen(charnr: u32, times: u32) -> (out: String)
    ensures
        exists|rows: Seq<Seq<char>>|
            #[trigger] char_rows(rows, normal_charset(), charnr as nat, times as nat) && out@
                == join_lines(rows),
{
    let list = normal_chars();
    random_rows(&list, charnr as u128, times as u128)
}

/// As `gen`, drawing from the full character list.
pub fn fullgen(charnr: u32, times: u32) -> (out: String)
    ensures
        exists|rows: Seq<Seq<char>>|
            #[trigger] char_rows(rows, full_charset(), charnr as nat, times as nat) && out@
                == join_lines(rows),
{
    let list = full_chars();
    random_rows(&list, charnr as u128, times as u128)
}

/// A signed count, with zero and negative counts taken as zero.
pub open spec fn count_of(n: i128) -> nat {
    if n > 0 {
        n as nat
    } else {
        0
    }
}

/// `times` lines of `digits` random digits each; a digit is drawn from `0..9`,
/// so `9` never occurs. A count that is zero or negative is taken as zero.
pub fn number(digits: i128, times: i128) -> (out: String)
    ensures
        exists|rows: Seq<Seq<char>>|
            #[trigger] char_rows(
                rows,
                number_charset(),
                count_of(digits),
                count_of(times),
            ) && out@ == join_lines(rows),
{
    let list = vec!['0', '1', '2', '3', '4', '5', '6', '7', '8'];
    assert(list@ =~= number_charset());
    let width: u128 = if digits > 0 {
        digits as u128
    } else {
        0
    };
    let count: u128 = if times > 0 {
        times as u128
    } else {
        0
    };
    let out = random_rows(&list, width, count);
    proof {
        let rows = choose|rows: Seq<Seq<char>>|
            #[trigger] char_rows(rows, list@, width as nat, count as nat) && out@ == join_lines(rows);
        assert(char_rows(rows, number_charset(), count_of(digits), count_of(times)));
    }
    out
}

/// `w` is one of the words of `list`.
pub open spec fn picked_from(list: Seq<&str>, w: Seq<char>) -> bool {
    exists|m: int| 0 <= m < list.len() && #[trigger] list[m]@ == w
}

/// `charnr * times` words drawn at random from `str_list`, each followed by a space.
pub fn your_list(str_list: &[&str], charnr: u32, times: u32) -> (out: String)
    requires
        charnr > 0 && times > 0 ==> str_list@.len() > 0,
    ensures
        exists|picks: Seq<Seq<char>>|
            #![trigger spaced_words(picks)]
            picks.len() == charnr as int * times as int && (forall|k: int|
                0 <= k < picks.len() ==> picked_from(str_list@, #[trigger] picks[k]))
                && out@ == spaced_words(picks),
{
    let mut out = String::new();
    let ghost mut picks: Seq<Seq<char>> = Seq::empty();
    let mut i: u32 = 0;
    while i < times
        invariant
            i <= times,
            charnr > 0 && times > 0 ==> str_list@.len() > 0,
            picks.len() == i as int * charnr as int,
            forall|k: int|
                0 <= k < picks.len() ==> picked_from(str_list@, #[trigger] picks[k]),
            out@ == spaced_words(picks),
        decreases times - i,
    {
        let mut j: u32 = 0;
        while j < charnr
            invariant
                j <= charnr,
                i < times,
                charnr > 0 && times > 0 ==> str_list@.len() > 0,
                picks.len() == i as int * charnr as int + j,
                forall|k: int|
                    0 <= k < picks.len() ==> picked_from(str_list@, #[trigger] picks[k]),
                out@ == spaced_words(picks),
            decreases charnr - j,
        {
            let k = random_index(str_list.len());
            let w: &str = str_list[k];
            let ghost old_picks = picks;
            proof {
                picks = picks.push(w@);
                assert(picks.drop_last() =~= old_picks);
                assert forall|q: int|
                    0 <= q < picks.len() implies picked_from(str_list@, #[trigger] picks[q]) by {
                    if q < old_picks.len() {
                        assert(picks[q] == old_picks[q]);
                    } else {
                        assert(str_list@[k as int]@ == picks[q]);
                        assert(picked_from(str_list@, picks[q]));
                    }
                }
            }
            push_str(&mut out, w);
            push_char(&mut out, ' ');
            j = j + 1;
        }
        assert((i + 1) as int * charnr as int == i as int * charnr as int + charnr) by (nonlinear_arith);
        i = i + 1;
    }
    assert(times as int * charnr as int == charnr as int * times as int) by (nonlinear_arith);
    assert(out@ == spaced_words(picks));
    out
}

/// One draw from the English word table built from `lines`: a slot is drawn
/// uniformly among `ENGLISH_TABLE_SIZE`; slots past the last line are empty.
pub fn eng(lines: &Vec<String>) -> (w: String)
    requires
        lines@.len() <= ENGLISH_TABLE_SIZE,
    ensures
        english_outcome(lines@, w@),
{
    let k = random_index(ENGLISH_TABLE_SIZE);
    if k < lines.len() {
        let w = lines[k].clone();
        assert(lines@[k as int]@ == w@);
        w
    } else {
        String::new()
    }
}

/// `times` lines of `str_nr` random English words, each word followed by a
/// space, drawn from the word table built from `lines`.
pub fn english_gen(lines: &Vec<String>, str_nr: u64, times: u64) -> (out: String)
    requires
        lines@.len() <= ENGLISH_TABLE_SIZE,
    ensures
        exists|rows: Seq<Seq<Seq<char>>>|
            #[trigger] word_rows(rows, lines@, str_nr as nat, times as nat) && out@ == join_lines(
                rows.map_values(|r: Seq<Seq<char>>| spaced_words(r)),
            ),
{
    let out = english_rows(lines, str_nr, times, true);
    proof {
        let rows = choose|rows: Seq<Seq<Seq<char>>>|
            #[trigger] word_rows(rows, lines@, str_nr as nat, times as nat) && out@ == join_lines(
                rows.map_values(|r: Seq<Seq<char>>| word_line(r, true)),
            );
        assert(rows.map_values(|r: Seq<Seq<char>>| word_line(r, true)) =~= rows.map_values(
            |r: Seq<Seq<char>>| spaced_words(r),
        ));
    }
    out
}

/// The text that `english_to_file` writes: `times` lines of `str_nr` random
/// English words, with nothing between the words of a line.
pub fn english_to_file(lines: &Vec<String>, str_nr: u32, times: u32) -> (out: String)
    requires
        lines@.len() <= ENGLISH_TABLE_SIZE,
    ensures
        exists|rows: Seq<Seq<Seq<char>>>|
            #[trigger] word_rows(rows, lines@, str_nr as nat, times as nat) && out@ == join_lines(
                rows.map_values(|r: Seq<Seq<char>>| concat_all(r)),
            ),
{
    let out = english_rows(lines, str_nr as u64, times as u64, false);
    proof {
        let rows = choose|rows: Seq<Seq<Seq<char>>>|
            #[trigger] word_rows(rows, lines@, str_nr as nat, times as nat) && out@ == join_lines(
                rows.map_values(|r: Seq<Seq<char>>| word_line(r, false)),
            );
        assert(rows.map_values(|r: Seq<Seq<char>>| word_line(r, false)) =~= rows.map_values(
            |r: Seq<Seq<char>>| concat_all(r),
        ));
    }
    out
}

/// A line of words, each followed by a space when `spaced`.
pub open spec fn word_line(r: Seq<Seq<char>>, spaced: bool) -> Seq<char> {
    if spaced {
        spaced_words(r)
    } else {
        concat_all(r)
    }
}

fn english_rows(lines: &Vec<String>, width: u64, count: u64, spaced: bool) -> (out: String)
    requires
        lines@.len() <= ENGLISH_TABLE_SIZE,
    ensures
        exists|rows: Seq<Seq<Seq<char>>>|
            #[trigger] word_rows(rows, lines@, width as nat, count as nat) && out@ == join_lines(
                rows.map_values(|r: Seq<Seq<char>>| word_line(r, spaced)),
            ),
{
    let mut out = String::new();
    let ghost mut rows: Seq<Seq<Seq<char>>> = Seq::empty();
    let mut i: u64 = 0;
    while i < count
        invariant
            i <= count,
            lines@.len() <= ENGLISH_TABLE_SIZE,
            word_rows(rows, lines@, width as nat, i as nat),
            out@ == (if 0 < i < count {
                join_lines(rows.map_values(|r: Seq<Seq<char>>| word_line(r, spaced)))
                    + seq!['\n']
            } else {
                join_lines(rows.map_values(|r: Seq<Seq<char>>| word_line(r, spaced)))
            }),
        decreases count - i,
    {
        let mut row = String::new();
        let ghost mut words: Seq<Seq<char>> = Seq::empty();
        let mut j: u64 = 0;
        while j < width
            invariant
                j <= width,
                lines@.len() <= ENGLISH_TABLE_SIZE,
                words.len() == j,
                forall|q: int| 0 <= q < words.len() ==> english_outcome(lines@, #[trigger] words[q]),
                row@ == word_line(words, spaced),
            decreases width - j,
        {
            let w = eng(lines);
            let ghost old_words = words;
            proof {
                words = words.push(w@);
                assert(words.drop_last() =~= old_words);
                assert forall|q: int| 0 <= q < words.len() implies english_outcome(lines@, #[trigger] words[q]) by {
                    if q < old_words.len() {
                        assert(words[q] == old_words[q]);
                    }
                }
            }
            push_str(&mut row, w.as_str());
            if spaced {
                push_char(&mut row, ' ');
            }
            j = j + 1;
        }
        let ghost old_rows = rows;
        proof {
            rows = rows.push(words);
            assert(rows.drop_last() =~= old_rows);
            assert forall|r: int| 0 <= r < rows.len() implies {
                &&& (#[trigger] rows[r]).len() == width
                &&& forall|q: int| 0 <= q < width ==> english_outcome(lines@, #[trigger] rows[r][q])
            } by {
                if r < old_rows.len() {
                    assert(rows[r] == old_rows[r]);
                }
            }
            let f = |r: Seq<Seq<char>>| word_line(r, spaced);
            assert(rows.map_values(f).drop_last() =~= old_rows.map_values(f));
            assert(rows.map_values(f).last() == row@);
        }
        push_str(&mut out, row.as_str());
        if i + 1 != count {
            push_char(&mut out, '\n');
        }
        i = i + 1;
    }
    assert(word_rows(rows, lines@, width as nat, count as nat));
    out
}

} // verus!
