//! Text building blocks: runs of blanks, joining with a separator, splitting a byte
//! stream into lines, and decoding bytes into text.

use vstd::prelude::*;

verus! {

/// The byte that ends a line.
pub const NEWLINE: u8 = 10;

/// `String::push` appends one character to the end of the string and leaves what
/// was there before unchanged.
pub assume_specification[ String::push ](s: &mut String, ch: char)
    ensures
        final(s)@ == old(s)@.push(ch),
;

/// The text that `String::from_utf8_lossy` makes of a byte sequence: the decoded
/// characters, with every malformed stretch replaced by U+FFFD.
pub uninterp spec fn lossy_text(bytes: Seq<u8>) -> Seq<char>;

/// Decodes bytes with `String::from_utf8_lossy`. The contract claims only that
/// the text depends on the bytes alone.
#[verifier::external_body]
pub(crate) fn decode_lossy(bytes: &[u8]) -> (text: String)
    ensures
        text@ == lossy_text(bytes@),
{
    String::from_utf8_lossy(bytes).into_owned()
}

/// The texts held by a sequence of strings.
pub open spec fn texts_of(strings: Seq<String>) -> Seq<Seq<char>> {
    strings.map_values(|s: String| s@)
}

/// The byte sequences held by a sequence of byte vectors.
pub open spec fn byte_rows_of(rows: Seq<Vec<u8>>) -> Seq<Seq<u8>> {
    rows.map_values(|r: Vec<u8>| r@)
}

/// A run of `count` blanks.
pub open spec fn blanks(count: nat) -> Seq<char> {
    Seq::new(count, |i: int| ' ')
}

/// The parts laid end to end with the separator between each two neighbours:
/// nothing before the first part and nothing after the last.
pub open spec fn joined<T>(parts: Seq<Seq<T>>, separator: Seq<T>) -> Seq<T>
    decreases parts.len(),
{
    if parts.len() == 0 {
        Seq::empty()
    } else if parts.len() == 1 {
        parts[0]
    } else {
        joined(parts.drop_last(), separator) + separator + parts.last()
    }
}

/// The lines of a byte stream: the stretches between newline bytes. A stream with
/// `n` newlines has `n + 1` lines, some of which may be empty; the empty stream has
/// one empty line.
pub open spec fn lines_of(bytes: Seq<u8>) -> Seq<Seq<u8>>
    decreases bytes.len(),
{
    if bytes.len() == 0 {
        seq![Seq::<u8>::empty()]
    } else {
        let before = lines_of(bytes.drop_last());
        if bytes.last() == NEWLINE {
            before.push(Seq::<u8>::empty())
        } else {
            before.drop_last().push(before.last().push(bytes.last()))
        }
    }
}

/// The text of each line, decoded leniently.
pub open spec fn decoded_lines(lines: Seq<Seq<u8>>) -> Seq<Seq<char>> {
    lines.map_values(|line: Seq<u8>| lossy_text(line))
}

/// Appending to the last part appends to the joined whole.
pub proof fn lemma_joined_grows_with_last_part<T>(
    parts: Seq<Seq<T>>,
    separator: Seq<T>,
    item: T,
)
    requires
        parts.len() > 0,
    ensures
        joined(parts.drop_last().push(parts.last().push(item)), separator) == joined(
            parts,
            separator,
        ).push(item),
{
    let grown = parts.drop_last().push(parts.last().push(item));
    assert(grown.last() == parts.last().push(item));
    assert(grown.drop_last() =~= parts.drop_last());
    if parts.len() == 1 {
        assert(grown[0] == parts[0].push(item));
    } else {
        assert(joined(grown, separator) =~= joined(parts, separator).push(item));
    }
}

/// Splitting into lines loses nothing and leaves no newline inside a line: there is
/// at least one line, no line holds a newline byte, and the lines joined by
/// newlines are the stream again.
pub proof fn lemma_lines_recompose(bytes: Seq<u8>)
    ensures
        lines_of(bytes).len() >= 1,
        forall|i: int, j: int|
            0 <= i < lines_of(bytes).len() && 0 <= j < lines_of(bytes)[i].len()
                ==> #[trigger] lines_of(bytes)[i][j] != NEWLINE,
        joined(lines_of(bytes), seq![NEWLINE]) == bytes,
    decreases bytes.len(),
{
    let separator = seq![NEWLINE];
    if bytes.len() == 0 {
        assert(joined(lines_of(bytes), separator) =~= bytes);
    } else {
        let shorter = bytes.drop_last();
        let before = lines_of(shorter);
        lemma_lines_recompose(shorter);
        if bytes.last() == NEWLINE {
            let after = before.push(Seq::<u8>::empty());
            assert(after.drop_last() =~= before);
            assert(joined(after, separator) =~= joined(before, separator) + separator);
            assert(shorter.push(NEWLINE) =~= bytes);
            assert(joined(lines_of(bytes), separator) =~= bytes);
        } else {
            lemma_joined_grows_with_last_part(before, separator, bytes.last());
            assert(shorter.push(bytes.last()) =~= bytes);
        }
    }
}

/// Builds a run of `count` blanks.
pub fn spaces(count: u32) -> (run: String)
    ensures
        run@ == blanks(count as nat),
{
    let mut run = String::new();
    let mut made: u32 = 0;
    while made < count
        invariant
            made <= count,
            run@ == blanks(made as nat),
        decreases count - made,
    {
        run.push(' ');
        made = made + 1;
        assert(run@ =~= blanks(made as nat));
    }
    run
}

/// Joins the parts with the separator between each two neighbours.
pub fn join(parts: &Vec<String>, separator: &str) -> (whole: String)
    ensures
        whole@ == joined(texts_of(parts@), separator@),
{
    let mut whole = String::new();
    let mut taken: usize = 0;
    while taken < parts.len()
        invariant
            taken <= parts.len(),
            whole@ == joined(texts_of(parts@).take(taken as int), separator@),
        decreases parts.len() - taken,
    {
        if taken > 0 {
            whole.append(separator);
        }
        whole.append(parts[taken].as_str());
        proof {
            let texts = texts_of(parts@);
            let longer = texts.take(taken as int + 1);
            assert(longer.drop_last() =~= texts.take(taken as int));
            assert(longer.last() == parts@[taken as int]@);
            if taken == 0 {
                assert(whole@ =~= longer[0]);
            }
        }
        taken = taken + 1;
    }
    assert(texts_of(parts@).take(taken as int) =~= texts_of(parts@));
    whole
}

/// Splits a byte stream at its newline bytes. The newlines themselves are dropped.
pub fn split_lines(bytes: &[u8]) -> (lines: Vec<Vec<u8>>)
    ensures
        byte_rows_of(lines@) == lines_of(bytes@),
        lines@.len() >= 1,
{
    let mut lines: Vec<Vec<u8>> = Vec::new();
    let mut current: Vec<u8> = Vec::new();
    let mut seen: usize = 0;
    assert(bytes@.take(0) =~= Seq::<u8>::empty());
    assert(byte_rows_of(lines@).push(current@) =~= lines_of(bytes@.take(0)));
    while seen < bytes.len()
        invariant
            seen <= bytes.len(),
            byte_rows_of(lines@).push(current@) == lines_of(bytes@.take(seen as int)),
        decreases bytes.len() - seen,
    {
        let byte = bytes[seen];
        let ghost before = byte_rows_of(lines@).push(current@);
        let ghost prefix = bytes@.take(seen as int + 1);
        assert(prefix.drop_last() =~= bytes@.take(seen as int));
        assert(prefix.last() == byte);
        if byte == NEWLINE {
            lines.push(current);
            current = Vec::new();
            assert(byte_rows_of(lines@) =~= before);
        } else {
            current.push(byte);
            assert(byte_rows_of(lines@).push(current@) =~= before.drop_last().push(
                before.last().push(byte),
            ));
        }
        seen = seen + 1;
    }
    assert(bytes@.take(seen as int) =~= bytes@);
    let ghost all = byte_rows_of(lines@).push(current@);
    lines.push(current);
    assert(byte_rows_of(lines@) =~= all);
    lines
}

/// Decodes each line leniently: malformed bytes become replacement characters
/// and never an error.
pub fn decode_lines(lines: &Vec<Vec<u8>>) -> (rows: Vec<String>)
    ensures
        texts_of(rows@) == decoded_lines(byte_rows_of(lines@)),
{
    let mut rows: Vec<String> = Vec::new();
    let mut done: usize = 0;
    while done < lines.len()
        invariant
            done <= lines.len(),
            texts_of(rows@) == decoded_lines(byte_rows_of(lines@).take(done as int)),
        decreases lines.len() - done,
    {
        let ghost before = texts_of(rows@);
        let text = decode_lossy(lines[done].as_slice());
        rows.push(text);
        assert(texts_of(rows@) =~= before.push(lossy_text(lines@[done as int]@)));
        assert(decoded_lines(byte_rows_of(lines@).take(done as int + 1)) =~= before.push(
            lossy_text(lines@[done as int]@),
        ));
        done = done + 1;
    }
    assert(byte_rows_of(lines@).take(done as int) =~= byte_rows_of(lines@));
    rows
}

} // verus!
