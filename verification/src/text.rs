use vstd::prelude::*;
use vstd::utf8::decode_utf8;
use vstd::utf8::valid_utf8;

verus! {

/// The terminal display width of a wrapped line, as the display-width
/// measurement reports it.  Wide characters (ideographs, emoji) count as
/// their true column width, not one column per code point or per byte.
pub uninterp spec fn display_width(text: Seq<char>) -> nat;

/// The greedy word-wrap of `text` at `width` columns: an ordered sequence
/// of display lines, each no wider than `width` where possible, with a
/// single overlong word split across lines.
pub uninterp spec fn wrapped_lines(text: Seq<char>, width: usize) -> Seq<Seq<char>>;

/// Relies on std::str::from_utf8: it returns `Ok` exactly when the bytes
/// are valid UTF-8, and the resulting string is their decoding.
#[verifier::external_body]
pub(crate) fn decode_input(input: &[u8]) -> (r: Option<String>)
    ensures
        r is Some <==> valid_utf8(input@),
        r is Some ==> r.unwrap()@ == decode_utf8(input@),
{
    match std::str::from_utf8(input) {
        Ok(text) => Some(text.to_string()),
        Err(_) => None,
    }
}

/// Relies on textwrap::wrap: the greedy word-wrap of `text` into lines of
/// at most `width` display columns, a function of its arguments alone.
#[verifier::external_body]
pub(crate) fn wrap_text(text: &str, width: usize) -> (lines: Vec<String>)
    ensures
        lines.deep_view() == wrapped_lines(text@, width),
{
    textwrap::wrap(text, width).into_iter().map(|line| line.into_owned()).collect()
}

/// Relies on unicode_width::UnicodeWidthStr::width: the display width of
/// `text` in terminal columns, a function of its characters alone.
#[verifier::external_body]
pub(crate) fn text_width(text: &str) -> (w: usize)
    ensures
        w as nat == display_width(text@),
{
    unicode_width::UnicodeWidthStr::width(text)
}

/// The widest display width among the given lines; zero when there are none.
pub open spec fn box_width(lines: Seq<Seq<char>>) -> nat
    decreases lines.len(),
{
    if lines.len() == 0 {
        0
    } else {
        let rest = box_width(lines.drop_last());
        let last = display_width(lines.last());
        if last > rest {
            last
        } else {
            rest
        }
    }
}

/// Every line's display width is bounded by the box width.
pub proof fn lemma_box_width_bound(lines: Seq<Seq<char>>, i: int)
    requires
        0 <= i < lines.len(),
    ensures
        display_width(lines[i]) <= box_width(lines),
    decreases lines.len(),
{
    if i == lines.len() - 1 {
        assert(lines.last() == lines[i]);
    } else {
        lemma_box_width_bound(lines.drop_last(), i);
        assert(lines.drop_last()[i] == lines[i]);
    }
}

/// The display width of the widest line, measured line by line.
pub(crate) fn longest_line(lines: &Vec<String>) -> (w: usize)
    ensures
        w as nat == box_width(lines.deep_view()),
{
    let ghost glines = lines.deep_view();
    let mut max_width: usize = 0;
    let mut i: usize = 0;
    while i < lines.len()
        invariant
            0 <= i <= lines.len(),
            glines == lines.deep_view(),
            glines.len() == lines@.len(),
            max_width as nat == box_width(glines.take(i as int)),
        decreases lines.len() - i,
    {
        let line_width = text_width(lines[i].as_str());
        proof {
            assert(glines.take(i + 1 as int).drop_last() =~= glines.take(i as int));
            assert(glines.take(i + 1 as int).last() == glines[i as int]);
            assert(glines[i as int] == lines@[i as int]@);
        }
        if line_width > max_width {
            max_width = line_width;
        }
        i = i + 1;
    }
    proof {
        assert(glines.take(lines@.len() as int) =~= glines);
    }
    max_width
}

} // verus!
