use vstd::prelude::*;
use vstd::utf8::encode_utf8;

use crate::buffer::buf_bytes;
use crate::buffer::emit_str;
use crate::buffer::lemma_encode_utf8_concat;
use crate::buffer::OutBuf;
use crate::text::box_width;
use crate::text::display_width;
use crate::text::lemma_box_width_bound;
use crate::text::longest_line;
use crate::text::text_width;

verus! {

/// `n` copies of one character.
pub open spec fn repeat_char(c: char, n: nat) -> Seq<char> {
    Seq::new(n, |i: int| c)
}

/// The top border bar: one space, `w + 2` underscores, and a newline.
pub open spec fn top_bar(w: nat) -> Seq<char> {
    " "@ + repeat_char('_', w + 2) + "\n"@
}

/// The bottom border bar: one space and `w + 2` dashes.  The newline that
/// follows it on screen is the first character of the connector fragment.
pub open spec fn bottom_bar(w: nat) -> Seq<char> {
    " "@ + repeat_char('-', w + 2)
}

/// The left border glyphs of the row at position `i` among `n` rows.
pub open spec fn row_prefix(i: int, n: int) -> Seq<char> {
    if n == 1 {
        "< "@
    } else if i == 0 {
        "/ "@
    } else if i == n - 1 {
        "\\ "@
    } else {
        "| "@
    }
}

/// The right border glyphs of the row at position `i` among `n` rows,
/// with the row's closing newline.
pub open spec fn row_suffix(i: int, n: int) -> Seq<char> {
    if n == 1 {
        " >\n"@
    } else if i == 0 {
        " \\\n"@
    } else if i == n - 1 {
        " /\n"@
    } else {
        " |\n"@
    }
}

/// The spaces that pad a line on the right until its display width
/// reaches the box width.
pub open spec fn padding(line: Seq<char>, w: nat) -> Seq<char> {
    if display_width(line) <= w {
        repeat_char(' ', (w - display_width(line)) as nat)
    } else {
        Seq::<char>::empty()
    }
}

/// One bubble row: left border, line text, padding, right border.
pub open spec fn bubble_row(lines: Seq<Seq<char>>, i: int, w: nat) -> Seq<char> {
    row_prefix(i, lines.len() as int) + lines[i] + padding(lines[i], w) + row_suffix(
        i,
        lines.len() as int,
    )
}

/// The first `n` bubble rows, concatenated top to bottom.
pub open spec fn bubble_rows(lines: Seq<Seq<char>>, n: int, w: nat) -> Seq<char>
    decreases n,
{
    if n <= 0 {
        Seq::<char>::empty()
    } else {
        bubble_rows(lines, n - 1, w) + bubble_row(lines, n - 1, w)
    }
}

/// The whole bubble: top bar, one row per wrapped line, bottom bar.
pub open spec fn bubble(lines: Seq<Seq<char>>) -> Seq<char> {
    top_bar(box_width(lines)) + bubble_rows(lines, lines.len() as int, box_width(lines))
        + bottom_bar(box_width(lines))
}

/// Appends `count` copies of a one-character piece.
pub(crate) fn emit_repeat(buf: &mut OutBuf, piece: &str, count: usize)
    requires
        piece@.len() == 1,
    ensures
        buf_bytes(*final(buf)) == buf_bytes(*old(buf)) + encode_utf8(
            repeat_char(piece@[0], count as nat),
        ),
{
    let ghost c = piece@[0];
    proof {
        assert(repeat_char(c, 0) =~= Seq::<char>::empty());
        assert(buf_bytes(*buf) + encode_utf8(repeat_char(c, 0)) =~= buf_bytes(*buf));
    }
    let mut i: usize = 0;
    while i < count
        invariant
            0 <= i <= count,
            piece@.len() == 1,
            c == piece@[0],
            buf_bytes(*buf) == buf_bytes(*old(buf)) + encode_utf8(repeat_char(c, i as nat)),
        decreases count - i,
    {
        emit_str(buf, piece);
        proof {
            assert(piece@ =~= seq![c]);
            lemma_encode_utf8_concat(repeat_char(c, i as nat), seq![c]);
            assert(repeat_char(c, i as nat) + seq![c] =~= repeat_char(c, (i + 1) as nat));
            assert(buf_bytes(*buf) =~= buf_bytes(*old(buf)) + encode_utf8(
                repeat_char(c, (i + 1) as nat),
            ));
        }
        i = i + 1;
    }
}

/// Appends the top border bar for box width `w`.
pub(crate) fn emit_top_bar(buf: &mut OutBuf, w: usize)
    ensures
        buf_bytes(*final(buf)) == buf_bytes(*old(buf)) + encode_utf8(top_bar(w as nat)),
{
    proof {
        reveal_strlit(" ");
        reveal_strlit("_");
        reveal_strlit("__");
        reveal_strlit("\n");
    }
    emit_str(buf, " ");
    emit_repeat(buf, "_", w);
    emit_str(buf, "__");
    emit_str(buf, "\n");
    proof {
        lemma_encode_utf8_concat(repeat_char('_', w as nat), "__"@);
        assert(repeat_char('_', w as nat) + "__"@ =~= repeat_char('_', w as nat + 2));
        lemma_encode_utf8_concat(" "@, repeat_char('_', w as nat + 2));
        lemma_encode_utf8_concat(" "@ + repeat_char('_', w as nat + 2), "\n"@);
        assert(buf_bytes(*buf) =~= buf_bytes(*old(buf)) + encode_utf8(top_bar(w as nat)));
    }
}

/// Appends the bottom border bar for box width `w`.
pub(crate) fn emit_bottom_bar(buf: &mut OutBuf, w: usize)
    ensures
        buf_bytes(*final(buf)) == buf_bytes(*old(buf)) + encode_utf8(bottom_bar(w as nat)),
{
    proof {
        reveal_strlit(" ");
        reveal_strlit("-");
        reveal_strlit("--");
    }
    emit_str(buf, " ");
    emit_repeat(buf, "-", w);
    emit_str(buf, "--");
    proof {
        lemma_encode_utf8_concat(repeat_char('-', w as nat), "--"@);
        assert(repeat_char('-', w as nat) + "--"@ =~= repeat_char('-', w as nat + 2));
        lemma_encode_utf8_concat(" "@, repeat_char('-', w as nat + 2));
        assert(buf_bytes(*buf) =~= buf_bytes(*old(buf)) + encode_utf8(bottom_bar(w as nat)));
    }
}

/// Appends one bubble row: the line at position `i`, padded to the box
/// width, between the border glyphs its position calls for.
#[verifier::rlimit(50)]
pub(crate) fn emit_row(buf: &mut OutBuf, lines: &Vec<String>, i: usize, w: usize)
    requires
        i < lines@.len(),
        w as nat == box_width(lines.deep_view()),
    ensures
        buf_bytes(*final(buf)) == buf_bytes(*old(buf)) + encode_utf8(
            bubble_row(lines.deep_view(), i as int, w as nat),
        ),
{
    let ghost glines = lines.deep_view();
    let n = lines.len();
    if n == 1 {
        emit_str(buf, "< ");
    } else if i == 0 {
        emit_str(buf, "/ ");
    } else if i == n - 1 {
        emit_str(buf, "\\ ");
    } else {
        emit_str(buf, "| ");
    }
    proof {
        assert(glines[i as int] == lines@[i as int]@);
        lemma_encode_utf8_concat(row_prefix(i as int, n as int), glines[i as int]);
    }
    let line = &lines[i];
    emit_str(buf, line.as_str());
    let lw = text_width(line.as_str());
    proof {
        lemma_box_width_bound(glines, i as int);
        reveal_strlit(" ");
    }
    emit_repeat(buf, " ", w - lw);
    proof {
        assert(repeat_char(' ', (w - lw) as nat) =~= padding(glines[i as int], w as nat));
        lemma_encode_utf8_concat(
            row_prefix(i as int, n as int) + glines[i as int],
            padding(glines[i as int], w as nat),
        );
    }
    if n == 1 {
        emit_str(buf, " >\n");
    } else if i == 0 {
        emit_str(buf, " \\\n");
    } else if i == n - 1 {
        emit_str(buf, " /\n");
    } else {
        emit_str(buf, " |\n");
    }
    proof {
        lemma_encode_utf8_concat(
            row_prefix(i as int, n as int) + glines[i as int] + padding(
                glines[i as int],
                w as nat,
            ),
            row_suffix(i as int, n as int),
        );
        assert(buf_bytes(*buf) =~= buf_bytes(*old(buf)) + encode_utf8(
            bubble_row(glines, i as int, w as nat),
        ));
    }
}

/// Appends the whole bubble for the given wrapped lines.
pub(crate) fn emit_bubble(buf: &mut OutBuf, lines: &Vec<String>)
    ensures
        buf_bytes(*final(buf)) == buf_bytes(*old(buf)) + encode_utf8(bubble(lines.deep_view())),
{
    let ghost glines = lines.deep_view();
    let n = lines.len();
    let w = longest_line(lines);
    emit_top_bar(buf, w);
    proof {
        assert(bubble_rows(glines, 0, w as nat) =~= Seq::<char>::empty());
        assert(top_bar(w as nat) + bubble_rows(glines, 0, w as nat) =~= top_bar(w as nat));
    }
    let mut i: usize = 0;
    while i < n
        invariant
            0 <= i <= n,
            n == lines@.len(),
            glines == lines.deep_view(),
            glines.len() == n,
            w as nat == box_width(glines),
            buf_bytes(*buf) == buf_bytes(*old(buf)) + encode_utf8(
                top_bar(w as nat) + bubble_rows(glines, i as int, w as nat),
            ),
        decreases n - i,
    {
        let ghost done = top_bar(w as nat) + bubble_rows(glines, i as int, w as nat);
        emit_row(buf, lines, i, w);
        proof {
            lemma_encode_utf8_concat(done, bubble_row(glines, i as int, w as nat));
            assert(done + bubble_row(glines, i as int, w as nat) =~= top_bar(w as nat)
                + bubble_rows(glines, i + 1 as int, w as nat));
            assert(buf_bytes(*buf) =~= buf_bytes(*old(buf)) + encode_utf8(
                top_bar(w as nat) + bubble_rows(glines, i + 1 as int, w as nat),
            ));
        }
        i = i + 1;
    }
    emit_bottom_bar(buf, w);
    proof {
        lemma_encode_utf8_concat(
            top_bar(w as nat) + bubble_rows(glines, n as int, w as nat),
            bottom_bar(w as nat),
        );
        assert(top_bar(w as nat) + bubble_rows(glines, n as int, w as nat) + bottom_bar(w as nat)
            =~= bubble(glines));
        assert(buf_bytes(*buf) =~= buf_bytes(*old(buf)) + encode_utf8(bubble(glines)));
    }
}

} // verus!
