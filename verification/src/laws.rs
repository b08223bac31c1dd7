use vstd::prelude::*;
use vstd::utf8::decode_utf8;
use vstd::utf8::encode_utf8;
use vstd::utf8::encode_utf8_decode_utf8;

use crate::bubble::bottom_bar;
use crate::bubble::bubble;
use crate::bubble::bubble_row;
use crate::bubble::bubble_rows;
use crate::bubble::padding;
use crate::bubble::top_bar;
use crate::config::Eyes;
use crate::config::Speaker;
use crate::config::SpeechModes;
use crate::mascot::mascot_bottom;
use crate::mascot::mascot_top;
use crate::render::rendered;
use crate::render::rendered_bytes;
use crate::text::box_width;

verus! {

/// A text that wraps to a single line renders between `"< "` and `" >"`:
/// the bubble is the top bar, one row holding the line padded to the box
/// width between those delimiters, and the bottom bar.
pub proof fn lemma_single_line_bubble(lines: Seq<Seq<char>>)
    requires
        lines.len() == 1,
    ensures
        bubble(lines) == top_bar(box_width(lines)) + ("< "@ + lines[0] + padding(
            lines[0],
            box_width(lines),
        ) + " >\n"@) + bottom_bar(box_width(lines)),
{
    let w = box_width(lines);
    assert(bubble_rows(lines, 0, w) =~= Seq::<char>::empty());
    assert(bubble_rows(lines, 1, w) =~= bubble_row(lines, 0, w));
    assert(bubble(lines) =~= top_bar(w) + ("< "@ + lines[0] + padding(lines[0], w) + " >\n"@)
        + bottom_bar(w));
}

/// In a multi-line wrap, the first row is bordered by `"/ "` and `" \"`,
/// the last row by `"\ "` and `" /"`, and every interior row by `"| "`
/// and `" |"`, each line padded to the box width.
pub proof fn lemma_multi_line_rows(lines: Seq<Seq<char>>, i: int, w: nat)
    requires
        lines.len() >= 2,
        0 <= i < lines.len(),
    ensures
        i == 0 ==> bubble_row(lines, i, w) == "/ "@ + lines[i] + padding(lines[i], w) + " \\\n"@,
        i == lines.len() - 1 ==> bubble_row(lines, i, w) == "\\ "@ + lines[i] + padding(
            lines[i],
            w,
        ) + " /\n"@,
        0 < i < lines.len() - 1 ==> bubble_row(lines, i, w) == "| "@ + lines[i] + padding(
            lines[i],
            w,
        ) + " |\n"@,
{
}

/// The top bar is one space, `w + 2` underscores and a newline — so
/// `w + 3` characters stand before its newline; the bottom bar is one
/// space and `w + 2` dashes, `w + 3` characters in all.
pub proof fn lemma_bar_shape(w: nat)
    ensures
        top_bar(w).len() == w + 4,
        top_bar(w).last() == '\n',
        top_bar(w).drop_last().len() == w + 3,
        top_bar(w)[0] == ' ',
        forall|i: int| 1 <= i <= w + 2 ==> top_bar(w)[i] == '_',
        bottom_bar(w).len() == w + 3,
        bottom_bar(w)[0] == ' ',
        forall|i: int| 1 <= i <= w + 2 ==> bottom_bar(w)[i] == '-',
{
    reveal_strlit(" ");
    reveal_strlit("\n");
}

/// Rendering the same input, width and configuration twice, with no
/// selector change in between, appends byte-identical output: the bytes
/// of a render call are a function of those values alone.
pub proof fn lemma_render_deterministic(
    out1: Seq<u8>,
    out2: Seq<u8>,
    input: Seq<u8>,
    max_width: usize,
    mode: SpeechModes,
    eyes: Eyes,
    speaker: Speaker,
)
    requires
        out1 == rendered_bytes(input, max_width, mode, eyes, speaker),
        out2 == rendered_bytes(input, max_width, mode, eyes, speaker),
    ensures
        out1 == out2,
{
}

/// Selecting a different mascot strictly changes the art: distinct
/// speakers have distinct top and bottom art fragments, and the rendered
/// output differs — as characters and as bytes — whatever the wrapped
/// text, speech mode and eyes.
pub proof fn lemma_selector_changes_art(
    lines: Seq<Seq<char>>,
    mode: SpeechModes,
    eyes: Eyes,
    s1: Speaker,
    s2: Speaker,
)
    requires
        s1 != s2,
    ensures
        mascot_top(s1) != mascot_top(s2),
        mascot_bottom(s1) != mascot_bottom(s2),
        rendered(lines, mode, eyes, s1) != rendered(lines, mode, eyes, s2),
        encode_utf8(rendered(lines, mode, eyes, s1)) != encode_utf8(
            rendered(lines, mode, eyes, s2),
        ),
{
    reveal_strlit("\n            _~^~^~_\n        \\) /  ");
    reveal_strlit("\n            __\n           /  \\\n           |  |\n           ");
    reveal_strlit("\n            ^__^\n            (");
    reveal_strlit("  \\ (/\n          '_   -   _'\n          / '-----' \\\n");
    reveal_strlit("\n           |  |\n           || |/\n           || ||\n           |\\_/|\n           \\___/\n");
    reveal_strlit(")\\_______\n            (__)\\       )\\/\\\n                ||----w |\n                ||     ||\n");
    reveal_strlit(" ");
    reveal_strlit("  ");
    reveal_strlit("");
    let r1 = rendered(lines, mode, eyes, s1);
    let r2 = rendered(lines, mode, eyes, s2);
    assert(r1.len() != r2.len());
    encode_utf8_decode_utf8(r1);
    encode_utf8_decode_utf8(r2);
    if encode_utf8(r1) == encode_utf8(r2) {
        assert(decode_utf8(encode_utf8(r1)) == decode_utf8(encode_utf8(r2)));
        assert(false);
    }
}

} // verus!
