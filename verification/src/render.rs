use vstd::prelude::*;
use vstd::utf8::decode_utf8;
use vstd::utf8::encode_utf8;
use vstd::utf8::valid_utf8;

use crate::bubble::bubble;
use crate::bubble::emit_bubble;
use crate::buffer::buf_as_slice;
use crate::buffer::buf_bytes;
use crate::buffer::buf_new;
use crate::buffer::lemma_encode_utf8_concat;
use crate::config::Eyes;
use crate::config::FerrisConfig;
use crate::config::SayError;
use crate::config::Selector;
use crate::config::Speaker;
use crate::config::SpeechModes;
use crate::mascot::connector;
use crate::mascot::emit_connector;
use crate::mascot::emit_mascot;
use crate::mascot::mascot_art;
use crate::text::decode_input;
use crate::text::wrap_text;
use crate::text::wrapped_lines;

verus! {

/// The wrap width actually used: degenerate zero widths clamp to one column.
pub open spec fn clamped_width(max_width: usize) -> usize {
    if max_width == 0 {
        1usize
    } else {
        max_width
    }
}

/// Everything a render call emits, as characters: the bubble around the
/// wrapped lines, the connector for the speech mode, and the mascot art
/// with the selected eyes.
pub open spec fn rendered(
    lines: Seq<Seq<char>>,
    mode: SpeechModes,
    eyes: Eyes,
    speaker: Speaker,
) -> Seq<char> {
    bubble(lines) + connector(mode) + mascot_art(speaker, eyes)
}

/// The exact bytes a render call writes for the given input bytes, wrap
/// width, speech mode, eye style and mascot.
pub open spec fn rendered_bytes(
    input: Seq<u8>,
    max_width: usize,
    mode: SpeechModes,
    eyes: Eyes,
    speaker: Speaker,
) -> Seq<u8> {
    encode_utf8(
        rendered(
            wrapped_lines(decode_utf8(input), clamped_width(max_width)),
            mode,
            eyes,
            speaker,
        ),
    )
}

/// Renders `input` inside a speech or thought bubble followed by the
/// mascot `sel` holds, and appends the whole output to `writer` in one
/// step.  Fails, writing nothing, exactly when `input` is not UTF-8.
pub fn perform(
    input: &[u8],
    max_width: usize,
    writer: &mut Vec<u8>,
    sel: &Selector,
    cfg: &FerrisConfig,
) -> (r: Result<(), SayError>)
    ensures
        r is Ok <==> valid_utf8(input@),
        r is Ok ==> final(writer)@ == old(writer)@ + rendered_bytes(
            input@,
            max_width,
            cfg.mode,
            cfg.eyes,
            sel.selected(),
        ),
        r is Err ==> final(writer)@ == old(writer)@ && r == Err::<(), SayError>(
            SayError::InvalidEncoding,
        ),
{
    let text = match decode_input(input) {
        Some(text) => text,
        None => {
            return Err(SayError::InvalidEncoding);
        },
    };
    let width = if max_width == 0 {
        1
    } else {
        max_width
    };
    let lines = wrap_text(text.as_str(), width);
    let ghost glines = lines.deep_view();
    let mut buf = buf_new();
    emit_bubble(&mut buf, &lines);
    proof {
        assert(Seq::<u8>::empty() + encode_utf8(bubble(glines)) =~= encode_utf8(bubble(glines)));
    }
    emit_connector(&mut buf, &cfg.mode);
    proof {
        lemma_encode_utf8_concat(bubble(glines), connector(cfg.mode));
    }
    let speaker = sel.speaker();
    emit_mascot(&mut buf, &speaker, &cfg.eyes);
    proof {
        lemma_encode_utf8_concat(
            bubble(glines) + connector(cfg.mode),
            mascot_art(sel.selected(), cfg.eyes),
        );
        assert(buf_bytes(buf) == encode_utf8(
            rendered(glines, cfg.mode, cfg.eyes, sel.selected()),
        ));
    }
    let out = buf_as_slice(&buf);
    writer.extend_from_slice(out);
    proof {
        assert forall|i: int| 0 <= i < writer@.len() implies writer@[i] == (old(writer)@
            + out@)[i] by {}
        assert(writer@ =~= old(writer)@ + out@);
    }
    Ok(())
}

/// Renders `input` with a speech connector and the given eyes; the mascot
/// comes from `sel`.  Fails, writing nothing, exactly when `input` is not
/// UTF-8.
pub fn say(
    input: &[u8],
    max_width: usize,
    writer: &mut Vec<u8>,
    sel: &Selector,
    eyes: &Eyes,
) -> (r: Result<(), SayError>)
    ensures
        r is Ok <==> valid_utf8(input@),
        r is Ok ==> final(writer)@ == old(writer)@ + rendered_bytes(
            input@,
            max_width,
            SpeechModes::Say,
            *eyes,
            sel.selected(),
        ),
        r is Err ==> final(writer)@ == old(writer)@ && r == Err::<(), SayError>(
            SayError::InvalidEncoding,
        ),
{
    let cfg = FerrisConfig { mode: SpeechModes::Say, eyes: *eyes };
    perform(input, max_width, writer, sel, &cfg)
}

/// Renders `input` with a thought connector and the given eyes; the
/// mascot comes from `sel`.  Fails, writing nothing, exactly when `input`
/// is not UTF-8.
pub fn think(
    input: &[u8],
    max_width: usize,
    writer: &mut Vec<u8>,
    sel: &Selector,
    eyes: &Eyes,
) -> (r: Result<(), SayError>)
    ensures
        r is Ok <==> valid_utf8(input@),
        r is Ok ==> final(writer)@ == old(writer)@ + rendered_bytes(
            input@,
            max_width,
            SpeechModes::Think,
            *eyes,
            sel.selected(),
        ),
        r is Err ==> final(writer)@ == old(writer)@ && r == Err::<(), SayError>(
            SayError::InvalidEncoding,
        ),
{
    let cfg = FerrisConfig { mode: SpeechModes::Think, eyes: *eyes };
    perform(input, max_width, writer, sel, &cfg)
}

} // verus!
