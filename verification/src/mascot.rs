use vstd::prelude::*;
use vstd::utf8::encode_utf8;

use crate::buffer::buf_bytes;
use crate::buffer::emit_str;
use crate::buffer::lemma_encode_utf8_concat;
use crate::buffer::OutBuf;
use crate::config::Eyes;
use crate::config::Speaker;
use crate::config::SpeechModes;

verus! {

/// The connector fragment between the bubble's bottom bar and the mascot:
/// a speech tail or a trail of thought circles.  It begins with the
/// newline that closes the bottom bar.
pub open spec fn connector(mode: SpeechModes) -> Seq<char> {
    match mode {
        SpeechModes::Say => "\n        \\\n         \\"@,
        SpeechModes::Think => "\n        o\n         o"@,
    }
}

/// The single eye glyph for each eye style.
pub open spec fn eye_str(eyes: Eyes) -> Seq<char> {
    match eyes {
        Eyes::RegularEyes => "o"@,
        Eyes::GreedyEyes => "$"@,
        Eyes::YouthfulEyes => "."@,
        Eyes::ParanoidEyes => "@"@,
        Eyes::DeadEyes => "x"@,
        Eyes::TiredEyes => "-"@,
        Eyes::CryingEyes => "T"@,
        Eyes::HappyEyes => "^"@,
    }
}

/// The art above the mascot's eyes.
pub open spec fn mascot_top(speaker: Speaker) -> Seq<char> {
    match speaker {
        Speaker::Ferris => "\n            _~^~^~_\n        \\) /  "@,
        Speaker::Clippy => "\n            __\n           /  \\\n           |  |\n           "@,
        Speaker::Cow => "\n            ^__^\n            ("@,
    }
}

/// The art below the mascot's eyes.
pub open spec fn mascot_bottom(speaker: Speaker) -> Seq<char> {
    match speaker {
        Speaker::Ferris => "  \\ (/\n          '_   -   _'\n          / '-----' \\\n"@,
        Speaker::Clippy => "\n           |  |\n           || |/\n           || ||\n           |\\_/|\n           \\___/\n"@,
        Speaker::Cow => ")\\_______\n            (__)\\       )\\/\\\n                ||----w |\n                ||     ||\n"@,
    }
}

/// The spacing between the mascot's two eye glyphs.
pub open spec fn eye_gap(speaker: Speaker) -> Seq<char> {
    match speaker {
        Speaker::Ferris => " "@,
        Speaker::Clippy => "  "@,
        Speaker::Cow => ""@,
    }
}

/// The whole mascot block: top art, two eyes around the eye gap, bottom art.
pub open spec fn mascot_art(speaker: Speaker, eyes: Eyes) -> Seq<char> {
    mascot_top(speaker) + eye_str(eyes) + eye_gap(speaker) + eye_str(eyes) + mascot_bottom(speaker)
}

/// Appends the connector fragment for the given speech mode.
pub(crate) fn emit_connector(buf: &mut OutBuf, mode: &SpeechModes)
    ensures
        buf_bytes(*final(buf)) == buf_bytes(*old(buf)) + encode_utf8(connector(*mode)),
{
    match mode {
        SpeechModes::Say => emit_str(buf, "\n        \\\n         \\"),
        SpeechModes::Think => emit_str(buf, "\n        o\n         o"),
    }
}

/// Appends one eye glyph.
pub(crate) fn emit_eye(buf: &mut OutBuf, eyes: &Eyes)
    ensures
        buf_bytes(*final(buf)) == buf_bytes(*old(buf)) + encode_utf8(eye_str(*eyes)),
{
    match eyes {
        Eyes::RegularEyes => emit_str(buf, "o"),
        Eyes::GreedyEyes => emit_str(buf, "$"),
        Eyes::YouthfulEyes => emit_str(buf, "."),
        Eyes::ParanoidEyes => emit_str(buf, "@"),
        Eyes::DeadEyes => emit_str(buf, "x"),
        Eyes::TiredEyes => emit_str(buf, "-"),
        Eyes::CryingEyes => emit_str(buf, "T"),
        Eyes::HappyEyes => emit_str(buf, "^"),
    }
}

/// Appends the selected mascot's art with the selected eyes.
pub(crate) fn emit_mascot(buf: &mut OutBuf, speaker: &Speaker, eyes: &Eyes)
    ensures
        buf_bytes(*final(buf)) == buf_bytes(*old(buf)) + encode_utf8(mascot_art(*speaker, *eyes)),
{
    let ghost top = mascot_top(*speaker);
    let ghost eye = eye_str(*eyes);
    let ghost gap = eye_gap(*speaker);
    match speaker {
        Speaker::Ferris => emit_str(buf, "\n            _~^~^~_\n        \\) /  "),
        Speaker::Clippy => emit_str(buf, "\n            __\n           /  \\\n           |  |\n           "),
        Speaker::Cow => emit_str(buf, "\n            ^__^\n            ("),
    }
    emit_eye(buf, eyes);
    proof {
        lemma_encode_utf8_concat(top, eye);
    }
    match speaker {
        Speaker::Ferris => emit_str(buf, " "),
        Speaker::Clippy => emit_str(buf, "  "),
        Speaker::Cow => emit_str(buf, ""),
    }
    proof {
        lemma_encode_utf8_concat(top + eye, gap);
    }
    emit_eye(buf, eyes);
    proof {
        lemma_encode_utf8_concat(top + eye + gap, eye);
    }
    match speaker {
        Speaker::Ferris => emit_str(buf, "  \\ (/\n          '_   -   _'\n          / '-----' \\\n"),
        Speaker::Clippy => emit_str(buf, "\n           |  |\n           || |/\n           || ||\n           |\\_/|\n           \\___/\n"),
        Speaker::Cow => emit_str(buf, ")\\_______\n            (__)\\       )\\/\\\n                ||----w |\n                ||     ||\n"),
    }
    proof {
        lemma_encode_utf8_concat(top + eye + gap + eye, mascot_bottom(*speaker));
        assert(buf_bytes(*buf) =~= buf_bytes(*old(buf)) + encode_utf8(mascot_art(*speaker, *eyes)));
    }
}

} // verus!
