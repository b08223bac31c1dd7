use ferris_says::perform;
use ferris_says::say;
use ferris_says::set_speaker;
use ferris_says::Eyes;
use ferris_says::FerrisConfig;
use ferris_says::SayError;
use ferris_says::Selector;
use ferris_says::Speaker;
use ferris_says::SpeechModes;

const SPEECH_BUBBLE: &str = "        \\\n         \\";

const FERRIS_TOP: &str = "\n            _~^~^~_\n        \\) /  ";
const FERRIS_BOTTOM: &str = "  \\ (/\n          '_   -   _'\n          / '-----' \\\n";

const COW_TOP: &str = "\n            ^__^\n            (";
const COW_BOTTOM: &str =
    ")\\_______\n            (__)\\       )\\/\\\n                ||----w |\n                ||     ||\n";

fn render_say(input: &[u8], width: usize, speaker: Speaker, eyes: Eyes) -> Vec<u8> {
    let mut sel = Selector::new();
    set_speaker(&mut sel, &speaker);
    let mut out = Vec::new();
    say(input, width, &mut out, &sel, &eyes).unwrap();
    out
}

#[test]
fn empty_input_minimal_bubble() {
    let expected = String::from(" __\n<  >\n --\n")
        + SPEECH_BUBBLE
        + FERRIS_TOP
        + "o o"
        + FERRIS_BOTTOM;
    let out = render_say(b"", 40, Speaker::Ferris, Eyes::RegularEyes);
    assert_eq!(expected.as_bytes(), &out[..]);
}

#[test]
fn invalid_utf8_fails_and_writes_nothing() {
    let sel = Selector::new();
    let cfg = FerrisConfig {
        mode: SpeechModes::Say,
        eyes: Eyes::RegularEyes,
    };
    let input: &[u8] = &[0xff, 0xfe, 0x48];
    let mut out = Vec::new();
    let r = perform(input, 40, &mut out, &sel, &cfg);
    assert_eq!(r, Err(SayError::InvalidEncoding));
    assert!(out.is_empty());
}

#[test]
fn rendering_twice_is_identical() {
    let input = b"Hello fellow Rustaceans!";
    let first = render_say(input, 24, Speaker::Clippy, Eyes::HappyEyes);
    let second = render_say(input, 24, Speaker::Clippy, Eyes::HappyEyes);
    assert_eq!(first, second);
}

#[test]
fn selector_changes_all_later_output() {
    let input = b"moo";
    let mut sel = Selector::new();
    let mut ferris_out = Vec::new();
    say(input, 24, &mut ferris_out, &sel, &Eyes::RegularEyes).unwrap();

    set_speaker(&mut sel, &Speaker::Cow);
    let mut cow_out = Vec::new();
    say(input, 24, &mut cow_out, &sel, &Eyes::RegularEyes).unwrap();
    let mut cow_again = Vec::new();
    say(input, 24, &mut cow_again, &sel, &Eyes::RegularEyes).unwrap();

    assert_ne!(ferris_out, cow_out);
    assert_eq!(cow_out, cow_again);

    let expected_cow = String::from(" _____\n< moo >\n -----\n")
        + SPEECH_BUBBLE
        + COW_TOP
        + "oo"
        + COW_BOTTOM;
    assert_eq!(expected_cow.as_bytes(), &cow_out[..]);
}

#[test]
fn every_eye_style_has_its_glyph() {
    let eyes = [
        (Eyes::RegularEyes, "o o"),
        (Eyes::GreedyEyes, "$ $"),
        (Eyes::YouthfulEyes, ". ."),
        (Eyes::ParanoidEyes, "@ @"),
        (Eyes::DeadEyes, "x x"),
        (Eyes::TiredEyes, "- -"),
        (Eyes::CryingEyes, "T T"),
        (Eyes::HappyEyes, "^ ^"),
    ];
    for (eye, pair) in eyes {
        let expected = String::from(" ____\n< hi >\n ----\n")
            + SPEECH_BUBBLE
            + FERRIS_TOP
            + pair
            + FERRIS_BOTTOM;
        let out = render_say(b"hi", 10, Speaker::Ferris, eye);
        assert_eq!(expected.as_bytes(), &out[..]);
    }
}

#[test]
fn zero_width_clamps_to_one_column() {
    let out_zero = render_say(b"a b", 0, Speaker::Ferris, Eyes::RegularEyes);
    let out_one = render_say(b"a b", 1, Speaker::Ferris, Eyes::RegularEyes);
    assert_eq!(out_zero, out_one);
    let text = std::str::from_utf8(&out_zero).unwrap();
    assert!(text.starts_with(" ___\n/ a \\\n\\ b /\n ---"));
}

#[test]
fn output_appends_after_existing_sink_contents() {
    let sel = Selector::new();
    let cfg = FerrisConfig {
        mode: SpeechModes::Say,
        eyes: Eyes::RegularEyes,
    };
    let mut out = b"prefix".to_vec();
    perform(b"hi", 10, &mut out, &sel, &cfg).unwrap();
    assert!(out.starts_with(b"prefix ____\n< hi >\n ----"));
}
