use ferris_says::say;
use ferris_says::set_speaker;
use ferris_says::think;
use ferris_says::perform;
use ferris_says::Eyes;
use ferris_says::FerrisConfig;
use ferris_says::Selector;
use ferris_says::Speaker;
use ferris_says::SpeechModes;

// Default width when running the binary
const DEFAULT_WIDTH: usize = 40;

const SPEECH_BUBBLE: &str = "        \\\n         \\";
const THOUGHT_BUBBLE: &str = "        o\n         o";

const FERRIS_TOP: &str = "\n            _~^~^~_\n        \\) /  ";
const FERRIS_BOTTOM: &str = "  \\ (/\n          '_   -   _'\n          / '-----' \\\n";

const CLIPPY_TOP: &str = "\n            __\n           /  \\\n           |  |\n           ";
const CLIPPY_BOTTOM: &str =
    "\n           |  |\n           || |/\n           || ||\n           |\\_/|\n           \\___/\n";

#[test]
fn hello_fellow_rustaceans_width_24() -> Result<(), ()> {
    //Hello fellow Rustaceans!
    let speech = String::from(" __________________________\n< Hello fellow Rustaceans! >\n --------------------------\n");
    let input = b"Hello fellow Rustaceans!";
    let width = 24;
    generic_tests(speech, width, input);
    Ok(())
}

#[test]
fn hello_fellow_rustaceans_width_12() -> Result<(), ()> {
    //Hello fellow Rustaceans!
    let speech = String::from(" ______________\n/ Hello fellow \\\n\\ Rustaceans!  /\n --------------\n");
    let input = b"Hello fellow Rustaceans!";
    let width = 12;
    generic_tests(speech, width, input);
    Ok(())
}

#[test]
fn hello_fellow_rustaceans_width_6() -> Result<(), ()> {
    let speech = String::from(" ________\n/ Hello  \\\n| fellow |\n| Rustac |\n\\ eans!  /\n --------\n");
    let input = b"Hello fellow Rustaceans!";
    let width = 6;
    generic_tests(speech, width, input);
    Ok(())
}

#[test]
fn hello_fellow_rustaceans_width_3() -> Result<(), ()> {
    //Hello fellow Rustaceans!
    let speech = String::from(" _____\n/ Hel \\\n| lo  |\n| fel |\n| low |\n| Rus |\n| tac |\n| ean |\n\\ s!  /\n -----\n");

    let input = b"Hello fellow Rustaceans!";
    let width = 3;
    generic_tests(speech, width, input);
    Ok(())
}

#[test]
fn multibyte_string() -> Result<(), ()> {
    //Hello fellow Rustaceans!
    let speech = String::from(" ____________\n< 突然の死👻 >\n ------------\n");
    let input = "突然の死👻";
    let width = DEFAULT_WIDTH;
    generic_tests(speech, width, input.as_bytes());
    Ok(())
}

fn create_ferris(
    speech: String,
    top_part: &str,
    eye: &str,
    eye_gap: &str,
    bottom_part: &str,
) -> (String, String) {
    let expected_say =
        speech.clone() + SPEECH_BUBBLE + top_part + eye + eye_gap + eye + bottom_part;
    let expected_think =
        speech.clone() + THOUGHT_BUBBLE + top_part + eye + eye_gap + eye + bottom_part;
    (expected_say, expected_think)
}

fn compare_strings_perform(
    input: &[u8],
    width: usize,
    expected: &[u8],
    speaker: Speaker,
    cfg: &FerrisConfig,
) {
    let mut sel = Selector::new();
    set_speaker(&mut sel, &speaker);
    let mut vec = Vec::new();
    perform(input, width, &mut vec, &sel, cfg).unwrap();
    let actual = std::str::from_utf8(&vec).unwrap();
    println!("{}", std::str::from_utf8(expected).unwrap());
    println!("{}", actual);
    assert_eq!(std::str::from_utf8(expected).unwrap(), actual);
}

fn compare_strings_say_think(
    input: &[u8],
    width: usize,
    expected: &[u8],
    speaker: Speaker,
    mode: &SpeechModes,
    eyes: &Eyes,
) {
    let mut sel = Selector::new();
    set_speaker(&mut sel, &speaker);
    let mut vec = Vec::new();
    match mode {
        SpeechModes::Say => {
            say(input, width, &mut vec, &sel, eyes).unwrap();
        }
        SpeechModes::Think => {
            think(input, width, &mut vec, &sel, eyes).unwrap();
        }
    };
    let actual = std::str::from_utf8(&vec).unwrap();
    println!("{}", std::str::from_utf8(expected).unwrap());
    println!("{}", actual);
    assert_eq!(std::str::from_utf8(expected).unwrap(), actual);
}

fn generic_tests(speech: String, width: usize, input: &[u8]) {
    let (expected_say, expected_think) =
        create_ferris(speech.clone(), FERRIS_TOP, "o", " ", FERRIS_BOTTOM);
    let (happy_say, happy_think) =
        create_ferris(speech.clone(), FERRIS_TOP, "^", " ", FERRIS_BOTTOM);
    let (expected_say_clippy, expected_think_clippy) =
        create_ferris(speech.clone(), CLIPPY_TOP, "o", "  ", CLIPPY_BOTTOM);
    let (happy_say_clippy, happy_think_clippy) =
        create_ferris(speech.clone(), CLIPPY_TOP, "^", "  ", CLIPPY_BOTTOM);
    let say_cfg = FerrisConfig {
        mode: SpeechModes::Say,
        eyes: Eyes::RegularEyes,
    };
    let think_cfg = FerrisConfig {
        mode: SpeechModes::Think,
        eyes: Eyes::RegularEyes,
    };

    compare_strings_perform(input, width, expected_say.as_bytes(), Speaker::Ferris, &say_cfg);
    compare_strings_perform(input, width, expected_think.as_bytes(), Speaker::Ferris, &think_cfg);
    compare_strings_say_think(
        input,
        width,
        happy_say.as_bytes(),
        Speaker::Ferris,
        &SpeechModes::Say,
        &Eyes::HappyEyes,
    );
    compare_strings_say_think(
        input,
        width,
        happy_think.as_bytes(),
        Speaker::Ferris,
        &SpeechModes::Think,
        &Eyes::HappyEyes,
    );

    compare_strings_perform(
        input,
        width,
        expected_say_clippy.as_bytes(),
        Speaker::Clippy,
        &say_cfg,
    );
    compare_strings_perform(
        input,
        width,
        expected_think_clippy.as_bytes(),
        Speaker::Clippy,
        &think_cfg,
    );
    compare_strings_say_think(
        input,
        width,
        happy_say_clippy.as_bytes(),
        Speaker::Clippy,
        &SpeechModes::Say,
        &Eyes::HappyEyes,
    );
    compare_strings_say_think(
        input,
        width,
        happy_think_clippy.as_bytes(),
        Speaker::Clippy,
        &SpeechModes::Think,
        &Eyes::HappyEyes,
    );
}
