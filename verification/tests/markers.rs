use hextool::unhex::strip;
use hextool::{Convert, UnHex};
use regex::Regex;

fn stripped(text: &str) -> String {
    let v: Vec<char> = text.chars().collect();
    strip(&v).into_iter().collect()
}

fn words(alphabet: &[char], length: usize) -> Vec<String> {
    let mut all = vec![String::new()];
    for _ in 0..length {
        let mut longer = Vec::new();
        for w in &all {
            for c in alphabet {
                let mut next = w.clone();
                next.push(*c);
                longer.push(next);
            }
        }
        all = longer;
    }
    all
}

#[test]
fn strip_removes_what_the_pattern_matches() {
    let re = Regex::new("0[xX]").unwrap();
    for text in [
        "",
        "0",
        "x",
        "0x",
        "0X",
        "0xff",
        "ff0x",
        "0x0x",
        "00xx",
        "000xxx",
        "0x0X0x41",
        "x0x0",
        "0 x",
        "0|41",
        "hello 0x world 0X",
        "\u{e9}0x\u{e9}",
    ] {
        assert_eq!(stripped(text), re.replace_all(text, "").into_owned());
    }
}

#[test]
fn strip_agrees_with_the_pattern_on_every_short_word() {
    let re = Regex::new("0[xX]").unwrap();
    let alphabet = ['0', 'x', 'X', 'a', '|'];
    for length in 0..=6 {
        for w in words(&alphabet, length) {
            assert_eq!(stripped(&w), re.replace_all(&w, "").into_owned());
        }
    }
}

#[test]
fn decoding_sees_the_text_without_its_markers() {
    let re = Regex::new("0[xX]").unwrap();
    for text in ["0x41", "0X410x42", "410x4", "0x0x0x", "0xg", ""] {
        let cleaned = re.replace_all(text, "").into_owned();
        assert_eq!(UnHex::convert(text, false, false), UnHex::convert(&cleaned, false, false));
        assert_eq!(UnHex::convert(text, true, false), UnHex::convert(&cleaned, true, false));
    }
}
