use iso_9660::ascii_character_sets::a_characters::convert_char_to_a_character_set;
use iso_9660::ascii_character_sets::d_characters::convert_char_to_d_character_set;

#[test]
fn convert_char_to_a_character_set_valid_characters() {
    const VALID_CHARS: &str = "ABCDEFGHIJKLMNOPQRSTUVWXYZ_ !\"%'()*+,-./:;<=>?";

    for input in VALID_CHARS.chars() {
        let output = convert_char_to_a_character_set(input).expect("Failed to convert char!");

        assert_eq!(output, input as u8);
    }
}

#[test]
fn convert_char_to_a_character_set_invalid_characters() {
    const INVALID_CHARS: &str = "abcdefghijklmnoqrstuvwxyz[]{}^@#";

    for input in INVALID_CHARS.chars() {
        let output = convert_char_to_a_character_set(input);

        assert_eq!(None, output);
    }
}

#[test]
fn convert_char_to_a_character_set_accepts_digits() {
    for input in "0123456789".chars() {
        let output = convert_char_to_a_character_set(input).expect("Failed to convert char!");

        assert_eq!(output, input as u8);
    }
}

#[test]
fn convert_char_to_d_character_set_valid_characters() {
    const VALID_CHARS: &str = "ABCDEFGHIJKLMNOPQRSTUVWXYZ_";

    for input in VALID_CHARS.chars() {
        let output = convert_char_to_d_character_set(input).expect("Failed to convert char!");

        assert_eq!(output, input as u8);
    }
}

#[test]
fn convert_char_to_d_character_set_invalid_characters() {
    const INVALID_CHARS: &str = "!abcdefghijklmnoqrstuvwxyz-=";

    for input in INVALID_CHARS.chars() {
        let output = convert_char_to_d_character_set(input);

        assert_eq!(None, output);
    }
}

#[test]
fn convert_char_to_d_character_set_accepts_digits() {
    for input in "0123456789".chars() {
        let output = convert_char_to_d_character_set(input).expect("Failed to convert char!");

        assert_eq!(output, input as u8);
    }
}

#[test]
fn d_characters_reject_a_only_characters() {
    // Characters the a-character set admits but the d-character set rejects.
    for input in " !\"%'()*+,-./:;<=>?".chars() {
        assert_eq!(Some(input as u8), convert_char_to_a_character_set(input));
        assert_eq!(None, convert_char_to_d_character_set(input));
    }
}

#[test]
fn non_ascii_characters_are_rejected_by_both_sets() {
    for input in ['\u{80}', 'é', 'Ω', '\u{1F4BF}', '\n', '\t', '\u{7f}'] {
        assert_eq!(None, convert_char_to_a_character_set(input));
        assert_eq!(None, convert_char_to_d_character_set(input));
    }
}
