use mo::morse::{decode_symbols, encode_character, MorseSymbol};

use MorseSymbol::{Dah, Dit};

#[test]
fn every_letter_round_trips() {
    for c in 'a'..='z' {
        let code = encode_character(c).expect("letters have a code");
        assert_eq!(decode_symbols(code.symbols()), Some(c));
    }
}

#[test]
fn known_codes() {
    assert_eq!(encode_character('a').unwrap().symbols(), &vec![Dit, Dah]);
    assert_eq!(encode_character('e').unwrap().symbols(), &vec![Dit]);
    assert_eq!(encode_character('t').unwrap().symbols(), &vec![Dah]);
    assert_eq!(encode_character('q').unwrap().symbols(), &vec![Dah, Dah, Dit, Dah]);
    assert_eq!(decode_symbols(&vec![Dah, Dit, Dah, Dit]), Some('c'));
    assert_eq!(decode_symbols(&vec![Dit, Dit, Dit]), Some('s'));
    assert_eq!(decode_symbols(&vec![Dah, Dah, Dah]), Some('o'));
}

#[test]
fn four_dahs_do_not_decode() {
    assert_eq!(decode_symbols(&vec![Dah, Dah, Dah, Dah]), None);
    assert_eq!(decode_symbols(&vec![Dit, Dah, Dit, Dah]), None);
    assert_eq!(decode_symbols(&vec![Dah, Dah, Dit, Dit, Dit]), None);
}

#[test]
fn empty_sequence_does_not_decode() {
    assert_eq!(decode_symbols(&vec![]), None);
}

#[test]
fn no_encoding_for_other_characters() {
    assert!(encode_character('A').is_none());
    assert!(encode_character('1').is_none());
    assert!(encode_character(' ').is_none());
    assert!(encode_character('{').is_none());
    assert!(encode_character('`').is_none());
}

#[test]
fn code_table_text() {
    assert_eq!(encode_character('a').unwrap().to_string(), "• — ".to_string() + "      ");
    assert_eq!(encode_character('h').unwrap().to_string(), "• • • • ".to_string() + "  ");
    assert_eq!(encode_character('t').unwrap().to_string(), "— ".to_string() + "        ");
}
