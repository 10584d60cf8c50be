use sink::loader::{hex_digit, parse_args_to_byte_array, parse_pair};

fn args(words: &[&str]) -> Vec<String> {
    words.iter().map(|w| w.to_string()).collect()
}

#[test]
fn parses_pairs_in_order() {
    assert_eq!(parse_args_to_byte_array(&args(&["8014"])), Some(vec![0x80, 0x14]));
    assert_eq!(
        parse_args_to_byte_array(&args(&["2100", "21", "0000"])),
        Some(vec![0x21, 0x00, 0x21, 0x00, 0x00])
    );
    assert_eq!(parse_args_to_byte_array(&args(&["fF", "aB", "00EE"])), Some(vec![255, 0xAB, 0, 0xEE]));
}

#[test]
fn empty_input_gives_no_bytes() {
    assert_eq!(parse_args_to_byte_array(&args(&[])), Some(vec![]));
    assert_eq!(parse_args_to_byte_array(&args(&["", ""])), Some(vec![]));
    assert_eq!(parse_args_to_byte_array(&args(&["", "0a", ""])), Some(vec![10]));
}

#[test]
fn odd_length_is_refused() {
    assert_eq!(parse_args_to_byte_array(&args(&["801"])), None);
    assert_eq!(parse_args_to_byte_array(&args(&["8014", "0"])), None);
    assert_eq!(parse_args_to_byte_array(&args(&["+"])), None);
}

#[test]
fn non_hex_pairs_are_refused() {
    assert_eq!(parse_args_to_byte_array(&args(&["80g4"])), None);
    assert_eq!(parse_args_to_byte_array(&args(&["0x80"])), None);
    assert_eq!(parse_args_to_byte_array(&args(&["-1"])), None);
    assert_eq!(parse_args_to_byte_array(&args(&["1+"])), None);
    assert_eq!(parse_args_to_byte_array(&args(&["++"])), None);
    assert_eq!(parse_args_to_byte_array(&args(&[" 1"])), None);
    assert_eq!(parse_args_to_byte_array(&args(&["1_"])), None);
    assert_eq!(parse_args_to_byte_array(&args(&["éé"])), None);
    assert_eq!(parse_args_to_byte_array(&args(&["00", "zz"])), None);
}

#[test]
fn a_plus_sign_may_lead_one_digit() {
    assert_eq!(parse_args_to_byte_array(&args(&["+A"])), Some(vec![10]));
    assert_eq!(parse_args_to_byte_array(&args(&["+0+f"])), Some(vec![0, 15]));
}

#[test]
fn pairs_agree_with_the_standard_radix_parser() {
    let alphabet = ['0', '7', '9', 'a', 'f', 'g', 'A', 'F', 'G', '+', '-', ' ', '_', 'x', '/', ':', '@', '`', 'é'];
    for &msb in alphabet.iter() {
        for &lsb in alphabet.iter() {
            let text: String = [msb, lsb].iter().collect();
            assert_eq!(parse_pair(msb, lsb), u8::from_str_radix(&text, 16).ok(), "{:?}", text);
        }
    }
}

#[test]
fn hex_digits() {
    assert_eq!(hex_digit('0'), Some(0));
    assert_eq!(hex_digit('9'), Some(9));
    assert_eq!(hex_digit('a'), Some(10));
    assert_eq!(hex_digit('f'), Some(15));
    assert_eq!(hex_digit('A'), Some(10));
    assert_eq!(hex_digit('F'), Some(15));
    assert_eq!(hex_digit('g'), None);
    assert_eq!(hex_digit('G'), None);
    assert_eq!(hex_digit('/'), None);
    assert_eq!(hex_digit(':'), None);
    assert_eq!(hex_digit('+'), None);
    for c in (0..=0x7Fu8).map(|b| b as char) {
        assert_eq!(hex_digit(c), c.to_digit(16).map(|d| d as u8));
    }
}

#[test]
fn parse_pair_values() {
    assert_eq!(parse_pair('8', '0'), Some(0x80));
    assert_eq!(parse_pair('f', 'F'), Some(255));
    assert_eq!(parse_pair('0', '0'), Some(0));
    assert_eq!(parse_pair('1', 'e'), Some(0x1E));
    assert_eq!(parse_pair('+', '7'), Some(7));
    assert_eq!(parse_pair('7', '+'), None);
}
