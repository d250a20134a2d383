use stockfish_actor::api::{Level, Score};
use stockfish_actor::matrix::Matrix;
use stockfish_actor::num::{i32_dec, parse_i32, parse_nzu8, parse_u32, parse_u64, u64_dec};
use stockfish_actor::text::{join_spaces, split_spaces, str_starts_with, trim_end_ws};

#[test]
fn unsigned_parsing() {
    assert_eq!(parse_u64("123"), Some(123));
    assert_eq!(parse_u64("+7"), Some(7));
    assert_eq!(parse_u64("0"), Some(0));
    assert_eq!(parse_u64(""), None);
    assert_eq!(parse_u64("+"), None);
    assert_eq!(parse_u64("-1"), None);
    assert_eq!(parse_u64("12a"), None);
    assert_eq!(parse_u64("18446744073709551615"), Some(u64::MAX));
    assert_eq!(parse_u64("18446744073709551616"), None);
    assert_eq!(parse_u32("4294967295"), Some(u32::MAX));
    assert_eq!(parse_u32("4294967296"), None);
}

#[test]
fn line_index_parsing() {
    assert_eq!(parse_nzu8("1"), Some(1));
    assert_eq!(parse_nzu8("255"), Some(255));
    assert_eq!(parse_nzu8("0"), None);
    assert_eq!(parse_nzu8("256"), None);
    assert_eq!(parse_nzu8("two"), None);
}

#[test]
fn signed_parsing() {
    assert_eq!(parse_i32("-3"), Some(-3));
    assert_eq!(parse_i32("+35"), Some(35));
    assert_eq!(parse_i32("-2147483648"), Some(i32::MIN));
    assert_eq!(parse_i32("2147483648"), None);
    assert_eq!(parse_i32("-2147483649"), None);
    assert_eq!(parse_i32("-"), None);
    assert_eq!(parse_i32("-+3"), None);
}

#[test]
fn decimal_rendering() {
    assert_eq!(u64_dec(0), "0");
    assert_eq!(u64_dec(10), "10");
    assert_eq!(u64_dec(1234), "1234");
    assert_eq!(u64_dec(u64::MAX), "18446744073709551615");
    assert_eq!(i32_dec(-9), "-9");
    assert_eq!(i32_dec(20), "20");
    assert_eq!(i32_dec(0), "0");
    assert_eq!(i32_dec(i32::MIN), "-2147483648");
}

#[test]
fn tokenization_keeps_empty_tokens() {
    assert_eq!(split_spaces("a b"), vec!["a", "b"]);
    assert_eq!(split_spaces("a  b"), vec!["a", "", "b"]);
    assert_eq!(split_spaces(""), vec![""]);
    assert_eq!(split_spaces(" x"), vec!["", "x"]);
    assert_eq!(split_spaces("x "), vec!["x", ""]);
}

#[test]
fn joining_and_prefixes_and_trimming() {
    assert_eq!(join_spaces(&vec!["e2e4".to_string(), "e7e5".to_string()]), "e2e4 e7e5");
    assert_eq!(join_spaces(&vec![]), "");
    assert_eq!(join_spaces(&vec!["x".to_string()]), "x");
    assert!(str_starts_with("Stockfish 16", "Stockfish "));
    assert!(!str_starts_with("Stockfish", "Stockfish "));
    assert_eq!(trim_end_ws("readyok\r\n"), "readyok");
    assert_eq!(trim_end_ws("x \t"), "x");
    assert_eq!(trim_end_ws(""), "");
    assert_eq!(trim_end_ws(" a"), " a");
}

#[test]
fn table_overwrites_and_tracks_deepest_line_one_entry() {
    let mut m: Matrix<Score> = Matrix::new();
    assert_eq!(m.best(), None);
    assert_eq!(m.get(1, 0), None);
    m.set(1, 5, Score::Cp(10));
    m.set(1, 3, Score::Cp(-2));
    assert_eq!(m.best(), Some(&Score::Cp(10)));
    m.set(1, 5, Score::Mate(2));
    assert_eq!(m.get(1, 5), Some(&Score::Mate(2)));
    m.set(2, 9, Score::Cp(1));
    // Entries on other lines never show up as the line-1 best.
    assert_eq!(m.best(), Some(&Score::Mate(2)));
    assert_eq!(m.get(2, 9), Some(&Score::Cp(1)));
}

#[test]
fn level_tables() {
    assert_eq!(Level::One.skill_level(), -9);
    assert_eq!(Level::Eight.skill_level(), 20);
    assert_eq!(Level::One.time_ms(), 50);
    assert_eq!(Level::Eight.time_ms(), 1000);
    assert_eq!(Level::One.depth(), 5);
    assert_eq!(Level::Eight.depth(), 22);
}
