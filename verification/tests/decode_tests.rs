use stockfish_actor::api::{EngineFlavor, Level, Position, Score, Variant, Work};
use stockfish_actor::decode::{
    classify_init_line, into_response, DecodeError, InitLine, SearchResult, SearchState, Step,
};
use stockfish_actor::encode::encode;

fn feed_ok(st: SearchState, line: &str) -> SearchState {
    match st.feed(line) {
        Ok(Step::Recorded(next)) => next,
        other => panic!("expected a recorded report line, got {:?}", discriminant(&other)),
    }
}

fn discriminant(r: &Result<Step, DecodeError>) -> String {
    match r {
        Ok(Step::Unexpected(_)) => "unexpected".to_string(),
        Ok(Step::Recorded(_)) => "recorded".to_string(),
        Ok(Step::Done(_)) => "done".to_string(),
        Err(e) => format!("{:?}", e),
    }
}

fn feed_done(st: SearchState, line: &str) -> SearchResult {
    match st.feed(line) {
        Ok(Step::Done(result)) => result,
        other => panic!("expected the terminal line, got {:?}", discriminant(&other)),
    }
}

#[test]
fn terminal_before_any_score_is_missing_score() {
    let st = SearchState::new();
    match st.feed("bestmove e2e4") {
        Err(DecodeError::MissingScore) => {}
        other => panic!("expected a missing-score error, got {:?}", discriminant(&other)),
    }
}

#[test]
fn terminal_with_score_only_on_other_line_is_missing_score() {
    // A score recorded for line 2 does not satisfy the line-1 check.
    let st = SearchState::new();
    let st = feed_ok(st, "info multipv 2 depth 10 score cp 35");
    match st.feed("bestmove e2e4") {
        Err(DecodeError::MissingScore) => {}
        other => panic!("expected a missing-score error, got {:?}", discriminant(&other)),
    }
}

#[test]
fn best_score_tracks_line_one_by_depth() {
    let st = SearchState::new();
    let st = feed_ok(st, "info multipv 2 depth 10 score cp 35");
    let st = feed_ok(st, "info multipv 1 depth 12 score mate -3");
    let result = feed_done(st, "bestmove e2e4");
    assert_eq!(result.best_move.as_deref(), Some("e2e4"));
    assert_eq!(result.depth, 12);
    assert_eq!(result.scores.best(), Some(&Score::Mate(-3)));
    assert_eq!(result.scores.get(1, 12), Some(&Score::Mate(-3)));
    assert_eq!(result.scores.get(2, 10), Some(&Score::Cp(35)));
}

#[test]
fn round_trip_reproduces_transcript() {
    let order = Position {
        work: Work::Move { id: 42, level: Level::Eight, clock: None },
        position_id: 5,
        url: Some("https://example.invalid/batch/42".to_string()),
        flavor: EngineFlavor::Official,
        variant: Variant::Chess,
        root_fen: "rnbqkbnr/pppppppp/8/8/8/8/PPPPPPPP/RNBQKBNR w KQkq - 0 1".to_string(),
        moves: vec!["e2e4".to_string()],
    };
    let cmds = encode(&order);
    assert_eq!(cmds.last().unwrap(), "go movetime 1000 depth 22");

    let st = SearchState::new();
    let st = feed_ok(
        st,
        "info depth 22 seldepth 30 multipv 1 score cp 35 nodes 4000000 nps 2666666 time 1500 pv e7e5 g1f3",
    );
    let result = feed_done(st, "bestmove e7e5 ponder g1f3");
    assert_eq!(result.best_move.as_deref(), Some("e7e5"));
    assert_eq!(result.depth, 22);
    assert_eq!(result.nodes, 4_000_000);
    assert_eq!(result.time, 1500);
    assert_eq!(result.nps, Some(2_666_666));
    assert_eq!(
        result.pvs.get(1, 22),
        Some(&vec!["e7e5".to_string(), "g1f3".to_string()])
    );

    let response = into_response(order, result);
    assert_eq!(response.work.id(), 42);
    assert_eq!(response.position_id, 5);
    assert_eq!(response.best_move.as_deref(), Some("e7e5"));
    assert_eq!(response.depth, 22);
    assert_eq!(response.nodes, 4_000_000);
    assert_eq!(response.time, 1500);
}

#[test]
fn unparseable_best_move_token_is_dropped() {
    let st = SearchState::new();
    let st = feed_ok(st, "info depth 1 score cp 0");
    let result = feed_done(st, "bestmove (none)");
    assert_eq!(result.best_move, None);
}

#[test]
fn terminal_without_move_token() {
    let st = SearchState::new();
    let st = feed_ok(st, "info depth 1 score cp 0");
    let result = feed_done(st, "bestmove");
    assert_eq!(result.best_move, None);
}

#[test]
fn unknown_keys_are_skipped() {
    let st = SearchState::new();
    let st = feed_ok(st, "info string NNUE evaluation using nn.nnue enabled");
    let st = feed_ok(st, "info depth 3 currmove e2e4 currmovenumber 1 score cp 12");
    let result = feed_done(st, "bestmove e2e4");
    assert_eq!(result.scores.get(1, 3), Some(&Score::Cp(12)));
}

#[test]
fn unexpected_lines_are_reported_as_such() {
    let st = SearchState::new();
    match st.feed("Stockfish 16 by the Stockfish developers (see AUTHORS file)") {
        Ok(Step::Unexpected(_)) => {}
        other => panic!("expected an unexpected line, got {:?}", discriminant(&other)),
    }
    let st = SearchState::new();
    match st.feed("") {
        Ok(Step::Unexpected(_)) => {}
        other => panic!("expected an unexpected line, got {:?}", discriminant(&other)),
    }
}

#[test]
fn each_malformed_field_has_its_error() {
    let cases: Vec<(&str, DecodeError)> = vec![
        ("info multipv x", DecodeError::ExpectedMultipv),
        ("info multipv 0", DecodeError::ExpectedMultipv),
        ("info multipv", DecodeError::ExpectedMultipv),
        ("info depth x", DecodeError::ExpectedDepth),
        ("info depth", DecodeError::ExpectedDepth),
        ("info nodes x", DecodeError::ExpectedNodes),
        ("info nodes", DecodeError::ExpectedNodes),
        ("info time x", DecodeError::ExpectedTime),
        ("info time", DecodeError::ExpectedTime),
        ("info score", DecodeError::ExpectedCpOrMate),
        ("info score lowerbound", DecodeError::ExpectedCpOrMate),
        ("info score cp", DecodeError::ExpectedScore),
        ("info score cp zz", DecodeError::ExpectedScore),
        ("info score mate", DecodeError::ExpectedScore),
        ("info depth 5 score cp 1 pv e2e4 notamove", DecodeError::InvalidPv),
    ];
    for (line, expected) in cases {
        let st = SearchState::new();
        match st.feed(line) {
            Err(e) => assert_eq!(e, expected, "line: {}", line),
            other => panic!("expected an error for {}, got {:?}", line, discriminant(&other)),
        }
    }
}

#[test]
fn nps_key_without_value_clears_it() {
    let st = SearchState::new();
    let st = feed_ok(st, "info depth 1 score cp 0 nps 1000");
    let st = feed_ok(st, "info nps");
    let result = feed_done(st, "bestmove e2e4");
    assert_eq!(result.nps, None);
}

#[test]
fn later_report_overwrites_same_key() {
    let st = SearchState::new();
    let st = feed_ok(st, "info multipv 1 depth 9 score cp 10");
    let st = feed_ok(st, "info multipv 1 depth 9 score cp -4");
    let result = feed_done(st, "bestmove e2e4");
    assert_eq!(result.scores.get(1, 9), Some(&Score::Cp(-4)));
}

#[test]
fn init_lines_are_classified() {
    assert_eq!(classify_init_line("readyok"), InitLine::Ready);
    assert_eq!(classify_init_line("readyok\r"), InitLine::Ready);
    assert_eq!(
        classify_init_line("Stockfish 16 by the Stockfish developers"),
        InitLine::Banner
    );
    assert_eq!(classify_init_line("Fairy-Stockfish 14 by Fabian Fichter"), InitLine::Banner);
    assert_eq!(classify_init_line("option name Hash type spin"), InitLine::Other);
    assert_eq!(classify_init_line(""), InitLine::Other);
}
