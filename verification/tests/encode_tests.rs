use stockfish_actor::api::{
    Clock, EngineFlavor, Level, NodeBudget, Position, StockfishInit, Variant, Work,
};
use stockfish_actor::encode::{encode, encode_init};

fn fen() -> String {
    "rnbqkbnr/pppppppp/8/8/8/8/PPPPPPPP/RNBQKBNR w KQkq - 0 1".to_string()
}

#[test]
fn encode_init_commands() {
    let init = StockfishInit { nnue: "nn-abc123.nnue".to_string() };
    let cmds = encode_init(&init);
    assert_eq!(
        cmds,
        vec![
            "setoption name EvalFile value nn-abc123.nnue".to_string(),
            "setoption name UCI_Chess960 value true".to_string(),
            "isready".to_string(),
        ]
    );
}

#[test]
fn move_order_without_clock() {
    let p = Position {
        work: Work::Move { id: 7, level: Level::Eight, clock: None },
        position_id: 0,
        url: None,
        flavor: EngineFlavor::Official,
        variant: Variant::Chess,
        root_fen: fen(),
        moves: vec!["e2e4".to_string(), "e7e5".to_string()],
    };
    let cmds = encode(&p);
    assert_eq!(
        cmds,
        vec![
            "ucinewgame".to_string(),
            "setoption name Use NNUE value true".to_string(),
            "setoption name MultiPV value 1".to_string(),
            format!("position fen {} moves e2e4 e7e5", fen()),
            "setoption name UCI_AnalyseMode value false".to_string(),
            "setoption name Skill Level value 20".to_string(),
            "go movetime 1000 depth 22".to_string(),
        ]
    );
}

#[test]
fn move_order_with_clock() {
    let p = Position {
        work: Work::Move {
            id: 7,
            level: Level::One,
            clock: Some(Clock { wtime: 6000, btime: 3000, inc: 2000 }),
        },
        position_id: 0,
        url: None,
        flavor: EngineFlavor::Official,
        variant: Variant::Chess,
        root_fen: fen(),
        moves: vec![],
    };
    let cmds = encode(&p);
    assert_eq!(cmds[4], "setoption name UCI_AnalyseMode value false");
    assert_eq!(cmds[5], "setoption name Skill Level value -9");
    assert_eq!(
        cmds[6],
        "go movetime 50 depth 5 wtime 60000 btime 30000 winc 2000 binc 2000"
    );
    // Empty move list still yields the position command with its tail.
    assert_eq!(cmds[3], format!("position fen {} moves ", fen()));
}

#[test]
fn analysis_order_multivariant() {
    let p = Position {
        work: Work::Analysis {
            id: 9,
            nodes: NodeBudget { nnue: 2_250_000, classical: 4_050_000 },
            depth: Some(25),
            multipv: 2,
        },
        position_id: 1,
        url: None,
        flavor: EngineFlavor::MultiVariant,
        variant: Variant::KingOfTheHill,
        root_fen: fen(),
        moves: vec!["d2d4".to_string()],
    };
    let cmds = encode(&p);
    assert_eq!(
        cmds,
        vec![
            "ucinewgame".to_string(),
            "setoption name Use NNUE value false".to_string(),
            "setoption name UCI_Variant value kingofthehill".to_string(),
            "setoption name MultiPV value 2".to_string(),
            format!("position fen {} moves d2d4", fen()),
            "setoption name UCI_AnalyseMode value true".to_string(),
            "setoption name Skill Level value 20".to_string(),
            "go nodes 4050000 depth 25".to_string(),
        ]
    );
}

#[test]
fn analysis_order_without_depth() {
    let p = Position {
        work: Work::Analysis {
            id: 9,
            nodes: NodeBudget { nnue: 2_250_000, classical: 4_050_000 },
            depth: None,
            multipv: 1,
        },
        position_id: 1,
        url: None,
        flavor: EngineFlavor::Official,
        variant: Variant::Chess,
        root_fen: fen(),
        moves: vec![],
    };
    let cmds = encode(&p);
    assert_eq!(cmds.last().unwrap(), "go nodes 2250000");
    assert_eq!(cmds[1], "setoption name Use NNUE value true");
    // Official flavor never sets the variant option.
    assert!(!cmds.iter().any(|c| c.starts_with("setoption name UCI_Variant")));
}

#[test]
fn variant_names() {
    for (variant, name) in [
        (Variant::Chess, "chess"),
        (Variant::Atomic, "atomic"),
        (Variant::Antichess, "antichess"),
        (Variant::KingOfTheHill, "kingofthehill"),
        (Variant::ThreeCheck, "3check"),
        (Variant::Crazyhouse, "crazyhouse"),
        (Variant::RacingKings, "racingkings"),
        (Variant::Horde, "horde"),
    ] {
        let p = Position {
            work: Work::Analysis {
                id: 0,
                nodes: NodeBudget { nnue: 1, classical: 1 },
                depth: None,
                multipv: 1,
            },
            position_id: 0,
            url: None,
            flavor: EngineFlavor::MultiVariant,
            variant,
            root_fen: fen(),
            moves: vec![],
        };
        let cmds = encode(&p);
        assert_eq!(cmds[2], format!("setoption name UCI_Variant value {}", name));
    }
}
