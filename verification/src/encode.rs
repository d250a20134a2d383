//! The protocol encoder: pure translation of a work order into the
//! sequence of outbound command lines, and of the one-time initialization
//! into its command lines. The encoder never reads.

use vstd::prelude::*;

use crate::api::{Clock, EngineFlavor, Level, NodeBudget, Position, StockfishInit, Variant, Work};
use crate::num::{dec_rep, dec_rep_signed};
use crate::text::join_sp;
use vstd::string::StringExecFns;

verus! {

/// The name each variant has for the engine's `UCI_Variant` option.
pub open spec fn spec_variant_uci(v: Variant) -> Seq<char> {
    match v {
        Variant::Chess => "chess"@,
        Variant::Atomic => "atomic"@,
        Variant::Antichess => "antichess"@,
        Variant::KingOfTheHill => "kingofthehill"@,
        Variant::ThreeCheck => "3check"@,
        Variant::Crazyhouse => "crazyhouse"@,
        Variant::RacingKings => "racingkings"@,
        Variant::Horde => "horde"@,
    }
}

/// Relies on shakmaty's `variant::Variant::uci`, which maps each variant
/// to the name the `UCI_Variant` option expects.
#[verifier::external_body]
fn variant_uci(v: Variant) -> (r: String)
    ensures
        r@ == spec_variant_uci(v),
{
    let sv = match v {
        Variant::Chess => shakmaty::variant::Variant::Chess,
        Variant::Atomic => shakmaty::variant::Variant::Atomic,
        Variant::Antichess => shakmaty::variant::Variant::Antichess,
        Variant::KingOfTheHill => shakmaty::variant::Variant::KingOfTheHill,
        Variant::ThreeCheck => shakmaty::variant::Variant::ThreeCheck,
        Variant::Crazyhouse => shakmaty::variant::Variant::Crazyhouse,
        Variant::RacingKings => shakmaty::variant::Variant::RacingKings,
        Variant::Horde => shakmaty::variant::Variant::Horde,
    };
    sv.uci().to_owned()
}

pub open spec fn spec_bool(b: bool) -> Seq<char> {
    if b {
        "true"@
    } else {
        "false"@
    }
}

fn bool_str(b: bool) -> (r: &'static str)
    ensures
        r@ == spec_bool(b),
{
    if b {
        "true"
    } else {
        "false"
    }
}

/// The one-time initialization commands: load the evaluation network,
/// enable extended start positions, and ask for a readiness confirmation.
pub open spec fn spec_encode_init(init: StockfishInit) -> Seq<Seq<char>> {
    seq![
        "setoption name EvalFile value "@ + init.nnue@,
        "setoption name UCI_Chess960 value true"@,
        "isready"@,
    ]
}

pub fn encode_init(init: &StockfishInit) -> (cmds: Vec<String>)
    ensures
        cmds.deep_view() == spec_encode_init(*init),
{
    let mut cmds: Vec<String> = Vec::new();
    let mut s = String::from_str("setoption name EvalFile value ");
    s.append(init.nnue.as_str());
    cmds.push(s);
    cmds.push(String::from_str("setoption name UCI_Chess960 value true"));
    cmds.push(String::from_str("isready"));
    proof {
        assert(cmds.deep_view() =~~= spec_encode_init(*init));
    }
    cmds
}

pub open spec fn spec_nnue_cmd(flavor: EngineFlavor) -> Seq<char> {
    "setoption name Use NNUE value "@ + spec_bool(flavor.spec_eval_flavor().spec_is_nnue())
}

pub open spec fn spec_variant_cmd(v: Variant) -> Seq<char> {
    "setoption name UCI_Variant value "@ + spec_variant_uci(v)
}

pub open spec fn spec_multipv_cmd(w: Work) -> Seq<char> {
    "setoption name MultiPV value "@ + dec_rep(w.spec_multipv() as nat)
}

pub open spec fn spec_position_cmd(fen: Seq<char>, moves: Seq<Seq<char>>) -> Seq<char> {
    "position fen "@ + fen + " moves "@ + join_sp(moves)
}

pub open spec fn spec_skill_cmd(level: Level) -> Seq<char> {
    "setoption name Skill Level value "@ + dec_rep_signed(level.spec_skill() as int)
}

/// The clock fields of a Move-kind search command; empty when the order
/// carries no clock. Remaining times arrive in centiseconds and are passed
/// on in whole milliseconds.
pub open spec fn spec_clock_suffix(clock: Option<Clock>) -> Seq<char> {
    match clock {
        None => Seq::empty(),
        Some(c) => " wtime "@ + dec_rep((c.wtime * 10) as nat) + " btime "@ + dec_rep(
            (c.btime * 10) as nat,
        ) + " winc "@ + dec_rep(c.inc as nat) + " binc "@ + dec_rep(c.inc as nat),
    }
}

pub open spec fn spec_go_move(level: Level, clock: Option<Clock>) -> Seq<char> {
    "go movetime "@ + dec_rep(level.spec_time_ms() as nat) + " depth "@ + dec_rep(
        level.spec_depth() as nat,
    ) + spec_clock_suffix(clock)
}

/// The depth ceiling of an Analysis-kind search command; empty when none
/// was requested.
pub open spec fn spec_depth_suffix(depth: Option<u32>) -> Seq<char> {
    match depth {
        None => Seq::empty(),
        Some(d) => " depth "@ + dec_rep(d as nat),
    }
}

pub open spec fn spec_go_analysis(nodes: NodeBudget, depth: Option<u32>, flavor: EngineFlavor)
    -> Seq<char> {
    "go nodes "@ + dec_rep(nodes.spec_get(flavor.spec_eval_flavor()) as nat) + spec_depth_suffix(
        depth,
    )
}

/// The work-kind specific tail of the command sequence.
pub open spec fn spec_work_cmds(w: Work, flavor: EngineFlavor) -> Seq<Seq<char>> {
    match w {
        Work::Move { level, clock, .. } => seq![
            "setoption name UCI_AnalyseMode value false"@,
            spec_skill_cmd(level),
            spec_go_move(level, clock),
        ],
        Work::Analysis { nodes, depth, .. } => seq![
            "setoption name UCI_AnalyseMode value true"@,
            "setoption name Skill Level value 20"@,
            spec_go_analysis(nodes, depth, flavor),
        ],
    }
}

/// The full command sequence generated for one work order.
pub open spec fn spec_encode(p: Position) -> Seq<Seq<char>> {
    seq!["ucinewgame"@, spec_nnue_cmd(p.flavor)] + (if p.flavor is MultiVariant {
        seq![spec_variant_cmd(p.variant)]
    } else {
        Seq::<Seq<char>>::empty()
    }) + seq![spec_multipv_cmd(p.work), spec_position_cmd(p.root_fen@, p.moves.deep_view())]
        + spec_work_cmds(p.work, p.flavor)
}

/// Generate the command lines for one work order: reset the engine, set
/// the evaluation mode, variant (multi-variant flavor only), line count
/// and position, then the work-kind specific mode, skill and search
/// commands.
pub fn encode(position: &Position) -> (cmds: Vec<String>)
    ensures
        cmds.deep_view() == spec_encode(*position),
{
    let mut cmds: Vec<String> = Vec::new();
    cmds.push(String::from_str("ucinewgame"));

    let mut nnue = String::from_str("setoption name Use NNUE value ");
    nnue.append(bool_str(position.flavor.eval_flavor().is_nnue()));
    cmds.push(nnue);

    if matches!(position.flavor, EngineFlavor::MultiVariant) {
        let mut var = String::from_str("setoption name UCI_Variant value ");
        var.append(variant_uci(position.variant).as_str());
        cmds.push(var);
    }

    let mut mpv = String::from_str("setoption name MultiPV value ");
    mpv.append(crate::num::u64_dec(position.work.multipv() as u64).as_str());
    cmds.push(mpv);

    let mut pos = String::from_str("position fen ");
    pos.append(position.root_fen.as_str());
    pos.append(" moves ");
    pos.append(crate::text::join_spaces(&position.moves).as_str());
    proof {
        assert(pos@ =~= spec_position_cmd(position.root_fen@, position.moves.deep_view()));
    }
    cmds.push(pos);

    match &position.work {
        Work::Move { level, clock, .. } => {
            cmds.push(String::from_str("setoption name UCI_AnalyseMode value false"));

            let mut skill = String::from_str("setoption name Skill Level value ");
            skill.append(crate::num::i32_dec(level.skill_level()).as_str());
            cmds.push(skill);

            let mut go = String::from_str("go movetime ");
            go.append(crate::num::u64_dec(level.time_ms()).as_str());
            go.append(" depth ");
            go.append(crate::num::u64_dec(level.depth() as u64).as_str());
            if let Some(c) = clock {
                go.append(" wtime ");
                go.append(crate::num::u64_dec((c.wtime as u64) * 10).as_str());
                go.append(" btime ");
                go.append(crate::num::u64_dec((c.btime as u64) * 10).as_str());
                go.append(" winc ");
                go.append(crate::num::u64_dec(c.inc).as_str());
                go.append(" binc ");
                go.append(crate::num::u64_dec(c.inc).as_str());
            }
            proof {
                assert(go@ =~= spec_go_move(*level, *clock));
            }
            cmds.push(go);
        },
        Work::Analysis { nodes, depth, .. } => {
            cmds.push(String::from_str("setoption name UCI_AnalyseMode value true"));
            cmds.push(String::from_str("setoption name Skill Level value 20"));

            let mut go = String::from_str("go nodes ");
            go.append(
                crate::num::u64_dec(nodes.get(position.flavor.eval_flavor())).as_str(),
            );
            if let Some(d) = depth {
                go.append(" depth ");
                go.append(crate::num::u64_dec(*d as u64).as_str());
            }
            proof {
                assert(go@ =~= spec_go_analysis(*nodes, *depth, position.flavor));
            }
            cmds.push(go);
        },
    }
    proof {
        assert(cmds.deep_view() =~~= spec_encode(*position));
    }
    cmds
}

/// Law: every Move-kind order disables analysis mode, and its search
/// command always carries a movetime bound and a depth bound; the clock
/// fields stand in the command exactly when the order carries a clock.
pub proof fn lemma_move_order_commands(p: Position, id: u64, level: Level, clock: Option<Clock>)
    requires
        p.work == (Work::Move { id, level, clock }),
    ensures
        spec_encode(p).contains("setoption name UCI_AnalyseMode value false"@),
        spec_encode(p).last() == spec_go_move(level, clock),
        spec_go_move(level, clock) == "go movetime "@ + dec_rep(level.spec_time_ms() as nat)
            + " depth "@ + dec_rep(level.spec_depth() as nat) + spec_clock_suffix(clock),
        (spec_clock_suffix(clock).len() == 0) <==> clock is None,
{
    let cmds = spec_encode(p);
    let w = spec_work_cmds(p.work, p.flavor);
    assert(cmds.contains("setoption name UCI_AnalyseMode value false"@)) by {
        if p.flavor is MultiVariant {
            assert(cmds[5] == w[0]);
        } else {
            assert(cmds[4] == w[0]);
        }
    }
    if clock is Some {
        reveal_strlit(" wtime ");
        assert(spec_clock_suffix(clock).len() > 0);
    }
}

/// Law: every Analysis-kind order enables analysis mode, fixes skill at
/// the maximum, and its search command always carries a node bound; a
/// depth bound stands in the command exactly when the order requests one.
pub proof fn lemma_analysis_order_commands(
    p: Position,
    id: u64,
    nodes: NodeBudget,
    depth: Option<u32>,
    multipv: u8,
)
    requires
        p.work == (Work::Analysis { id, nodes, depth, multipv }),
    ensures
        spec_encode(p).contains("setoption name UCI_AnalyseMode value true"@),
        spec_encode(p).contains("setoption name Skill Level value 20"@),
        spec_encode(p).last() == spec_go_analysis(nodes, depth, p.flavor),
        spec_go_analysis(nodes, depth, p.flavor) == "go nodes "@ + dec_rep(
            nodes.spec_get(p.flavor.spec_eval_flavor()) as nat,
        ) + spec_depth_suffix(depth),
        (spec_depth_suffix(depth).len() == 0) <==> depth is None,
{
    let cmds = spec_encode(p);
    let w = spec_work_cmds(p.work, p.flavor);
    assert(cmds.contains("setoption name UCI_AnalyseMode value true"@) && cmds.contains(
        "setoption name Skill Level value 20"@,
    )) by {
        if p.flavor is MultiVariant {
            assert(cmds[5] == w[0]);
            assert(cmds[6] == w[1]);
        } else {
            assert(cmds[4] == w[0]);
            assert(cmds[5] == w[1]);
        }
    }
    if depth is Some {
        reveal_strlit(" depth ");
        assert(spec_depth_suffix(depth).len() > 0);
    }
}

} // verus!
