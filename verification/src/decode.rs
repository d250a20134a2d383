//! The protocol decoder: an incremental parser that consumes the engine's
//! output one line at a time, folds report lines into the response table,
//! and assembles the response at the terminal line. Also the classifier
//! for the lines read while waiting for the readiness confirmation.

use vstd::prelude::*;

use crate::api::{Position, Score, Work};
use crate::matrix::Matrix;
use crate::num::{
    parse_i32, parse_nzu8, parse_u32, parse_u64, spec_parse_i32, spec_parse_nzu8, spec_parse_u32,
    spec_parse_u64,
};
use crate::text::{
    spec_starts_with, split_sp, split_spaces, str_eq, str_starts_with, trim_end_idx, trim_end_ws,
};

verus! {

/// Why a report line or the terminal line was rejected as a protocol
/// error.
#[derive(Clone, Copy, Debug, PartialEq, Eq, Structural)]
pub enum DecodeError {
    /// A `multipv` key without a positive integer after it.
    ExpectedMultipv,
    /// A `depth` key without a number after it.
    ExpectedDepth,
    /// A `nodes` key without a number after it.
    ExpectedNodes,
    /// A `time` key without a number after it.
    ExpectedTime,
    /// A `score` key not followed by `cp` or `mate`.
    ExpectedCpOrMate,
    /// A score kind without a number after it.
    ExpectedScore,
    /// A principal-variation token that is not a move.
    InvalidPv,
    /// The terminal line arrived before any score was recorded for line 1.
    MissingScore,
}

/// Whether a token is syntactically valid UCI move notation; a function of
/// the characters alone.
pub uninterp spec fn uci_move_ok(s: Seq<char>) -> bool;

/// Relies on shakmaty's `UciMove` parsing (`from_ascii`, reached through
/// `str::parse`), which accepts or rejects a token on its characters
/// alone.
#[verifier::external_body]
fn is_uci_move(s: &str) -> (r: bool)
    ensures
        r == uci_move_ok(s@),
{
    s.parse::<shakmaty::uci::UciMove>().is_ok()
}

/// Mathematical model of the decoder state.
pub struct SearchModel {
    pub scores: Map<(int, int), Score>,
    pub pvs: Map<(int, int), Seq<Seq<char>>>,
    pub depth: u32,
    pub multipv: u8,
    pub time: u64,
    pub nodes: u64,
    pub nps: Option<u32>,
}

/// Decoder state for one order: the accumulated score and
/// principal-variation tables and the running values of the keyed fields,
/// as of the lines consumed so far.
pub struct SearchState {
    scores: Matrix<Score>,
    pvs: Matrix<Vec<String>>,
    depth: u32,
    multipv: u8,
    time: u64,
    nodes: u64,
    nps: Option<u32>,
}

impl View for SearchState {
    type V = SearchModel;

    closed spec fn view(&self) -> SearchModel {
        SearchModel {
            scores: self.scores@,
            pvs: self.pvs@,
            depth: self.depth,
            multipv: self.multipv,
            time: self.time,
            nodes: self.nodes,
            nps: self.nps,
        }
    }
}

/// The state a fresh decoder starts from: empty tables, line index 1,
/// everything else zero.
pub open spec fn spec_initial() -> SearchModel {
    SearchModel {
        scores: Map::empty(),
        pvs: Map::empty(),
        depth: 0,
        multipv: 1,
        time: 0,
        nodes: 0,
        nps: None,
    }
}

/// Everything the decoder accumulated when the terminal line arrived.
pub struct SearchResult {
    pub best_move: Option<String>,
    pub scores: Matrix<Score>,
    pub pvs: Matrix<Vec<String>>,
    pub depth: u32,
    pub time: u64,
    pub nodes: u64,
    pub nps: Option<u32>,
}

/// Mathematical model of a search result.
pub struct ResultModel {
    pub best_move: Option<Seq<char>>,
    pub scores: Map<(int, int), Score>,
    pub pvs: Map<(int, int), Seq<Seq<char>>>,
    pub depth: u32,
    pub time: u64,
    pub nodes: u64,
    pub nps: Option<u32>,
}

impl View for SearchResult {
    type V = ResultModel;

    closed spec fn view(&self) -> ResultModel {
        ResultModel {
            best_move: match self.best_move {
                Some(s) => Some(s@),
                None => None,
            },
            scores: self.scores@,
            pvs: self.pvs@,
            depth: self.depth,
            time: self.time,
            nodes: self.nodes,
            nps: self.nps,
        }
    }
}

impl SearchResult {
    pub open spec fn inv(&self) -> bool {
        self.scores.inv() && self.pvs.inv()
    }
}

/// What one consumed line means, over models.
pub enum FeedOutcome {
    /// Neither a report nor the terminal line: logged and skipped.
    Unexpected,
    /// A report line, folded into the state.
    Recorded(SearchModel),
    /// The terminal line, with the assembled result.
    Done(ResultModel),
    /// A protocol error.
    Fail(DecodeError),
}

/// Left-to-right processing of a report line's tokens from position `i`:
/// each recognized key reads its value, a score or principal variation is
/// recorded at the current (line, depth) key, unrecognized keys are
/// skipped.
pub open spec fn run_info(m: SearchModel, toks: Seq<Seq<char>>, i: int) -> Result<
    SearchModel,
    DecodeError,
>
    decreases toks.len() - i,
{
    if i < 0 || i >= toks.len() {
        Ok(m)
    } else {
        let t = toks[i];
        if t == "multipv"@ {
            if i + 1 < toks.len() && spec_parse_nzu8(toks[i + 1]) is Some {
                run_info(
                    SearchModel { multipv: spec_parse_nzu8(toks[i + 1]).unwrap(), ..m },
                    toks,
                    i + 2,
                )
            } else {
                Err(DecodeError::ExpectedMultipv)
            }
        } else if t == "depth"@ {
            if i + 1 < toks.len() && spec_parse_u32(toks[i + 1]) is Some {
                run_info(
                    SearchModel { depth: spec_parse_u32(toks[i + 1]).unwrap(), ..m },
                    toks,
                    i + 2,
                )
            } else {
                Err(DecodeError::ExpectedDepth)
            }
        } else if t == "nodes"@ {
            if i + 1 < toks.len() && spec_parse_u64(toks[i + 1]) is Some {
                run_info(
                    SearchModel { nodes: spec_parse_u64(toks[i + 1]).unwrap(), ..m },
                    toks,
                    i + 2,
                )
            } else {
                Err(DecodeError::ExpectedNodes)
            }
        } else if t == "time"@ {
            if i + 1 < toks.len() && spec_parse_u64(toks[i + 1]) is Some {
                run_info(
                    SearchModel { time: spec_parse_u64(toks[i + 1]).unwrap(), ..m },
                    toks,
                    i + 2,
                )
            } else {
                Err(DecodeError::ExpectedTime)
            }
        } else if t == "nps"@ {
            if i + 1 < toks.len() {
                run_info(SearchModel { nps: spec_parse_u32(toks[i + 1]), ..m }, toks, i + 2)
            } else {
                Ok(SearchModel { nps: None, ..m })
            }
        } else if t == "score"@ {
            if i + 1 >= toks.len() {
                Err(DecodeError::ExpectedCpOrMate)
            } else if toks[i + 1] == "cp"@ {
                if i + 2 < toks.len() && spec_parse_i32(toks[i + 2]) is Some {
                    run_info(
                        SearchModel {
                            scores: m.scores.insert(
                                (m.multipv as int, m.depth as int),
                                Score::Cp(spec_parse_i32(toks[i + 2]).unwrap()),
                            ),
                            ..m
                        },
                        toks,
                        i + 3,
                    )
                } else {
                    Err(DecodeError::ExpectedScore)
                }
            } else if toks[i + 1] == "mate"@ {
                if i + 2 < toks.len() && spec_parse_i32(toks[i + 2]) is Some {
                    run_info(
                        SearchModel {
                            scores: m.scores.insert(
                                (m.multipv as int, m.depth as int),
                                Score::Mate(spec_parse_i32(toks[i + 2]).unwrap()),
                            ),
                            ..m
                        },
                        toks,
                        i + 3,
                    )
                } else {
                    Err(DecodeError::ExpectedScore)
                }
            } else {
                Err(DecodeError::ExpectedCpOrMate)
            }
        } else if t == "pv"@ {
            let rest = toks.subrange(i + 1, toks.len() as int);
            if forall|j: int| 0 <= j < rest.len() ==> uci_move_ok(#[trigger] rest[j]) {
                Ok(SearchModel { pvs: m.pvs.insert((m.multipv as int, m.depth as int), rest), ..m })
            } else {
                Err(DecodeError::InvalidPv)
            }
        } else {
            run_info(m, toks, i + 1)
        }
    }
}

/// Whether any score was ever recorded for line 1.
pub open spec fn has_line1_score(m: SearchModel) -> bool {
    exists|d: int| m.scores.contains_key((1, d))
}

/// What consuming one line does to the decoder: a terminal line requires a
/// recorded line-1 score and yields the result (with the best-move token
/// when one follows and parses); a report line is folded in; anything else
/// is skipped.
pub open spec fn spec_feed(m: SearchModel, line: Seq<char>) -> FeedOutcome {
    let toks = split_sp(line);
    if toks[0] == "bestmove"@ {
        if !has_line1_score(m) {
            FeedOutcome::Fail(DecodeError::MissingScore)
        } else {
            FeedOutcome::Done(
                ResultModel {
                    best_move: if toks.len() >= 2 && uci_move_ok(toks[1]) {
                        Some(toks[1])
                    } else {
                        None
                    },
                    scores: m.scores,
                    pvs: m.pvs,
                    depth: m.depth,
                    time: m.time,
                    nodes: m.nodes,
                    nps: m.nps,
                },
            )
        }
    } else if toks[0] == "info"@ {
        match run_info(m, toks, 1) {
            Ok(m2) => FeedOutcome::Recorded(m2),
            Err(e) => FeedOutcome::Fail(e),
        }
    } else {
        FeedOutcome::Unexpected
    }
}

/// What the decoder did with one line.
pub enum Step {
    /// The line is neither a report nor the terminal line; the caller
    /// should log and skip it.
    Unexpected(SearchState),
    /// A report line was folded into the state.
    Recorded(SearchState),
    /// The terminal line: the accumulated result.
    Done(SearchResult),
}

impl SearchState {
    pub closed spec fn inv(&self) -> bool {
        self.scores.inv() && self.pvs.inv() && self.multipv >= 1
    }

    /// A fresh decoder, as set up at the start of each order's processing.
    pub fn new() -> (st: SearchState)
        ensures
            st.inv(),
            st@ == spec_initial(),
    {
        SearchState {
            scores: Matrix::new(),
            pvs: Matrix::new(),
            depth: 0,
            multipv: 1,
            time: 0,
            nodes: 0,
            nps: None,
        }
    }

    /// Consume one line of engine output.
    #[verifier::loop_isolation(false)]
    pub fn feed(self, line: &str) -> (r: Result<Step, DecodeError>)
        requires
            self.inv(),
        ensures
            match spec_feed(self@, line@) {
                FeedOutcome::Unexpected => r matches Ok(Step::Unexpected(st)) && st@ == self@
                    && st.inv(),
                FeedOutcome::Recorded(m2) => r matches Ok(Step::Recorded(st)) && st@ == m2
                    && st.inv(),
                FeedOutcome::Done(rm) => r matches Ok(Step::Done(sr)) && sr@ == rm && sr.inv(),
                FeedOutcome::Fail(e) => r == Err::<Step, DecodeError>(e),
            },
    {
        let toks = split_spaces(line);
        let ghost stoks = split_sp(line@);
        proof {
            assert forall|j: int| 0 <= j < toks@.len() implies toks@[j]@ == stoks[j] by {
                assert(toks.deep_view()[j] == toks@[j]@);
            }
        }
        if str_eq(toks[0].as_str(), "bestmove") {
            let have_score = self.scores.best().is_some();
            if !have_score {
                return Err(DecodeError::MissingScore);
            }
            let best_move: Option<String> = if toks.len() >= 2 && is_uci_move(toks[1].as_str()) {
                Some(toks[1].clone())
            } else {
                None
            };
            let sr = SearchResult {
                best_move,
                scores: self.scores,
                pvs: self.pvs,
                depth: self.depth,
                time: self.time,
                nodes: self.nodes,
                nps: self.nps,
            };
            Ok(Step::Done(sr))
        } else if str_eq(toks[0].as_str(), "info") {
            let ghost m0 = self@;
            let mut st = self;
            let n = toks.len();
            let mut i: usize = 1;
            while i < n
                invariant
                    1 <= i <= n,
                    n == toks@.len(),
                    toks.deep_view() == stoks,
                    forall|j: int| 0 <= j < toks@.len() ==> toks@[j]@ == stoks[j],
                    st.inv(),
                    run_info(m0, stoks, 1) == run_info(st@, stoks, i as int),
                decreases n - i,
            {
                if str_eq(toks[i].as_str(), "multipv") {
                    if i + 1 < n {
                        match parse_nzu8(toks[i + 1].as_str()) {
                            Some(v) => {
                                st.multipv = v;
                                i = i + 2;
                            },
                            None => {
                                return Err(DecodeError::ExpectedMultipv);
                            },
                        }
                    } else {
                        return Err(DecodeError::ExpectedMultipv);
                    }
                } else if str_eq(toks[i].as_str(), "depth") {
                    if i + 1 < n {
                        match parse_u32(toks[i + 1].as_str()) {
                            Some(v) => {
                                st.depth = v;
                                i = i + 2;
                            },
                            None => {
                                return Err(DecodeError::ExpectedDepth);
                            },
                        }
                    } else {
                        return Err(DecodeError::ExpectedDepth);
                    }
                } else if str_eq(toks[i].as_str(), "nodes") {
                    if i + 1 < n {
                        match parse_u64(toks[i + 1].as_str()) {
                            Some(v) => {
                                st.nodes = v;
                                i = i + 2;
                            },
                            None => {
                                return Err(DecodeError::ExpectedNodes);
                            },
                        }
                    } else {
                        return Err(DecodeError::ExpectedNodes);
                    }
                } else if str_eq(toks[i].as_str(), "time") {
                    if i + 1 < n {
                        match parse_u64(toks[i + 1].as_str()) {
                            Some(v) => {
                                st.time = v;
                                i = i + 2;
                            },
                            None => {
                                return Err(DecodeError::ExpectedTime);
                            },
                        }
                    } else {
                        return Err(DecodeError::ExpectedTime);
                    }
                } else if str_eq(toks[i].as_str(), "nps") {
                    if i + 1 < n {
                        st.nps = parse_u32(toks[i + 1].as_str());
                        i = i + 2;
                    } else {
                        st.nps = None;
                        i = i + 1;
                    }
                } else if str_eq(toks[i].as_str(), "score") {
                    if i + 1 >= n {
                        return Err(DecodeError::ExpectedCpOrMate);
                    }
                    if str_eq(toks[i + 1].as_str(), "cp") {
                        if i + 2 < n {
                            match parse_i32(toks[i + 2].as_str()) {
                                Some(v) => {
                                    st.scores.set(st.multipv, st.depth, Score::Cp(v));
                                    i = i + 3;
                                },
                                None => {
                                    return Err(DecodeError::ExpectedScore);
                                },
                            }
                        } else {
                            return Err(DecodeError::ExpectedScore);
                        }
                    } else if str_eq(toks[i + 1].as_str(), "mate") {
                        if i + 2 < n {
                            match parse_i32(toks[i + 2].as_str()) {
                                Some(v) => {
                                    st.scores.set(st.multipv, st.depth, Score::Mate(v));
                                    i = i + 3;
                                },
                                None => {
                                    return Err(DecodeError::ExpectedScore);
                                },
                            }
                        } else {
                            return Err(DecodeError::ExpectedScore);
                        }
                    } else {
                        return Err(DecodeError::ExpectedCpOrMate);
                    }
                } else if str_eq(toks[i].as_str(), "pv") {
                    let ghost rest = stoks.subrange(i as int + 1, n as int);
                    let mut pv: Vec<String> = Vec::new();
                    let mut j = i + 1;
                    while j < n
                        invariant
                            i + 1 <= j <= n,
                            n == toks@.len(),
                            toks.deep_view() == stoks,
                            forall|k: int| 0 <= k < toks@.len() ==> toks@[k]@ == stoks[k],
                            rest == stoks.subrange(i as int + 1, n as int),
                            pv.deep_view() =~= stoks.subrange(i as int + 1, j as int),
                            forall|k: int| i + 1 <= k < j ==> uci_move_ok(#[trigger] stoks[k]),
                        decreases n - j,
                    {
                        if !is_uci_move(toks[j].as_str()) {
                            proof {
                                assert(rest[j - (i as int + 1)] == stoks[j as int]);
                            }
                            return Err(DecodeError::InvalidPv);
                        }
                        pv.push(toks[j].clone());
                        proof {
                            assert(pv.deep_view() =~= stoks.subrange(i as int + 1, j as int + 1));
                        }
                        j = j + 1;
                    }
                    proof {
                        assert(pv.deep_view() =~= rest);
                        assert forall|k: int| 0 <= k < rest.len() implies uci_move_ok(
                            #[trigger] rest[k],
                        ) by {
                            assert(rest[k] == stoks[k + i as int + 1]);
                        }
                    }
                    st.pvs.set(st.multipv, st.depth, pv);
                    i = n;
                } else {
                    i = i + 1;
                }
            }
            Ok(Step::Recorded(st))
        } else {
            Ok(Step::Unexpected(self))
        }
    }
}

/// Law: a terminal line that arrives before any score was ever recorded
/// for line 1 fails with the missing-score error; no response is
/// produced.
pub proof fn lemma_terminal_without_score(m: SearchModel, line: Seq<char>)
    requires
        split_sp(line)[0] == "bestmove"@,
        forall|d: int| !m.scores.contains_key((1, d)),
    ensures
        spec_feed(m, line) == FeedOutcome::Fail(DecodeError::MissingScore),
{
    assert(!has_line1_score(m));
}

/// Law: a terminal line yields a response exactly when some score was
/// recorded for line 1; the response then carries the accumulated tables
/// and counters unchanged.
pub proof fn lemma_terminal_with_score(m: SearchModel, line: Seq<char>)
    requires
        split_sp(line)[0] == "bestmove"@,
        has_line1_score(m),
    ensures
        spec_feed(m, line) matches FeedOutcome::Done(rm) && rm.scores == m.scores && rm.pvs
            == m.pvs && rm.depth == m.depth && rm.time == m.time && rm.nodes == m.nodes && rm.nps
            == m.nps,
{
}

/// How a line read during one-time initialization is treated.
#[derive(Clone, Copy, Debug, PartialEq, Eq, Structural)]
pub enum InitLine {
    /// The readiness confirmation: initialization is complete.
    Ready,
    /// A known banner line: ignorable startup text.
    Banner,
    /// Anything else: logged as an anomaly, but startup goes on.
    Other,
}

/// The readiness confirmation is recognized with trailing whitespace
/// trimmed; banner lines are recognized by their engine-name prefix.
pub open spec fn spec_classify_init(line: Seq<char>) -> InitLine {
    if line.subrange(0, trim_end_idx(line)) == "readyok"@ {
        InitLine::Ready
    } else if spec_starts_with(line, "Stockfish "@) || spec_starts_with(
        line,
        "Fairy-Stockfish "@,
    ) {
        InitLine::Banner
    } else {
        InitLine::Other
    }
}

/// Classify one line read while waiting for the readiness confirmation.
pub fn classify_init_line(line: &str) -> (r: InitLine)
    ensures
        r == spec_classify_init(line@),
{
    let trimmed = trim_end_ws(line);
    if str_eq(trimmed, "readyok") {
        InitLine::Ready
    } else if str_starts_with(line, "Stockfish ") || str_starts_with(line, "Fairy-Stockfish ") {
        InitLine::Banner
    } else {
        InitLine::Other
    }
}

/// The response handed back to the caller: the originating order plus
/// everything the decoder accumulated up to the terminal line.
pub struct PositionResponse {
    pub work: Work,
    pub position_id: u64,
    pub url: Option<String>,
    pub best_move: Option<String>,
    pub scores: Matrix<Score>,
    pub pvs: Matrix<Vec<String>>,
    pub depth: u32,
    pub time: u64,
    pub nodes: u64,
    pub nps: Option<u32>,
}

/// Assemble the response for an order from what the decoder accumulated.
pub fn into_response(position: Position, result: SearchResult) -> (r: PositionResponse)
    ensures
        r.work == position.work,
        r.position_id == position.position_id,
        r.url == position.url,
        r.best_move == result.best_move,
        r.scores == result.scores,
        r.pvs == result.pvs,
        r.depth == result.depth,
        r.time == result.time,
        r.nodes == result.nodes,
        r.nps == result.nps,
{
    PositionResponse {
        work: position.work,
        position_id: position.position_id,
        url: position.url,
        best_move: result.best_move,
        scores: result.scores,
        pvs: result.pvs,
        depth: result.depth,
        time: result.time,
        nodes: result.nodes,
        nps: result.nps,
    }
}

} // verus!
