//! Data model: work orders, their bounds, and the failure signal.

use vstd::prelude::*;

verus! {

/// Evaluation reported by the engine for one search line: either a
/// centipawn value or a forced-mate distance (negative when the side to
/// move is getting mated), with the raw reported sign preserved.
#[derive(Clone, Copy, Debug, PartialEq, Eq, Structural)]
pub enum Score {
    Cp(i32),
    Mate(i32),
}

impl DeepView for Score {
    type V = Score;

    open spec fn deep_view(&self) -> Score {
        *self
    }
}

/// Which evaluation the engine is asked to run with.
#[derive(Clone, Copy, Debug, PartialEq, Eq, Structural)]
pub enum EvalFlavor {
    Nnue,
    Classical,
}

impl EvalFlavor {
    pub open spec fn spec_is_nnue(self) -> bool {
        self is Nnue
    }

    pub fn is_nnue(self) -> (r: bool)
        ensures
            r == self.spec_is_nnue(),
    {
        match self {
            EvalFlavor::Nnue => true,
            EvalFlavor::Classical => false,
        }
    }
}

/// Which engine build a work order is meant for: the official
/// single-variant engine, or the multi-variant engine.
#[derive(Clone, Copy, Debug, PartialEq, Eq, Structural)]
pub enum EngineFlavor {
    Official,
    MultiVariant,
}

impl EngineFlavor {
    pub open spec fn spec_eval_flavor(self) -> EvalFlavor {
        match self {
            EngineFlavor::Official => EvalFlavor::Nnue,
            EngineFlavor::MultiVariant => EvalFlavor::Classical,
        }
    }

    pub fn eval_flavor(self) -> (r: EvalFlavor)
        ensures
            r == self.spec_eval_flavor(),
    {
        match self {
            EngineFlavor::Official => EvalFlavor::Nnue,
            EngineFlavor::MultiVariant => EvalFlavor::Classical,
        }
    }
}

/// The chess variant a position belongs to. Positions and moves are
/// supplied pre-validated; this tag only selects the engine's
/// `UCI_Variant` option.
#[derive(Clone, Copy, Debug, PartialEq, Eq, Structural)]
pub enum Variant {
    Chess,
    Atomic,
    Antichess,
    KingOfTheHill,
    ThreeCheck,
    Crazyhouse,
    RacingKings,
    Horde,
}

/// Requested playing strength for Move-kind orders. Each level fixes a
/// skill-level option, a time allowance and a depth allowance.
#[derive(Clone, Copy, Debug, PartialEq, Eq, Structural)]
pub enum Level {
    One,
    Two,
    Three,
    Four,
    Five,
    Six,
    Seven,
    Eight,
}

impl Level {
    pub open spec fn spec_skill(self) -> i32 {
        match self {
            Level::One => -9i32,
            Level::Two => -5i32,
            Level::Three => -1i32,
            Level::Four => 3i32,
            Level::Five => 7i32,
            Level::Six => 11i32,
            Level::Seven => 16i32,
            Level::Eight => 20i32,
        }
    }

    pub fn skill_level(self) -> (r: i32)
        ensures
            r == self.spec_skill(),
    {
        match self {
            Level::One => -9,
            Level::Two => -5,
            Level::Three => -1,
            Level::Four => 3,
            Level::Five => 7,
            Level::Six => 11,
            Level::Seven => 16,
            Level::Eight => 20,
        }
    }

    /// Time allowance in milliseconds.
    pub open spec fn spec_time_ms(self) -> u64 {
        match self {
            Level::One => 50,
            Level::Two => 100,
            Level::Three => 150,
            Level::Four => 200,
            Level::Five => 300,
            Level::Six => 400,
            Level::Seven => 500,
            Level::Eight => 1000,
        }
    }

    pub fn time_ms(self) -> (r: u64)
        ensures
            r == self.spec_time_ms(),
    {
        match self {
            Level::One => 50,
            Level::Two => 100,
            Level::Three => 150,
            Level::Four => 200,
            Level::Five => 300,
            Level::Six => 400,
            Level::Seven => 500,
            Level::Eight => 1000,
        }
    }

    pub open spec fn spec_depth(self) -> u32 {
        match self {
            Level::One => 5,
            Level::Two => 5,
            Level::Three => 5,
            Level::Four => 5,
            Level::Five => 5,
            Level::Six => 8,
            Level::Seven => 13,
            Level::Eight => 22,
        }
    }

    pub fn depth(self) -> (r: u32)
        ensures
            r == self.spec_depth(),
    {
        match self {
            Level::One => 5,
            Level::Two => 5,
            Level::Three => 5,
            Level::Four => 5,
            Level::Five => 5,
            Level::Six => 8,
            Level::Seven => 13,
            Level::Eight => 22,
        }
    }
}

/// Game clock attached to a Move-kind order. Remaining times are in
/// centiseconds, the increment in milliseconds.
#[derive(Clone, Copy, Debug, PartialEq, Eq, Structural)]
pub struct Clock {
    pub wtime: u32,
    pub btime: u32,
    pub inc: u64,
}

/// Node budget of an Analysis-kind order, one figure per evaluation
/// flavor.
#[derive(Clone, Copy, Debug, PartialEq, Eq, Structural)]
pub struct NodeBudget {
    pub nnue: u64,
    pub classical: u64,
}

impl NodeBudget {
    pub open spec fn spec_get(self, flavor: EvalFlavor) -> u64 {
        match flavor {
            EvalFlavor::Nnue => self.nnue,
            EvalFlavor::Classical => self.classical,
        }
    }

    pub fn get(self, flavor: EvalFlavor) -> (r: u64)
        ensures
            r == self.spec_get(flavor),
    {
        match flavor {
            EvalFlavor::Nnue => self.nnue,
            EvalFlavor::Classical => self.classical,
        }
    }
}

/// One unit of work: either play a move under a strength level (and
/// optionally a clock), or analyse under a node budget (and optionally a
/// depth ceiling). The id correlates replies and failure signals with the
/// originating batch.
#[derive(Clone, Debug, PartialEq, Eq)]
pub enum Work {
    Move { id: u64, level: Level, clock: Option<Clock> },
    Analysis { id: u64, nodes: NodeBudget, depth: Option<u32>, multipv: u8 },
}

impl Work {
    pub open spec fn spec_id(self) -> u64 {
        match self {
            Work::Move { id, .. } => id,
            Work::Analysis { id, .. } => id,
        }
    }

    pub fn id(&self) -> (r: u64)
        ensures
            r == self.spec_id(),
    {
        match self {
            Work::Move { id, .. } => *id,
            Work::Analysis { id, .. } => *id,
        }
    }

    /// Number of parallel search lines requested: Move-kind orders always
    /// use a single line.
    pub open spec fn spec_multipv(self) -> u8 {
        match self {
            Work::Move { .. } => 1,
            Work::Analysis { multipv, .. } => multipv,
        }
    }

    pub fn multipv(&self) -> (r: u8)
        ensures
            r == self.spec_multipv(),
    {
        match self {
            Work::Move { .. } => 1,
            Work::Analysis { multipv, .. } => *multipv,
        }
    }
}

/// One-time engine configuration applied right after the subprocess is
/// spawned: the evaluation network file to load.
#[derive(Clone, Debug, PartialEq, Eq)]
pub struct StockfishInit {
    pub nnue: String,
}

/// A work order as handed to the actor: the work bounds plus the starting
/// position (board string and move sequence, both pre-validated), the
/// variant tag and the engine flavor.
#[derive(Clone, Debug, PartialEq, Eq)]
pub struct Position {
    pub work: Work,
    pub position_id: u64,
    pub url: Option<String>,
    pub flavor: EngineFlavor,
    pub variant: Variant,
    pub root_fen: String,
    pub moves: Vec<String>,
}

/// Failure signal returned instead of a response when a request could not
/// be serviced; carries just enough to correlate with the original order.
#[derive(Clone, Copy, Debug, PartialEq, Eq, Structural)]
pub struct PositionFailed {
    pub batch_id: u64,
}

} // verus!
