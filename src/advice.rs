use vstd::prelude::*;

use crate::text::{decimal, decimal_text};

verus! {

/// The recommendation that the rule cascade settles on.
#[derive(Debug)]
pub enum Advice {
    /// Fewer than three spins: nothing is computed.
    Calibrate,
    /// Red dominates the recent window; `percent` is its share.
    BetBlack { percent: u64 },
    /// Black dominates the recent window; `percent` is the share of spins
    /// that are not red.
    BetRed { percent: u64 },
    /// The latest spin is green.
    SkipGreen,
    /// The three latest spins share the color name `color`.
    FollowTrend { color: String },
    /// `value` is the most frequent pocket number of the whole history.
    HotNumber { value: u32 },
    /// No rule applies.
    Inconclusive,
}

/// What an `Advice` is, as contracts see it.
pub enum AdviceModel {
    Calibrate,
    BetBlack { percent: nat },
    BetRed { percent: nat },
    SkipGreen,
    FollowTrend { color: Seq<char> },
    HotNumber { value: u32 },
    Inconclusive,
}

impl View for Advice {
    type V = AdviceModel;

    open spec fn view(&self) -> AdviceModel {
        match self {
            Advice::Calibrate => AdviceModel::Calibrate,
            Advice::BetBlack { percent } => AdviceModel::BetBlack { percent: *percent as nat },
            Advice::BetRed { percent } => AdviceModel::BetRed { percent: *percent as nat },
            Advice::SkipGreen => AdviceModel::SkipGreen,
            Advice::FollowTrend { color } => AdviceModel::FollowTrend { color: color@ },
            Advice::HotNumber { value } => AdviceModel::HotNumber { value: *value },
            Advice::Inconclusive => AdviceModel::Inconclusive,
        }
    }
}

/// The message given while there is too little history.
pub open spec fn calibration_text() -> Seq<char> {
    "Not enough data. Spin more to calibrate the local algorithm."@
}

/// The text shown for each kind of advice.
pub open spec fn message_of(a: AdviceModel) -> Seq<char> {
    match a {
        AdviceModel::Calibrate => calibration_text(),
        AdviceModel::BetBlack { percent } => "Detected RED streak ("@ + decimal(percent)
            + "%). Statistical pressure suggests betting BLACK."@,
        AdviceModel::BetRed { percent } => "Detected BLACK streak ("@ + decimal(percent)
            + "%). Statistical pressure suggests betting RED."@,
        AdviceModel::SkipGreen =>
            "Green event detected. Volatility high. Recommend skipping or minimal bet."@,
        AdviceModel::FollowTrend { color } => "Streak of 3 "@ + color
            + "s. Trend following protocol: Bet "@ + color + "."@,
        AdviceModel::HotNumber { value } => "Market flat. Hot number is "@ + decimal(
            value as nat,
        ) + ". Consider sector bets around it."@,
        AdviceModel::Inconclusive => "Pattern analysis inconclusive. Maintain current strategy."@,
    }
}

impl Advice {
    /// The text shown to the player.
    pub fn message(&self) -> (r: String)
        ensures
            r@ == message_of(self@),
    {
        match self {
            Advice::Calibrate => String::from_str(
                "Not enough data. Spin more to calibrate the local algorithm.",
            ),
            Advice::BetBlack { percent } => {
                let mut r = String::from_str("Detected RED streak (");
                r.append(decimal_text(*percent).as_str());
                r.append("%). Statistical pressure suggests betting BLACK.");
                r
            },
            Advice::BetRed { percent } => {
                let mut r = String::from_str("Detected BLACK streak (");
                r.append(decimal_text(*percent).as_str());
                r.append("%). Statistical pressure suggests betting RED.");
                r
            },
            Advice::SkipGreen => String::from_str(
                "Green event detected. Volatility high. Recommend skipping or minimal bet.",
            ),
            Advice::FollowTrend { color } => {
                let mut r = String::from_str("Streak of 3 ");
                r.append(color.as_str());
                r.append("s. Trend following protocol: Bet ");
                r.append(color.as_str());
                r.append(".");
                r
            },
            Advice::HotNumber { value } => {
                let mut r = String::from_str("Market flat. Hot number is ");
                r.append(decimal_text(*value as u64).as_str());
                r.append(". Consider sector bets around it.");
                r
            },
            Advice::Inconclusive => String::from_str(
                "Pattern analysis inconclusive. Maintain current strategy.",
            ),
        }
    }
}

} // verus!
