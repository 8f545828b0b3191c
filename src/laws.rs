use vstd::prelude::*;

use crate::advice::{calibration_text, message_of, AdviceModel};
use crate::predictor::{advice_of, hot_number, is_hot_index, occurrences, spins};
use crate::spin::{SpinResult, SpinView};

verus! {

/// Among the first `j` spins, one that lands on a most frequent value (as
/// counted over all of `h`) with no earlier spin doing so.
proof fn lemma_best_among_first(h: Seq<SpinView>, j: int) -> (b: int)
    requires
        0 < j <= h.len(),
    ensures
        0 <= b < j,
        forall|k: int| 0 <= k < j ==> occurrences(h, #[trigger] h[k].value) <= occurrences(h, h[b].value),
        forall|k: int| 0 <= k < b ==> occurrences(h, #[trigger] h[k].value) < occurrences(h, h[b].value),
    decreases j,
{
    if j == 1 {
        0
    } else {
        let b = lemma_best_among_first(h, j - 1);
        if occurrences(h, h[j - 1].value) > occurrences(h, h[b].value) {
            j - 1
        } else {
            b
        }
    }
}

/// Every non-empty history has a hot number.
pub proof fn lemma_hot_number_exists(h: Seq<SpinView>)
    requires
        h.len() > 0,
    ensures
        hot_number(h) is Some,
{
    let b = lemma_best_among_first(h, h.len() as int);
    assert(is_hot_index(h, b));
}

/// With fewer than three spins the answer is the calibration message,
/// whatever the spins are.
pub proof fn lemma_short_history_calibrates(h: Seq<SpinView>)
    requires
        h.len() < 3,
    ensures
        advice_of(h) == AdviceModel::Calibrate,
        message_of(advice_of(h)) == calibration_text(),
{
}

/// With three spins or more the answer is one of the rule messages: never
/// the calibration message, never empty, and never the inconclusive
/// fallback, since a non-empty history always has a hot number.
pub proof fn lemma_long_history_advises(h: Seq<SpinView>)
    requires
        h.len() >= 3,
    ensures
        !(advice_of(h) is Calibrate),
        !(advice_of(h) is Inconclusive),
        message_of(advice_of(h)).len() > 0,
        message_of(advice_of(h)) != calibration_text(),
{
    lemma_hot_number_exists(h);
    reveal_strlit("Not enough data. Spin more to calibrate the local algorithm.");
    reveal_strlit("Detected RED streak (");
    reveal_strlit("Detected BLACK streak (");
    reveal_strlit("Green event detected. Volatility high. Recommend skipping or minimal bet.");
    reveal_strlit("Streak of 3 ");
    reveal_strlit("Market flat. Hot number is ");
    let m = message_of(advice_of(h));
    assert(m[0] != calibration_text()[0]);
}

/// Two histories holding the same spins, in the same order, get the same
/// message.
pub proof fn lemma_deterministic(h1: Seq<SpinResult>, h2: Seq<SpinResult>)
    requires
        h1.len() == h2.len(),
        forall|i: int| 0 <= i < h1.len() ==> h1[i]@ == h2[i]@,
    ensures
        message_of(advice_of(spins(h1))) == message_of(advice_of(spins(h2))),
{
    assert(spins(h1) =~= spins(h2));
}

} // verus!
