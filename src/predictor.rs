use vstd::prelude::*;

use std::collections::HashMap;

use crate::advice::{calibration_text, message_of, Advice, AdviceModel};
use crate::spin::{color_of, Color, SpinResult, SpinView};

verus! {

broadcast use vstd::std_specs::hash::group_hash_axioms;

/// How many of the latest spins the streak rules look at.
pub const WINDOW: usize = 15;

/// The spins of a history, as contracts see them.
pub open spec fn spins(h: Seq<SpinResult>) -> Seq<SpinView> {
    h.map_values(|s: SpinResult| s@)
}

/// The latest spins, at most `WINDOW` of them, latest first.
pub open spec fn window(h: Seq<SpinView>) -> Seq<SpinView> {
    if h.len() > WINDOW {
        h.take(WINDOW as int)
    } else {
        h
    }
}

/// How many spins of `s` are red.
pub open spec fn red_count(s: Seq<SpinView>) -> nat
    decreases s.len(),
{
    if s.len() == 0 {
        0
    } else {
        red_count(s.drop_last()) + if color_of(s.last().color) == Color::Red {
            1nat
        } else {
            0nat
        }
    }
}

/// How many spins of `h` landed on `v`.
pub open spec fn occurrences(h: Seq<SpinView>, v: u32) -> nat
    decreases h.len(),
{
    if h.len() == 0 {
        0
    } else {
        occurrences(h.drop_last(), v) + if h.last().value == v {
            1nat
        } else {
            0nat
        }
    }
}

/// The red share of `w` is above 65%.
pub open spec fn red_heavy(w: Seq<SpinView>) -> bool {
    20 * red_count(w) > 13 * w.len()
}

/// The red share of `w` is below 35%.
pub open spec fn black_heavy(w: Seq<SpinView>) -> bool {
    20 * red_count(w) < 7 * w.len()
}

/// `part / total` as a whole percentage, rounded to the nearest, halves up.
pub open spec fn rounded_percent(part: nat, total: nat) -> nat
    recommends
        total > 0,
{
    (200 * part + total) / (2 * total)
}

/// Spin `k` lands on a most frequent value of `h`, and no earlier spin does:
/// among equally frequent values the one seen most recently wins.
pub open spec fn is_hot_index(h: Seq<SpinView>, k: int) -> bool {
    &&& 0 <= k < h.len()
    &&& forall|j: int|
        0 <= j < h.len() ==> occurrences(h, #[trigger] h[j].value) <= occurrences(h, h[k].value)
    &&& forall|j: int|
        0 <= j < k ==> occurrences(h, #[trigger] h[j].value) < occurrences(h, h[k].value)
}

/// The most frequent value of the whole history (ties go to the most recent
/// one), or `None` for an empty history.
pub open spec fn hot_number(h: Seq<SpinView>) -> Option<u32> {
    if exists|k: int| is_hot_index(h, k) {
        Some(h[choose|k: int| is_hot_index(h, k)].value)
    } else {
        None
    }
}

/// The rule cascade, first matching rule wins.
pub open spec fn advice_of(h: Seq<SpinView>) -> AdviceModel {
    let w = window(h);
    if h.len() < 3 {
        AdviceModel::Calibrate
    } else if red_heavy(w) {
        AdviceModel::BetBlack { percent: rounded_percent(red_count(w), w.len()) }
    } else if black_heavy(w) {
        AdviceModel::BetRed { percent: rounded_percent((w.len() - red_count(w)) as nat, w.len()) }
    } else if color_of(h[0].color) == Color::Green {
        AdviceModel::SkipGreen
    } else if w.len() >= 3 && w[0].color == w[1].color && w[1].color == w[2].color {
        AdviceModel::FollowTrend { color: w[0].color }
    } else {
        match hot_number(h) {
            Some(v) => AdviceModel::HotNumber { value: v },
            None => AdviceModel::Inconclusive,
        }
    }
}

/// Two spins that both satisfy `is_hot_index` are the same spin.
pub proof fn lemma_hot_index_unique(h: Seq<SpinView>, a: int, b: int)
    requires
        is_hot_index(h, a),
        is_hot_index(h, b),
    ensures
        a == b,
{
    if a < b {
        assert(occurrences(h, h[a].value) < occurrences(h, h[b].value));
    } else if b < a {
        assert(occurrences(h, h[b].value) < occurrences(h, h[a].value));
    }
}

/// Counts the red spins among the first `n`.
fn count_red(history: &[SpinResult], n: usize) -> (r: usize)
    requires
        n <= history@.len(),
    ensures
        r == red_count(spins(history@).take(n as int)),
        r <= n,
{
    let ghost h = spins(history@);
    let mut red: usize = 0;
    let mut i: usize = 0;
    while i < n
        invariant
            n <= history@.len(),
            h == spins(history@),
            i <= n,
            red == red_count(h.take(i as int)),
            red <= i,
        decreases n - i,
    {
        proof {
            assert(h.take(i + 1).drop_last() =~= h.take(i as int));
        }
        if history[i].color_kind() == Color::Red {
            red = red + 1;
        }
        i = i + 1;
    }
    red
}

/// The count recorded for `v`, zero where there is none.
fn count_of(counts: &HashMap<u32, usize>, v: u32) -> (r: usize)
    ensures
        r == if counts@.contains_key(v) {
            counts@[v]
        } else {
            0
        },
{
    match counts.get(&v) {
        Some(c) => *c,
        None => 0,
    }
}

/// The most frequent value of the history, ties going to the most recent.
fn hot_value(history: &[SpinResult]) -> (r: Option<u32>)
    ensures
        r == hot_number(spins(history@)),
{
    let ghost h = spins(history@);
    let n = history.len();
    if n == 0 {
        return None;
    }
    let mut counts: HashMap<u32, usize> = HashMap::new();
    let mut i: usize = 0;
    while i < n
        invariant
            n == history@.len(),
            h == spins(history@),
            i <= n,
            forall|v: u32|
                #[trigger] occurrences(h.take(i as int), v) == if counts@.contains_key(v) {
                    counts@[v] as nat
                } else {
                    0
                },
            forall|v: u32| #[trigger] occurrences(h.take(i as int), v) <= i,
        decreases n - i,
    {
        let v = history[i].value;
        let c = count_of(&counts, v);
        proof {
            assert(occurrences(h.take(i as int), v) <= i);
            assert forall|u: u32|
                #[trigger] occurrences(h.take(i + 1), u) == occurrences(h.take(i as int), u)
                    + if v == u {
                    1nat
                } else {
                    0nat
                } by {
                assert(h.take(i + 1).drop_last() =~= h.take(i as int));
            }
        }
        counts.insert(v, c + 1);
        i = i + 1;
    }
    assert(h.take(n as int) =~= h);
    let mut best: usize = 0;
    let mut best_count = count_of(&counts, history[0].value);
    assert(occurrences(h, h[0].value) == best_count);
    let mut j: usize = 1;
    while j < n
        invariant
            n == history@.len(),
            h == spins(history@),
            0 < j <= n,
            best < j,
            forall|v: u32| #[trigger]
                occurrences(h, v) == if counts@.contains_key(v) {
                    counts@[v] as nat
                } else {
                    0
                },
            best_count == occurrences(h, h[best as int].value),
            forall|k: int| 0 <= k < j ==> occurrences(h, #[trigger] h[k].value) <= best_count,
            forall|k: int| 0 <= k < best ==> occurrences(h, #[trigger] h[k].value) < best_count,
        decreases n - j,
    {
        let c = count_of(&counts, history[j].value);
        assert(occurrences(h, h[j as int].value) == c);
        if c > best_count {
            best = j;
            best_count = c;
        }
        j = j + 1;
    }
    proof {
        assert(is_hot_index(h, best as int));
        let k = choose|k: int| is_hot_index(h, k);
        lemma_hot_index_unique(h, k, best as int);
    }
    Some(history[best].value)
}

/// Runs the rule cascade over a history given latest spin first.
pub fn analyze(history: &[SpinResult]) -> (a: Advice)
    ensures
        a@ == advice_of(spins(history@)),
        history@.len() < 3 ==> a@ == AdviceModel::Calibrate,
{
    let ghost h = spins(history@);
    let n = history.len();
    if n < 3 {
        return Advice::Calibrate;
    }
    let w: usize = if n > WINDOW {
        WINDOW
    } else {
        n
    };
    assert(window(h) =~= h.take(w as int));
    let red = count_red(history, w);
    let red64 = red as u64;
    let w64 = w as u64;
    if 20 * red64 > 13 * w64 {
        Advice::BetBlack { percent: (200 * red64 + w64) / (2 * w64) }
    } else if 20 * red64 < 7 * w64 {
        Advice::BetRed { percent: (200 * (w64 - red64) + w64) / (2 * w64) }
    } else if history[0].color_kind() == Color::Green {
        Advice::SkipGreen
    } else if history[0].color == history[1].color && history[1].color == history[2].color {
        Advice::FollowTrend { color: history[0].color.clone() }
    } else {
        match hot_value(history) {
            Some(v) => Advice::HotNumber { value: v },
            None => Advice::Inconclusive,
        }
    }
}

/// The recommendation, as text, for a history given latest spin first.
pub fn predict_next_move(history: Vec<SpinResult>) -> (r: String)
    ensures
        r@ == message_of(advice_of(spins(history@))),
        history@.len() < 3 ==> r@ == calibration_text(),
{
    analyze(history.as_slice()).message()
}

} // verus!
