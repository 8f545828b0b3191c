//! A deterministic advisor over a history of roulette spins: it reads the
//! most recent spins first and answers with one recommendation, chosen by a
//! fixed cascade of rules over color streaks and value frequencies.

mod spin;
mod text;
mod advice;
mod predictor;
mod laws;

pub use spin::{color_of, Color, SpinResult, SpinView};
pub use text::{decimal, decimal_text, digit_char};
pub use advice::{calibration_text, message_of, Advice, AdviceModel};
pub use predictor::{
    advice_of, analyze, black_heavy, hot_number, is_hot_index, lemma_hot_index_unique, occurrences,
    predict_next_move, red_count, red_heavy, rounded_percent, spins, window, WINDOW,
};
pub use laws::{
    lemma_deterministic, lemma_hot_number_exists, lemma_long_history_advises,
    lemma_short_history_calibrates,
};
