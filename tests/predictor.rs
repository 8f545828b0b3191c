use roulette_predictor::{analyze, decimal_text, predict_next_move, Advice, Color, SpinResult};

fn spin(value: u32, color: &str) -> SpinResult {
    SpinResult::new(value, color.to_string())
}

fn history(spins: &[(u32, &str)]) -> Vec<SpinResult> {
    spins.iter().map(|(v, c)| spin(*v, c)).collect()
}

const CALIBRATE: &str = "Not enough data. Spin more to calibrate the local algorithm.";

#[test]
fn empty_history_needs_calibration() {
    assert_eq!(predict_next_move(Vec::new()), CALIBRATE);
}

#[test]
fn two_spins_need_calibration_whatever_they_are() {
    assert_eq!(predict_next_move(history(&[(1, "RED"), (3, "RED")])), CALIBRATE);
    assert_eq!(predict_next_move(history(&[(0, "GREEN"), (0, "GREEN")])), CALIBRATE);
    assert_eq!(predict_next_move(history(&[(7, "PURPLE")])), CALIBRATE);
}

#[test]
fn red_streak_in_full_window_bets_black() {
    let mut spins = Vec::new();
    for i in 0..11 {
        spins.push((i + 1, "RED"));
    }
    for i in 0..4 {
        spins.push((i + 20, "BLACK"));
    }
    let out = predict_next_move(history(&spins));
    assert_eq!(
        out,
        "Detected RED streak (73%). Statistical pressure suggests betting BLACK."
    );
    assert!(out.contains("73%"));
}

#[test]
fn black_streak_in_full_window_bets_red() {
    let mut spins = Vec::new();
    for i in 0..11 {
        spins.push((i + 1, "BLACK"));
    }
    for i in 0..4 {
        spins.push((i + 20, "RED"));
    }
    assert_eq!(
        predict_next_move(history(&spins)),
        "Detected BLACK streak (73%). Statistical pressure suggests betting RED."
    );
}

#[test]
fn ratio_rule_takes_precedence_over_green() {
    let out = predict_next_move(history(&[(0, "GREEN"), (1, "RED"), (2, "RED"), (3, "RED")]));
    assert_eq!(
        out,
        "Detected RED streak (75%). Statistical pressure suggests betting BLACK."
    );
    assert!(!out.contains("Volatility"));
}

#[test]
fn three_reds_with_neutral_ratio_follow_trend() {
    let spins = [(5, "RED"), (6, "RED"), (7, "RED"), (8, "BLACK"), (10, "BLACK"), (11, "BLACK")];
    assert_eq!(
        predict_next_move(history(&spins)),
        "Streak of 3 REDs. Trend following protocol: Bet RED."
    );
}

#[test]
fn three_equal_unknown_color_names_follow_trend() {
    let spins = [
        (5, "PURPLE"),
        (6, "PURPLE"),
        (7, "PURPLE"),
        (8, "RED"),
        (9, "RED"),
        (10, "RED"),
        (11, "RED"),
        (12, "BLACK"),
        (13, "BLACK"),
    ];
    assert_eq!(
        predict_next_move(history(&spins)),
        "Streak of 3 PURPLEs. Trend following protocol: Bet PURPLE."
    );
}

#[test]
fn hot_number_seventeen() {
    let spins = [
        (17, "RED"),
        (1, "BLACK"),
        (17, "RED"),
        (2, "BLACK"),
        (17, "RED"),
        (3, "BLACK"),
        (17, "RED"),
        (2, "BLACK"),
        (17, "RED"),
        (1, "BLACK"),
    ];
    assert_eq!(
        predict_next_move(history(&spins)),
        "Market flat. Hot number is 17. Consider sector bets around it."
    );
}

#[test]
fn green_latest_with_neutral_ratio_warns() {
    let spins = [(0, "GREEN"), (1, "RED"), (2, "BLACK"), (3, "RED"), (4, "BLACK")];
    assert_eq!(
        predict_next_move(history(&spins)),
        "Green event detected. Volatility high. Recommend skipping or minimal bet."
    );
}

#[test]
fn same_input_twice_gives_same_output() {
    let spins = [(4, "RED"), (9, "BLACK"), (4, "RED"), (9, "BLACK"), (12, "GREEN")];
    let first = predict_next_move(history(&spins));
    let second = predict_next_move(history(&spins));
    assert_eq!(first, second);
}

#[test]
fn hot_number_tie_goes_to_most_recent_value() {
    let spins = [(9, "RED"), (4, "BLACK"), (4, "RED"), (9, "BLACK"), (30, "RED"), (31, "BLACK")];
    assert_eq!(
        predict_next_move(history(&spins)),
        "Market flat. Hot number is 9. Consider sector bets around it."
    );
}

#[test]
fn hot_number_counts_beyond_the_window() {
    let mut spins = Vec::new();
    for i in 0..16u32 {
        let color = if i % 2 == 0 { "RED" } else { "BLACK" };
        spins.push((i + 1, color));
    }
    for _ in 0..3 {
        spins.push((36, "RED"));
    }
    assert_eq!(
        predict_next_move(history(&spins)),
        "Market flat. Hot number is 36. Consider sector bets around it."
    );
}

#[test]
fn only_the_latest_fifteen_count_for_streaks() {
    // 15 alternating spins, then many reds that fall outside the window.
    let mut spins = Vec::new();
    for i in 0..15u32 {
        let color = if i % 2 == 0 { "BLACK" } else { "RED" };
        spins.push((i + 1, color));
    }
    for _ in 0..20 {
        spins.push((3, "RED"));
    }
    assert_eq!(
        predict_next_move(history(&spins)),
        "Market flat. Hot number is 3. Consider sector bets around it."
    );
}

#[test]
fn half_percent_rounds_up() {
    // 7 of 8 red: 87.5%.
    let mut spins = Vec::new();
    for i in 0..7 {
        spins.push((i + 1, "RED"));
    }
    spins.push((10, "BLACK"));
    assert_eq!(
        predict_next_move(history(&spins)),
        "Detected RED streak (88%). Statistical pressure suggests betting BLACK."
    );
    // 1 of 8 red: 87.5% not red.
    let mut spins = vec![(1, "RED")];
    for i in 0..7 {
        spins.push((i + 10, "BLACK"));
    }
    assert_eq!(
        predict_next_move(history(&spins)),
        "Detected BLACK streak (88%). Statistical pressure suggests betting RED."
    );
}

#[test]
fn all_green_counts_as_black_streak() {
    let spins = [(0, "GREEN"), (0, "GREEN"), (0, "GREEN")];
    assert_eq!(
        predict_next_move(history(&spins)),
        "Detected BLACK streak (100%). Statistical pressure suggests betting RED."
    );
}

#[test]
fn all_red_is_full_red_streak() {
    let spins = [(1, "RED"), (3, "RED"), (5, "RED")];
    assert_eq!(
        predict_next_move(history(&spins)),
        "Detected RED streak (100%). Statistical pressure suggests betting BLACK."
    );
}

#[test]
fn unknown_colors_count_as_not_red() {
    // 2 of 3 red is 66.7%, above the red threshold.
    let spins = [(1, "RED"), (2, "blue"), (3, "RED")];
    assert_eq!(
        predict_next_move(history(&spins)),
        "Detected RED streak (67%). Statistical pressure suggests betting BLACK."
    );
    // 1 of 3 red: 66.7% not red.
    let spins = [(1, "red"), (2, "RED"), (3, "red")];
    assert_eq!(
        predict_next_move(history(&spins)),
        "Detected BLACK streak (67%). Statistical pressure suggests betting RED."
    );
}

#[test]
fn analyze_reports_structured_advice() {
    assert!(matches!(analyze(&history(&[(1, "RED")])), Advice::Calibrate));
    let spins = [(0, "GREEN"), (1, "RED"), (2, "BLACK"), (3, "RED"), (4, "BLACK")];
    assert!(matches!(analyze(&history(&spins)), Advice::SkipGreen));
    let spins = [(5, "RED"), (6, "RED"), (7, "RED"), (8, "BLACK"), (10, "BLACK"), (11, "BLACK")];
    match analyze(&history(&spins)) {
        Advice::FollowTrend { color } => assert_eq!(color, "RED"),
        other => panic!("unexpected advice {:?}", other),
    }
    let spins = [(1, "RED"), (2, "RED"), (3, "BLACK")];
    match analyze(&history(&spins)) {
        Advice::BetBlack { percent } => assert_eq!(percent, 67),
        other => panic!("unexpected advice {:?}", other),
    }
}

#[test]
fn inconclusive_message_text() {
    assert_eq!(
        Advice::Inconclusive.message(),
        "Pattern analysis inconclusive. Maintain current strategy."
    );
    assert_eq!(Advice::HotNumber { value: 0 }.message(), "Market flat. Hot number is 0. Consider sector bets around it.");
}

#[test]
fn color_names_are_classified() {
    assert_eq!(spin(1, "RED").color_kind(), Color::Red);
    assert_eq!(spin(2, "BLACK").color_kind(), Color::Black);
    assert_eq!(spin(0, "GREEN").color_kind(), Color::Green);
    assert_eq!(spin(0, "Green").color_kind(), Color::Other);
    assert_eq!(spin(0, "").color_kind(), Color::Other);
}

#[test]
fn decimal_text_writes_digits() {
    assert_eq!(decimal_text(0), "0");
    assert_eq!(decimal_text(7), "7");
    assert_eq!(decimal_text(10), "10");
    assert_eq!(decimal_text(4294967295), "4294967295");
    assert_eq!(decimal_text(u64::MAX), "18446744073709551615");
}
