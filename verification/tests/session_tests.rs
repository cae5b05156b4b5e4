use rechnen::abacus::{Abacus, Bead};
use rechnen::session::{MyApp, TaskScore};
use rechnen::task::{Task, TaskType};

fn add10(p1: i32, p2: i32) -> Task {
    Task { parameter1: p1, parameter2: p2, task_result: p1 + p2, task_type: TaskType::Add10 }
}

fn row(red: i32, blue: i32, red2: i32) -> Abacus {
    Abacus { red, blue, red2 }
}

/// A number that is not the expected answer of an exercise up to ten.
fn wrong_answer(app: &MyApp) -> i32 {
    app.task().user_expected_result() % 10 + 1
}

/// Answers the current task of an exercise up to ten right or wrong at first,
/// finishes it, and moves on once the result has been shown for a second.
fn play_task(app: &mut MyApp, right: bool) {
    if !right {
        let n = wrong_answer(app);
        assert!(!app.click_number(n));
    }
    let expected = app.task().user_expected_result();
    assert!(app.click_number(expected));
    assert_eq!(app.result_elapsed(1000), None);
}

fn finished_exercise(ok: usize, wrong: usize) -> MyApp {
    let mut app = MyApp::default();
    app.select_exercise(0);
    for _ in 0..ok {
        play_task(&mut app, true);
    }
    for _ in 0..wrong {
        play_task(&mut app, false);
    }
    app
}

#[test]
fn default_session() {
    let app = MyApp::default();
    assert_eq!(app.exercise(), -1);
    assert_eq!(app.task_type(), TaskType::Add10);
    assert_eq!(app.task().task_type, TaskType::Add10);
    assert_eq!(app.user_result(), 0);
    assert_eq!(app.ok_results(), 0);
    assert_eq!(app.wrong_results(), 0);
    assert!(app.result_time().is_none());
    assert!(app.task_scores().is_empty());
    assert!(!app.show_abacus() && !app.has_abacus_help() && !app.show_dialog());
    assert_eq!(app.abacus1(), row(0, 0, 0));
    assert_eq!(app.show_message(), "");
}

#[test]
fn right_first_answer_is_counted() {
    let mut app = MyApp::with_task(TaskType::Add10, add10(3, 4));
    assert!(app.click_number(7));
    assert_eq!(app.ok_results(), 1);
    assert_eq!(app.wrong_results(), 0);
    assert_eq!(app.task_scores(), &vec![TaskScore::ScorePerfect]);
    assert!(app.result_time().is_some());
    // Further buttons are ignored while the result is shown.
    assert!(!app.click_number(5));
    assert_eq!(app.user_result(), 7);
    assert_eq!(app.ok_results(), 1);
}

#[test]
fn right_answer_with_abacus_scores_second() {
    let mut app = MyApp::with_task(TaskType::Add10, add10(3, 4));
    app.display_abacus();
    assert!(app.click_number(7));
    assert_eq!(app.task_scores(), &vec![TaskScore::ScoreSecond]);
}

#[test]
fn wrong_first_answer_brings_help() {
    let mut app = MyApp::with_task(TaskType::Add10, add10(3, 4));
    assert!(!app.click_number(6));
    assert_eq!(app.wrong_results(), 1);
    assert_eq!(app.tries(), 1);
    assert_eq!(app.task_scores(), &vec![TaskScore::ScoreWrong]);
    assert!(app.has_abacus_help() && app.show_abacus());
    assert_eq!(app.abacus1(), row(2, 0, 0));
    assert_eq!(app.abacus2(), row(0, 4, 1));
    assert!(app.is_wrong_answer());
    // A later right answer is shown but not counted again.
    assert!(app.click_number(7));
    assert_eq!(app.ok_results(), 0);
    assert_eq!(app.wrong_results(), 1);
    assert_eq!(app.task_scores().len(), 1);
}

#[test]
fn expected_answer_revealed_after_retries() {
    let mut app = MyApp::with_task(TaskType::Add10, add10(3, 4));
    for n in [1, 2, 3] {
        assert!(!app.click_number(n));
        assert!(app.result_time().is_none());
    }
    assert_eq!(app.tries(), 3);
    assert!(app.click_number(5));
    assert_eq!(app.user_result(), 7);
    assert_eq!(app.tries(), 4);
    assert!(app.result_time().is_some());
    assert_eq!(app.wrong_results(), 1);
}

#[test]
fn two_digit_answer() {
    let task = Task { parameter1: 8, parameter2: 7, task_result: 15, task_type: TaskType::Add20 };
    let mut app = MyApp::with_task(TaskType::Add20, task);
    assert_eq!(app.number_button_value(10), 0);
    assert_eq!(app.number_button_value(7), 7);
    assert!(!app.click_number(1));
    assert!(app.was_partially_result());
    assert!(app.is_partially_result());
    assert!(!app.is_final_result());
    assert_eq!(app.result_text(), "1?");
    assert_eq!(app.operand_text(), "7");
    assert_eq!(app.tries(), 0);
    assert!(app.click_number(5));
    assert_eq!(app.user_result(), 15);
    assert_eq!(app.result_text(), "15");
    assert_eq!(app.ok_results(), 1);
}

#[test]
fn erase_clears_input() {
    let task = Task { parameter1: 8, parameter2: 7, task_result: 15, task_type: TaskType::Add20 };
    let mut app = MyApp::with_task(TaskType::Add20, task);
    app.click_number(1);
    app.erase_answer();
    assert_eq!(app.user_result(), 0);
    assert_eq!(app.result_text(), "?");
}

#[test]
fn quest_labels() {
    let task = Task { parameter1: 12, parameter2: 5, task_result: 7, task_type: TaskType::SubQuest20 };
    let mut app = MyApp::with_task(TaskType::SubQuest20, task);
    assert_eq!(app.result_text(), "7");
    assert_eq!(app.operand_text(), "?");
    assert_eq!(app.number_button_value(10), 0);
    app.click_number(1);
    assert_eq!(app.operand_text(), "5?");
    app.erase_answer();
    app.click_number(6);
    assert_eq!(app.operand_text(), "6");
    assert!(app.is_wrong_answer());
}

#[test]
fn labels_up_to_ten() {
    let mut app = MyApp::with_task(TaskType::Add10, add10(2, 3));
    assert_eq!(app.number_button_value(10), 10);
    assert_eq!(app.result_text(), "?");
    assert_eq!(app.operand_text(), "3");
    app.click_number(4);
    assert_eq!(app.result_text(), "4");
}

#[test]
fn abacus_minus_layout() {
    let mut app = MyApp::with_task(TaskType::Add10, add10(2, 3));
    app.display_abacus_minus(14, 6);
    assert_eq!(app.abacus1(), row(6, 4, 0));
    assert_eq!(app.abacus2(), row(0, 4, 0));
    app.display_abacus_minus(7, 3);
    assert_eq!(app.abacus1(), row(3, 4, 0));
    assert_eq!(app.abacus2(), row(0, 0, 0));
}

#[test]
fn abacus_help_fills_up_to_ten() {
    let task = Task { parameter1: 8, parameter2: 5, task_result: 13, task_type: TaskType::Add20 };
    let mut app = MyApp::with_task(TaskType::Add20, task);
    app.abacus_help();
    assert_eq!(app.abacus1(), row(8, 2, 0));
    assert_eq!(app.abacus2(), row(0, 3, 0));
    let task = Task { parameter1: 4, parameter2: 9, task_result: 13, task_type: TaskType::Add20 };
    let mut app = MyApp::with_task(TaskType::Add20, task);
    app.abacus_help();
    assert_eq!(app.abacus1(), row(3, 0, 0));
    assert_eq!(app.abacus2(), row(0, 9, 1));
}

#[test]
fn abacus_help_for_sub10_shows_minuend() {
    let task = Task { parameter1: 7, parameter2: 3, task_result: 4, task_type: TaskType::Sub10 };
    let mut app = MyApp::with_task(TaskType::Sub10, task);
    app.abacus_help();
    assert_eq!(app.abacus1(), row(4, 3, 0));
    assert_eq!(app.abacus2(), row(0, 0, 0));
    // Shown without the help, a Sub10 task lays out minuend and subtrahend.
    let mut app = MyApp::with_task(TaskType::Sub10, task);
    app.display_abacus();
    assert_eq!(app.abacus1(), row(7, 0, 0));
    assert_eq!(app.abacus2(), row(0, 3, 0));
}

#[test]
fn abacus_help_for_quest() {
    let task = Task { parameter1: 6, parameter2: 8, task_result: 14, task_type: TaskType::AddQuest20 };
    let mut app = MyApp::with_task(TaskType::AddQuest20, task);
    app.abacus_clicked();
    assert!(app.has_abacus_help());
    assert_eq!(app.abacus1(), row(6, 4, 0));
    assert_eq!(app.abacus2(), row(0, 4, 0));
    // A second click changes nothing.
    app.abacus_clicked();
    assert_eq!(app.abacus1(), row(6, 4, 0));
}

#[test]
fn mixed_exercise_shows_no_beads() {
    let task = Task { parameter1: 6, parameter2: 8, task_result: 14, task_type: TaskType::Add20 };
    let mut app = MyApp::with_task(TaskType::Mix, task);
    app.abacus_help();
    assert!(app.show_abacus());
    assert_eq!(app.abacus1(), row(0, 0, 0));
    assert_eq!(app.abacus2(), row(0, 0, 0));
}

#[test]
fn abacus_timer_waits_then_shows() {
    let mut app = MyApp::with_task(TaskType::Add10, add10(2, 3));
    assert_eq!(app.abacus_timer(1_000_000_000), Some(4_000_000_000));
    assert!(!app.show_abacus());
    assert_eq!(app.abacus_timer(5_000_000_000), None);
    assert!(app.show_abacus());
    assert_eq!(app.abacus1(), row(2, 0, 0));
    assert_eq!(app.abacus2(), row(0, 3, 0));
    assert_eq!(app.abacus_timer(0), None);
}

#[test]
fn result_wait_then_next_task() {
    let mut app = MyApp::with_task(TaskType::Add10, add10(2, 3));
    assert_eq!(app.result_elapsed(2000), None);
    assert_eq!(app.task(), add10(2, 3));
    app.click_number(5);
    assert_eq!(app.result_elapsed(300), Some(700));
    assert!(app.result_time().is_some());
    assert_eq!(app.result_elapsed(1000), None);
    assert!(app.result_time().is_none());
    assert_eq!(app.user_result(), 0);
    assert_eq!(app.task().task_type, TaskType::Add10);
    assert_eq!(app.ok_results(), 1);
}

#[test]
fn select_exercise_starts_fresh() {
    let mut app = finished_exercise(2, 1);
    assert_eq!(app.ok_results(), 2);
    app.select_exercise(8);
    assert_eq!(app.exercise(), 8);
    assert_eq!(app.task_type(), TaskType::Mix);
    assert!(matches!(
        app.task().task_type,
        TaskType::Add20 | TaskType::AddQuest20 | TaskType::Sub20 | TaskType::SubQuest20
    ));
    assert_eq!(app.ok_results(), 0);
    assert_eq!(app.wrong_results(), 0);
    assert!(app.task_scores().is_empty());
}

#[test]
fn ten_answers_end_the_exercise() {
    let mut app = finished_exercise(9, 0);
    assert!(!app.show_dialog());
    play_task_keep(&mut app);
    assert_eq!(app.result_elapsed(1500), None);
    assert!(app.show_dialog());
    assert_eq!(app.show_message(), "😀 Perfekt! Kein Fehler");
    app.close_dialog();
    assert!(!app.show_dialog());
    assert_eq!(app.exercise(), -1);
}

fn play_task_keep(app: &mut MyApp) {
    let expected = app.task().user_expected_result();
    assert!(app.click_number(expected));
}

#[test]
fn final_messages_by_share() {
    assert_eq!(finished_exercise(10, 0).get_final_message(), "😀 Perfekt! Kein Fehler");
    assert_eq!(finished_exercise(9, 1).get_final_message(), "😃 Aufgabe beendet richtig: 9 falsch: 1");
    assert_eq!(finished_exercise(7, 3).get_final_message(), "😒 Aufgabe beendet richtig: 7 falsch: 3");
    assert_eq!(finished_exercise(5, 5).get_final_message(), "😓 Aufgabe beendet richtig: 5 falsch: 5");
    assert_eq!(finished_exercise(4, 6).get_final_message(), "😞 Aufgabe beendet richtig: 4 falsch: 6");
    assert_eq!(finished_exercise(2, 8).get_final_message(), "😢 Aufgabe beendet richtig: 2 falsch: 8");
    assert_eq!(finished_exercise(1, 9).get_final_message(), "🐵 War da ein Affe dran?");
    assert_eq!(finished_exercise(0, 0).get_final_message(), "🐵 War da ein Affe dran?");
    assert_eq!(finished_exercise(6, 4).get_final_message(), "😓 Aufgabe beendet richtig: 6 falsch: 4");
    assert_eq!(finished_exercise(8, 2).get_final_message(), "😒 Aufgabe beendet richtig: 8 falsch: 2");
}

#[test]
fn scores_match_tally() {
    let app = finished_exercise(3, 2);
    let scores = app.task_scores();
    assert_eq!(scores.len(), 5);
    assert_eq!(scores.iter().filter(|s| **s == TaskScore::ScoreWrong).count(), 2);
}

#[test]
fn leave_exercise_goes_to_menu() {
    let mut app = MyApp::default();
    app.select_exercise(3);
    app.leave_exercise();
    assert_eq!(app.exercise(), -1);
    assert_eq!(app.task_type(), TaskType::AddQuest20);
}

#[test]
fn score_symbols() {
    assert_eq!(TaskScore::ScorePerfect.symbol(), "✅");
    assert_eq!(TaskScore::ScoreSecond.symbol(), "⏳");
    assert_eq!(TaskScore::ScoreWrong.symbol(), "❌");
}

#[test]
fn abacus_beads() {
    let mut a = row(0, 0, 0);
    a.set_red_blue_red(2, 3, 1);
    assert_eq!(a, row(2, 3, 1));
    let beads: Vec<Bead> = (0..10).map(|i| a.bead(i)).collect();
    assert_eq!(
        beads,
        vec![
            Bead::Red,
            Bead::Red,
            Bead::Blue,
            Bead::Blue,
            Bead::Blue,
            Bead::Red,
            Bead::Empty,
            Bead::Empty,
            Bead::Empty,
            Bead::Empty
        ]
    );
}

#[test]
fn new_task_resets_input() {
    let mut app = MyApp::with_task(TaskType::Add10, add10(2, 3));
    app.click_number(9);
    app.new_task();
    assert_eq!(app.user_result(), 0);
    assert_eq!(app.tries(), 0);
    assert!(!app.show_abacus() && !app.has_abacus_help());
    assert_eq!(app.abacus1(), row(0, 0, 0));
    assert_eq!(app.wrong_results(), 1);
    app.start_exercise(TaskType::Sub20);
    assert_eq!(app.task_type(), TaskType::Sub20);
    assert_eq!(app.task().task_type, TaskType::Sub20);
    assert_eq!(app.wrong_results(), 0);
}

#[test]
fn keep_drawing_while_equal() {
    let current = add10(2, 3);
    assert!(MyApp::keep_drawing(&add10(2, 3), &current, 0));
    assert!(MyApp::keep_drawing(&add10(2, 3), &current, 9));
    assert!(!MyApp::keep_drawing(&add10(2, 3), &current, 10));
    assert!(!MyApp::keep_drawing(&add10(3, 2), &current, 0));
}

#[test]
fn click_fits_overflow_bounds() {
    let app = MyApp::with_task(TaskType::Add10, add10(2, 3));
    assert!(app.click_fits(5));
    assert!(app.click_fits(i32::MAX));
    let task = Task { parameter1: 8, parameter2: 7, task_result: 15, task_type: TaskType::Add20 };
    let mut app = MyApp::with_task(TaskType::Add20, task);
    app.click_number(1);
    assert!(app.click_fits(5));
    assert!(!app.click_fits(i32::MAX));
}

#[test]
fn exercise_titles() {
    assert_eq!(rechnen::session::EXERCISE_COUNT, 9);
    assert_eq!(rechnen::session::exercise_title(0), "1+2");
    assert_eq!(rechnen::session::exercise_title(3), "6+?=14");
    assert_eq!(rechnen::session::exercise_title(8), "Mix");
}
