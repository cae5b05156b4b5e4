//! The state of an exercise session: the current task, the child's input,
//! the tally of answers, and the abacus help.

use vstd::prelude::*;
use std::time::Instant;
use crate::abacus::Abacus;
use crate::clock::instant_now;
use crate::task::{display_delay_secs, is_quest, kind_fits, kind_of_index, max_sum_of, Task, TaskType};
use crate::text::{decimal, i32_text};

verus! {

/// How the first answer to a task was scored.
#[derive(Debug, Clone, Copy, PartialEq, Eq, Structural)]
pub enum TaskScore {
    /// Right at once, without the abacus.
    ScorePerfect,
    /// Right at once, with the abacus shown.
    ScoreSecond,
    /// Wrong at first.
    ScoreWrong,
}

/// A session of one exercise, as the user interface drives it.
pub struct MyApp {
    exercise: i32,
    task_type: TaskType,
    task: Task,
    user_result: i32,
    ok_results: i32,
    wrong_results: i32,
    result_time: Option<Instant>,
    task_scores: Vec<TaskScore>,
    tries: i32,
    start_time: Instant,
    has_abacus_help: bool,
    show_abacus: bool,
    abacus1: Abacus,
    abacus2: Abacus,
    show_dialog: bool,
    show_message: String,
}

/// The model of a session: its fields, with the score row and the message
/// as sequences.
#[verifier::ext_equal]
pub struct SessionView {
    pub exercise: i32,
    pub task_type: TaskType,
    pub task: Task,
    pub user_result: i32,
    pub ok_results: i32,
    pub wrong_results: i32,
    pub result_time: Option<Instant>,
    pub task_scores: Seq<TaskScore>,
    pub tries: i32,
    pub start_time: Instant,
    pub has_abacus_help: bool,
    pub show_abacus: bool,
    pub abacus1: Abacus,
    pub abacus2: Abacus,
    pub show_dialog: bool,
    pub show_message: Seq<char>,
}

impl View for MyApp {
    type V = SessionView;

    closed spec fn view(&self) -> SessionView {
        SessionView {
            exercise: self.exercise,
            task_type: self.task_type,
            task: self.task,
            user_result: self.user_result,
            ok_results: self.ok_results,
            wrong_results: self.wrong_results,
            result_time: self.result_time,
            task_scores: self.task_scores@,
            tries: self.tries,
            start_time: self.start_time,
            has_abacus_help: self.has_abacus_help,
            show_abacus: self.show_abacus,
            abacus1: self.abacus1,
            abacus2: self.abacus2,
            show_dialog: self.show_dialog,
            show_message: self.show_message@,
        }
    }
}

/// The number of exercises offered in the menu.
pub const EXERCISE_COUNT: i32 = 9;

/// The menu title of exercise number `i`.
pub open spec fn exercise_title_of(i: int) -> Seq<char> {
    if i == 0 {
        "1+2"@
    } else if i == 1 {
        "6+7"@
    } else if i == 2 {
        "1+?=4"@
    } else if i == 3 {
        "6+?=14"@
    } else if i == 4 {
        "5-2"@
    } else if i == 5 {
        "16-7"@
    } else if i == 6 {
        "10-?=4"@
    } else if i == 7 {
        "14-?=6"@
    } else {
        "Mix"@
    }
}

/// The menu title of exercise number `index`.
pub fn exercise_title(index: i32) -> (r: &'static str)
    requires
        0 <= index < EXERCISE_COUNT,
    ensures
        r@ == exercise_title_of(index as int),
{
    match index {
        0 => "1+2",
        1 => "6+7",
        2 => "1+?=4",
        3 => "6+?=14",
        4 => "5-2",
        5 => "16-7",
        6 => "10-?=4",
        7 => "14-?=6",
        _ => "Mix",
    }
}

/// The number of wrong first answers in a score row.
pub open spec fn count_wrong(s: Seq<TaskScore>) -> nat
    decreases s.len(),
{
    if s.len() == 0 {
        0
    } else {
        count_wrong(s.drop_last()) + if s.last() == TaskScore::ScoreWrong { 1nat } else { 0nat }
    }
}

/// Appending a score adds one to the wrong count exactly when it is a wrong one.
pub proof fn lemma_count_wrong_push(s: Seq<TaskScore>, x: TaskScore)
    ensures
        count_wrong(s.push(x)) == count_wrong(s) + if x == TaskScore::ScoreWrong { 1nat } else { 0nat },
{
    assert(s.push(x).drop_last() =~= s);
}

/// An empty abacus row.
pub open spec fn empty_row() -> Abacus {
    Abacus { red: 0, blue: 0, red2: 0 }
}

/// A row of `red` red, `blue` blue and `red2` red beads.
pub open spec fn row(red: int, blue: int, red2: int) -> Abacus {
    Abacus { red: red as i32, blue: blue as i32, red2: red2 as i32 }
}

/// The smaller of `a` and `b`.
pub open spec fn min_int(a: int, b: int) -> int {
    if a <= b { a } else { b }
}

/// The larger of `a` and `b`.
pub open spec fn max_int(a: int, b: int) -> int {
    if a >= b { a } else { b }
}

/// The two rows that help with the addition `p1 + p2`: the bigger addend is
/// filled up to the next five (both addends at most 5) or ten from the
/// smaller one.
pub open spec fn addition_rows(p1: int, p2: int) -> (Abacus, Abacus) {
    let limit: int = if p1 <= 5 && p2 <= 5 { 5 } else { 10 };
    if p1 >= p2 {
        let to_move: int = min_int(limit - p1, p2);
        (row(p1, to_move, 0), row(0, p2 - to_move, 0))
    } else {
        let to_move: int = min_int(limit - p2, p1);
        (row(p1 - to_move, 0, 0), row(0, p2, to_move))
    }
}

/// A session of the exercise kind `task_type` that has just started with
/// `task` at the clock reading `now`, before any exercise is chosen.
pub open spec fn initial(task_type: TaskType, task: Task, now: Instant) -> SessionView {
    SessionView {
        exercise: -1i32,
        task_type,
        task,
        user_result: 0,
        ok_results: 0,
        wrong_results: 0,
        result_time: None,
        task_scores: Seq::<TaskScore>::empty(),
        tries: 0,
        start_time: now,
        has_abacus_help: false,
        show_abacus: false,
        abacus1: empty_row(),
        abacus2: empty_row(),
        show_dialog: false,
        show_message: Seq::<char>::empty(),
    }
}

/// Successive draws of a next task while `current` is shown: one to eleven
/// draws, all but the last equal to `current`, and the last one differs from it
/// unless eleven were made.
pub open spec fn settled_draws(draws: Seq<Task>, current: Task) -> bool {
    &&& 1 <= draws.len() <= 11
    &&& forall|i: int| 0 <= i < draws.len() - 1 ==> #[trigger] draws[i] == current
    &&& (draws.last() != current || draws.len() == 11)
}

/// The message at the end of an exercise with `ok` right and `wrong` wrong
/// first answers, graded by the share of right ones: all right, at least 90,
/// 70, 50, 40 or 20 percent, or less (also when nothing was answered).
pub open spec fn final_message(ok: int, wrong: int) -> Seq<char> {
    let total: int = ok + wrong;
    let tally = decimal(ok) + " falsch: "@ + decimal(wrong);
    if total <= 0 {
        "🐵 War da ein Affe dran?"@
    } else if ok >= total {
        "😀 Perfekt! Kein Fehler"@
    } else if 100 * ok >= 90 * total {
        "😃 Aufgabe beendet richtig: "@ + tally
    } else if 100 * ok >= 70 * total {
        "😒 Aufgabe beendet richtig: "@ + tally
    } else if 100 * ok >= 50 * total {
        "😓 Aufgabe beendet richtig: "@ + tally
    } else if 100 * ok >= 40 * total {
        "😞 Aufgabe beendet richtig: "@ + tally
    } else if 100 * ok >= 20 * total {
        "😢 Aufgabe beendet richtig: "@ + tally
    } else {
        "🐵 War da ein Affe dran?"@
    }
}

/// The text shown in place of the result.
pub open spec fn result_label(v: SessionView) -> Seq<char> {
    if is_quest(v.task.task_type) {
        decimal(v.task.task_result as int)
    } else if v.user_result > 0 {
        if v.is_partially() {
            decimal(v.user_result as int) + "?"@
        } else {
            decimal(v.user_result as int)
        }
    } else {
        "?"@
    }
}

/// The text shown in place of the second operand.
pub open spec fn operand_label(v: SessionView) -> Seq<char> {
    if is_quest(v.task.task_type) {
        if v.user_result > 0 {
            if v.is_partially() {
                decimal(v.task.parameter2 as int) + "?"@
            } else {
                decimal(v.user_result as int)
            }
        } else {
            "?"@
        }
    } else {
        decimal(v.task.parameter2 as int)
    }
}

/// How long, in nanoseconds, a task of kind `t` is shown before the abacus.
pub open spec fn display_delay_nanos(t: TaskType) -> int {
    display_delay_secs(t) * 1_000_000_000
}

impl SessionView {
    /// The invariant of a session: the menu (-1) or one of the exercises, a
    /// valid task that fits the exercise, and a tally that agrees with the
    /// score row.
    pub open spec fn wf(self) -> bool {
        &&& -1 <= self.exercise < EXERCISE_COUNT
        &&& self.task.is_valid()
        &&& kind_fits(self.task_type, self.task.task_type)
        &&& 0 <= self.ok_results
        &&& 0 <= self.wrong_results
        &&& self.ok_results + self.wrong_results <= i32::MAX
        &&& 0 <= self.tries
        &&& self.task_scores.len() == self.ok_results + self.wrong_results
        &&& count_wrong(self.task_scores) == self.wrong_results
    }

    /// The input so far is the tens digit of a two-digit answer.
    pub open spec fn was_partially(self) -> bool {
        &&& max_sum_of(self.task.task_type) > 10
        &&& self.user_result <= max_sum_of(self.task.task_type) / 10
        &&& self.user_result > 0
    }

    /// The input is complete: no second digit can follow.
    pub open spec fn is_final(self) -> bool {
        ||| max_sum_of(self.task.task_type) <= 10
        ||| self.user_result > max_sum_of(self.task.task_type) / 10
        ||| (self.user_result <= max_sum_of(self.task.task_type) / 10 && self.user_result
            == self.task.expected())
    }

    /// The input is a first digit that is not yet the answer.
    pub open spec fn is_partially(self) -> bool {
        &&& self.user_result > 0
        &&& max_sum_of(self.task.task_type) > 10
        &&& self.user_result <= max_sum_of(self.task.task_type) / 10
        &&& self.user_result != self.task.expected()
    }

    /// The session with the abacus rows `rows`.
    pub open spec fn with_rows(self, rows: (Abacus, Abacus)) -> SessionView {
        SessionView { abacus1: rows.0, abacus2: rows.1, ..self }
    }

    /// The rows that show `sum` as `par` red beads and the rest in blue, ten
    /// beads to a row.
    pub open spec fn after_display_abacus_minus(self, sum: int, par: int) -> SessionView {
        self.with_rows(
            (row(par, min_int(sum - par, 10 - par), 0), row(0, max_int(sum - 10, 0), 0)),
        )
    }

    /// The session once the abacus is shown for its exercise kind.
    pub open spec fn after_display_abacus(self) -> SessionView {
        let s = SessionView { show_abacus: true, ..self };
        let t = self.task;
        match self.task_type {
            TaskType::Add10 | TaskType::Add20 | TaskType::Sub10 => s.with_rows(
                (row(t.parameter1 as int, 0, 0), row(0, t.parameter2 as int, 0)),
            ),
            TaskType::AddQuest10 | TaskType::AddQuest20 => s.after_display_abacus_minus(
                t.task_result as int,
                t.parameter1 as int,
            ),
            TaskType::Sub20 | TaskType::SubQuest10 | TaskType::SubQuest20 => s.after_display_abacus_minus(
                t.parameter1 as int,
                t.task_result as int,
            ),
            _ => s,
        }
    }

    /// The session once the abacus help is given.
    pub open spec fn after_abacus_help(self) -> SessionView {
        let s = SessionView { has_abacus_help: true, show_abacus: true, ..self };
        let t = self.task;
        match self.task_type {
            TaskType::Sub10 => s.after_display_abacus_minus(t.parameter1 as int, t.task_result as int),
            TaskType::Add10 | TaskType::Add20 => s.with_rows(
                addition_rows(t.parameter1 as int, t.parameter2 as int),
            ),
            _ => s.after_display_abacus(),
        }
    }

    /// The session with a fresh task `task`, drawn at the clock reading `now`:
    /// input, tries, abacus and shown result are reset.
    pub open spec fn after_new_task(self, task: Task, now: Instant) -> SessionView {
        SessionView {
            start_time: now,
            tries: 0,
            show_abacus: false,
            has_abacus_help: false,
            abacus1: empty_row(),
            abacus2: empty_row(),
            task,
            user_result: 0,
            result_time: None,
            ..self
        }
    }

    /// The session at the start of an exercise of kind `task_type`, before its
    /// first task is drawn: the tally and the score row are emptied.
    pub open spec fn start_of(self, task_type: TaskType) -> SessionView {
        SessionView {
            task_type,
            wrong_results: 0,
            ok_results: 0,
            task_scores: Seq::<TaskScore>::empty(),
            ..self
        }
    }

    /// The session with the input as it stands after the button `number`.
    pub open spec fn with_entered(self, number: int) -> SessionView {
        SessionView { user_result: self.entered(number) as i32, ..self }
    }

    /// Pressing the button `number` keeps every count in `i32`: the two-digit
    /// input, the tally when a first answer is counted, and the tries when a
    /// wrong complete answer is given.
    pub open spec fn click_in_range(self, number: int) -> bool {
        self.result_time is None ==> {
            let s = self.with_entered(number);
            let right = s.user_result == s.task.expected();
            &&& (self.was_partially() ==> self.user_result * 10 + number <= i32::MAX)
            &&& (self.tries == 0 && (right || s.is_final()) ==> self.ok_results + self.wrong_results
                < i32::MAX)
            &&& (!right && s.is_final() ==> self.tries < i32::MAX)
        }
    }

    /// The input after the button `number` is pressed: a second digit after a
    /// tens digit, else the number alone.
    pub open spec fn entered(self, number: int) -> int {
        if self.was_partially() {
            self.user_result * 10 + number
        } else {
            number
        }
    }

    /// The session after the button `number` is pressed, with `now` the clock
    /// reading taken when a result gets shown, and whether a repaint is due in
    /// a second.
    pub open spec fn after_click(self, number: int, now: Instant) -> (SessionView, bool) {
        if self.result_time is Some {
            (self, false)
        } else {
            let s = SessionView { user_result: self.entered(number) as i32, ..self };
            if s.user_result == s.task.expected() {
                let answered = SessionView { result_time: Some(now), ..s };
                if self.tries == 0 {
                    let score = if !self.show_abacus && !self.has_abacus_help {
                        TaskScore::ScorePerfect
                    } else {
                        TaskScore::ScoreSecond
                    };
                    (
                        SessionView {
                            ok_results: (self.ok_results + 1) as i32,
                            task_scores: self.task_scores.push(score),
                            ..answered
                        },
                        true,
                    )
                } else {
                    (answered, true)
                }
            } else if s.is_final() {
                if self.tries == 0 {
                    let marked = SessionView {
                        wrong_results: (self.wrong_results + 1) as i32,
                        task_scores: self.task_scores.push(TaskScore::ScoreWrong),
                        ..s
                    };
                    (SessionView { tries: 1, ..marked.after_abacus_help() }, false)
                } else if self.tries >= 3 {
                    (
                        SessionView {
                            user_result: s.task.expected(),
                            result_time: Some(now),
                            tries: (self.tries + 1) as i32,
                            ..s
                        },
                        true,
                    )
                } else {
                    (SessionView { tries: (self.tries + 1) as i32, ..s }, false)
                }
            } else {
                (s, false)
            }
        }
    }
}

impl MyApp {
    /// A session of the exercise kind `task_type` that starts with `task`.
    pub fn with_task(task_type: TaskType, task: Task) -> (app: MyApp)
        requires
            task.is_valid(),
            kind_fits(task_type, task.task_type),
        ensures
            app@ == initial(task_type, task, app@.start_time),
            app@.wf(),
    {
        let app = MyApp {
            exercise: -1,
            task,
            user_result: 0,
            task_type,
            ok_results: 0,
            wrong_results: 0,
            result_time: None,
            task_scores: Vec::new(),
            tries: 0,
            start_time: instant_now(),
            has_abacus_help: false,
            show_abacus: false,
            abacus1: Abacus { red: 0, blue: 0, red2: 0 },
            abacus2: Abacus { red: 0, blue: 0, red2: 0 },
            show_dialog: false,
            show_message: String::new(),
        };
        proof {
            assert(app@.task_scores =~= Seq::<TaskScore>::empty());
            assert(app@.show_message =~= Seq::<char>::empty());
        }
        app
    }

    /// Shows the amount `sum` on the abacus: `par` red beads, then the rest of
    /// the first ten in blue, and what exceeds ten in blue on the second row.
    pub fn display_abacus_minus(&mut self, sum: i32, par: i32)
        requires
            i32::MIN <= sum - par <= i32::MAX,
            i32::MIN <= 10 - par <= i32::MAX,
            i32::MIN <= sum - 10 <= i32::MAX,
        ensures
            final(self)@ == old(self)@.after_display_abacus_minus(sum as int, par as int),
            old(self)@.wf() ==> final(self)@.wf(),
    {
        let rest: i32 = if sum - par <= 10 - par { sum - par } else { 10 - par };
        self.abacus1.set_red_blue_red(par, rest, 0);
        let over: i32 = if sum - 10 >= 0 { sum - 10 } else { 0 };
        self.abacus2.set_red_blue_red(0, over, 0);
    }

    /// Shows the abacus with the task laid out for the exercise kind.
    pub fn display_abacus(&mut self)
        requires
            old(self)@.wf(),
        ensures
            final(self)@ == old(self)@.after_display_abacus(),
            final(self)@.wf(),
    {
        self.show_abacus = true;
        match self.task_type {
            TaskType::Add10 | TaskType::Add20 | TaskType::Sub10 => {
                self.abacus1.set_red_blue_red(self.task.parameter1, 0, 0);
                self.abacus2.set_red_blue_red(0, self.task.parameter2, 0);
            },
            TaskType::AddQuest10 | TaskType::AddQuest20 => {
                self.display_abacus_minus(self.task.task_result, self.task.parameter1);
            },
            TaskType::Sub20 => {
                self.display_abacus_minus(self.task.parameter1, self.task.task_result);
            },
            TaskType::SubQuest10 | TaskType::SubQuest20 => {
                self.display_abacus_minus(self.task.parameter1, self.task.task_result);
            },
            _ => {},
        }
    }

    /// Gives the abacus help: for the additions up to ten or twenty the beads
    /// of the smaller addend fill up the bigger one to five or ten; the other
    /// kinds show the abacus as `display_abacus` does (`Sub10` shows its
    /// minuend).
    pub fn abacus_help(&mut self)
        requires
            old(self)@.wf(),
        ensures
            final(self)@ == old(self)@.after_abacus_help(),
            final(self)@.wf(),
    {
        self.has_abacus_help = true;
        self.show_abacus = true;
        match self.task_type {
            TaskType::Sub10 => {
                self.display_abacus_minus(self.task.parameter1, self.task.task_result);
                return;
            },
            TaskType::Add10 | TaskType::Add20 => {},
            _ => {
                self.display_abacus();
                return;
            },
        }
        let p1: i32 = self.task.parameter1;
        let p2: i32 = self.task.parameter2;
        if p1 <= 5 && p2 <= 5 {
            if p1 >= p2 {
                let to_move: i32 = if 5 - p1 <= p2 { 5 - p1 } else { p2 };
                self.abacus1.set_red_blue_red(p1, to_move, 0);
                self.abacus2.set_red_blue_red(0, p2 - to_move, 0);
            } else {
                let to_move: i32 = if 5 - p2 <= p1 { 5 - p2 } else { p1 };
                self.abacus1.set_red_blue_red(p1 - to_move, 0, 0);
                self.abacus2.set_red_blue_red(0, p2, to_move);
            }
        } else {
            if p1 >= p2 {
                let to_move: i32 = if 10 - p1 <= p2 { 10 - p1 } else { p2 };
                self.abacus1.set_red_blue_red(p1, to_move, 0);
                self.abacus2.set_red_blue_red(0, p2 - to_move, 0);
            } else {
                let to_move: i32 = if 10 - p2 <= p1 { 10 - p2 } else { p1 };
                self.abacus1.set_red_blue_red(p1 - to_move, 0, 0);
                self.abacus2.set_red_blue_red(0, p2, to_move);
            }
        }
    }

    /// Whether the input so far is the tens digit of a two-digit answer.
    pub fn was_partially_result(&self) -> (r: bool)
        ensures
            r == self@.was_partially(),
    {
        self.task.task_type.get_max_sum() > 10 && self.user_result <= self.task.task_type.get_max_sum()
            / 10 && self.user_result > 0
    }

    /// Whether the input is complete.
    pub fn is_final_result(&self) -> (r: bool)
        ensures
            r == self@.is_final(),
    {
        self.task.task_type.get_max_sum() <= 10 || self.user_result > self.task.task_type.get_max_sum()
            / 10 || (self.user_result <= self.task.task_type.get_max_sum() / 10
            && self.task.check_result(self.user_result))
    }

    /// Whether the input is a first digit that is not yet the answer.
    pub fn is_partially_result(&self) -> (r: bool)
        ensures
            r == self@.is_partially(),
    {
        self.user_result > 0 && self.task.task_type.get_max_sum() > 10 && self.user_result
            <= self.task.task_type.get_max_sum() / 10 && !self.task.check_result(self.user_result)
    }

    /// Whether another task is to be drawn after `retries` redraws produced
    /// `drawn` while `current` is shown: while they are equal, at most ten times.
    pub fn keep_drawing(drawn: &Task, current: &Task, retries: i32) -> (r: bool)
        ensures
            r == (*drawn == *current && retries < 10),
    {
        *drawn == *current && retries < 10
    }

    /// Draws the next task of the exercise, retrying up to ten times while it
    /// equals the current one, and resets input, tries, abacus and shown result.
    /// The new task is the first of the successive draws that differs from the
    /// current one, or the eleventh draw if all of them equal it.
    pub fn new_task(&mut self)
        ensures
            final(self)@ == old(self)@.after_new_task(final(self)@.task, final(self)@.start_time),
            final(self)@.task.is_valid(),
            kind_fits(old(self)@.task_type, final(self)@.task.task_type),
            old(self)@.wf() ==> final(self)@.wf(),
            exists|draws: Seq<Task>|
                #[trigger] settled_draws(draws, old(self)@.task) && draws.last() == final(self)@.task
                    && forall|j: int|
                    0 <= j < draws.len() ==> (#[trigger] draws[j]).is_valid() && kind_fits(
                        old(self)@.task_type,
                        draws[j].task_type,
                    ),
    {
        let kind = self.task_type;
        let current = self.task;
        let mut new_task = Task::gen_task(kind);
        let ghost mut draws: Seq<Task> = seq![new_task];
        let mut i: i32 = 0;
        while Self::keep_drawing(&new_task, &current, i)
            invariant
                new_task.is_valid(),
                kind_fits(kind, new_task.task_type),
                0 <= i <= 10,
                draws.len() == i + 1,
                draws.last() == new_task,
                forall|j: int| 0 <= j < draws.len() - 1 ==> #[trigger] draws[j] == current,
                forall|j: int|
                    0 <= j < draws.len() ==> (#[trigger] draws[j]).is_valid() && kind_fits(
                        kind,
                        draws[j].task_type,
                    ),
            decreases 10 - i,
        {
            new_task = Task::gen_task(kind);
            proof {
                draws = draws.push(new_task);
            }
            i += 1;
        }
        proof {
            assert(settled_draws(draws, current));
        }
        self.start_time = instant_now();
        self.tries = 0;
        self.show_abacus = false;
        self.has_abacus_help = false;
        self.abacus1.set_red_blue_red(0, 0, 0);
        self.abacus2.set_red_blue_red(0, 0, 0);
        self.task = new_task;
        self.user_result = 0;
        self.result_time = None;
    }

    /// Starts an exercise of kind `task_type`: empties the tally and the score
    /// row and draws the first task.
    pub fn start_exercise(&mut self, task_type: TaskType)
        requires
            -1 <= old(self)@.exercise < EXERCISE_COUNT,
        ensures
            final(self)@ == old(self)@.start_of(task_type).after_new_task(
                final(self)@.task,
                final(self)@.start_time,
            ),
            final(self)@.wf(),
    {
        self.task_type = task_type;
        self.wrong_results = 0;
        self.ok_results = 0;
        self.task_scores.clear();
        self.new_task();
        proof {
            assert(self@.task_scores =~= Seq::<TaskScore>::empty());
        }
    }

    /// Whether pressing the button `number` keeps every count in `i32`, as
    /// `click_number` asks.
    pub fn click_fits(&self, number: i32) -> (r: bool)
        requires
            self@.wf(),
        ensures
            r == self@.click_in_range(number as int),
    {
        if self.result_time.is_some() {
            return true;
        }
        let partial = self.was_partially_result();
        if partial && self.user_result as i64 * 10 + number as i64 > i32::MAX as i64 {
            return false;
        }
        let entered: i32 = if partial { self.user_result * 10 + number } else { number };
        let max_sum: i32 = self.task.task_type.get_max_sum();
        let right = self.task.check_result(entered);
        let complete = max_sum <= 10 || entered > max_sum / 10 || (entered <= max_sum / 10 && right);
        if self.tries == 0 && (right || complete) && self.ok_results as i64 + self.wrong_results as i64
            >= i32::MAX as i64 {
            return false;
        }
        if !right && complete && self.tries == i32::MAX {
            return false;
        }
        true
    }

    /// Handles the number button `number`: while no result is shown, the digit
    /// extends or replaces the input; a right answer is shown and, at the first
    /// try, counted and scored; a complete wrong answer at the first try is
    /// counted and scored wrong and brings the abacus help, and after three
    /// more wrong tries the expected answer is shown. Returns whether a
    /// repaint is due in a second.
    pub fn click_number(&mut self, number: i32) -> (repaint: bool)
        requires
            old(self)@.wf(),
            old(self)@.click_in_range(number as int),
        ensures
            exists|now: Instant| old(self)@.after_click(number as int, now) == (final(self)@, repaint),
            final(self)@.wf(),
    {
        let ghost old_v = self@;
        let ghost mut stamp: Instant = self.start_time;
        let mut repaint = false;
        if self.result_time.is_none() {
            self.user_result = if self.was_partially_result() {
                self.user_result * 10 + number
            } else {
                number
            };
            if self.task.check_result(self.user_result) {
                let now = instant_now();
                proof {
                    stamp = now;
                }
                self.result_time = Some(now);
                if self.tries == 0 {
                    self.ok_results += 1;
                    let score = if !self.show_abacus && !self.has_abacus_help {
                        TaskScore::ScorePerfect
                    } else {
                        TaskScore::ScoreSecond
                    };
                    proof {
                        lemma_count_wrong_push(self@.task_scores, score);
                    }
                    self.task_scores.push(score);
                }
                repaint = true;
            } else {
                if self.is_final_result() {
                    if self.tries == 0 {
                        self.wrong_results += 1;
                        proof {
                            lemma_count_wrong_push(self@.task_scores, TaskScore::ScoreWrong);
                        }
                        self.task_scores.push(TaskScore::ScoreWrong);
                        self.abacus_help();
                    } else {
                        if self.tries >= 3 {
                            self.user_result = self.task.user_expected_result();
                            let now = instant_now();
                            proof {
                                stamp = now;
                            }
                            self.result_time = Some(now);
                            repaint = true;
                        }
                    }
                    self.tries = self.tries + 1;
                }
            }
        }
        proof {
            assert(old_v.after_click(number as int, stamp) =~~= (self@, repaint));
        }
        repaint
    }

    /// The text `prefix`, the number of right answers, ` falsch: ` and the
    /// number of wrong ones.
    fn tally_message(prefix: &str, ok: i32, wrong: i32) -> (s: String)
        ensures
            s@ == prefix@ + decimal(ok as int) + " falsch: "@ + decimal(wrong as int),
    {
        let mut s = String::from_str(prefix);
        let ok_text = i32_text(ok);
        s.append(ok_text.as_str());
        s.append(" falsch: ");
        let wrong_text = i32_text(wrong);
        s.append(wrong_text.as_str());
        s
    }

    /// The message at the end of the exercise, graded by the share of right
    /// first answers.
    pub fn get_final_message(&self) -> (s: String)
        requires
            self@.wf(),
        ensures
            s@ == final_message(self@.ok_results as int, self@.wrong_results as int),
    {
        let ok: i64 = self.ok_results as i64;
        let total: i64 = self.ok_results as i64 + self.wrong_results as i64;
        if total == 0 {
            String::from_str("🐵 War da ein Affe dran?")
        } else if ok >= total {
            String::from_str("😀 Perfekt! Kein Fehler")
        } else if 100 * ok >= 90 * total {
            Self::tally_message("😃 Aufgabe beendet richtig: ", self.ok_results, self.wrong_results)
        } else if 100 * ok >= 70 * total {
            Self::tally_message("😒 Aufgabe beendet richtig: ", self.ok_results, self.wrong_results)
        } else if 100 * ok >= 50 * total {
            Self::tally_message("😓 Aufgabe beendet richtig: ", self.ok_results, self.wrong_results)
        } else if 100 * ok >= 40 * total {
            Self::tally_message("😞 Aufgabe beendet richtig: ", self.ok_results, self.wrong_results)
        } else if 100 * ok >= 20 * total {
            Self::tally_message("😢 Aufgabe beendet richtig: ", self.ok_results, self.wrong_results)
        } else {
            String::from_str("🐵 War da ein Affe dran?")
        }
    }

    /// Chooses exercise number `index` and starts it.
    pub fn select_exercise(&mut self, index: i32)
        requires
            0 <= index < EXERCISE_COUNT,
        ensures
            final(self)@ == (SessionView { exercise: index, ..old(self)@ }).start_of(
                kind_of_index(index as int),
            ).after_new_task(final(self)@.task, final(self)@.start_time),
            final(self)@.wf(),
    {
        self.exercise = index;
        self.task_type = TaskType::from(self.exercise);
        self.start_exercise(self.task_type);
    }

    /// Once a result has been shown for `elapsed_ms` milliseconds: after a
    /// second the exercise ends with its message when ten answers are counted,
    /// else the next task is drawn; before that, returns the milliseconds to
    /// wait. Without a shown result nothing happens.
    pub fn result_elapsed(&mut self, elapsed_ms: u64) -> (wait_ms: Option<u64>)
        requires
            old(self)@.wf(),
        ensures
            final(self)@.wf(),
            old(self)@.result_time is None ==> final(self)@ == old(self)@ && wait_ms is None,
            old(self)@.result_time is Some && elapsed_ms < 1000 ==> final(self)@ == old(self)@
                && wait_ms == Some((1000 - elapsed_ms) as u64),
            old(self)@.result_time is Some && elapsed_ms >= 1000 ==> wait_ms is None,
            old(self)@.result_time is Some && elapsed_ms >= 1000 && old(self)@.ok_results
                + old(self)@.wrong_results >= 10 ==> final(self)@ == (SessionView {
                show_dialog: true,
                show_message: final_message(
                    old(self)@.ok_results as int,
                    old(self)@.wrong_results as int,
                ),
                ..old(self)@
            }),
            old(self)@.result_time is Some && elapsed_ms >= 1000 && old(self)@.ok_results
                + old(self)@.wrong_results < 10 ==> final(self)@ == old(self)@.after_new_task(
                final(self)@.task,
                final(self)@.start_time,
            ) && kind_fits(old(self)@.task_type, final(self)@.task.task_type),
    {
        if self.result_time.is_none() {
            return None;
        }
        if elapsed_ms >= 1000 {
            if self.wrong_results + self.ok_results >= 10 {
                self.show_dialog = true;
                self.show_message = self.get_final_message();
            } else {
                self.new_task();
            }
            None
        } else {
            Some(1000 - elapsed_ms)
        }
    }

    /// While neither the abacus nor the final message is shown: once the task
    /// has been shown for `elapsed_nanos` nanoseconds, as long as its kind
    /// asks, the abacus is shown; before that, returns the nanoseconds to wait.
    pub fn abacus_timer(&mut self, elapsed_nanos: u128) -> (wait_nanos: Option<u64>)
        requires
            old(self)@.wf(),
        ensures
            final(self)@.wf(),
            (old(self)@.show_abacus || old(self)@.show_dialog) ==> final(self)@ == old(self)@
                && wait_nanos is None,
            !old(self)@.show_abacus && !old(self)@.show_dialog && elapsed_nanos
                >= display_delay_nanos(old(self)@.task.task_type) ==> final(self)@
                == old(self)@.after_display_abacus() && wait_nanos is None,
            !old(self)@.show_abacus && !old(self)@.show_dialog && elapsed_nanos
                < display_delay_nanos(old(self)@.task.task_type) ==> final(self)@ == old(self)@
                && wait_nanos == Some((display_delay_nanos(old(self)@.task.task_type)
                - elapsed_nanos) as u64),
    {
        if !self.show_abacus && !self.show_dialog {
            let limit: u128 = self.task.task_type.display_abacus_secs() as u128 * 1_000_000_000;
            if elapsed_nanos >= limit {
                self.display_abacus();
                None
            } else {
                Some((limit - elapsed_nanos) as u64)
            }
        } else {
            None
        }
    }

    /// The text shown in place of the result.
    pub fn result_text(&self) -> (s: String)
        ensures
            s@ == result_label(self@),
    {
        if self.task.task_type.is_parameter_quest() {
            i32_text(self.task.task_result)
        } else if self.user_result > 0 {
            if self.is_partially_result() {
                let mut s = i32_text(self.user_result);
                s.append("?");
                s
            } else {
                i32_text(self.user_result)
            }
        } else {
            String::from_str("?")
        }
    }

    /// The text shown in place of the second operand.
    pub fn operand_text(&self) -> (s: String)
        ensures
            s@ == operand_label(self@),
    {
        if self.task.task_type.is_parameter_quest() {
            if self.user_result > 0 {
                if self.is_partially_result() {
                    let mut s = i32_text(self.task.parameter2);
                    s.append("?");
                    s
                } else {
                    i32_text(self.user_result)
                }
            } else {
                String::from_str("?")
            }
        } else {
            i32_text(self.task.parameter2)
        }
    }

    /// Whether a complete wrong answer is entered, to be shown in red.
    pub fn is_wrong_answer(&self) -> (r: bool)
        ensures
            r == (self@.user_result > 0 && self@.user_result != self@.task.expected()
                && self@.is_final()),
    {
        self.user_result > 0 && !self.task.check_result(self.user_result) && self.is_final_result()
    }

    /// The number entered by the button at position `i` (1 to 10): in the
    /// kinds up to twenty the tenth button enters 0.
    pub fn number_button_value(&self, i: i32) -> (n: i32)
        ensures
            n == (if max_sum_of(self@.task.task_type) > 10 && i == 10 { 0 } else { i }),
    {
        if self.task.task_type.get_max_sum() > 10 && i == 10 {
            0
        } else {
            i
        }
    }

    /// Clears the input (the backspace button).
    pub fn erase_answer(&mut self)
        ensures
            final(self)@ == (SessionView { user_result: 0, ..old(self)@ }),
            old(self)@.wf() ==> final(self)@.wf(),
    {
        self.user_result = 0;
    }

    /// A click on the abacus gives the abacus help, once.
    pub fn abacus_clicked(&mut self)
        requires
            old(self)@.wf(),
        ensures
            old(self)@.has_abacus_help ==> final(self)@ == old(self)@,
            !old(self)@.has_abacus_help ==> final(self)@ == old(self)@.after_abacus_help(),
            final(self)@.wf(),
    {
        if !self.has_abacus_help {
            self.abacus_help();
        }
    }

    /// Leaves the exercise for the menu.
    pub fn leave_exercise(&mut self)
        ensures
            final(self)@ == (SessionView { exercise: -1i32, ..old(self)@ }),
            old(self)@.wf() ==> final(self)@.wf(),
    {
        self.exercise = -1;
    }

    /// Closes the final message and goes back to the menu.
    pub fn close_dialog(&mut self)
        ensures
            final(self)@ == (SessionView { show_dialog: false, exercise: -1i32, ..old(self)@ }),
            old(self)@.wf() ==> final(self)@.wf(),
    {
        self.show_dialog = false;
        self.exercise = -1;
    }
}

impl TaskScore {
    /// The mark shown for the score: a check mark, an hourglass or a cross.
    pub fn symbol(self) -> (s: &'static str)
        ensures
            self == TaskScore::ScorePerfect ==> s@ == "✅"@,
            self == TaskScore::ScoreSecond ==> s@ == "⏳"@,
            self == TaskScore::ScoreWrong ==> s@ == "❌"@,
    {
        match self {
            TaskScore::ScorePerfect => "✅",
            TaskScore::ScoreSecond => "⏳",
            TaskScore::ScoreWrong => "❌",
        }
    }
}

impl Default for MyApp {
    /// A session that starts with a drawn task of the kind `Add10`, before any
    /// exercise is chosen.
    fn default() -> (app: Self)
        ensures
            app@ == initial(TaskType::Add10, app@.task, app@.start_time),
            app@.task.is_valid(),
            app@.task.task_type == TaskType::Add10,
            app@.wf(),
    {
        MyApp::with_task(TaskType::Add10, Task::gen_task(TaskType::Add10))
    }
}

impl MyApp {
    /// The chosen exercise number, -1 in the menu.
    pub fn exercise(&self) -> (r: i32)
        ensures
            r == self@.exercise,
    {
        self.exercise
    }

    /// The kind of the exercise.
    pub fn task_type(&self) -> (r: TaskType)
        ensures
            r == self@.task_type,
    {
        self.task_type
    }

    /// The current task.
    pub fn task(&self) -> (r: Task)
        ensures
            r == self@.task,
    {
        self.task
    }

    /// The number entered so far.
    pub fn user_result(&self) -> (r: i32)
        ensures
            r == self@.user_result,
    {
        self.user_result
    }

    /// The number of right first answers.
    pub fn ok_results(&self) -> (r: i32)
        ensures
            r == self@.ok_results,
    {
        self.ok_results
    }

    /// The number of wrong first answers.
    pub fn wrong_results(&self) -> (r: i32)
        ensures
            r == self@.wrong_results,
    {
        self.wrong_results
    }

    /// When the current result began to be shown, if it is shown.
    pub fn result_time(&self) -> (r: Option<Instant>)
        ensures
            r == self@.result_time,
    {
        self.result_time
    }

    /// The score row of the exercise.
    pub fn task_scores(&self) -> (r: &Vec<TaskScore>)
        ensures
            r@ == self@.task_scores,
    {
        &self.task_scores
    }

    /// The number of wrong tries at the current task.
    pub fn tries(&self) -> (r: i32)
        ensures
            r == self@.tries,
    {
        self.tries
    }

    /// When the current task was drawn.
    pub fn start_time(&self) -> (r: Instant)
        ensures
            r == self@.start_time,
    {
        self.start_time
    }

    /// Whether the abacus help was given for the current task.
    pub fn has_abacus_help(&self) -> (r: bool)
        ensures
            r == self@.has_abacus_help,
    {
        self.has_abacus_help
    }

    /// Whether the abacus is shown.
    pub fn show_abacus(&self) -> (r: bool)
        ensures
            r == self@.show_abacus,
    {
        self.show_abacus
    }

    /// The upper abacus row.
    pub fn abacus1(&self) -> (r: Abacus)
        ensures
            r == self@.abacus1,
    {
        self.abacus1
    }

    /// The lower abacus row.
    pub fn abacus2(&self) -> (r: Abacus)
        ensures
            r == self@.abacus2,
    {
        self.abacus2
    }

    /// Whether the final message is shown.
    pub fn show_dialog(&self) -> (r: bool)
        ensures
            r == self@.show_dialog,
    {
        self.show_dialog
    }

    /// The final message of the exercise.
    pub fn show_message(&self) -> (r: &str)
        ensures
            r@ == self@.show_message,
    {
        self.show_message.as_str()
    }
}

/// The abacus help of an exercise of one of the eight plain kinds lays out the
/// task's sum: one addend in red beads and the other in blue, no row holding
/// more than its ten beads. (The mixed kinds and `Add5Elem` show no beads.)
pub proof fn lemma_help_shows_the_sum(v: SessionView)
    requires
        v.wf(),
        v.task_type != TaskType::Mix,
        v.task_type != TaskType::Add5Elem,
        v.task_type != TaskType::Mix5Elem,
    ensures
        ({
            let w = v.after_abacus_help();
            let reds: int = w.abacus1.reds() + w.abacus2.reds();
            let blues: int = w.abacus1.blue + w.abacus2.blue;
            &&& w.abacus1.filled() + w.abacus2.filled() == v.task.sum()
            &&& (reds == v.task.first_addend() && blues == v.task.second_addend()) || (reds
                == v.task.second_addend() && blues == v.task.first_addend())
            &&& 0 <= w.abacus1.red && 0 <= w.abacus1.blue && 0 <= w.abacus1.red2
            &&& 0 <= w.abacus2.red && 0 <= w.abacus2.blue && 0 <= w.abacus2.red2
            &&& w.abacus1.filled() <= 10 && w.abacus2.filled() <= 10
            &&& w.show_abacus && w.has_abacus_help
        }),
{
}

/// Once its time has come, the abacus of an exercise of the kinds below lays
/// out the task's sum in the same way. (`Sub10` shows minuend and subtrahend
/// instead, ten beads for `7 - 3`; the mixed kinds and `Add5Elem` show none.)
pub proof fn lemma_display_shows_the_sum(v: SessionView)
    requires
        v.wf(),
        v.task_type == TaskType::Add10 || v.task_type == TaskType::Add20 || v.task_type
            == TaskType::AddQuest10 || v.task_type == TaskType::AddQuest20 || v.task_type
            == TaskType::Sub20 || v.task_type == TaskType::SubQuest10 || v.task_type
            == TaskType::SubQuest20,
    ensures
        ({
            let w = v.after_display_abacus();
            let reds: int = w.abacus1.reds() + w.abacus2.reds();
            let blues: int = w.abacus1.blue + w.abacus2.blue;
            &&& w.abacus1.filled() + w.abacus2.filled() == v.task.sum()
            &&& (reds == v.task.first_addend() && blues == v.task.second_addend()) || (reds
                == v.task.second_addend() && blues == v.task.first_addend())
            &&& 0 <= w.abacus1.red && 0 <= w.abacus1.blue && 0 <= w.abacus1.red2
            &&& 0 <= w.abacus2.red && 0 <= w.abacus2.blue && 0 <= w.abacus2.red2
            &&& w.abacus1.filled() <= 10 && w.abacus2.filled() <= 10
            &&& w.show_abacus
        }),
{
}

/// While a result is shown, pressing a number button changes nothing.
pub proof fn lemma_click_while_result_shown(v: SessionView, number: int, now: Instant)
    requires
        v.result_time is Some,
    ensures
        v.after_click(number, now) == (v, false),
{
}

/// A right first answer is counted once, marked in the score row (with the
/// check mark when no abacus was shown) and shown; the answer stays as typed.
pub proof fn lemma_right_first_answer(v: SessionView, number: int, now: Instant)
    requires
        v.wf(),
        v.result_time is None,
        v.tries == 0,
        v.ok_results + v.wrong_results < i32::MAX,
        v.entered(number) == v.task.expected(),
    ensures
        ({
            let (w, repaint) = v.after_click(number, now);
            &&& repaint
            &&& w.ok_results == v.ok_results + 1
            &&& w.wrong_results == v.wrong_results
            &&& w.task_scores == v.task_scores.push(
                if !v.show_abacus && !v.has_abacus_help {
                    TaskScore::ScorePerfect
                } else {
                    TaskScore::ScoreSecond
                },
            )
            &&& w.result_time == Some(now)
            &&& w.user_result == v.task.expected()
        }),
{
}

/// A complete wrong first answer is counted once, marked with a cross, and
/// brings the abacus help; no result is shown yet.
pub proof fn lemma_wrong_first_answer(v: SessionView, number: int, now: Instant)
    requires
        v.wf(),
        v.result_time is None,
        v.tries == 0,
        v.ok_results + v.wrong_results < i32::MAX,
        i32::MIN <= v.entered(number) <= i32::MAX,
        v.entered(number) != v.task.expected(),
        (SessionView { user_result: v.entered(number) as i32, ..v }).is_final(),
    ensures
        ({
            let (w, repaint) = v.after_click(number, now);
            &&& !repaint
            &&& w.ok_results == v.ok_results
            &&& w.wrong_results == v.wrong_results + 1
            &&& w.task_scores == v.task_scores.push(TaskScore::ScoreWrong)
            &&& w.result_time is None
            &&& w.has_abacus_help && w.show_abacus
            &&& w.tries == 1
        }),
{
}

/// After the fourth complete wrong answer to a task, the expected answer is
/// shown in place of the input; the tally does not change any more.
pub proof fn lemma_answer_revealed_after_retries(v: SessionView, number: int, now: Instant)
    requires
        v.wf(),
        v.result_time is None,
        v.tries >= 3,
        v.tries < i32::MAX,
        i32::MIN <= v.entered(number) <= i32::MAX,
        v.entered(number) != v.task.expected(),
        (SessionView { user_result: v.entered(number) as i32, ..v }).is_final(),
    ensures
        ({
            let (w, repaint) = v.after_click(number, now);
            &&& repaint
            &&& w.user_result == v.task.expected()
            &&& w.result_time == Some(now)
            &&& w.ok_results == v.ok_results
            &&& w.wrong_results == v.wrong_results
            &&& w.task_scores == v.task_scores
        }),
{
}

/// The final message praises a perfect exercise exactly when some answers were
/// counted and none of them was wrong.
pub proof fn lemma_perfect_message(ok: int, wrong: int)
    requires
        0 <= ok,
        0 <= wrong,
    ensures
        (final_message(ok, wrong) == "😀 Perfekt! Kein Fehler"@) <==> (ok > 0 && wrong == 0),
{
    reveal_strlit("😀 Perfekt! Kein Fehler");
    reveal_strlit("🐵 War da ein Affe dran?");
    reveal_strlit("😃 Aufgabe beendet richtig: ");
    reveal_strlit("😒 Aufgabe beendet richtig: ");
    reveal_strlit("😓 Aufgabe beendet richtig: ");
    reveal_strlit("😞 Aufgabe beendet richtig: ");
    reveal_strlit("😢 Aufgabe beendet richtig: ");
    let m = final_message(ok, wrong);
    let perfect = "😀 Perfekt! Kein Fehler"@;
    if !(ok > 0 && wrong == 0) {
        assert(m[0] != perfect[0]);
    }
}

/// In every session the chosen exercise is the menu (-1) or has a title: an
/// exercise view never looks up a title out of range.
pub proof fn lemma_exercise_has_title(v: SessionView)
    requires
        v.wf(),
    ensures
        v.exercise == -1 || 0 <= v.exercise < EXERCISE_COUNT,
{
}

/// Each task adds at most one mark to the score row: a click keeps the tally
/// in step with the row, grows it by at most one, and grows it only at the
/// first try, after which the task is either answered or has a try counted.
pub proof fn lemma_click_scores_each_task_once(v: SessionView, number: int, now: Instant)
    requires
        v.wf(),
        v.click_in_range(number),
        i32::MIN <= number <= i32::MAX,
    ensures
        ({
            let (w, repaint) = v.after_click(number, now);
            &&& w.wf()
            &&& w.ok_results >= v.ok_results && w.wrong_results >= v.wrong_results
            &&& (w.ok_results + w.wrong_results == v.ok_results + v.wrong_results || (w.ok_results
                + w.wrong_results == v.ok_results + v.wrong_results + 1 && v.tries == 0
                && v.result_time is None && (w.tries >= 1 || w.result_time is Some)))
        }),
{
    if v.result_time is None {
        let s = v.with_entered(number);
        if s.user_result == s.task.expected() {
            let score = if !v.show_abacus && !v.has_abacus_help {
                TaskScore::ScorePerfect
            } else {
                TaskScore::ScoreSecond
            };
            lemma_count_wrong_push(v.task_scores, score);
        } else {
            lemma_count_wrong_push(v.task_scores, TaskScore::ScoreWrong);
        }
    }
}

/// The abacus help of an addition up to ten or twenty fills the bigger addend's
/// row from the other addend up to five (when both addends are at most 5) or
/// ten, or up to the sum when it is smaller: the bigger addend keeps its beads
/// (red for the first addend, blue for the second) and what is not moved stays
/// on the other row.
pub proof fn lemma_addition_help_fills_up(v: SessionView)
    requires
        v.wf(),
        v.task_type == TaskType::Add10 || v.task_type == TaskType::Add20,
    ensures
        ({
            let w = v.after_abacus_help();
            let p1: int = v.task.parameter1 as int;
            let p2: int = v.task.parameter2 as int;
            let limit: int = if p1 <= 5 && p2 <= 5 { 5 } else { 10 };
            let full: int = if p1 + p2 <= limit { p1 + p2 } else { limit };
            &&& p1 >= p2 ==> {
                &&& w.abacus1.red == p1 && w.abacus1.red2 == 0 && w.abacus1.filled() == full
                &&& w.abacus2.red == 0 && w.abacus2.red2 == 0 && w.abacus2.blue == p1 + p2 - full
            }
            &&& p1 < p2 ==> {
                &&& w.abacus2.red == 0 && w.abacus2.blue == p2 && w.abacus2.filled() == full
                &&& w.abacus1.blue == 0 && w.abacus1.red2 == 0 && w.abacus1.red == p1 + p2 - full
            }
        }),
{
}

/// The final message grades the share of right first answers in the bands
/// 100, 90, 70, 50, 40 and 20 percent: all right gives the perfect message,
/// at least 90 % 😃, at least 70 % 😒, at least 50 % 😓, at least 40 % 😞,
/// at least 20 % 😢, each with the tally; less than 20 %, or nothing
/// answered, gives the monkey.
pub proof fn lemma_final_message_bands(ok: int, wrong: int)
    requires
        0 <= ok,
        0 <= wrong,
    ensures
        ({
            let total: int = ok + wrong;
            let tally = decimal(ok) + " falsch: "@ + decimal(wrong);
            let m = final_message(ok, wrong);
            &&& total == 0 ==> m == "🐵 War da ein Affe dran?"@
            &&& total > 0 && wrong == 0 ==> m == "😀 Perfekt! Kein Fehler"@
            &&& wrong > 0 && 100 * ok >= 90 * total ==> m == "😃 Aufgabe beendet richtig: "@ + tally
            &&& 100 * ok < 90 * total && 100 * ok >= 70 * total ==> m == "😒 Aufgabe beendet richtig: "@
                + tally
            &&& 100 * ok < 70 * total && 100 * ok >= 50 * total ==> m == "😓 Aufgabe beendet richtig: "@
                + tally
            &&& 100 * ok < 50 * total && 100 * ok >= 40 * total ==> m == "😞 Aufgabe beendet richtig: "@
                + tally
            &&& 100 * ok < 40 * total && 100 * ok >= 20 * total ==> m == "😢 Aufgabe beendet richtig: "@
                + tally
            &&& total > 0 && 100 * ok < 20 * total ==> m == "🐵 War da ein Affe dran?"@
        }),
{
}

/// The input is the decimal reading of the digits pressed: a digit `n` pressed
/// after the tens digit `d` of an exercise up to twenty makes the input
/// `10 * d + n`, and a digit pressed on an empty input is the input itself;
/// only after three wrong tries may the expected answer replace it.
pub proof fn lemma_input_reads_the_digits(v: SessionView, n: int, now: Instant)
    requires
        v.wf(),
        v.result_time is None,
        0 <= n <= 10,
    ensures
        ({
            let (w, repaint) = v.after_click(n, now);
            let revealed = v.tries >= 3 && w.user_result == v.task.expected();
            &&& (v.task.task_type == TaskType::Add20 || v.task.task_type == TaskType::AddQuest20
                || v.task.task_type == TaskType::Sub20 || v.task.task_type == TaskType::SubQuest20
                || v.task.task_type == TaskType::Add5Elem || v.task.task_type == TaskType::Mix5Elem)
                && 1 <= v.user_result <= 2 ==> w.user_result == 10 * v.user_result + n || revealed
            &&& v.user_result == 0 ==> w.user_result == n || revealed
        }),
{
}

/// Showing an amount `sum` from a part `par` (at most ten, and at most `sum`,
/// which is at most twenty): the first row holds the part in red and is filled
/// in blue up to ten or up to the amount, the second row holds what exceeds ten
/// in blue.
pub proof fn lemma_minus_layout(v: SessionView, sum: int, par: int)
    requires
        0 <= par <= 10,
        par <= sum <= 20,
    ensures
        ({
            let w = v.after_display_abacus_minus(sum, par);
            let first: int = if sum <= 10 { sum } else { 10 };
            &&& w.abacus1.red == par && w.abacus1.red2 == 0 && w.abacus1.filled() == first
            &&& w.abacus2.red == 0 && w.abacus2.red2 == 0 && w.abacus2.blue == sum - first
            &&& w.exercise == v.exercise && w.task == v.task && w.ok_results == v.ok_results
                && w.wrong_results == v.wrong_results && w.task_scores == v.task_scores
        }),
{
}

/// Which operand the shown abacus gives in red: the first operand for the
/// additions up to ten or twenty and for `Sub10` (whose second row then holds
/// the second operand in blue), the first operand of the sum for the addition
/// quests, and the difference for `Sub20` and the subtraction quests, the rest
/// of the sum being blue.
pub proof fn lemma_display_layout(v: SessionView)
    requires
        v.wf(),
    ensures
        ({
            let w = v.after_display_abacus();
            let t = v.task;
            &&& w.show_abacus
            &&& (v.task_type == TaskType::Add10 || v.task_type == TaskType::Add20 || v.task_type
                == TaskType::Sub10) ==> w.abacus1 == (Abacus { red: t.parameter1, blue: 0, red2: 0 })
                && w.abacus2 == (Abacus { red: 0, blue: t.parameter2, red2: 0 })
            &&& (v.task_type == TaskType::AddQuest10 || v.task_type == TaskType::AddQuest20)
                ==> w.abacus1.red == t.parameter1 && w.abacus1.red2 == 0 && w.abacus2.red == 0
                && w.abacus1.blue + w.abacus2.blue == t.parameter2
            &&& (v.task_type == TaskType::Sub20 || v.task_type == TaskType::SubQuest10 || v.task_type
                == TaskType::SubQuest20) ==> w.abacus1.red == t.task_result && w.abacus1.red2 == 0
                && w.abacus2.red == 0 && w.abacus1.blue + w.abacus2.blue == t.parameter2
            &&& (v.task_type == TaskType::Mix || v.task_type == TaskType::Add5Elem || v.task_type
                == TaskType::Mix5Elem) ==> w.abacus1 == v.abacus1 && w.abacus2 == v.abacus2
        }),
{
}

/// A new task starts from a clean slate: no input, no tries, no abacus or
/// help, no shown result; the exercise, its kind, the tally and the score row
/// stay. Starting an exercise also empties the tally and the score row.
pub proof fn lemma_new_task_resets(v: SessionView, task: Task, now: Instant, kind: TaskType)
    ensures
        ({
            let w = v.after_new_task(task, now);
            &&& w.task == task && w.user_result == 0 && w.tries == 0 && w.result_time is None
            &&& !w.show_abacus && !w.has_abacus_help
            &&& w.abacus1.filled() == 0 && w.abacus2.filled() == 0
            &&& w.exercise == v.exercise && w.task_type == v.task_type
            &&& w.ok_results == v.ok_results && w.wrong_results == v.wrong_results
            &&& w.task_scores == v.task_scores
        }),
        ({
            let w = v.start_of(kind).after_new_task(task, now);
            &&& w.task_type == kind && w.ok_results == 0 && w.wrong_results == 0
            &&& w.task_scores.len() == 0 && w.user_result == 0 && w.tries == 0
        }),
{
}

/// The labels of the shown equation: with nothing entered, a quest shows its
/// result and a `?` for the operand, the other kinds show the operand and a
/// `?` for the result; an entered complete answer is shown in the field the
/// child fills, and a tens digit of a two-digit result is shown with a `?`.
pub proof fn lemma_labels(v: SessionView)
    requires
        v.wf(),
    ensures
        ({
            let t = v.task;
            let quest: bool = t.task_type == TaskType::AddQuest10 || t.task_type
                == TaskType::AddQuest20 || t.task_type == TaskType::SubQuest10 || t.task_type
                == TaskType::SubQuest20;
            &&& quest ==> result_label(v) == decimal(t.task_result as int)
            &&& quest && v.user_result == 0 ==> operand_label(v) == "?"@
            &&& !quest ==> operand_label(v) == decimal(t.parameter2 as int)
            &&& !quest && v.user_result == 0 ==> result_label(v) == "?"@
            &&& v.user_result > 0 && !v.is_partially() ==> (if quest {
                operand_label(v)
            } else {
                result_label(v)
            }) == decimal(v.user_result as int)
            &&& !quest && v.user_result > 0 && v.is_partially() ==> result_label(v) == decimal(
                v.user_result as int,
            ) + "?"@
        }),
{
}

/// Each exercise of the menu starts the kind its title shows: a title with
/// `+` starts an addition kind, one with `-` a subtraction kind, one with `?`
/// a quest, and `Mix` the mixed drill.
pub proof fn lemma_titles_match_kinds(i: int)
    requires
        0 <= i < EXERCISE_COUNT,
    ensures
        exercise_title_of(i).contains('+') <==> crate::task::is_addition(kind_of_index(i)),
        exercise_title_of(i).contains('-') <==> crate::task::is_subtraction(kind_of_index(i)),
        exercise_title_of(i).contains('?') <==> is_quest(kind_of_index(i)),
        (exercise_title_of(i) == "Mix"@) <==> kind_of_index(i) == TaskType::Mix,
{
    reveal_strlit("1+2");
    reveal_strlit("6+7");
    reveal_strlit("1+?=4");
    reveal_strlit("6+?=14");
    reveal_strlit("5-2");
    reveal_strlit("16-7");
    reveal_strlit("10-?=4");
    reveal_strlit("14-?=6");
    reveal_strlit("Mix");
    let s = exercise_title_of(i);
    if i == 0 {
        assert(s[1] == '+');
    } else if i == 1 {
        assert(s[1] == '+');
    } else if i == 2 {
        assert(s[1] == '+' && s[2] == '?');
    } else if i == 3 {
        assert(s[1] == '+' && s[2] == '?');
    } else if i == 4 {
        assert(s[1] == '-');
    } else if i == 5 {
        assert(s[2] == '-');
    } else if i == 6 {
        assert(s[2] == '-' && s[3] == '?');
    } else if i == 7 {
        assert(s[2] == '-' && s[3] == '?');
    }
}

/// The abacus appears ten seconds after a task of a subtraction or quest kind
/// is shown and five seconds after the others.
pub proof fn lemma_abacus_delay_nanos(t: TaskType)
    ensures
        (t == TaskType::Sub10 || t == TaskType::Sub20 || t == TaskType::SubQuest10 || t
            == TaskType::SubQuest20 || t == TaskType::AddQuest10 || t == TaskType::AddQuest20)
            ==> display_delay_nanos(t) == 10_000_000_000,
        (t == TaskType::Add10 || t == TaskType::Add20 || t == TaskType::Mix || t == TaskType::Add5Elem
            || t == TaskType::Mix5Elem) ==> display_delay_nanos(t) == 5_000_000_000,
{
}

/// Whether an input is complete: in the kinds up to ten every input is; in
/// the kinds up to twenty an input of 3 or more is, and an input of 1 or 2 is
/// only when it is the expected answer (else a second digit may follow).
pub proof fn lemma_input_completeness(v: SessionView)
    requires
        v.wf(),
    ensures
        (v.task.task_type == TaskType::Add10 || v.task.task_type == TaskType::Sub10
            || v.task.task_type == TaskType::AddQuest10 || v.task.task_type == TaskType::SubQuest10)
            ==> v.is_final() && !v.was_partially(),
        (v.task.task_type == TaskType::Add20 || v.task.task_type == TaskType::Sub20
            || v.task.task_type == TaskType::AddQuest20 || v.task.task_type == TaskType::SubQuest20
            || v.task.task_type == TaskType::Add5Elem || v.task.task_type == TaskType::Mix5Elem) ==> {
            &&& v.user_result >= 3 ==> v.is_final() && !v.was_partially()
            &&& 1 <= v.user_result <= 2 ==> v.was_partially() && (v.is_final() <==> v.user_result
                == v.task.expected())
        },
{
}

/// A complete wrong answer at the second or third try counts another try and
/// keeps the input; nothing is shown, counted or scored.
pub proof fn lemma_wrong_retry(v: SessionView, number: int, now: Instant)
    requires
        v.wf(),
        v.result_time is None,
        1 <= v.tries <= 2,
        i32::MIN <= v.entered(number) <= i32::MAX,
        v.entered(number) != v.task.expected(),
        (SessionView { user_result: v.entered(number) as i32, ..v }).is_final(),
    ensures
        ({
            let (w, repaint) = v.after_click(number, now);
            &&& !repaint
            &&& w.tries == v.tries + 1
            &&& w.user_result == v.entered(number)
            &&& w.result_time is None
            &&& w.ok_results == v.ok_results && w.wrong_results == v.wrong_results
            &&& w.task_scores == v.task_scores
            &&& w.abacus1 == v.abacus1 && w.abacus2 == v.abacus2
        }),
{
}

} // verus!
