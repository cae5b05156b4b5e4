//! Exercise kinds and the tasks drawn for them.

use vstd::prelude::*;
use crate::clock::{duration_from_secs, spec_duration_from_secs};
use crate::random::{gen_range_inclusive, thread_rng};
use std::time::Duration;

verus! {

/// The kinds of exercise: addition or subtraction up to 10 or 20, with the
/// result or the second operand to be found, and mixed drills.
#[derive(Debug, Clone, Copy, PartialEq, Eq, Structural)]
pub enum TaskType {
    Add10,
    Add20,
    AddQuest10,
    AddQuest20,
    Sub10,
    Sub20,
    SubQuest10,
    SubQuest20,
    Mix,
    Add5Elem,
    Mix5Elem,
}

/// One drawn task. For an addition `parameter1 + parameter2 = task_result`;
/// for a subtraction `parameter1 - parameter2 = task_result`.
#[derive(Debug, Clone, Copy, PartialEq, Eq, Structural)]
pub struct Task {
    pub parameter1: i32,
    pub parameter2: i32,
    pub task_result: i32,
    pub task_type: TaskType,
}

/// The largest sum that a task of kind `t` may reach.
pub open spec fn max_sum_of(t: TaskType) -> int {
    match t {
        TaskType::Add10 | TaskType::Sub10 | TaskType::AddQuest10 | TaskType::SubQuest10 => 10,
        _ => 20,
    }
}

/// Kinds in which the child finds the second operand rather than the result.
pub open spec fn is_quest(t: TaskType) -> bool {
    match t {
        TaskType::AddQuest10 | TaskType::AddQuest20 | TaskType::SubQuest10 | TaskType::SubQuest20 => true,
        _ => false,
    }
}

/// Kinds that show an addition (`+`); the others show a subtraction (`-`).
pub open spec fn is_addition(t: TaskType) -> bool {
    match t {
        TaskType::Add10 | TaskType::Add20 | TaskType::AddQuest10 | TaskType::AddQuest20 => true,
        _ => false,
    }
}

/// Kinds whose task is laid out as a subtraction.
pub open spec fn is_subtraction(t: TaskType) -> bool {
    match t {
        TaskType::Sub10 | TaskType::Sub20 | TaskType::SubQuest10 | TaskType::SubQuest20 => true,
        _ => false,
    }
}

/// The kind that `TaskType::from` gives for an exercise index.
pub open spec fn kind_of_index(i: int) -> TaskType {
    if i == 0 {
        TaskType::Add10
    } else if i == 1 {
        TaskType::Add20
    } else if i == 2 {
        TaskType::AddQuest10
    } else if i == 3 {
        TaskType::AddQuest20
    } else if i == 4 {
        TaskType::Sub10
    } else if i == 5 {
        TaskType::Sub20
    } else if i == 6 {
        TaskType::SubQuest10
    } else if i == 7 {
        TaskType::SubQuest20
    } else if i == 8 {
        TaskType::Mix
    } else if i == 9 {
        TaskType::Add5Elem
    } else {
        TaskType::Mix5Elem
    }
}

/// The four kinds among which a mixed drill picks, by index.
pub open spec fn mix_kind(i: int) -> TaskType {
    if i == 0 {
        TaskType::Add20
    } else if i == 1 {
        TaskType::AddQuest20
    } else if i == 2 {
        TaskType::Sub20
    } else {
        TaskType::SubQuest20
    }
}

/// Whether a task of kind `drawn` may stand for an exercise of kind `asked`:
/// a mixed drill draws one of its four kinds, every other kind draws itself.
pub open spec fn kind_fits(asked: TaskType, drawn: TaskType) -> bool {
    if asked == TaskType::Mix {
        drawn == TaskType::Add20 || drawn == TaskType::AddQuest20 || drawn == TaskType::Sub20
            || drawn == TaskType::SubQuest20
    } else {
        drawn == asked
    }
}

/// The seconds after which the abacus is shown for a task of kind `t`.
pub open spec fn display_delay_secs(t: TaskType) -> u64 {
    match t {
        TaskType::AddQuest10 | TaskType::AddQuest20 | TaskType::SubQuest10 | TaskType::SubQuest20
        | TaskType::Sub10 | TaskType::Sub20 => 10,
        _ => 5,
    }
}

/// How the second operand is drawn after the first one, `par1`, for a kind
/// whose largest sum is `max_sum`: `None` when it is fixed at 1, else the upper
/// end of the range `1..=` it is drawn from.
pub open spec fn second_operand_plan_of(max_sum: int, par1: int) -> Option<i32> {
    if max_sum - par1 == 1 {
        None
    } else if max_sum - par1 < 10 {
        Some((max_sum - par1) as i32)
    } else {
        Some(10i32)
    }
}

/// The draws that `gen_task` can make for an exercise of kind `task_type`:
/// a first operand in `1..=9`, a second one as `second_operand_plan_of` says,
/// and for a mixed drill a kind index in `0..=3` (else 0, nothing is drawn).
pub open spec fn drawable(task_type: TaskType, par1: int, par2: int, mix_index: int) -> bool {
    &&& 1 <= par1 <= 9
    &&& match second_operand_plan_of(max_sum_of(task_type), par1) {
        None => par2 == 1,
        Some(high) => 1 <= par2 <= high,
    }
    &&& if task_type == TaskType::Mix { 0 <= mix_index <= 3 } else { mix_index == 0 }
}

/// The task built from the drawn operands `par1`, `par2` and, for a mixed
/// drill, the drawn kind index `mix_index`.
pub open spec fn assembled(task_type: TaskType, par1: int, par2: int, mix_index: int) -> Task {
    let kind = if task_type == TaskType::Mix { mix_kind(mix_index) } else { task_type };
    if is_subtraction(kind) {
        Task {
            parameter1: (par1 + par2) as i32,
            parameter2: par1 as i32,
            task_result: par2 as i32,
            task_type: kind,
        }
    } else {
        Task { parameter1: par1 as i32, parameter2: par2 as i32, task_result: (par1 + par2) as i32, task_type: kind }
    }
}

impl Task {
    /// The first addend of the task's addition (for a subtraction, the subtrahend).
    pub open spec fn first_addend(self) -> int {
        if is_subtraction(self.task_type) { self.parameter2 as int } else { self.parameter1 as int }
    }

    /// The second addend (for a subtraction, the difference).
    pub open spec fn second_addend(self) -> int {
        if is_subtraction(self.task_type) { self.task_result as int } else { self.parameter2 as int }
    }

    /// The sum (for a subtraction, the minuend).
    pub open spec fn sum(self) -> int {
        if is_subtraction(self.task_type) { self.parameter1 as int } else { self.task_result as int }
    }

    /// A task as `gen_task` draws it: no mixed kind, a first addend in
    /// 1..=9, a second addend in 1..=10, and a sum that is theirs and stays
    /// within the kind's limit.
    pub open spec fn is_valid(self) -> bool {
        &&& self.task_type != TaskType::Mix
        &&& 1 <= self.first_addend() <= 9
        &&& 1 <= self.second_addend() <= 10
        &&& self.sum() == self.first_addend() + self.second_addend()
        &&& self.sum() <= max_sum_of(self.task_type)
    }

    /// The answer that the child is expected to give.
    pub open spec fn expected(self) -> i32 {
        if is_quest(self.task_type) { self.parameter2 } else { self.task_result }
    }

    /// The shown equation holds: `parameter1 op parameter2 == task_result`.
    pub open spec fn equation_holds(self) -> bool {
        if is_addition(self.task_type) {
            self.parameter1 + self.parameter2 == self.task_result
        } else {
            self.parameter1 - self.parameter2 == self.task_result
        }
    }
}

impl TaskType {
    /// The largest sum of the kind: 10 for the kinds up to ten, else 20.
    pub fn get_max_sum(self) -> (r: i32)
        ensures
            r == max_sum_of(self),
    {
        match self {
            TaskType::Add10 | TaskType::Sub10 | TaskType::AddQuest10 | TaskType::SubQuest10 => 10,
            _ => 20,
        }
    }

    /// Whether the child finds the second operand rather than the result.
    pub fn is_parameter_quest(self) -> (r: bool)
        ensures
            r == is_quest(self),
    {
        matches!(
            self,
            TaskType::AddQuest10 | TaskType::AddQuest20 | TaskType::SubQuest10 | TaskType::SubQuest20
        )
    }

    /// The operator shown between the operands: `+` for the additions, `-` else.
    pub fn task_op(self) -> (r: &'static str)
        ensures
            is_addition(self) ==> r@ == "+"@,
            !is_addition(self) ==> r@ == "-"@,
            (self == TaskType::Add10 || self == TaskType::Add20 || self == TaskType::AddQuest10 || self
                == TaskType::AddQuest20) ==> r@ == "+"@,
            (self == TaskType::Sub10 || self == TaskType::Sub20 || self == TaskType::SubQuest10 || self
                == TaskType::SubQuest20) ==> r@ == "-"@,
    {
        match self {
            TaskType::Add10 | TaskType::Add20 | TaskType::AddQuest10 | TaskType::AddQuest20 => "+",
            _ => "-",
        }
    }

    /// The kind of exercise number `i`; every index past 9 (and every
    /// negative one) gives `Mix5Elem`.
    pub fn from(i: i32) -> (r: Self)
        ensures
            r == kind_of_index(i as int),
    {
        match i {
            0 => TaskType::Add10,
            1 => TaskType::Add20,
            2 => TaskType::AddQuest10,
            3 => TaskType::AddQuest20,
            4 => TaskType::Sub10,
            5 => TaskType::Sub20,
            6 => TaskType::SubQuest10,
            7 => TaskType::SubQuest20,
            8 => TaskType::Mix,
            9 => TaskType::Add5Elem,
            _ => TaskType::Mix5Elem,
        }
    }

    /// The seconds after which the abacus is shown: 10 for the quests and
    /// subtractions, 5 for the others.
    pub fn display_abacus_secs(self) -> (r: u64)
        ensures
            r == display_delay_secs(self),
            (self == TaskType::Sub10 || self == TaskType::Sub20 || self == TaskType::SubQuest10 || self
                == TaskType::SubQuest20 || self == TaskType::AddQuest10 || self == TaskType::AddQuest20)
                ==> r == 10,
            (self == TaskType::Add10 || self == TaskType::Add20 || self == TaskType::Mix || self
                == TaskType::Add5Elem || self == TaskType::Mix5Elem) ==> r == 5,
    {
        match self {
            TaskType::AddQuest10 | TaskType::AddQuest20 | TaskType::SubQuest10 | TaskType::SubQuest20
            | TaskType::Sub10 | TaskType::Sub20 => 10,
            _ => 5,
        }
    }

    /// How long a task of this kind is shown before the abacus appears.
    #[allow(non_snake_case)]
    pub fn timeDisplayAbacus(self) -> (d: Duration)
        ensures
            d == spec_duration_from_secs(display_delay_secs(self)),
            (self == TaskType::Sub10 || self == TaskType::Sub20 || self == TaskType::SubQuest10 || self
                == TaskType::SubQuest20 || self == TaskType::AddQuest10 || self == TaskType::AddQuest20)
                ==> d == spec_duration_from_secs(10),
            (self == TaskType::Add10 || self == TaskType::Add20 || self == TaskType::Mix || self
                == TaskType::Add5Elem || self == TaskType::Mix5Elem) ==> d == spec_duration_from_secs(5),
    {
        duration_from_secs(self.display_abacus_secs())
    }

    /// The kind of a mixed drill with the drawn index `i`.
    pub fn mix_kind(i: i32) -> (r: Self)
        requires
            0 <= i < 4,
        ensures
            r == mix_kind(i as int),
    {
        if i == 0 {
            TaskType::Add20
        } else if i == 1 {
            TaskType::AddQuest20
        } else if i == 2 {
            TaskType::Sub20
        } else {
            TaskType::SubQuest20
        }
    }
}

impl Task {
    /// Lays out the drawn operands as a task: for a mixed drill the kind is
    /// the one of `mix_index`; a subtraction shows `par1 + par2 - par1 = par2`,
    /// every other kind `par1 + par2 = par1 + par2`.
    pub fn assemble(task_type: TaskType, par1: i32, par2: i32, mix_index: i32) -> (t: Task)
        requires
            i32::MIN <= par1 + par2 <= i32::MAX,
            task_type == TaskType::Mix ==> 0 <= mix_index < 4,
        ensures
            t == assembled(task_type, par1 as int, par2 as int, mix_index as int),
    {
        let result: i32 = par1 + par2;
        let kind = if task_type == TaskType::Mix { TaskType::mix_kind(mix_index) } else { task_type };
        match kind {
            TaskType::Sub10 | TaskType::Sub20 | TaskType::SubQuest10 | TaskType::SubQuest20 => {
                Task { parameter1: result, parameter2: par1, task_result: par2, task_type: kind }
            },
            _ => Task { parameter1: par1, parameter2: par2, task_result: result, task_type: kind },
        }
    }

    /// The range of the first drawn operand: `1..=9`, below the largest
    /// parameter 10.
    pub fn first_operand_range() -> (r: (i32, i32))
        ensures
            r == (1i32, 9i32),
    {
        let max_parameter: i32 = 10;
        (1, max_parameter - 1)
    }

    /// How the second operand is drawn after the first one, `par1`: `None` when
    /// only 1 is left below the kind's largest sum `max_sum` (then it is 1),
    /// else the largest value to draw from `1..=`, which keeps the sum within
    /// `max_sum` and the operand at most 10.
    pub fn second_operand_plan(max_sum: i32, par1: i32) -> (r: Option<i32>)
        requires
            1 <= par1 <= 9,
            par1 < max_sum,
        ensures
            r == second_operand_plan_of(max_sum as int, par1 as int),
    {
        let max_parameter: i32 = 10;
        if max_sum - par1 == 1 {
            None
        } else {
            Some(if max_sum - par1 < max_parameter { max_sum - par1 } else { max_parameter })
        }
    }

    /// The range of the kind index drawn for a mixed drill: `0..=3`.
    pub fn mix_index_range() -> (r: (i32, i32))
        ensures
            r == (0i32, 3i32),
    {
        (0, 3)
    }

    /// Draws a task of the given kind: a first operand in 1..=9 and a second
    /// one that keeps the sum within the kind's limit and is at most 10;
    /// a mixed drill also draws one of its four kinds. The task is the one
    /// `assemble` builds from draws within these ranges.
    pub fn gen_task(task_type: TaskType) -> (t: Task)
        ensures
            t.is_valid(),
            kind_fits(task_type, t.task_type),
            exists|p1: int, p2: int, mix_index: int|
                drawable(task_type, p1, p2, mix_index) && #[trigger] assembled(
                    task_type,
                    p1,
                    p2,
                    mix_index,
                ) == t,
    {
        let mut rng = thread_rng();
        let max_sum: i32 = task_type.get_max_sum();

        let first: (i32, i32) = Self::first_operand_range();
        let par1: i32 = gen_range_inclusive(&mut rng, first.0, first.1);
        let par2: i32 = match Self::second_operand_plan(max_sum, par1) {
            None => 1,
            Some(high2) => gen_range_inclusive(&mut rng, 1, high2),
        };
        let mix_index: i32 = if task_type == TaskType::Mix {
            let kinds: (i32, i32) = Self::mix_index_range();
            gen_range_inclusive(&mut rng, kinds.0, kinds.1)
        } else {
            0
        };
        let t = Task::assemble(task_type, par1, par2, mix_index);
        proof {
            lemma_assembled_valid(task_type, par1 as int, par2 as int, mix_index as int);
            assert(drawable(task_type, par1 as int, par2 as int, mix_index as int));
        }
        t
    }

    /// The answer that the child is expected to give: the second operand in a
    /// quest, the result otherwise.
    pub fn user_expected_result(&self) -> (r: i32)
        ensures
            r == self.expected(),
    {
        if self.task_type.is_parameter_quest() {
            self.parameter2
        } else {
            self.task_result
        }
    }

    /// Whether `user_result` is the expected answer.
    pub fn check_result(&self, user_result: i32) -> (r: bool)
        ensures
            r == (user_result == self.expected()),
    {
        self.user_expected_result() == user_result
    }
}

/// Drawn operands in the ranges that `gen_task` draws from always make a valid
/// task whose kind fits the exercise.
pub proof fn lemma_assembled_valid(task_type: TaskType, par1: int, par2: int, mix_index: int)
    requires
        1 <= par1 <= 9,
        1 <= par2 <= 10,
        par1 + par2 <= max_sum_of(task_type),
        task_type == TaskType::Mix ==> 0 <= mix_index < 4,
    ensures
        assembled(task_type, par1, par2, mix_index).is_valid(),
        kind_fits(task_type, assembled(task_type, par1, par2, mix_index).task_type),
{
}

/// Every valid task that fits an exercise can be drawn for it: some draws
/// within the ranges of `gen_task` assemble to exactly that task.
pub proof fn lemma_every_valid_task_drawable(task_type: TaskType, t: Task)
    requires
        t.is_valid(),
        kind_fits(task_type, t.task_type),
    ensures
        exists|p1: int, p2: int, mix_index: int|
            drawable(task_type, p1, p2, mix_index) && #[trigger] assembled(
                task_type,
                p1,
                p2,
                mix_index,
            ) == t,
{
    let p1: int = t.first_addend();
    let p2: int = t.second_addend();
    let mix_index: int = if task_type != TaskType::Mix {
        0
    } else if t.task_type == TaskType::Add20 {
        0
    } else if t.task_type == TaskType::AddQuest20 {
        1
    } else if t.task_type == TaskType::Sub20 {
        2
    } else {
        3
    };
    assert(drawable(task_type, p1, p2, mix_index));
    assert(assembled(task_type, p1, p2, mix_index) == t);
}

/// Every valid task of an addition or subtraction kind shows a true equation
/// with the operator of `task_op`, and its expected answer is the number that
/// completes it: the result, or in a quest the second operand. (The kinds
/// `Add5Elem` and `Mix5Elem` lay out an addition but show `-`.)
pub proof fn lemma_valid_task_is_solvable(t: Task)
    requires
        t.is_valid(),
        is_addition(t.task_type) || is_subtraction(t.task_type),
    ensures
        t.equation_holds(),
        is_quest(t.task_type) ==> t.expected() == t.parameter2,
        !is_quest(t.task_type) ==> t.expected() == t.task_result,
        1 <= t.expected() <= 19,
{
}

/// The menu's addition kinds (up to ten or twenty, result or operand to find)
/// are shown with `+` and their valid tasks satisfy
/// `parameter1 + parameter2 == task_result`; the menu's subtraction kinds are
/// shown with `-` and satisfy `parameter1 - parameter2 == task_result`. The
/// answer expected is the second operand in the quests and the result in the
/// others.
pub proof fn lemma_menu_kinds_show_their_equation(t: Task)
    requires
        t.is_valid(),
    ensures
        (t.task_type == TaskType::Add10 || t.task_type == TaskType::Add20 || t.task_type
            == TaskType::AddQuest10 || t.task_type == TaskType::AddQuest20) ==> is_addition(t.task_type)
            && t.parameter1 + t.parameter2 == t.task_result,
        (t.task_type == TaskType::Sub10 || t.task_type == TaskType::Sub20 || t.task_type
            == TaskType::SubQuest10 || t.task_type == TaskType::SubQuest20) ==> !is_addition(t.task_type)
            && t.parameter1 - t.parameter2 == t.task_result,
        (t.task_type == TaskType::AddQuest10 || t.task_type == TaskType::AddQuest20 || t.task_type
            == TaskType::SubQuest10 || t.task_type == TaskType::SubQuest20) ==> t.expected()
            == t.parameter2,
        (t.task_type == TaskType::Add10 || t.task_type == TaskType::Add20 || t.task_type
            == TaskType::Sub10 || t.task_type == TaskType::Sub20) ==> t.expected() == t.task_result,
{
}

/// The abacus waits 10 seconds for every subtraction kind and every quest kind
/// and 5 seconds for the others.
pub proof fn lemma_abacus_delay_by_kind(t: TaskType)
    ensures
        (t == TaskType::Sub10 || t == TaskType::Sub20 || t == TaskType::SubQuest10 || t
            == TaskType::SubQuest20 || t == TaskType::AddQuest10 || t == TaskType::AddQuest20)
            ==> display_delay_secs(t) == 10,
        (t == TaskType::Add10 || t == TaskType::Add20 || t == TaskType::Mix || t == TaskType::Add5Elem
            || t == TaskType::Mix5Elem) ==> display_delay_secs(t) == 5,
{
}

/// The kinds up to ten reach a sum of at most 10, all the others 20; the child
/// finds the second operand exactly in the four quest kinds.
pub proof fn lemma_limits_and_quests_by_kind(t: TaskType)
    ensures
        (t == TaskType::Add10 || t == TaskType::Sub10 || t == TaskType::AddQuest10 || t
            == TaskType::SubQuest10) <==> max_sum_of(t) == 10,
        (t == TaskType::Add20 || t == TaskType::Sub20 || t == TaskType::AddQuest20 || t
            == TaskType::SubQuest20 || t == TaskType::Mix || t == TaskType::Add5Elem || t
            == TaskType::Mix5Elem) <==> max_sum_of(t) == 20,
        (t == TaskType::AddQuest10 || t == TaskType::AddQuest20 || t == TaskType::SubQuest10 || t
            == TaskType::SubQuest20) <==> is_quest(t),
{
}

/// A mixed drill draws among exactly the four kinds up to twenty (addition,
/// addition quest, subtraction, subtraction quest), each by its own index.
pub proof fn lemma_mix_kinds(i: int, j: int)
    requires
        0 <= i < 4,
        0 <= j < 4,
    ensures
        mix_kind(i) == TaskType::Add20 || mix_kind(i) == TaskType::AddQuest20 || mix_kind(i)
            == TaskType::Sub20 || mix_kind(i) == TaskType::SubQuest20,
        i != j ==> mix_kind(i) != mix_kind(j),
        kind_fits(TaskType::Mix, mix_kind(i)),
{
}

/// Exercise indices outside 0..=9 all give `Mix5Elem`, and the indices 0..=10
/// give eleven different kinds: every kind has its index.
pub proof fn lemma_kind_of_index(i: int, j: int)
    ensures
        (i < 0 || i > 9) ==> kind_of_index(i) == TaskType::Mix5Elem,
        0 <= i <= 10 && 0 <= j <= 10 && i != j ==> kind_of_index(i) != kind_of_index(j),
{
}

} // verus!
