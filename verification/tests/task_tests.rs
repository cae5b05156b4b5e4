use rechnen::task::{Task, TaskType};
use std::time::Duration;

const ALL_KINDS: [TaskType; 11] = [
    TaskType::Add10,
    TaskType::Add20,
    TaskType::AddQuest10,
    TaskType::AddQuest20,
    TaskType::Sub10,
    TaskType::Sub20,
    TaskType::SubQuest10,
    TaskType::SubQuest20,
    TaskType::Mix,
    TaskType::Add5Elem,
    TaskType::Mix5Elem,
];

fn is_sub(t: TaskType) -> bool {
    matches!(t, TaskType::Sub10 | TaskType::Sub20 | TaskType::SubQuest10 | TaskType::SubQuest20)
}

#[test]
fn max_sum_per_kind() {
    assert_eq!(TaskType::Add10.get_max_sum(), 10);
    assert_eq!(TaskType::Sub10.get_max_sum(), 10);
    assert_eq!(TaskType::AddQuest10.get_max_sum(), 10);
    assert_eq!(TaskType::SubQuest10.get_max_sum(), 10);
    assert_eq!(TaskType::Add20.get_max_sum(), 20);
    assert_eq!(TaskType::Mix.get_max_sum(), 20);
    assert_eq!(TaskType::Add5Elem.get_max_sum(), 20);
    assert_eq!(TaskType::Mix5Elem.get_max_sum(), 20);
}

#[test]
fn quest_kinds() {
    let quests: Vec<TaskType> = ALL_KINDS.iter().copied().filter(|t| t.is_parameter_quest()).collect();
    assert_eq!(
        quests,
        vec![TaskType::AddQuest10, TaskType::AddQuest20, TaskType::SubQuest10, TaskType::SubQuest20]
    );
}

#[test]
fn operator_per_kind() {
    assert_eq!(TaskType::Add10.task_op(), "+");
    assert_eq!(TaskType::AddQuest20.task_op(), "+");
    assert_eq!(TaskType::Sub20.task_op(), "-");
    assert_eq!(TaskType::Mix.task_op(), "-");
    assert_eq!(TaskType::Add5Elem.task_op(), "-");
}

#[test]
fn kind_from_index() {
    for (i, kind) in ALL_KINDS.iter().enumerate() {
        assert_eq!(TaskType::from(i as i32), *kind);
    }
    assert_eq!(TaskType::from(11), TaskType::Mix5Elem);
    assert_eq!(TaskType::from(-1), TaskType::Mix5Elem);
    assert_eq!(TaskType::from(i32::MAX), TaskType::Mix5Elem);
}

#[test]
fn abacus_delay_per_kind() {
    assert_eq!(TaskType::Add10.timeDisplayAbacus(), Duration::from_secs(5));
    assert_eq!(TaskType::Mix.timeDisplayAbacus(), Duration::from_secs(5));
    assert_eq!(TaskType::Sub10.timeDisplayAbacus(), Duration::from_secs(10));
    assert_eq!(TaskType::SubQuest20.timeDisplayAbacus(), Duration::from_secs(10));
    assert_eq!(TaskType::AddQuest10.display_abacus_secs(), 10);
    assert_eq!(TaskType::Add20.display_abacus_secs(), 5);
}

#[test]
fn mixed_drill_kinds() {
    assert_eq!(TaskType::mix_kind(0), TaskType::Add20);
    assert_eq!(TaskType::mix_kind(1), TaskType::AddQuest20);
    assert_eq!(TaskType::mix_kind(2), TaskType::Sub20);
    assert_eq!(TaskType::mix_kind(3), TaskType::SubQuest20);
}

#[test]
fn assemble_addition() {
    let t = Task::assemble(TaskType::Add20, 7, 8, 0);
    assert_eq!(t, Task { parameter1: 7, parameter2: 8, task_result: 15, task_type: TaskType::Add20 });
}

#[test]
fn assemble_subtraction() {
    let t = Task::assemble(TaskType::SubQuest10, 3, 4, 0);
    assert_eq!(t, Task { parameter1: 7, parameter2: 3, task_result: 4, task_type: TaskType::SubQuest10 });
}

#[test]
fn assemble_mixed() {
    let t = Task::assemble(TaskType::Mix, 9, 5, 2);
    assert_eq!(t, Task { parameter1: 14, parameter2: 9, task_result: 5, task_type: TaskType::Sub20 });
    let t = Task::assemble(TaskType::Mix, 9, 5, 1);
    assert_eq!(t, Task { parameter1: 9, parameter2: 5, task_result: 14, task_type: TaskType::AddQuest20 });
}

#[test]
fn expected_result_and_check() {
    let quest = Task { parameter1: 3, parameter2: 4, task_result: 7, task_type: TaskType::AddQuest10 };
    assert_eq!(quest.user_expected_result(), 4);
    assert!(quest.check_result(4));
    assert!(!quest.check_result(7));
    let plain = Task { parameter1: 12, parameter2: 5, task_result: 7, task_type: TaskType::Sub20 };
    assert_eq!(plain.user_expected_result(), 7);
    assert!(plain.check_result(7));
    assert!(!plain.check_result(5));
}

#[test]
fn generated_tasks_are_valid() {
    for kind in ALL_KINDS.iter().copied() {
        for _ in 0..300 {
            let t = Task::gen_task(kind);
            if kind == TaskType::Mix {
                assert!(matches!(
                    t.task_type,
                    TaskType::Add20 | TaskType::AddQuest20 | TaskType::Sub20 | TaskType::SubQuest20
                ));
            } else {
                assert_eq!(t.task_type, kind);
            }
            let (a, b, sum) = if is_sub(t.task_type) {
                (t.parameter2, t.task_result, t.parameter1)
            } else {
                (t.parameter1, t.parameter2, t.task_result)
            };
            assert!((1..=9).contains(&a));
            assert!((1..=10).contains(&b));
            assert_eq!(sum, a + b);
            assert!(sum <= kind.get_max_sum());
            assert!(t.check_result(t.user_expected_result()));
        }
    }
}

#[test]
fn generated_tasks_up_to_ten_reach_ten() {
    let mut seen_ten = false;
    for _ in 0..2000 {
        let t = Task::gen_task(TaskType::Add10);
        assert!(t.task_result <= 10);
        seen_ten |= t.task_result == 10;
    }
    assert!(seen_ten);
}

#[test]
fn draw_ranges() {
    assert_eq!(Task::first_operand_range(), (1, 9));
    assert_eq!(Task::mix_index_range(), (0, 3));
    assert_eq!(Task::second_operand_plan(10, 9), None);
    assert_eq!(Task::second_operand_plan(10, 8), Some(2));
    assert_eq!(Task::second_operand_plan(10, 1), Some(9));
    assert_eq!(Task::second_operand_plan(20, 9), Some(10));
    assert_eq!(Task::second_operand_plan(20, 1), Some(10));
}

#[test]
fn generated_second_operands_cover_their_range() {
    let mut seen = [false; 11];
    for _ in 0..3000 {
        let t = Task::gen_task(TaskType::Add20);
        seen[t.parameter2 as usize] = true;
    }
    assert!(seen[1..=10].iter().all(|s| *s));
}
