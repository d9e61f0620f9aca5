use task_board::state::{Msg, State};
use task_board::view::{allowed_assignees, is_allowed_assignee, mandays_label, u32_to_dec, view_page};

fn seed() -> State {
    State::new()
}

#[test]
fn seed_state_holds_four_tasks() {
    let s = seed();
    assert_eq!(s.tasks.len(), 4);
    assert_eq!(s.tasks[0].name, "Task 1");
    assert_eq!(s.tasks[0].assignee, "🐱");
    assert_eq!(s.tasks[0].mandays, 3);
    assert_eq!(s.tasks[0].status, 1);
    assert_eq!(s.tasks[1].name, "Task 2");
    assert_eq!(s.tasks[1].assignee, "🐶");
    assert_eq!(s.tasks[1].mandays, 2);
    assert_eq!(s.tasks[1].status, 1);
    assert_eq!(s.tasks[2].name, "Task 3");
    assert_eq!(s.tasks[2].assignee, "🐱");
    assert_eq!(s.tasks[2].mandays, 1);
    assert_eq!(s.tasks[2].status, 2);
    assert_eq!(s.tasks[3].name, "Task 4");
    assert_eq!(s.tasks[3].assignee, "🐹");
    assert_eq!(s.tasks[3].mandays, 3);
    assert_eq!(s.tasks[3].status, 3);
    assert_eq!(s.new_task_name, "");
    assert_eq!(s.new_task_assignee, "");
    assert_eq!(s.new_task_mandays, 0);
}

#[test]
fn seed_columns_show_expected_tasks() {
    let s = seed();
    let page = view_page(&s);
    assert_eq!(page.columns.len(), 3);

    let not_started = &page.columns[0];
    assert_eq!(not_started.status, 1);
    assert_eq!(not_started.caption, "not started");
    assert_eq!(not_started.count, 2);
    assert_eq!(not_started.rows.len(), 2);
    assert_eq!(not_started.rows[0].name, "Task 1");
    assert_eq!(not_started.rows[0].index, 0);
    assert_eq!(not_started.rows[1].name, "Task 2");
    assert_eq!(not_started.rows[1].index, 1);

    let in_progress = &page.columns[1];
    assert_eq!(in_progress.status, 2);
    assert_eq!(in_progress.caption, "in progress");
    assert_eq!(in_progress.count, 1);
    assert_eq!(in_progress.rows.len(), 1);
    assert_eq!(in_progress.rows[0].name, "Task 3");
    assert_eq!(in_progress.rows[0].index, 2);

    let done = &page.columns[2];
    assert_eq!(done.status, 3);
    assert_eq!(done.caption, "done");
    assert_eq!(done.count, 1);
    assert_eq!(done.rows.len(), 1);
    assert_eq!(done.rows[0].name, "Task 4");
    assert_eq!(done.rows[0].index, 3);
}

#[test]
fn increase_moves_task_one_column() {
    let mut s = seed();
    s.increase_status(0);
    assert_eq!(s.tasks[0].status, 2);
    assert_eq!(s.tasks[1].status, 1);
    assert_eq!(s.tasks[2].status, 2);
    assert_eq!(s.tasks[3].status, 3);
    let page = view_page(&s);
    assert_eq!(page.columns[0].count, 1);
    assert_eq!(page.columns[1].count, 2);
    assert_eq!(page.columns[2].count, 1);
}

#[test]
fn statuses_stay_in_range_under_any_sequence() {
    let mut s = seed();
    let moves: [usize; 12] = [0, 0, 0, 0, 1, 3, 3, 2, 0, 1, 2, 3];
    for (step, idx) in moves.iter().enumerate() {
        if step % 3 == 0 {
            s.decrease_status(*idx);
        } else {
            s.increase_status(*idx);
        }
        for t in &s.tasks {
            assert!(1 <= t.status && t.status <= 3);
        }
    }
}

#[test]
fn increase_saturates_at_done() {
    let mut s = seed();
    s.increase_status(3);
    assert_eq!(s.tasks[3].status, 3);
}

#[test]
fn decrease_saturates_at_not_started() {
    let mut s = seed();
    s.decrease_status(0);
    assert_eq!(s.tasks[0].status, 1);
}

#[test]
fn out_of_range_index_is_a_no_op() {
    let mut s = seed();
    s.increase_status(99);
    s.decrease_status(99);
    for (i, expected) in [1u32, 1, 2, 3].iter().enumerate() {
        assert_eq!(s.tasks[i].status, *expected);
    }
}

#[test]
fn increase_then_decrease_round_trips() {
    let mut s = seed();
    s.increase_status(0);
    s.decrease_status(0);
    assert_eq!(s.tasks[0].status, 1);
    s.increase_status(2);
    s.decrease_status(2);
    assert_eq!(s.tasks[2].status, 2);
}

#[test]
fn decrease_then_increase_round_trips() {
    let mut s = seed();
    s.decrease_status(2);
    s.increase_status(2);
    assert_eq!(s.tasks[2].status, 2);
    s.decrease_status(3);
    s.increase_status(3);
    assert_eq!(s.tasks[3].status, 3);
}

#[test]
fn submit_appends_one_task_from_drafts() {
    let mut s = seed();
    s.set_draft_name("Task 5".to_string());
    s.set_draft_assignee("🐶".to_string());
    s.set_draft_mandays("8");
    let before = s.tasks.len();
    s.submit_new_task();
    assert_eq!(s.tasks.len(), before + 1);
    let last = s.tasks.last().unwrap();
    assert_eq!(last.name, "Task 5");
    assert_eq!(last.assignee, "🐶");
    assert_eq!(last.mandays, 8);
    assert_eq!(last.status, 1);
    // Drafts are read, not reset.
    assert_eq!(s.new_task_name, "Task 5");
    assert_eq!(s.new_task_assignee, "🐶");
    assert_eq!(s.new_task_mandays, 8);
}

#[test]
fn column_counts_sum_to_total() {
    let mut s = seed();
    let check = |s: &State| {
        let page = view_page(s);
        let sum: usize = page.columns.iter().map(|c| c.count).sum();
        assert_eq!(sum, s.tasks.len());
    };
    check(&s);
    s.increase_status(1);
    check(&s);
    s.submit_new_task();
    check(&s);
    s.decrease_status(3);
    check(&s);
}

#[test]
fn invalid_mandays_text_keeps_previous_draft() {
    let mut s = seed();
    s.set_draft_mandays("5");
    assert_eq!(s.new_task_mandays, 5);
    s.set_draft_mandays("abc");
    assert_eq!(s.new_task_mandays, 5);
}

#[test]
fn mandays_draft_parses_exactly_like_u32() {
    let mut s = seed();
    s.set_draft_mandays("12");
    assert_eq!(s.new_task_mandays, 12);
    s.set_draft_mandays("+7");
    assert_eq!(s.new_task_mandays, 7);
    s.set_draft_mandays("0");
    assert_eq!(s.new_task_mandays, 0);
    s.set_draft_mandays("4294967295");
    assert_eq!(s.new_task_mandays, 4294967295);
    s.set_draft_mandays("4294967296");
    assert_eq!(s.new_task_mandays, 4294967295);
    s.set_draft_mandays("");
    assert_eq!(s.new_task_mandays, 4294967295);
    s.set_draft_mandays("+");
    assert_eq!(s.new_task_mandays, 4294967295);
    s.set_draft_mandays("1a");
    assert_eq!(s.new_task_mandays, 4294967295);
    s.set_draft_mandays("-1");
    assert_eq!(s.new_task_mandays, 4294967295);
    s.set_draft_mandays(" 3");
    assert_eq!(s.new_task_mandays, 4294967295);
    s.set_draft_mandays("007");
    assert_eq!(s.new_task_mandays, 7);
}

#[test]
fn update_dispatches_every_message() {
    let mut s = seed();
    assert!(s.update(Msg::UpdateNewTaskName("New".to_string())));
    assert_eq!(s.new_task_name, "New");
    assert!(s.update(Msg::UpdateNewTaskAssignee("🐹".to_string())));
    assert_eq!(s.new_task_assignee, "🐹");
    assert!(s.update(Msg::UpdateNewTaskMandays("4".to_string())));
    assert_eq!(s.new_task_mandays, 4);
    assert!(s.update(Msg::NewTask));
    assert_eq!(s.tasks.len(), 5);
    assert_eq!(s.tasks[4].name, "New");
    assert!(s.update(Msg::IncreaseStatus(4)));
    assert_eq!(s.tasks[4].status, 2);
    assert!(s.update(Msg::DecreaseStatus(4)));
    assert_eq!(s.tasks[4].status, 1);
}

#[test]
fn mandays_label_formats_effort() {
    assert_eq!(mandays_label(3), "3 person-days");
    assert_eq!(mandays_label(0), "0 person-days");
    assert_eq!(mandays_label(12), "12 person-days");
}

#[test]
fn decimal_rendering_is_exact() {
    assert_eq!(u32_to_dec(0), "0");
    assert_eq!(u32_to_dec(10), "10");
    assert_eq!(u32_to_dec(907), "907");
    assert_eq!(u32_to_dec(4294967295), "4294967295");
}

#[test]
fn header_shows_current_drafts() {
    let mut s = seed();
    s.set_draft_name("Next".to_string());
    s.set_draft_mandays("21");
    let page = view_page(&s);
    assert_eq!(page.header.draft_name, "Next");
    assert_eq!(page.header.assignee_label, "🐱");
    assert_eq!(page.header.draft_mandays_text, "21");
    assert_eq!(page.header.add_label, "add");
}

#[test]
fn task_rows_show_name_assignee_and_effort() {
    let s = seed();
    let page = view_page(&s);
    let row = &page.columns[1].rows[0];
    assert_eq!(row.name, "Task 3");
    assert_eq!(row.assignee, "🐱");
    assert_eq!(row.mandays_label, "1 person-days");
}

#[test]
fn assignee_table_is_the_closed_choice_set() {
    let opts = allowed_assignees();
    assert_eq!(opts, vec!["🐱", "🐶", "🐹"]);
    for o in &opts {
        assert!(is_allowed_assignee(o));
    }
    assert!(!is_allowed_assignee(&"🦊".to_string()));
    assert!(!is_allowed_assignee(&"".to_string()));
}
