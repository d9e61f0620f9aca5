//! The render model of the board: a pure function of the store produces the
//! three status columns, each with its caption, its live task count and one
//! row per task, and the header with the current drafts.

use vstd::prelude::*;

use crate::state::{State, Task, valid_status, STATUS_DONE, STATUS_IN_PROGRESS, STATUS_NOT_STARTED};

verus! {

/// The positions, in list order, of the tasks sitting in the column
/// `status`.
pub open spec fn col_indices(ts: Seq<Task>, status: u32) -> Seq<int>
    decreases ts.len(),
{
    if ts.len() == 0 {
        Seq::empty()
    } else {
        let pre = col_indices(ts.drop_last(), status);
        if ts.last().status == status {
            pre.push(ts.len() - 1)
        } else {
            pre
        }
    }
}

/// The live count of a column: how many tasks currently sit at `status`.
pub open spec fn count_status(ts: Seq<Task>, status: u32) -> nat {
    col_indices(ts, status).len()
}

/// Every position a column lists is a real position of the task list, and
/// holds a task with that column's status.
pub proof fn lemma_col_indices_in_range(ts: Seq<Task>, status: u32)
    ensures
        forall|k: int|
            0 <= k < col_indices(ts, status).len() ==> 0 <= #[trigger] col_indices(ts, status)[k]
                < ts.len() && ts[col_indices(ts, status)[k]].status == status,
    decreases ts.len(),
{
    if ts.len() > 0 {
        lemma_col_indices_in_range(ts.drop_last(), status);
        assert(forall|k: int|
            0 <= k < col_indices(ts.drop_last(), status).len() ==> #[trigger] col_indices(
                ts.drop_last(),
                status,
            )[k] < ts.len() - 1 && ts[col_indices(ts.drop_last(), status)[k]] == ts.drop_last()[
                col_indices(ts.drop_last(), status)[k]
            ]);
    }
}

/// The three column counts always sum to the total task count: every task
/// sits in exactly one column.
pub proof fn lemma_counts_cover_all(ts: Seq<Task>)
    requires
        forall|i: int| 0 <= i < ts.len() ==> valid_status(#[trigger] ts[i].status),
    ensures
        count_status(ts, 1) + count_status(ts, 2) + count_status(ts, 3) == ts.len(),
    decreases ts.len(),
{
    if ts.len() > 0 {
        let pre = ts.drop_last();
        assert(forall|i: int| 0 <= i < pre.len() ==> valid_status(#[trigger] pre[i].status));
        lemma_counts_cover_all(pre);
    }
}

/// The decimal digits of `n`, most significant first.
pub open spec fn dec_rep(n: int) -> Seq<char>
    decreases n,
{
    if n < 10 {
        seq![digit_char(n)]
    } else {
        dec_rep(n / 10).push(digit_char(n % 10))
    }
}

/// The character of one decimal digit.
pub open spec fn digit_char(d: int) -> char {
    if d == 0 {
        '0'
    } else if d == 1 {
        '1'
    } else if d == 2 {
        '2'
    } else if d == 3 {
        '3'
    } else if d == 4 {
        '4'
    } else if d == 5 {
        '5'
    } else if d == 6 {
        '6'
    } else if d == 7 {
        '7'
    } else if d == 8 {
        '8'
    } else {
        '9'
    }
}

/// A one-character string for one decimal digit.
fn digit_str(d: u32) -> (r: &'static str)
    requires
        d < 10,
    ensures
        r@ == seq![digit_char(d as int)],
{
    proof {
        reveal_strlit("0");
        reveal_strlit("1");
        reveal_strlit("2");
        reveal_strlit("3");
        reveal_strlit("4");
        reveal_strlit("5");
        reveal_strlit("6");
        reveal_strlit("7");
        reveal_strlit("8");
        reveal_strlit("9");
    }
    if d == 0 {
        "0"
    } else if d == 1 {
        "1"
    } else if d == 2 {
        "2"
    } else if d == 3 {
        "3"
    } else if d == 4 {
        "4"
    } else if d == 5 {
        "5"
    } else if d == 6 {
        "6"
    } else if d == 7 {
        "7"
    } else if d == 8 {
        "8"
    } else {
        "9"
    }
}

/// Writes `n` in decimal.
pub fn u32_to_dec(n: u32) -> (r: String)
    ensures
        r@ == dec_rep(n as int),
    decreases n,
{
    if n < 10 {
        digit_str(n).to_owned()
    } else {
        let mut s = u32_to_dec(n / 10);
        s.append(digit_str(n % 10));
        proof {
            assert(dec_rep((n / 10) as int) + seq![digit_char((n % 10) as int)] =~= dec_rep(
                (n / 10) as int,
            ).push(digit_char((n % 10) as int)));
        }
        s
    }
}

/// The effort string shown on a task row.
pub open spec fn mandays_text(m: u32) -> Seq<char> {
    dec_rep(m as int) + " person-days"@
}

/// Formats a task's effort for its row.
pub fn mandays_label(m: u32) -> (r: String)
    ensures
        r@ == mandays_text(m),
{
    let mut s = u32_to_dec(m);
    s.append(" person-days");
    s
}

/// One rendered task row: the fields shown, and the list position its two
/// status controls are bound to. The binding is recomputed on every render
/// pass and tracks position, not a stable identity.
pub struct TaskRow {
    pub index: usize,
    pub name: String,
    pub assignee: String,
    pub mandays_label: String,
}

/// The row that renders the task at position `i`.
pub open spec fn row_matches(row: TaskRow, i: int, t: Task) -> bool {
    &&& row.index == i
    &&& row.name@ == t.name@
    &&& row.assignee@ == t.assignee@
    &&& row.mandays_label@ == mandays_text(t.mandays)
}

/// Renders one task row, its controls bound to the task's current list
/// position.
pub fn view_task(idx: usize, t: &Task) -> (row: TaskRow)
    ensures
        row_matches(row, idx as int, *t),
{
    TaskRow {
        index: idx,
        name: t.name.clone(),
        assignee: t.assignee.clone(),
        mandays_label: mandays_label(t.mandays),
    }
}

/// One rendered status column: caption, live count, and a row per task at
/// this status, in list order.
pub struct ColumnView {
    pub status: u32,
    pub caption: String,
    pub count: usize,
    pub rows: Vec<TaskRow>,
}

/// The column that renders status `status` of the task list `ts`: its count
/// is the live filter count, and its rows are exactly the tasks at that
/// status, in list order, each bound to its position.
pub open spec fn column_matches(c: ColumnView, ts: Seq<Task>, status: u32, caption: Seq<char>) -> bool {
    &&& c.status == status
    &&& c.caption@ == caption
    &&& c.count == count_status(ts, status)
    &&& c.rows@.len() == count_status(ts, status)
    &&& forall|k: int|
        0 <= k < c.rows@.len() ==> row_matches(
            #[trigger] c.rows@[k],
            col_indices(ts, status)[k],
            ts[col_indices(ts, status)[k]],
        )
}

/// Renders one status column of the board.
pub fn view_column(state: &State, status: u32, caption: &str) -> (c: ColumnView)
    ensures
        column_matches(c, state.tasks@, status, caption@),
{
    let ghost ts = state.tasks@;
    let mut rows: Vec<TaskRow> = Vec::new();
    let mut i: usize = 0;
    while i < state.tasks.len()
        invariant
            i <= ts.len(),
            ts == state.tasks@,
            rows@.len() == count_status(ts.take(i as int), status),
            forall|k: int|
                0 <= k < rows@.len() ==> row_matches(
                    #[trigger] rows@[k],
                    col_indices(ts.take(i as int), status)[k],
                    ts[col_indices(ts.take(i as int), status)[k]],
                ),
        decreases ts.len() - i,
    {
        proof {
            assert(ts.take(i + 1).drop_last() =~= ts.take(i as int));
            assert(ts.take(i + 1).last() == ts[i as int]);
            lemma_col_indices_in_range(ts.take(i as int), status);
        }
        if state.tasks[i].status == status {
            let row = view_task(i, &state.tasks[i]);
            rows.push(row);
        }
        i = i + 1;
    }
    proof {
        assert(ts.take(ts.len() as int) =~= ts);
    }
    let count = rows.len();
    ColumnView { status, caption: caption.to_owned(), count, rows }
}

/// The fields of the rendered header: the current draft name, the fixed
/// assignee icon, the current draft effort, and the caption of the add
/// control.
pub struct HeaderView {
    pub draft_name: String,
    pub assignee_label: String,
    pub draft_mandays_text: String,
    pub add_label: String,
}

/// The header that renders the drafts of `s`.
pub open spec fn header_matches(h: HeaderView, s: State) -> bool {
    &&& h.draft_name@ == s.new_task_name@
    &&& h.assignee_label@ == "🐱"@
    &&& h.draft_mandays_text@ == dec_rep(s.new_task_mandays as int)
    &&& h.add_label@ == "add"@
}

/// Renders the header area above the columns.
pub fn view_header(state: &State) -> (h: HeaderView)
    ensures
        header_matches(h, *state),
{
    HeaderView {
        draft_name: state.new_task_name.clone(),
        assignee_label: "🐱".to_owned(),
        draft_mandays_text: u32_to_dec(state.new_task_mandays),
        add_label: "add".to_owned(),
    }
}

/// The whole rendered page: the header and the three status columns.
pub struct PageView {
    pub header: HeaderView,
    pub columns: Vec<ColumnView>,
}

/// The page that renders `s`: its header shows the drafts, and its three
/// columns, in status order, partition the task list.
pub open spec fn page_matches(p: PageView, s: State) -> bool {
    &&& header_matches(p.header, s)
    &&& p.columns@.len() == 3
    &&& column_matches(p.columns@[0], s.tasks@, 1, "not started"@)
    &&& column_matches(p.columns@[1], s.tasks@, 2, "in progress"@)
    &&& column_matches(p.columns@[2], s.tasks@, 3, "done"@)
}

/// Renders the full board: a pure function of the store's current state.
pub fn view_page(state: &State) -> (p: PageView)
    ensures
        page_matches(p, *state),
{
    let mut columns: Vec<ColumnView> = Vec::new();
    columns.push(view_column(state, STATUS_NOT_STARTED, "not started"));
    columns.push(view_column(state, STATUS_IN_PROGRESS, "in progress"));
    columns.push(view_column(state, STATUS_DONE, "done"));
    PageView { header: view_header(state), columns }
}

/// The closed set of assignees the selector offers.
pub open spec fn spec_allowed_assignee(s: Seq<char>) -> bool {
    s == "🐱"@ || s == "🐶"@ || s == "🐹"@
}

/// The configuration table behind the assignee selector, in display order.
pub fn allowed_assignees() -> (opts: Vec<String>)
    ensures
        opts@.len() == 3,
        opts@[0]@ == "🐱"@,
        opts@[1]@ == "🐶"@,
        opts@[2]@ == "🐹"@,
        forall|k: int| 0 <= k < opts@.len() ==> spec_allowed_assignee(#[trigger] opts@[k]@),
{
    let mut opts: Vec<String> = Vec::new();
    opts.push("🐱".to_owned());
    opts.push("🐶".to_owned());
    opts.push("🐹".to_owned());
    opts
}

/// Validates a selected assignee against the allowed table, at the input
/// boundary, before the value reaches the store.
pub fn is_allowed_assignee(s: &String) -> (r: bool)
    ensures
        r == spec_allowed_assignee(s@),
{
    let cat: String = "🐱".to_owned();
    let dog: String = "🐶".to_owned();
    let hamster: String = "🐹".to_owned();
    *s == cat || *s == dog || *s == hamster
}

} // verus!
