//! Tasks and their rows.

use vstd::prelude::*;
use crate::column::{
    flag_at, flag_cell, flag_value, get_flag, get_list, get_opt_int, get_opt_real, get_opt_text,
    get_text, lemma_flag_round_trip, lemma_opt_int_round_trip, lemma_opt_real_round_trip,
    lemma_opt_text_round_trip, lemma_text_round_trip, list_at, list_cell, list_of, list_value,
    opt_int_at, opt_int_cell, opt_int_value,
    opt_real_at, opt_real_cell, opt_real_value, opt_text_at, opt_text_cell, opt_text_value,
    text_at, text_cell, text_value,
};
use crate::error::RowError;
use crate::listing::{collect, lemma_collect_all, lemma_collect_each, lemma_collect_first_failure};
use crate::schema::{Statement, INSERT_TASK};
use crate::stamp::{is_identifier, is_utc_timestamp, random_identifier, utc_now};
use crate::value::{Real, SqlValue, ValueView};

verus! {

/// A task of the planner.
///
/// `project_id` and `client_id` are weak references: nothing here checks that
/// the project or client exists. `score` is carried through as it is; nothing
/// here computes it.
#[derive(Clone, Debug, PartialEq)]
pub struct Task {
    pub id: String,
    pub project_id: Option<String>,
    pub client_id: Option<String>,
    pub title: String,
    pub description: Option<String>,
    pub status: String,
    pub due: Option<String>,
    pub priority: Option<i32>,
    pub effort: Option<Real>,
    pub impact: Option<i32>,
    pub confidence: Option<Real>,
    pub is_next_step: bool,
    pub tags: Vec<String>,
    pub links: Vec<String>,
    pub created_at: String,
    pub updated_at: String,
    pub score: Option<Real>,
}

/// The mathematical content of a [`Task`].
pub struct TaskView {
    pub id: Seq<char>,
    pub project_id: Option<Seq<char>>,
    pub client_id: Option<Seq<char>>,
    pub title: Seq<char>,
    pub description: Option<Seq<char>>,
    pub status: Seq<char>,
    pub due: Option<Seq<char>>,
    pub priority: Option<i32>,
    pub effort: Option<Real>,
    pub impact: Option<i32>,
    pub confidence: Option<Real>,
    pub is_next_step: bool,
    pub tags: Seq<Seq<char>>,
    pub links: Seq<Seq<char>>,
    pub created_at: Seq<char>,
    pub updated_at: Seq<char>,
    pub score: Option<Real>,
}

impl View for Task {
    type V = TaskView;

    open spec fn view(&self) -> TaskView {
        TaskView {
            id: self.id@,
            project_id: self.project_id.deep_view(),
            client_id: self.client_id.deep_view(),
            title: self.title@,
            description: self.description.deep_view(),
            status: self.status@,
            due: self.due.deep_view(),
            priority: self.priority,
            effort: self.effort,
            impact: self.impact,
            confidence: self.confidence,
            is_next_step: self.is_next_step,
            tags: self.tags.deep_view(),
            links: self.links.deep_view(),
            created_at: self.created_at@,
            updated_at: self.updated_at@,
            score: self.score,
        }
    }
}

impl DeepView for Task {
    type V = TaskView;

    open spec fn deep_view(&self) -> TaskView {
        self@
    }
}

/// The number of columns of a task's row.
pub const TASK_COLUMNS: usize = 17;

// ---------------------------------------------------------------------------
// Creation
// ---------------------------------------------------------------------------

/// A task as creation leaves it: the given identifier, the given time as both
/// timestamps, and every other field as it was.
pub open spec fn stamped_task(task: TaskView, id: Seq<char>, now: Seq<char>) -> TaskView {
    TaskView { id: id, created_at: now, updated_at: now, ..task }
}

/// Gives a task its identifier and its timestamps. Whatever identifier and
/// timestamps the task carried before are dropped.
pub fn stamp_task(task: Task, id: String, now: String) -> (stored: Task)
    ensures
        stored@ == stamped_task(task@, id@, now@),
{
    let updated_at = now.clone();
    Task { id: id, created_at: now, updated_at: updated_at, ..task }
}

/// Creates a task: assigns a fresh identifier and the current time in UTC,
/// and returns the task as it is to be stored.
///
/// Every field but the identifier and the two timestamps is that of `task`.
/// The two timestamps are equal.
pub fn create_task(task: Task) -> (stored: Task)
    ensures
        stored@ == stamped_task(task@, stored@.id, stored@.created_at),
        stored@.created_at == stored@.updated_at,
        is_identifier(stored@.id),
        stored@.id.len() > 0,
        is_utc_timestamp(stored@.created_at),
{
    let id = random_identifier();
    let now = utc_now();
    stamp_task(task, id, now)
}

// ---------------------------------------------------------------------------
// From entity to row
// ---------------------------------------------------------------------------

/// The row that stores a task, column by column.
pub open spec fn task_row(task: TaskView) -> Seq<ValueView> {
    seq![
        text_cell(task.id),
        opt_text_cell(task.project_id),
        opt_text_cell(task.client_id),
        text_cell(task.title),
        opt_text_cell(task.description),
        text_cell(task.status),
        opt_text_cell(task.due),
        opt_int_cell(task.priority),
        opt_real_cell(task.effort),
        opt_int_cell(task.impact),
        opt_real_cell(task.confidence),
        flag_cell(task.is_next_step),
        list_cell(task.tags),
        list_cell(task.links),
        text_cell(task.created_at),
        text_cell(task.updated_at),
        opt_real_cell(task.score),
    ]
}

/// The values to store for a task, in the order of the table's columns.
///
/// Reading the row gives the task back, field for field: an absent optional
/// field stays absent, a list keeps its items and their order.
pub fn task_to_row(task: &Task) -> (row: Vec<SqlValue>)
    ensures
        row@.len() == TASK_COLUMNS,
        row.deep_view() == task_row(task@),
        task_of_row(row.deep_view()) == Ok::<TaskView, RowError>(task@),
{
    let tags = list_value(&task.tags);
    let links = list_value(&task.links);
    let mut row: Vec<SqlValue> = Vec::with_capacity(TASK_COLUMNS);
    row.push(text_value(&task.id));
    row.push(opt_text_value(&task.project_id));
    row.push(opt_text_value(&task.client_id));
    row.push(text_value(&task.title));
    row.push(opt_text_value(&task.description));
    row.push(text_value(&task.status));
    row.push(opt_text_value(&task.due));
    row.push(opt_int_value(task.priority));
    row.push(opt_real_value(task.effort));
    row.push(opt_int_value(task.impact));
    row.push(opt_real_value(task.confidence));
    row.push(flag_value(task.is_next_step));
    row.push(tags);
    row.push(links);
    row.push(text_value(&task.created_at));
    row.push(text_value(&task.updated_at));
    row.push(opt_real_value(task.score));
    proof {
        assert(row.deep_view() =~= task_row(task@));
        lemma_task_round_trip(task@);
    }
    row
}

/// The statement that stores a task: the insert for the tasks table with the
/// values of the task's row.
pub fn insert_task(task: &Task) -> (statement: Statement)
    ensures
        statement.sql@ == INSERT_TASK@,
        statement.values.deep_view() == task_row(task@),
        task_of_row(statement.values.deep_view()) == Ok::<TaskView, RowError>(task@),
{
    Statement { sql: INSERT_TASK, values: task_to_row(task) }
}

// ---------------------------------------------------------------------------
// From row to entity
// ---------------------------------------------------------------------------

/// The task that a row reads as. The columns are read in order, and the first
/// one that cannot be read decides the error. Columns past the last one of a
/// task are ignored.
pub open spec fn task_of_row(row: Seq<ValueView>) -> Result<TaskView, RowError> {
    let id = text_at(row, 0);
    let project_id = opt_text_at(row, 1);
    let client_id = opt_text_at(row, 2);
    let title = text_at(row, 3);
    let description = opt_text_at(row, 4);
    let status = text_at(row, 5);
    let due = opt_text_at(row, 6);
    let priority = opt_int_at(row, 7);
    let effort = opt_real_at(row, 8);
    let impact = opt_int_at(row, 9);
    let confidence = opt_real_at(row, 10);
    let is_next_step = flag_at(row, 11);
    let tags = list_at(row, 12);
    let links = list_at(row, 13);
    let created_at = text_at(row, 14);
    let updated_at = text_at(row, 15);
    let score = opt_real_at(row, 16);
    if id is Err {
        Err(id->Err_0)
    } else if project_id is Err {
        Err(project_id->Err_0)
    } else if client_id is Err {
        Err(client_id->Err_0)
    } else if title is Err {
        Err(title->Err_0)
    } else if description is Err {
        Err(description->Err_0)
    } else if status is Err {
        Err(status->Err_0)
    } else if due is Err {
        Err(due->Err_0)
    } else if priority is Err {
        Err(priority->Err_0)
    } else if effort is Err {
        Err(effort->Err_0)
    } else if impact is Err {
        Err(impact->Err_0)
    } else if confidence is Err {
        Err(confidence->Err_0)
    } else if is_next_step is Err {
        Err(is_next_step->Err_0)
    } else if tags is Err {
        Err(tags->Err_0)
    } else if links is Err {
        Err(links->Err_0)
    } else if created_at is Err {
        Err(created_at->Err_0)
    } else if updated_at is Err {
        Err(updated_at->Err_0)
    } else if score is Err {
        Err(score->Err_0)
    } else {
        Ok(
            TaskView {
                id: id->Ok_0,
                project_id: project_id->Ok_0,
                client_id: client_id->Ok_0,
                title: title->Ok_0,
                description: description->Ok_0,
                status: status->Ok_0,
                due: due->Ok_0,
                priority: priority->Ok_0,
                effort: effort->Ok_0,
                impact: impact->Ok_0,
                confidence: confidence->Ok_0,
                is_next_step: is_next_step->Ok_0,
                tags: tags->Ok_0,
                links: links->Ok_0,
                created_at: created_at->Ok_0,
                updated_at: updated_at->Ok_0,
                score: score->Ok_0,
            },
        )
    }
}

/// Reads a row as a task.
pub fn task_from_row(row: &Vec<SqlValue>) -> (r: Result<Task, RowError>)
    ensures
        match r {
            Ok(task) => task_of_row(row.deep_view()) == Ok::<TaskView, RowError>(task@),
            Err(e) => task_of_row(row.deep_view()) == Err::<TaskView, RowError>(e),
        },
{
    let id = get_text(row, 0)?;
    let project_id = get_opt_text(row, 1)?;
    let client_id = get_opt_text(row, 2)?;
    let title = get_text(row, 3)?;
    let description = get_opt_text(row, 4)?;
    let status = get_text(row, 5)?;
    let due = get_opt_text(row, 6)?;
    let priority = get_opt_int(row, 7)?;
    let effort = get_opt_real(row, 8)?;
    let impact = get_opt_int(row, 9)?;
    let confidence = get_opt_real(row, 10)?;
    let is_next_step = get_flag(row, 11)?;
    let tags = get_list(row, 12)?;
    let links = get_list(row, 13)?;
    let created_at = get_text(row, 14)?;
    let updated_at = get_text(row, 15)?;
    let score = get_opt_real(row, 16)?;
    Ok(
        Task {
            id,
            project_id,
            client_id,
            title,
            description,
            status,
            due,
            priority,
            effort,
            impact,
            confidence,
            is_next_step,
            tags,
            links,
            created_at,
            updated_at,
            score,
        },
    )
}

/// Whether both lists of a task are read back unchanged from the text they
/// are stored as. This holds of every list that has been encoded: the
/// encoder's contract says so.
pub open spec fn task_lists_round_trip(task: TaskView) -> bool {
    &&& list_of(list_cell(task.tags)) == task.tags
    &&& list_of(list_cell(task.links)) == task.links
}

/// Storing a task and reading the row back gives the same task: no field is
/// lost or altered, an absent optional field stays absent, and nothing in the
/// row fails to read.
pub proof fn lemma_task_round_trip(task: TaskView)
    requires
        task_lists_round_trip(task),
    ensures
        task_of_row(task_row(task)) == Ok::<TaskView, RowError>(task),
{
    let row = task_row(task);
    lemma_text_round_trip(task.id, 0);
    lemma_opt_text_round_trip(task.project_id, 1);
    lemma_opt_text_round_trip(task.client_id, 2);
    lemma_text_round_trip(task.title, 3);
    lemma_opt_text_round_trip(task.description, 4);
    lemma_text_round_trip(task.status, 5);
    lemma_opt_text_round_trip(task.due, 6);
    lemma_opt_int_round_trip(task.priority, 7);
    lemma_opt_real_round_trip(task.effort, 8);
    lemma_opt_int_round_trip(task.impact, 9);
    lemma_opt_real_round_trip(task.confidence, 10);
    lemma_flag_round_trip(task.is_next_step, 11);
    lemma_text_round_trip(task.created_at, 14);
    lemma_text_round_trip(task.updated_at, 15);
    lemma_opt_real_round_trip(task.score, 16);
    assert(row.len() == 17);
    assert(text_at(row, 0) == Ok::<Seq<char>, RowError>(task.id));
    assert(opt_text_at(row, 1) == Ok::<Option<Seq<char>>, RowError>(task.project_id));
    assert(opt_text_at(row, 2) == Ok::<Option<Seq<char>>, RowError>(task.client_id));
    assert(text_at(row, 3) == Ok::<Seq<char>, RowError>(task.title));
    assert(opt_text_at(row, 4) == Ok::<Option<Seq<char>>, RowError>(task.description));
    assert(text_at(row, 5) == Ok::<Seq<char>, RowError>(task.status));
    assert(opt_text_at(row, 6) == Ok::<Option<Seq<char>>, RowError>(task.due));
    assert(opt_int_at(row, 7) == Ok::<Option<i32>, RowError>(task.priority));
    assert(opt_real_at(row, 8) == Ok::<Option<Real>, RowError>(task.effort));
    assert(opt_int_at(row, 9) == Ok::<Option<i32>, RowError>(task.impact));
    assert(opt_real_at(row, 10) == Ok::<Option<Real>, RowError>(task.confidence));
    assert(flag_at(row, 11) == Ok::<bool, RowError>(task.is_next_step));
    assert(list_at(row, 12) == Ok::<Seq<Seq<char>>, RowError>(task.tags));
    assert(list_at(row, 13) == Ok::<Seq<Seq<char>>, RowError>(task.links));
    assert(text_at(row, 14) == Ok::<Seq<char>, RowError>(task.created_at));
    assert(text_at(row, 15) == Ok::<Seq<char>, RowError>(task.updated_at));
    assert(opt_real_at(row, 16) == Ok::<Option<Real>, RowError>(task.score));
}

// ---------------------------------------------------------------------------
// Listing
// ---------------------------------------------------------------------------

/// What each row of a listing reads as.
pub open spec fn task_results(rows: Seq<Seq<ValueView>>) -> Seq<Result<TaskView, RowError>> {
    Seq::new(rows.len(), |i: int| task_of_row(rows[i]))
}

/// The tasks that the rows of a listing read as: every row in order, or the
/// error of the first row that cannot be read.
pub open spec fn tasks_of_rows(rows: Seq<Seq<ValueView>>) -> Result<Seq<TaskView>, RowError> {
    collect(task_results(rows))
}

/// Reads the rows of a listing as tasks, in the order in which the store
/// returned them.
///
/// All rows are read or none: the listing fails with the error of the first
/// row that cannot be read. A listing without rows is an empty list.
pub fn tasks_from_rows(rows: &Vec<Vec<SqlValue>>) -> (r: Result<Vec<Task>, RowError>)
    ensures
        match r {
            Ok(tasks) => tasks_of_rows(rows.deep_view()) == Ok::<Seq<TaskView>, RowError>(
                tasks.deep_view(),
            ),
            Err(e) => tasks_of_rows(rows.deep_view()) == Err::<Seq<TaskView>, RowError>(e),
        },
        rows@.len() == 0 ==> (r matches Ok(tasks) && tasks@.len() == 0),
{
    let ghost results = task_results(rows.deep_view());
    let mut tasks: Vec<Task> = Vec::new();
    let mut i: usize = 0;
    while i < rows.len()
        invariant
            0 <= i <= rows@.len(),
            tasks@.len() == i,
            results == task_results(rows.deep_view()),
            results.len() == rows@.len(),
            forall|j: int|
                0 <= j < i ==> (#[trigger] results[j]) == Ok::<TaskView, RowError>(tasks@[j]@),
        decreases rows@.len() - i,
    {
        assert(rows.deep_view()[i as int] == rows@[i as int].deep_view());
        match task_from_row(&rows[i]) {
            Ok(task) => {
                tasks.push(task);
            },
            Err(e) => {
                proof {
                    assert(results[i as int] == Err::<TaskView, RowError>(e));
                    lemma_collect_first_failure(results, i as int);
                }
                return Err(e);
            },
        }
        i += 1;
    }
    proof {
        assert(tasks.deep_view().len() == results.len());
        assert forall|j: int| 0 <= j < results.len() implies (#[trigger] results[j]) == Ok::<
            TaskView,
            RowError,
        >(tasks.deep_view()[j]) by {
            assert(tasks.deep_view()[j] == tasks@[j]@);
        }
        lemma_collect_all(results, tasks.deep_view());
    }
    Ok(tasks)
}

/// What was stored is what a listing shows: where a listing succeeds and row
/// `k` of it is the row that stores `task`, entry `k` of the listing is
/// `task`, field for field.
pub proof fn lemma_task_listing_shows_stored(rows: Seq<Seq<ValueView>>, k: int, task: TaskView)
    requires
        0 <= k < rows.len(),
        rows[k] == task_row(task),
        task_lists_round_trip(task),
        tasks_of_rows(rows) is Ok,
    ensures
        tasks_of_rows(rows)->Ok_0.len() == rows.len(),
        tasks_of_rows(rows)->Ok_0[k] == task,
{
    lemma_task_round_trip(task);
    lemma_collect_each(task_results(rows), k);
}

} // verus!
