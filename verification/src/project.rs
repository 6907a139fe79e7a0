//! Projects and their rows.

use vstd::prelude::*;
use crate::column::{
    get_list, get_opt_text, get_text, lemma_opt_text_round_trip, lemma_text_round_trip, list_at,
    list_cell, list_of, list_value, opt_text_at, opt_text_cell, opt_text_value, text_at,
    text_cell, text_value,
};
use crate::error::RowError;
use crate::listing::{collect, lemma_collect_all, lemma_collect_each, lemma_collect_first_failure};
use crate::schema::{Statement, INSERT_PROJECT};
use crate::stamp::{is_identifier, is_utc_timestamp, random_identifier, utc_now};
use crate::value::{SqlValue, ValueView};

verus! {

/// A project of the planner.
///
/// `client_id` is a weak reference: a project may stand without a client, and
/// nothing here checks that the client exists.
#[derive(Clone, Debug, PartialEq)]
pub struct Project {
    pub id: String,
    pub client_id: Option<String>,
    pub kind: String,
    pub project_type: Option<String>,
    pub status: Option<String>,
    pub title: String,
    pub description: Option<String>,
    pub tags: Vec<String>,
    pub next_step: Option<String>,
    pub next_step_due: Option<String>,
    pub created_at: String,
    pub updated_at: String,
}

/// The mathematical content of a [`Project`].
pub struct ProjectView {
    pub id: Seq<char>,
    pub client_id: Option<Seq<char>>,
    pub kind: Seq<char>,
    pub project_type: Option<Seq<char>>,
    pub status: Option<Seq<char>>,
    pub title: Seq<char>,
    pub description: Option<Seq<char>>,
    pub tags: Seq<Seq<char>>,
    pub next_step: Option<Seq<char>>,
    pub next_step_due: Option<Seq<char>>,
    pub created_at: Seq<char>,
    pub updated_at: Seq<char>,
}

impl View for Project {
    type V = ProjectView;

    open spec fn view(&self) -> ProjectView {
        ProjectView {
            id: self.id@,
            client_id: self.client_id.deep_view(),
            kind: self.kind@,
            project_type: self.project_type.deep_view(),
            status: self.status.deep_view(),
            title: self.title@,
            description: self.description.deep_view(),
            tags: self.tags.deep_view(),
            next_step: self.next_step.deep_view(),
            next_step_due: self.next_step_due.deep_view(),
            created_at: self.created_at@,
            updated_at: self.updated_at@,
        }
    }
}

impl DeepView for Project {
    type V = ProjectView;

    open spec fn deep_view(&self) -> ProjectView {
        self@
    }
}

/// The number of columns of a project's row.
pub const PROJECT_COLUMNS: usize = 12;

// ---------------------------------------------------------------------------
// Creation
// ---------------------------------------------------------------------------

/// A project as creation leaves it: the given identifier, the given time as
/// both timestamps, and every other field as it was.
pub open spec fn stamped_project(
    project: ProjectView,
    id: Seq<char>,
    now: Seq<char>,
) -> ProjectView {
    ProjectView { id: id, created_at: now, updated_at: now, ..project }
}

/// Gives a project its identifier and its timestamps. Whatever identifier
/// and timestamps the project carried before are dropped.
pub fn stamp_project(project: Project, id: String, now: String) -> (stored: Project)
    ensures
        stored@ == stamped_project(project@, id@, now@),
{
    let updated_at = now.clone();
    Project { id: id, created_at: now, updated_at: updated_at, ..project }
}

/// Creates a project: assigns a fresh identifier and the current time in
/// UTC, and returns the project as it is to be stored.
///
/// Every field but the identifier and the two timestamps is that of
/// `project`. The two timestamps are equal.
pub fn create_project(project: Project) -> (stored: Project)
    ensures
        stored@ == stamped_project(project@, stored@.id, stored@.created_at),
        stored@.created_at == stored@.updated_at,
        is_identifier(stored@.id),
        stored@.id.len() > 0,
        is_utc_timestamp(stored@.created_at),
{
    let id = random_identifier();
    let now = utc_now();
    stamp_project(project, id, now)
}

// ---------------------------------------------------------------------------
// From entity to row
// ---------------------------------------------------------------------------

/// The row that stores a project, column by column.
pub open spec fn project_row(project: ProjectView) -> Seq<ValueView> {
    seq![
        text_cell(project.id),
        opt_text_cell(project.client_id),
        text_cell(project.kind),
        opt_text_cell(project.project_type),
        opt_text_cell(project.status),
        text_cell(project.title),
        opt_text_cell(project.description),
        list_cell(project.tags),
        opt_text_cell(project.next_step),
        opt_text_cell(project.next_step_due),
        text_cell(project.created_at),
        text_cell(project.updated_at),
    ]
}

/// The values to store for a project, in the order of the table's columns.
///
/// Reading the row gives the project back, field for field: an absent
/// optional field stays absent, a list keeps its items and their order.
pub fn project_to_row(project: &Project) -> (row: Vec<SqlValue>)
    ensures
        row@.len() == PROJECT_COLUMNS,
        row.deep_view() == project_row(project@),
        project_of_row(row.deep_view()) == Ok::<ProjectView, RowError>(project@),
{
    let tags = list_value(&project.tags);
    let mut row: Vec<SqlValue> = Vec::with_capacity(PROJECT_COLUMNS);
    row.push(text_value(&project.id));
    row.push(opt_text_value(&project.client_id));
    row.push(text_value(&project.kind));
    row.push(opt_text_value(&project.project_type));
    row.push(opt_text_value(&project.status));
    row.push(text_value(&project.title));
    row.push(opt_text_value(&project.description));
    row.push(tags);
    row.push(opt_text_value(&project.next_step));
    row.push(opt_text_value(&project.next_step_due));
    row.push(text_value(&project.created_at));
    row.push(text_value(&project.updated_at));
    proof {
        assert(row.deep_view() =~= project_row(project@));
        lemma_project_round_trip(project@);
    }
    row
}

/// The statement that stores a project: the insert for the projects table with the
/// values of the project's row.
pub fn insert_project(project: &Project) -> (statement: Statement)
    ensures
        statement.sql@ == INSERT_PROJECT@,
        statement.values.deep_view() == project_row(project@),
        project_of_row(statement.values.deep_view()) == Ok::<ProjectView, RowError>(project@),
{
    Statement { sql: INSERT_PROJECT, values: project_to_row(project) }
}

// ---------------------------------------------------------------------------
// From row to entity
// ---------------------------------------------------------------------------

/// The project that a row reads as. The columns are read in order, and the
/// first one that cannot be read decides the error. Columns past the last
/// one of a project are ignored.
pub open spec fn project_of_row(row: Seq<ValueView>) -> Result<ProjectView, RowError> {
    let id = text_at(row, 0);
    let client_id = opt_text_at(row, 1);
    let kind = text_at(row, 2);
    let project_type = opt_text_at(row, 3);
    let status = opt_text_at(row, 4);
    let title = text_at(row, 5);
    let description = opt_text_at(row, 6);
    let tags = list_at(row, 7);
    let next_step = opt_text_at(row, 8);
    let next_step_due = opt_text_at(row, 9);
    let created_at = text_at(row, 10);
    let updated_at = text_at(row, 11);
    if id is Err {
        Err(id->Err_0)
    } else if client_id is Err {
        Err(client_id->Err_0)
    } else if kind is Err {
        Err(kind->Err_0)
    } else if project_type is Err {
        Err(project_type->Err_0)
    } else if status is Err {
        Err(status->Err_0)
    } else if title is Err {
        Err(title->Err_0)
    } else if description is Err {
        Err(description->Err_0)
    } else if tags is Err {
        Err(tags->Err_0)
    } else if next_step is Err {
        Err(next_step->Err_0)
    } else if next_step_due is Err {
        Err(next_step_due->Err_0)
    } else if created_at is Err {
        Err(created_at->Err_0)
    } else if updated_at is Err {
        Err(updated_at->Err_0)
    } else {
        Ok(
            ProjectView {
                id: id->Ok_0,
                client_id: client_id->Ok_0,
                kind: kind->Ok_0,
                project_type: project_type->Ok_0,
                status: status->Ok_0,
                title: title->Ok_0,
                description: description->Ok_0,
                tags: tags->Ok_0,
                next_step: next_step->Ok_0,
                next_step_due: next_step_due->Ok_0,
                created_at: created_at->Ok_0,
                updated_at: updated_at->Ok_0,
            },
        )
    }
}

/// Reads a row as a project.
pub fn project_from_row(row: &Vec<SqlValue>) -> (r: Result<Project, RowError>)
    ensures
        match r {
            Ok(project) => project_of_row(row.deep_view()) == Ok::<ProjectView, RowError>(
                project@,
            ),
            Err(e) => project_of_row(row.deep_view()) == Err::<ProjectView, RowError>(e),
        },
{
    let id = get_text(row, 0)?;
    let client_id = get_opt_text(row, 1)?;
    let kind = get_text(row, 2)?;
    let project_type = get_opt_text(row, 3)?;
    let status = get_opt_text(row, 4)?;
    let title = get_text(row, 5)?;
    let description = get_opt_text(row, 6)?;
    let tags = get_list(row, 7)?;
    let next_step = get_opt_text(row, 8)?;
    let next_step_due = get_opt_text(row, 9)?;
    let created_at = get_text(row, 10)?;
    let updated_at = get_text(row, 11)?;
    Ok(
        Project {
            id,
            client_id,
            kind,
            project_type,
            status,
            title,
            description,
            tags,
            next_step,
            next_step_due,
            created_at,
            updated_at,
        },
    )
}

/// Whether the list of a project is read back unchanged from the text it is
/// stored as. This holds of every list that has been encoded: the encoder's
/// contract says so.
pub open spec fn project_lists_round_trip(project: ProjectView) -> bool {
    list_of(list_cell(project.tags)) == project.tags
}

/// Storing a project and reading the row back gives the same project: no
/// field is lost or altered, an absent optional field stays absent, and
/// nothing in the row fails to read.
pub proof fn lemma_project_round_trip(project: ProjectView)
    requires
        project_lists_round_trip(project),
    ensures
        project_of_row(project_row(project)) == Ok::<ProjectView, RowError>(project),
{
    let row = project_row(project);
    lemma_text_round_trip(project.id, 0);
    lemma_opt_text_round_trip(project.client_id, 1);
    lemma_text_round_trip(project.kind, 2);
    lemma_opt_text_round_trip(project.project_type, 3);
    lemma_opt_text_round_trip(project.status, 4);
    lemma_text_round_trip(project.title, 5);
    lemma_opt_text_round_trip(project.description, 6);
    lemma_opt_text_round_trip(project.next_step, 8);
    lemma_opt_text_round_trip(project.next_step_due, 9);
    lemma_text_round_trip(project.created_at, 10);
    lemma_text_round_trip(project.updated_at, 11);
    assert(row.len() == 12);
    assert(text_at(row, 0) == Ok::<Seq<char>, RowError>(project.id));
    assert(opt_text_at(row, 1) == Ok::<Option<Seq<char>>, RowError>(project.client_id));
    assert(text_at(row, 2) == Ok::<Seq<char>, RowError>(project.kind));
    assert(opt_text_at(row, 3) == Ok::<Option<Seq<char>>, RowError>(project.project_type));
    assert(opt_text_at(row, 4) == Ok::<Option<Seq<char>>, RowError>(project.status));
    assert(text_at(row, 5) == Ok::<Seq<char>, RowError>(project.title));
    assert(opt_text_at(row, 6) == Ok::<Option<Seq<char>>, RowError>(project.description));
    assert(list_at(row, 7) == Ok::<Seq<Seq<char>>, RowError>(project.tags));
    assert(opt_text_at(row, 8) == Ok::<Option<Seq<char>>, RowError>(project.next_step));
    assert(opt_text_at(row, 9) == Ok::<Option<Seq<char>>, RowError>(project.next_step_due));
    assert(text_at(row, 10) == Ok::<Seq<char>, RowError>(project.created_at));
    assert(text_at(row, 11) == Ok::<Seq<char>, RowError>(project.updated_at));
}

// ---------------------------------------------------------------------------
// Listing
// ---------------------------------------------------------------------------

/// What each row of a listing reads as.
pub open spec fn project_results(rows: Seq<Seq<ValueView>>) -> Seq<Result<ProjectView, RowError>> {
    Seq::new(rows.len(), |i: int| project_of_row(rows[i]))
}

/// The projects that the rows of a listing read as: every row in order, or
/// the error of the first row that cannot be read.
pub open spec fn projects_of_rows(rows: Seq<Seq<ValueView>>) -> Result<
    Seq<ProjectView>,
    RowError,
> {
    collect(project_results(rows))
}

/// Reads the rows of a listing as projects, in the order in which the store
/// returned them.
///
/// All rows are read or none: the listing fails with the error of the first
/// row that cannot be read. A listing without rows is an empty list.
pub fn projects_from_rows(rows: &Vec<Vec<SqlValue>>) -> (r: Result<Vec<Project>, RowError>)
    ensures
        match r {
            Ok(projects) => projects_of_rows(rows.deep_view()) == Ok::<
                Seq<ProjectView>,
                RowError,
            >(projects.deep_view()),
            Err(e) => projects_of_rows(rows.deep_view()) == Err::<Seq<ProjectView>, RowError>(e),
        },
        rows@.len() == 0 ==> (r matches Ok(projects) && projects@.len() == 0),
{
    let ghost results = project_results(rows.deep_view());
    let mut projects: Vec<Project> = Vec::new();
    let mut i: usize = 0;
    while i < rows.len()
        invariant
            0 <= i <= rows@.len(),
            projects@.len() == i,
            results == project_results(rows.deep_view()),
            results.len() == rows@.len(),
            forall|j: int|
                0 <= j < i ==> (#[trigger] results[j]) == Ok::<ProjectView, RowError>(
                    projects@[j]@,
                ),
        decreases rows@.len() - i,
    {
        assert(rows.deep_view()[i as int] == rows@[i as int].deep_view());
        match project_from_row(&rows[i]) {
            Ok(project) => {
                projects.push(project);
            },
            Err(e) => {
                proof {
                    assert(results[i as int] == Err::<ProjectView, RowError>(e));
                    lemma_collect_first_failure(results, i as int);
                }
                return Err(e);
            },
        }
        i += 1;
    }
    proof {
        assert(projects.deep_view().len() == results.len());
        assert forall|j: int| 0 <= j < results.len() implies (#[trigger] results[j]) == Ok::<
            ProjectView,
            RowError,
        >(projects.deep_view()[j]) by {
            assert(projects.deep_view()[j] == projects@[j]@);
        }
        lemma_collect_all(results, projects.deep_view());
    }
    Ok(projects)
}

/// What was stored is what a listing shows: where a listing succeeds and row
/// `k` of it is the row that stores `project`, entry `k` of the listing is
/// `project`, field for field.
pub proof fn lemma_project_listing_shows_stored(
    rows: Seq<Seq<ValueView>>,
    k: int,
    project: ProjectView,
)
    requires
        0 <= k < rows.len(),
        rows[k] == project_row(project),
        project_lists_round_trip(project),
        projects_of_rows(rows) is Ok,
    ensures
        projects_of_rows(rows)->Ok_0.len() == rows.len(),
        projects_of_rows(rows)->Ok_0[k] == project,
{
    lemma_project_round_trip(project);
    lemma_collect_each(project_results(rows), k);
}

} // verus!
