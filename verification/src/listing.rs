//! What the server answers when tables or tasks are listed.

use crate::due::{parse_date_time, parsed_date_time, LocalTime};
use crate::error::Error;
use crate::json::{
    bool_member, get_bool, get_text, json_rows, read_rows, text_member, ReadMembers, Scalar,
};
use crate::reply::{
    failure_in, read_failure, reports_error, ErrorDetail, ErrorDetailView, Exchange,
};
use crate::text::contains;
use vstd::prelude::*;

verus! {

/// The list of tables.
#[derive(Debug)]
pub struct TableCharacteristicsResponse {
    pub res: Vec<TableCharacteristicsResponseDetails>,
}

/// One table: its name, and whether its tasks have due times.
#[derive(Debug)]
pub struct TableCharacteristicsResponseDetails {
    pub has_due: bool,
    pub name: String,
}

/// The list of tasks of a table.
#[derive(Debug)]
pub struct GetTaskResponse {
    pub res: Vec<GetTaskResponseDetail>,
}

/// One task.
#[derive(Debug)]
pub struct GetTaskResponseDetail {
    pub description: String,
    pub group: String,
    pub due: Option<LocalTime>,
}

/// What a `TableCharacteristicsResponseDetails` stands for.
pub struct TableView {
    pub has_due: bool,
    pub name: Seq<char>,
}

/// What a `GetTaskResponseDetail` stands for.
pub struct TaskView {
    pub description: Seq<char>,
    pub group: Seq<char>,
    pub due: Option<LocalTime>,
}

impl DeepView for TableCharacteristicsResponseDetails {
    type V = TableView;

    open spec fn deep_view(&self) -> TableView {
        TableView { has_due: self.has_due, name: self.name@ }
    }
}

impl DeepView for GetTaskResponseDetail {
    type V = TaskView;

    open spec fn deep_view(&self) -> TaskView {
        TaskView { description: self.description@, group: self.group@, due: self.due }
    }
}

impl View for TableCharacteristicsResponse {
    type V = Seq<TableView>;

    open spec fn view(&self) -> Seq<TableView> {
        self.res.deep_view()
    }
}

impl View for GetTaskResponse {
    type V = Seq<TaskView>;

    open spec fn view(&self) -> Seq<TaskView> {
        self.res.deep_view()
    }
}

/// What came back for a listing.
#[derive(Debug)]
pub enum Listing {
    /// The server refused.
    Failure(ErrorDetail),
    /// The tables.
    Tables(TableCharacteristicsResponse),
    /// The tasks of the table asked for.
    Tasks(GetTaskResponse),
}

/// What a `Listing` stands for.
pub enum ListingView {
    Failure(ErrorDetailView),
    Tables(Seq<TableView>),
    Tasks(Seq<TaskView>),
}

impl View for Listing {
    type V = ListingView;

    open spec fn view(&self) -> ListingView {
        match self {
            Listing::Failure(detail) => ListingView::Failure(detail.deep_view()),
            Listing::Tables(tables) => ListingView::Tables(tables@),
            Listing::Tasks(tasks) => ListingView::Tasks(tasks@),
        }
    }
}

/// The table that an object with these members describes: `has_due` a truth
/// value and `name` a string.
pub open spec fn table_of(row: ReadMembers) -> Option<TableView> {
    match (bool_member(row, "has_due"@), text_member(row, "name"@)) {
        (Some(has_due), Ok(Some(name))) => Some(TableView { has_due, name }),
        _ => None,
    }
}

/// The task that an object with these members describes: `description` and
/// `group` strings, and `due` missing, `null` or a date with a time of day.
pub open spec fn task_of(row: ReadMembers) -> Option<TaskView> {
    match (text_member(row, "description"@), text_member(row, "group"@), text_member(row, "due"@)) {
        (Ok(Some(description)), Ok(Some(group)), Ok(None)) => Some(
            TaskView { description, group, due: None },
        ),
        (Ok(Some(description)), Ok(Some(group)), Ok(Some(due))) => match parsed_date_time(due) {
            Some(moment) => Some(TaskView { description, group, due: Some(moment) }),
            None => None,
        },
        _ => None,
    }
}

/// What the rows describe, one by one, if each of them describes something.
pub open spec fn each<T>(rows: Seq<ReadMembers>, of: spec_fn(ReadMembers) -> Option<T>) -> Option<
    Seq<T>,
>
    decreases rows.len(),
{
    if rows.len() == 0 {
        Some(Seq::empty())
    } else {
        match (each(rows.drop_last(), of), of(rows.last())) {
            (Some(items), Some(item)) => Some(items.push(item)),
            _ => None,
        }
    }
}

/// Where some of the first rows describe nothing, the rows as a whole do not
/// either.
pub proof fn lemma_each_prefix<T>(
    rows: Seq<ReadMembers>,
    of: spec_fn(ReadMembers) -> Option<T>,
    n: int,
)
    requires
        0 <= n <= rows.len(),
        each(rows.take(n), of) is None,
    ensures
        each(rows, of) is None,
    decreases rows.len(),
{
    if n < rows.len() {
        assert(rows.drop_last().take(n) == rows.take(n));
        lemma_each_prefix(rows.drop_last(), of, n);
    } else {
        assert(rows.take(n) == rows);
    }
}

/// What the body `body` lists. With the text `error` in it, it has to give
/// the account of a failure; without, its member `res` has to be an array of
/// tasks where a table was asked for, and of tables where none was.
pub open spec fn listing_in(body: Seq<char>, of_table: bool) -> Result<ListingView, Error> {
    if contains(body, "error"@) {
        match failure_in(body) {
            Some(failure) => Ok(ListingView::Failure(failure)),
            None => Err(Error::FailedtoReadServerResponse),
        }
    } else {
        match json_rows(body, "/res"@) {
            None => Err(Error::FailedtoReadServerResponse),
            Some(rows) => if of_table {
                match each(rows, |row: ReadMembers| task_of(row)) {
                    Some(tasks) => Ok(ListingView::Tasks(tasks)),
                    None => Err(Error::FailedtoReadServerResponse),
                }
            } else {
                match each(rows, |row: ReadMembers| table_of(row)) {
                    Some(tables) => Ok(ListingView::Tables(tables)),
                    None => Err(Error::FailedtoReadServerResponse),
                }
            },
        }
    }
}

/// What an exchange comes to when tables or tasks were to be listed.
pub open spec fn listing_of(exchange: Exchange, of_table: bool) -> Result<ListingView, Error> {
    match exchange {
        Exchange::Unsent => Err(Error::FailedToConnectToServer),
        Exchange::Unread => Err(Error::InvalidServerResponse),
        Exchange::Body(body) => listing_in(body@, of_table),
    }
}

/// What a listing, or the lack of one, stands for.
pub open spec fn listed(r: Result<Listing, Error>) -> Result<ListingView, Error> {
    match r {
        Ok(listing) => Ok(listing@),
        Err(e) => Err(e),
    }
}

/// Computes `table_of`.
pub fn read_table(row: &Vec<(String, Option<Scalar>)>) -> (r: Option<
    TableCharacteristicsResponseDetails,
>)
    ensures
        r.deep_view() == table_of(row.deep_view()),
{
    match (get_bool(row, "has_due"), get_text(row, "name")) {
        (Some(has_due), Ok(Some(name))) => Some(
            TableCharacteristicsResponseDetails { has_due, name },
        ),
        _ => None,
    }
}

/// Computes `task_of`.
pub fn read_task(row: &Vec<(String, Option<Scalar>)>) -> (r: Option<GetTaskResponseDetail>)
    ensures
        r.deep_view() == task_of(row.deep_view()),
{
    let description = match get_text(row, "description") {
        Ok(Some(description)) => description,
        _ => {
            return None;
        },
    };
    let group = match get_text(row, "group") {
        Ok(Some(group)) => group,
        _ => {
            return None;
        },
    };
    match get_text(row, "due") {
        Ok(None) => Some(GetTaskResponseDetail { description, group, due: None }),
        Ok(Some(due)) => match parse_date_time(due.as_str()) {
            Some(moment) => Some(GetTaskResponseDetail { description, group, due: Some(moment) }),
            None => None,
        },
        Err(_) => None,
    }
}

/// The tables that the rows describe.
pub fn read_tables(rows: &Vec<Vec<(String, Option<Scalar>)>>) -> (r: Option<
    TableCharacteristicsResponse,
>)
    ensures
        match r {
            Some(tables) => each(rows.deep_view(), |row: ReadMembers| table_of(row)) == Some(
                tables@,
            ),
            None => each(rows.deep_view(), |row: ReadMembers| table_of(row)) is None,
        },
{
    let ghost all = rows.deep_view();
    let ghost of = |row: ReadMembers| table_of(row);
    let mut res: Vec<TableCharacteristicsResponseDetails> = Vec::new();
    let mut i: usize = 0;
    assert(each(all.take(0), of) == Some(res.deep_view())) by {
        assert(all.take(0).len() == 0);
        assert(res.deep_view() =~= Seq::empty());
    }
    while i < rows.len()
        invariant
            i <= rows.len(),
            all == rows.deep_view(),
            of == |row: ReadMembers| table_of(row),
            each(all.take(i as int), of) == Some(res.deep_view()),
        decreases rows.len() - i,
    {
        proof {
            assert(all.take(i + 1).drop_last() == all.take(i as int));
            assert(all.take(i + 1).last() == rows[i as int].deep_view());
        }
        match read_table(&rows[i]) {
            Some(table) => {
                let ghost before = res.deep_view();
                let ghost item = table.deep_view();
                res.push(table);
                assert(res.deep_view() =~= before.push(item));
            },
            None => {
                proof {
                    lemma_each_prefix(all, of, i + 1);
                }
                return None;
            },
        }
        i += 1;
    }
    assert(all.take(all.len() as int) == all);
    Some(TableCharacteristicsResponse { res })
}

/// The tasks that the rows describe.
pub fn read_tasks(rows: &Vec<Vec<(String, Option<Scalar>)>>) -> (r: Option<GetTaskResponse>)
    ensures
        match r {
            Some(tasks) => each(rows.deep_view(), |row: ReadMembers| task_of(row)) == Some(tasks@),
            None => each(rows.deep_view(), |row: ReadMembers| task_of(row)) is None,
        },
{
    let ghost all = rows.deep_view();
    let ghost of = |row: ReadMembers| task_of(row);
    let mut res: Vec<GetTaskResponseDetail> = Vec::new();
    let mut i: usize = 0;
    assert(each(all.take(0), of) == Some(res.deep_view())) by {
        assert(all.take(0).len() == 0);
        assert(res.deep_view() =~= Seq::empty());
    }
    while i < rows.len()
        invariant
            i <= rows.len(),
            all == rows.deep_view(),
            of == |row: ReadMembers| task_of(row),
            each(all.take(i as int), of) == Some(res.deep_view()),
        decreases rows.len() - i,
    {
        proof {
            assert(all.take(i + 1).drop_last() == all.take(i as int));
            assert(all.take(i + 1).last() == rows[i as int].deep_view());
        }
        match read_task(&rows[i]) {
            Some(task) => {
                let ghost before = res.deep_view();
                let ghost item = task.deep_view();
                res.push(task);
                assert(res.deep_view() =~= before.push(item));
            },
            None => {
                proof {
                    lemma_each_prefix(all, of, i + 1);
                }
                return None;
            },
        }
        i += 1;
    }
    assert(all.take(all.len() as int) == all);
    Some(GetTaskResponse { res })
}

/// Computes `listing_of`.
pub fn read_exchange(exchange: &Exchange, of_table: bool) -> (r: Result<Listing, Error>)
    ensures
        listed(r) == listing_of(*exchange, of_table),
{
    match exchange {
        Exchange::Unsent => Err(Error::FailedToConnectToServer),
        Exchange::Unread => Err(Error::InvalidServerResponse),
        Exchange::Body(body) => read_listing(body.as_str(), of_table),
    }
}

/// Computes `listing_in`.
pub fn read_listing(body: &str, of_table: bool) -> (r: Result<Listing, Error>)
    ensures
        listed(r) == listing_in(body@, of_table),
{
    if reports_error(body) {
        return match read_failure(body) {
            Some(detail) => Ok(Listing::Failure(detail)),
            None => Err(Error::FailedtoReadServerResponse),
        };
    }
    let rows = match read_rows(body, "/res") {
        Some(rows) => rows,
        None => {
            return Err(Error::FailedtoReadServerResponse);
        },
    };
    if of_table {
        match read_tasks(&rows) {
            Some(tasks) => Ok(Listing::Tasks(tasks)),
            None => Err(Error::FailedtoReadServerResponse),
        }
    } else {
        match read_tables(&rows) {
            Some(tables) => Ok(Listing::Tables(tables)),
            None => Err(Error::FailedtoReadServerResponse),
        }
    }
}

} // verus!
