//! The todo list: an ordered sequence of records, changed by one command at
//! a time.
//!
//! A record is known to the user by its position, counted from one. The
//! position is no lasting name: removing a record moves every later one up.
//! Loading the list before a command and saving it afterwards are left to
//! the caller, who learns from the [`Report`] whether there is anything to
//! save.

use crate::clock::Timestamp;
use crate::paint::{paint, shows, Tone};
use crate::text::{decimal, decimal_text};
use vstd::prelude::*;

verus! {

/// What a [`Todo`] stands for.
pub struct TodoView {
    pub description: Seq<char>,
    pub completed: bool,
    pub created_at: Timestamp,
}

/// One entry of the list: what is to be done, whether it has been done, and
/// when the entry was made.
#[derive(Debug, PartialEq, Eq)]
pub struct Todo {
    description: String,
    completed: bool,
    created_at: Timestamp,
}

impl View for Todo {
    type V = TodoView;

    closed spec fn view(&self) -> TodoView {
        TodoView {
            description: self.description@,
            completed: self.completed,
            created_at: self.created_at,
        }
    }
}

impl Todo {
    /// A new entry, not yet done.
    pub fn new(description: String, created_at: Timestamp) -> (todo: Todo)
        ensures
            todo@ == (TodoView { description: description@, completed: false, created_at }),
    {
        Todo { description, completed: false, created_at }
    }

    /// An entry as it was stored.
    pub fn restore(description: String, completed: bool, created_at: Timestamp) -> (todo: Todo)
        ensures
            todo@ == (TodoView { description: description@, completed, created_at }),
    {
        Todo { description, completed, created_at }
    }

    /// What is to be done.
    pub fn description(&self) -> (description: &str)
        ensures
            description@ == self@.description,
    {
        self.description.as_str()
    }

    /// Whether it has been done.
    pub fn is_completed(&self) -> (completed: bool)
        ensures
            completed == self@.completed,
    {
        self.completed
    }

    /// When the entry was made.
    pub fn created_at(&self) -> (created_at: Timestamp)
        ensures
            created_at == self@.created_at,
    {
        self.created_at
    }
}

/// What each of `todos` stands for, in order.
pub open spec fn views(todos: Seq<Todo>) -> Seq<TodoView> {
    Seq::new(todos.len(), |i: int| todos[i]@)
}

/// Whether `index` is the position of a record in a list of `len` records.
pub open spec fn is_position(index: usize, len: nat) -> bool {
    1 <= index <= len
}

/// `list` with one more record at its end: `description`, not yet done,
/// made at `created_at`.
pub open spec fn added(list: Seq<TodoView>, description: Seq<char>, created_at: Timestamp) -> Seq<
    TodoView,
> {
    list.push(TodoView { description, completed: false, created_at })
}

/// `list` with the record at `position` done.
pub open spec fn marked(list: Seq<TodoView>, position: int) -> Seq<TodoView>
    recommends
        1 <= position <= list.len(),
{
    list.update(position - 1, TodoView { completed: true, ..list[position - 1] })
}

/// `list` without the record at `position`.
pub open spec fn removed(list: Seq<TodoView>, position: int) -> Seq<TodoView>
    recommends
        1 <= position <= list.len(),
{
    list.remove(position - 1)
}

/// The mark that stands for a record that is done.
pub open spec fn done_mark() -> Seq<char> {
    seq!['\u{2713}']
}

/// The mark that stands for a record that is not done.
pub open spec fn pending_mark() -> Seq<char> {
    seq!['\u{2717}']
}

/// One line of the list: the position, the mark in square brackets, the
/// description, and the time in round brackets.
pub open spec fn row_text(
    position: nat,
    mark: Seq<char>,
    description: Seq<char>,
    date: Seq<char>,
) -> Seq<char> {
    decimal(position) + seq![' ', '['] + mark + seq![']', ' '] + description + seq![' ', '(']
        + date + seq![')']
}

/// Puts the parts of one line of the list together.
pub fn compose_row(position: usize, mark: &str, description: &str, date: &str) -> (line: String)
    ensures
        line@ == row_text(position as nat, mark@, description@, date@),
{
    proof {
        reveal_strlit(" [");
        reveal_strlit("] ");
        reveal_strlit(" (");
        reveal_strlit(")");
    }
    let mut line = decimal_text(position as u64);
    line.append(" [");
    line.append(mark);
    line.append("] ");
    line.append(description);
    line.append(" (");
    line.append(date);
    line.append(")");
    assert(" ["@ =~= seq![' ', '[']);
    assert("] "@ =~= seq![']', ' ']);
    assert(" ("@ =~= seq![' ', '(']);
    assert(")"@ =~= seq![')']);
    line
}

/// What a [`Row`] stands for.
pub struct RowView {
    pub position: nat,
    pub completed: bool,
    pub description: Seq<char>,
    pub date: Seq<char>,
}

/// One record as the list shows it.
#[derive(Debug, PartialEq, Eq)]
pub struct Row {
    /// The position of the record, counted from one.
    pub position: usize,
    /// Whether the record is done.
    pub completed: bool,
    /// What is to be done.
    pub description: String,
    /// When the record was made, to the minute, in local time.
    pub date: String,
}

impl View for Row {
    type V = RowView;

    open spec fn view(&self) -> RowView {
        RowView {
            position: self.position as nat,
            completed: self.completed,
            description: self.description@,
            date: self.date@,
        }
    }
}

/// The row that shows `todo` at `position`.
pub open spec fn row_of(position: nat, todo: TodoView) -> RowView {
    RowView {
        position,
        completed: todo.completed,
        description: todo.description,
        date: todo.created_at.minute_text(),
    }
}

/// Whether `line` is `row` as printed: put together as [`row_text`] says,
/// with the mark shown in green if the record is done and in red if not, and
/// the time shown in blue.
pub open spec fn is_rendering(row: RowView, line: Seq<char>) -> bool {
    exists|mark: Seq<char>, date: Seq<char>|
        {
            &&& shows(
                mark,
                if row.completed {
                    Tone::Green
                } else {
                    Tone::Red
                },
                if row.completed {
                    done_mark()
                } else {
                    pending_mark()
                },
            )
            &&& shows(date, Tone::Blue, row.date)
            &&& line == #[trigger] row_text(row.position, mark, row.description, date)
        }
}

impl Row {
    /// The row as it is printed.
    pub fn render(&self) -> (line: String)
        ensures
            is_rendering(self@, line@),
    {
        proof {
            reveal_strlit("\u{2713}");
            reveal_strlit("\u{2717}");
        }
        assert("\u{2713}"@ =~= done_mark());
        assert("\u{2717}"@ =~= pending_mark());
        let mark = if self.completed {
            paint("\u{2713}", Tone::Green)
        } else {
            paint("\u{2717}", Tone::Red)
        };
        let date = paint(self.date.as_str(), Tone::Blue);
        let line = compose_row(
            self.position,
            mark.as_str(),
            self.description.as_str(),
            date.as_str(),
        );
        assert(line@ == row_text(self@.position, mark@, self@.description, date@));
        line
    }
}

/// What is printed in place of an empty list.
pub open spec fn empty_notice() -> Seq<char> {
    "No todos yet! Add some using `todo add <description>`"@
}

/// What is printed once a record has been added.
pub open spec fn added_notice() -> Seq<char> {
    "Todo added!"@
}

/// What is printed once a record has been marked as done.
pub open spec fn done_notice() -> Seq<char> {
    "Todo marked as done!"@
}

/// What is printed once a record has been removed.
pub open spec fn removed_notice() -> Seq<char> {
    "Todo removed!"@
}

/// What is printed where no record has the position asked for.
pub open spec fn not_found_notice() -> Seq<char> {
    "Todo not found!"@
}

/// Whether `lines` is the one line that shows `text` in `tone`.
pub open spec fn is_notice(lines: Seq<String>, tone: Tone, text: Seq<char>) -> bool {
    lines.len() == 1 && shows(lines[0]@, tone, text)
}

/// Whether `lines` is `list` as printed: the notice of the empty list, or
/// one line for each record, in order, with its position counted from one.
pub open spec fn is_listing(list: Seq<TodoView>, lines: Seq<String>) -> bool {
    if list.len() == 0 {
        is_notice(lines, Tone::Yellow, empty_notice())
    } else {
        &&& lines.len() == list.len()
        &&& forall|i: int|
            0 <= i < list.len() ==> is_rendering(row_of((i + 1) as nat, list[i]), #[trigger] lines[i]@)
    }
}

/// The one line that shows `text` in `tone`.
fn notice(text: &str, tone: Tone) -> (lines: Vec<String>)
    ensures
        is_notice(lines@, tone, text@),
{
    let mut lines: Vec<String> = Vec::new();
    lines.push(paint(text, tone));
    lines
}

/// The todo list.
pub struct TodoList {
    todos: Vec<Todo>,
}

impl View for TodoList {
    type V = Seq<TodoView>;

    closed spec fn view(&self) -> Seq<TodoView> {
        views(self.todos@)
    }
}

impl TodoList {
    /// The list that was stored, or the empty list where nothing could be
    /// loaded.
    pub fn new(loaded: Option<Vec<Todo>>) -> (list: TodoList)
        ensures
            list@ == match loaded {
                Some(todos) => views(todos@),
                None => Seq::<TodoView>::empty(),
            },
    {
        let todos = match loaded {
            Some(todos) => todos,
            None => Vec::new(),
        };
        assert(views(Seq::<Todo>::empty()) =~= Seq::<TodoView>::empty());
        TodoList { todos }
    }

    /// The records of the list, in order: what is to be stored.
    pub fn records(&self) -> (todos: &Vec<Todo>)
        ensures
            views(todos@) == self@,
    {
        &self.todos
    }

    /// The number of records.
    pub fn len(&self) -> (len: usize)
        ensures
            len == self@.len(),
    {
        self.todos.len()
    }

    /// Whether the list has no record.
    pub fn is_empty(&self) -> (empty: bool)
        ensures
            empty == (self@.len() == 0),
    {
        self.todos.len() == 0
    }

    /// Puts a record for `description`, made at `created_at` and not yet
    /// done, at the end of the list.
    pub fn add_at(&mut self, description: String, created_at: Timestamp)
        ensures
            final(self)@ == added(old(self)@, description@, created_at),
    {
        self.todos.push(Todo::new(description, created_at));
        assert(self@ =~= added(old(self)@, description@, created_at));
    }

    /// Puts a record for `description`, made now and not yet done, at the
    /// end of the list. Every record that was there stays as it was.
    pub fn add(&mut self, description: String)
        ensures
            final(self)@ == added(
                old(self)@,
                description@,
                final(self)@[old(self)@.len() as int].created_at,
            ),
    {
        let now = Timestamp::now();
        self.add_at(description, now);
    }

    /// Marks the record at position `index` as done and says whether there
    /// was one. Where there was none, the list stays as it was.
    pub fn mark_done(&mut self, index: usize) -> (found: bool)
        ensures
            found == is_position(index, old(self)@.len()),
            found ==> final(self)@ == marked(old(self)@, index as int),
            !found ==> final(self)@ == old(self)@,
    {
        if 1 <= index && index <= self.todos.len() {
            let todo = self.todos.remove(index - 1);
            let done = Todo {
                description: todo.description,
                completed: true,
                created_at: todo.created_at,
            };
            self.todos.insert(index - 1, done);
            assert(self@ =~= marked(old(self)@, index as int));
            true
        } else {
            false
        }
    }

    /// Takes the record at position `index` out of the list and says whether
    /// there was one. Where there was none, the list stays as it was.
    pub fn remove(&mut self, index: usize) -> (found: bool)
        ensures
            found == is_position(index, old(self)@.len()),
            found ==> final(self)@ == removed(old(self)@, index as int),
            !found ==> final(self)@ == old(self)@,
    {
        if 1 <= index && index <= self.todos.len() {
            self.todos.remove(index - 1);
            assert(self@ =~= removed(old(self)@, index as int));
            true
        } else {
            false
        }
    }

    /// The records as the list shows them: each with its position, counted
    /// from one, and its time written to the minute.
    pub fn rows(&self) -> (rows: Vec<Row>)
        ensures
            rows@.len() == self@.len(),
            forall|i: int|
                0 <= i < self@.len() ==> (#[trigger] rows@[i])@ == row_of((i + 1) as nat, self@[i]),
    {
        let mut rows: Vec<Row> = Vec::new();
        let mut i: usize = 0;
        while i < self.todos.len()
            invariant
                i <= self.todos.len(),
                rows@.len() == i,
                forall|j: int|
                    0 <= j < i ==> (#[trigger] rows@[j])@ == row_of((j + 1) as nat, self@[j]),
            decreases self.todos.len() - i,
        {
            let todo = &self.todos[i];
            rows.push(
                Row {
                    position: i + 1,
                    completed: todo.completed,
                    description: todo.description.clone(),
                    date: todo.created_at.to_minute_text(),
                },
            );
            i += 1;
        }
        rows
    }

    /// The list as it is printed: one line for each record, or the notice
    /// that there is none.
    pub fn list(&self) -> (lines: Vec<String>)
        ensures
            is_listing(self@, lines@),
    {
        if self.todos.len() == 0 {
            return notice("No todos yet! Add some using `todo add <description>`", Tone::Yellow);
        }
        let rows = self.rows();
        let mut lines: Vec<String> = Vec::new();
        let mut i: usize = 0;
        while i < rows.len()
            invariant
                i <= rows.len(),
                rows@.len() == self@.len(),
                forall|j: int|
                    0 <= j < self@.len() ==> (#[trigger] rows@[j])@ == row_of(
                        (j + 1) as nat,
                        self@[j],
                    ),
                lines@.len() == i,
                forall|j: int|
                    0 <= j < i ==> is_rendering(
                        row_of((j + 1) as nat, self@[j]),
                        #[trigger] lines@[j]@,
                    ),
            decreases rows.len() - i,
        {
            lines.push(rows[i].render());
            i += 1;
        }
        lines
    }
}

/// What the user asks of the list.
#[derive(Debug, PartialEq, Eq)]
pub enum Command {
    /// Add a record for `description`.
    Add { description: String },
    /// Show the list.
    List,
    /// Mark the record at position `index` as done.
    Done { index: usize },
    /// Remove the record at position `index`.
    Remove { index: usize },
}

/// How a command ended.
#[derive(Clone, Copy, Debug, PartialEq, Eq, Structural)]
pub enum Outcome {
    /// A record was added.
    Added,
    /// The list was shown.
    Listed,
    /// A record was marked as done.
    MarkedDone,
    /// A record was removed.
    Removed,
    /// No record has the position asked for.
    NotFound,
}

impl Outcome {
    /// Whether the command changed the list, so that it has to be stored
    /// again.
    pub open spec fn spec_changes_list(&self) -> bool {
        *self == Outcome::Added || *self == Outcome::MarkedDone || *self == Outcome::Removed
    }

    /// Whether the command changed the list, so that it has to be stored
    /// again.
    #[verifier::when_used_as_spec(spec_changes_list)]
    pub fn changes_list(&self) -> (changes: bool)
        ensures
            changes == self.spec_changes_list(),
    {
        match self {
            Outcome::Added | Outcome::MarkedDone | Outcome::Removed => true,
            Outcome::Listed | Outcome::NotFound => false,
        }
    }
}

/// What a command did: how it ended, and what is to be printed.
#[derive(Debug, PartialEq, Eq)]
pub struct Report {
    pub outcome: Outcome,
    pub lines: Vec<String>,
}

/// Whether `report` is what `command` owes on a list that was `before` and
/// is now `after`.
pub open spec fn is_report_of(
    command: Command,
    before: Seq<TodoView>,
    after: Seq<TodoView>,
    report: Report,
) -> bool {
    match command {
        Command::Add { description } => {
            &&& after == added(before, description@, after[before.len() as int].created_at)
            &&& report.outcome == Outcome::Added
            &&& is_notice(report.lines@, Tone::Green, added_notice())
        },
        Command::List => {
            &&& after == before
            &&& report.outcome == Outcome::Listed
            &&& is_listing(before, report.lines@)
        },
        Command::Done { index } => if is_position(index, before.len()) {
            &&& after == marked(before, index as int)
            &&& report.outcome == Outcome::MarkedDone
            &&& is_notice(report.lines@, Tone::Green, done_notice())
        } else {
            &&& after == before
            &&& report.outcome == Outcome::NotFound
            &&& is_notice(report.lines@, Tone::Red, not_found_notice())
        },
        Command::Remove { index } => if is_position(index, before.len()) {
            &&& after == removed(before, index as int)
            &&& report.outcome == Outcome::Removed
            &&& is_notice(report.lines@, Tone::Green, removed_notice())
        } else {
            &&& after == before
            &&& report.outcome == Outcome::NotFound
            &&& is_notice(report.lines@, Tone::Red, not_found_notice())
        },
    }
}

impl TodoList {
    /// Carries out one command and reports what is to be printed. The list
    /// has to be stored again exactly if the outcome says that it changed.
    pub fn run(&mut self, command: Command) -> (report: Report)
        ensures
            is_report_of(command, old(self)@, final(self)@, report),
    {
        match command {
            Command::Add { description } => {
                self.add(description);
                Report { outcome: Outcome::Added, lines: notice("Todo added!", Tone::Green) }
            },
            Command::List => Report { outcome: Outcome::Listed, lines: self.list() },
            Command::Done { index } => {
                if self.mark_done(index) {
                    Report {
                        outcome: Outcome::MarkedDone,
                        lines: notice("Todo marked as done!", Tone::Green),
                    }
                } else {
                    Report {
                        outcome: Outcome::NotFound,
                        lines: notice("Todo not found!", Tone::Red),
                    }
                }
            },
            Command::Remove { index } => {
                if self.remove(index) {
                    Report { outcome: Outcome::Removed, lines: notice("Todo removed!", Tone::Green) }
                } else {
                    Report {
                        outcome: Outcome::NotFound,
                        lines: notice("Todo not found!", Tone::Red),
                    }
                }
            },
        }
    }
}

/// Adding is appending: the list grows by one, the new record stands last,
/// holds the description and is not done, and every record that was there
/// stays where and as it was.
pub proof fn lemma_add_appends(list: Seq<TodoView>, description: Seq<char>, created_at: Timestamp)
    ensures
        added(list, description, created_at).len() == list.len() + 1,
        added(list, description, created_at).last() == (TodoView {
            description,
            completed: false,
            created_at,
        }),
        forall|i: int|
            0 <= i < list.len() ==> #[trigger] added(list, description, created_at)[i] == list[i],
{
}

/// Marking a record as done touches that record alone, and of it only the
/// flag: its description and its time stay, and so does every other record.
pub proof fn lemma_mark_done_touches_one(list: Seq<TodoView>, position: int)
    requires
        1 <= position <= list.len(),
    ensures
        marked(list, position).len() == list.len(),
        marked(list, position)[position - 1].completed,
        marked(list, position)[position - 1].description == list[position - 1].description,
        marked(list, position)[position - 1].created_at == list[position - 1].created_at,
        forall|i: int|
            0 <= i < list.len() && i != position - 1 ==> #[trigger] marked(list, position)[i]
                == list[i],
{
}

/// Removing a record takes out that record alone: the list shrinks by one,
/// the records before it stay where they were, and each record behind it
/// moves up by one position.
pub proof fn lemma_remove_shifts(list: Seq<TodoView>, position: int)
    requires
        1 <= position <= list.len(),
    ensures
        removed(list, position).len() == list.len() - 1,
        forall|i: int|
            0 <= i < position - 1 ==> #[trigger] removed(list, position)[i] == list[i],
        forall|i: int|
            position - 1 <= i < list.len() - 1 ==> #[trigger] removed(list, position)[i] == list[i
                + 1],
{
}

/// A command that names a position where no record stands (zero, or one
/// past the end, or beyond) is answered with "not found", leaves the list as
/// it was, and leaves nothing to be stored.
pub proof fn lemma_not_found_changes_nothing(
    command: Command,
    before: Seq<TodoView>,
    after: Seq<TodoView>,
    report: Report,
)
    requires
        is_report_of(command, before, after, report),
        match command {
            Command::Done { index } => !is_position(index, before.len()),
            Command::Remove { index } => !is_position(index, before.len()),
            _ => false,
        },
    ensures
        after == before,
        report.outcome == Outcome::NotFound,
        !report.outcome.changes_list(),
        is_notice(report.lines@, Tone::Red, not_found_notice()),
{
}

/// Whether `later` is `earlier` as time may have changed it: the same
/// description, the same time, and done if it was done before.
pub open spec fn continues(earlier: TodoView, later: TodoView) -> bool {
    &&& later.description == earlier.description
    &&& later.created_at == earlier.created_at
    &&& earlier.completed ==> later.completed
}

/// Whether `record` continues some record of `list`.
pub open spec fn has_origin(list: Seq<TodoView>, record: TodoView) -> bool {
    exists|j: int| 0 <= j < list.len() && continues(#[trigger] list[j], record)
}

/// No command rewrites history: but for the record that a command adds,
/// each record of the list afterwards was in the list before, with the
/// description and the time that it has now, and if it was done then it is
/// done now.
pub proof fn lemma_commands_keep_history(
    command: Command,
    before: Seq<TodoView>,
    after: Seq<TodoView>,
    report: Report,
)
    requires
        is_report_of(command, before, after, report),
    ensures
        forall|i: int|
            0 <= i < after.len() && !(command is Add && i == before.len()) ==> has_origin(
                before,
                #[trigger] after[i],
            ),
{
    assert forall|i: int|
        0 <= i < after.len() && !(command is Add && i == before.len()) implies has_origin(
        before,
        #[trigger] after[i],
    ) by {
        match command {
            Command::Remove { index } => {
                if is_position(index, before.len()) && i >= index - 1 {
                    assert(continues(before[i + 1], after[i]));
                } else {
                    assert(continues(before[i], after[i]));
                }
            },
            _ => {
                assert(continues(before[i], after[i]));
            },
        }
    }
}

} // verus!
