//! Plain tables: rows of cells under column titles, as lines of text.
//!
//! Every column is as wide as its widest cell, its title included. Lengths
//! are counted in characters. A row that is short of cells is filled with
//! empty ones; cells beyond the last column are not shown.

use vstd::prelude::*;
use vstd::string::*;
use crate::instant::{formatted_text, DATE_PATTERN};
use crate::models::{names, priority_name, task_status_name, texts, TableRow};
use crate::render::{
    blank_run, colored, dash_run, format_string_with_color, repeated, spaces, Color,
};
use crate::task::{Task, TaskModel};
use crate::text::{decimal, decimal_string, text_or};

verus! {

/// The cells of a table as mathematical values, row by row.
pub open spec fn grid(rows: Seq<Vec<String>>) -> Seq<Seq<Seq<char>>> {
    rows.map_values(|r: Vec<String>| texts(r@))
}

/// The cell of a row in a column; empty where the row has none there.
pub open spec fn cell_at(row: Seq<Seq<char>>, col: int) -> Seq<char> {
    if 0 <= col < row.len() {
        row[col]
    } else {
        Seq::empty()
    }
}

/// The length of the longest cell of a column, and at least `floor`.
pub open spec fn widest(rows: Seq<Seq<Seq<char>>>, col: int, floor: nat) -> nat
    decreases rows.len(),
{
    if rows.len() == 0 {
        floor
    } else {
        let before = widest(rows.drop_last(), col, floor);
        let here = cell_at(rows.last(), col).len();
        if here > before {
            here
        } else {
            before
        }
    }
}

/// The width of each column: that of its widest cell or of its title.
pub open spec fn column_widths(headers: Seq<Seq<char>>, rows: Seq<Seq<Seq<char>>>) -> Seq<nat> {
    Seq::new(headers.len(), |c: int| widest(rows, c, headers[c].len()))
}

/// A cell filled up with spaces behind it to a width.
pub open spec fn padded(cell: Seq<char>, width: nat) -> Seq<char> {
    if cell.len() >= width {
        cell
    } else {
        cell + spaces((width - cell.len()) as nat)
    }
}

/// The first `upto` cells of a row, each padded and followed by a bar.
pub open spec fn cells_text(row: Seq<Seq<char>>, widths: Seq<nat>, upto: int) -> Seq<char>
    decreases upto,
{
    if upto <= 0 {
        Seq::empty()
    } else {
        cells_text(row, widths, upto - 1) + padded(cell_at(row, upto - 1), widths[upto - 1])
            + " | "@
    }
}

/// The line of one row.
pub open spec fn row_line(row: Seq<Seq<char>>, widths: Seq<nat>) -> Seq<char> {
    "| "@ + cells_text(row, widths, widths.len() as int)
}

/// The first `upto` columns of the rule below the titles.
pub open spec fn rule_text(widths: Seq<nat>, upto: int) -> Seq<char>
    decreases upto,
{
    if upto <= 0 {
        Seq::empty()
    } else {
        rule_text(widths, upto - 1) + "-"@ + repeated('-', widths[upto - 1]) + "-|"@
    }
}

/// The rule below the titles.
pub open spec fn rule_line(widths: Seq<nat>) -> Seq<char> {
    "|"@ + rule_text(widths, widths.len() as int)
}

/// The lines of a table: the titles, the rule, then one line for each row.
pub open spec fn table_lines(headers: Seq<Seq<char>>, rows: Seq<Seq<Seq<char>>>) -> Seq<Seq<char>> {
    seq![
        row_line(headers, column_widths(headers, rows)),
        rule_line(column_widths(headers, rows)),
    ] + Seq::new(rows.len(), |r: int| row_line(rows[r], column_widths(headers, rows)))
}

/// The widths as natural numbers.
pub open spec fn as_nats(widths: Seq<usize>) -> Seq<nat> {
    widths.map_values(|w: usize| w as nat)
}

fn column_width(header: &str, rows: &Vec<Vec<String>>, col: usize) -> (width: usize)
    ensures
        width == widest(grid(rows@), col as int, header@.len()),
{
    let mut width = header.unicode_len();
    let mut r: usize = 0;
    while r < rows.len()
        invariant
            r <= rows.len(),
            width == widest(grid(rows@).subrange(0, r as int), col as int, header@.len()),
        decreases rows.len() - r,
    {
        let row = &rows[r];
        let here = if col < row.len() {
            row[col].as_str().unicode_len()
        } else {
            0
        };
        proof {
            let grown = grid(rows@).subrange(0, r + 1);
            assert(grown.drop_last() =~= grid(rows@).subrange(0, r as int));
        }
        if here > width {
            width = here;
        }
        r += 1;
    }
    assert(grid(rows@).subrange(0, r as int) =~= grid(rows@));
    width
}

fn widths_of(headers: &Vec<&'static str>, rows: &Vec<Vec<String>>) -> (widths: Vec<usize>)
    ensures
        as_nats(widths@) == column_widths(names(headers@), grid(rows@)),
{
    let mut widths: Vec<usize> = Vec::new();
    let mut c: usize = 0;
    while c < headers.len()
        invariant
            c <= headers.len(),
            widths@.len() == c,
            forall|i: int|
                0 <= i < c ==> widths@[i] == widest(
                    grid(rows@),
                    i,
                    #[trigger] names(headers@)[i].len(),
                ),
        decreases headers.len() - c,
    {
        let width = column_width(headers[c], rows, c);
        widths.push(width);
        c += 1;
    }
    widths
}

fn pad(cell: &str, width: usize) -> (s: String)
    ensures
        s@ == padded(cell@, width as nat),
{
    let length = cell.unicode_len();
    if length >= width {
        String::from_str(cell)
    } else {
        String::from_str(cell).concat(blank_run(width - length).as_str())
    }
}

fn line_of_names(row: &Vec<&'static str>, widths: &Vec<usize>) -> (line: String)
    ensures
        line@ == row_line(names(row@), as_nats(widths@)),
{
    let mut line = String::from_str("| ");
    let mut c: usize = 0;
    while c < widths.len()
        invariant
            c <= widths.len(),
            line@ == "| "@ + cells_text(names(row@), as_nats(widths@), c as int),
        decreases widths.len() - c,
    {
        let cell = if c < row.len() {
            pad(row[c], widths[c])
        } else {
            pad("", widths[c])
        };
        proof {
            reveal_strlit("");
        }
        line = line.concat(cell.as_str()).concat(" | ");
        c += 1;
    }
    line
}

fn line_of_texts(row: &Vec<String>, widths: &Vec<usize>) -> (line: String)
    ensures
        line@ == row_line(texts(row@), as_nats(widths@)),
{
    let mut line = String::from_str("| ");
    let mut c: usize = 0;
    while c < widths.len()
        invariant
            c <= widths.len(),
            line@ == "| "@ + cells_text(texts(row@), as_nats(widths@), c as int),
        decreases widths.len() - c,
    {
        let cell = if c < row.len() {
            pad(row[c].as_str(), widths[c])
        } else {
            pad("", widths[c])
        };
        proof {
            reveal_strlit("");
        }
        line = line.concat(cell.as_str()).concat(" | ");
        c += 1;
    }
    line
}

fn rule_of(widths: &Vec<usize>) -> (line: String)
    ensures
        line@ == rule_line(as_nats(widths@)),
{
    let mut line = String::from_str("|");
    let mut c: usize = 0;
    while c < widths.len()
        invariant
            c <= widths.len(),
            line@ == "|"@ + rule_text(as_nats(widths@), c as int),
        decreases widths.len() - c,
    {
        let dashes = dash_run(widths[c]);
        line = line.concat("-").concat(dashes.as_str()).concat("-|");
        c += 1;
    }
    line
}

/// Lays a table out as lines of text.
pub fn print_tables(headers: &Vec<&'static str>, rows: &Vec<Vec<String>>) -> (lines: Vec<String>)
    ensures
        texts(lines@) == table_lines(names(headers@), grid(rows@)),
{
    let widths = widths_of(headers, rows);
    let mut lines: Vec<String> = Vec::new();
    lines.push(line_of_names(headers, &widths));
    lines.push(rule_of(&widths));
    let ghost all = column_widths(names(headers@), grid(rows@));
    let mut r: usize = 0;
    while r < rows.len()
        invariant
            r <= rows.len(),
            all == column_widths(names(headers@), grid(rows@)),
            all == as_nats(widths@),
            lines@.len() == r + 2,
            texts(lines@)[0] == row_line(names(headers@), all),
            texts(lines@)[1] == rule_line(all),
            forall|i: int| 0 <= i < r ==> #[trigger] texts(lines@)[i + 2] == row_line(grid(rows@)[i], all),
        decreases rows.len() - r,
    {
        let ghost before = lines@;
        lines.push(line_of_texts(&rows[r], &widths));
        proof {
            assert forall|i: int| 0 <= i < r + 1 implies #[trigger] texts(lines@)[i + 2]
                == row_line(grid(rows@)[i], all) by {
                if i < r {
                    assert(texts(lines@)[i + 2] == texts(before)[i + 2]);
                }
            }
        }
        r += 1;
    }
    proof {
        let wanted = table_lines(names(headers@), grid(rows@));
        assert forall|k: int| 0 <= k < wanted.len() implies texts(lines@)[k] == wanted[k] by {
            if k >= 2 {
                let i = k - 2;
                assert(texts(lines@)[i + 2] == row_line(grid(rows@)[i], all));
            }
        }
    }
    lines
}

/// The column titles of the plain table of tasks.
pub open spec fn plain_task_headers() -> Seq<Seq<char>> {
    seq!["id"@, "title"@, "status"@, "due_date"@, "priority"@, "category"@]
}

/// The cells of a task in the plain table, where `due` is the text of its
/// due date.
pub open spec fn plain_task_row(t: TaskModel, due: Seq<char>) -> Seq<Seq<char>> {
    seq![
        decimal(t.id as nat),
        t.title,
        task_status_name(t.status),
        due,
        priority_name(t.priority),
        match t.category {
            Some(c) => c,
            None => Seq::empty(),
        },
    ]
}

/// The cells of the plain table of some tasks.
pub open spec fn plain_task_rows(tasks: Seq<Task>) -> Seq<Seq<Seq<char>>> {
    tasks.map_values(
        |t: Task|
            plain_task_row(
                t@,
                formatted_text(t@.due.seconds as i64, t@.due.offset as i32, DATE_PATTERN@),
            ),
    )
}

/// The text that stands for an empty listing.
pub const NOT_FOUND: &'static str = "NOT_FOUND";

/// Lays out the plain table of some tasks. An empty listing has no table:
/// it is answered with `NOT_FOUND` in red.
pub fn print_tasks_table(tasks: &Vec<Task>) -> (r: Result<Vec<String>, String>)
    ensures
        r is Ok <==> tasks@.len() > 0,
        r matches Ok(lines) ==> texts(lines@) == table_lines(
            plain_task_headers(),
            plain_task_rows(tasks@),
        ),
        r matches Err(m) ==> m@ == colored(NOT_FOUND@, Color::Red),
{
    if tasks.len() == 0 {
        return Err(format_string_with_color(NOT_FOUND, Color::Red));
    }
    let headers = vec!["id", "title", "status", "due_date", "priority", "category"];
    assert(names(headers@) =~= plain_task_headers());
    let mut rows: Vec<Vec<String>> = Vec::new();
    let mut i: usize = 0;
    while i < tasks.len()
        invariant
            i <= tasks.len(),
            rows@.len() == i,
            forall|j: int| 0 <= j < i ==> #[trigger] grid(rows@)[j] == plain_task_rows(tasks@)[j],
        decreases tasks.len() - i,
    {
        let task = &tasks[i];
        let row = vec![
            decimal_string(task.id),
            task.title.clone(),
            String::from_str(task.status.name()),
            task.due_date.format_date(),
            String::from_str(task.priority.name()),
            text_or(&task.category, ""),
        ];
        proof {
            reveal_strlit("");
            assert(""@ =~= Seq::<char>::empty());
        }
        let ghost before = rows@;
        rows.push(row);
        proof {
            assert forall|j: int| 0 <= j < i + 1 implies #[trigger] grid(rows@)[j]
                == plain_task_rows(tasks@)[j] by {
                if j < i {
                    assert(grid(before)[j] == plain_task_rows(tasks@)[j]);
                }
            }
        }
        i += 1;
    }
    assert(grid(rows@) =~= plain_task_rows(tasks@));
    Ok(print_tables(&headers, &rows))
}

/// The cells of some rows, one row for each item.
pub open spec fn rows_of<T: TableRow>(items: Seq<T>) -> Seq<Seq<Seq<char>>> {
    items.map_values(|item: T| item.row_cells())
}

/// Lays out the table of some items of one kind, under the column titles
/// of the first. An empty listing has no table: it is answered with
/// `NOT_FOUND` in red.
pub fn print_rows<T: TableRow>(items: &Vec<T>) -> (r: Result<Vec<String>, String>)
    ensures
        r is Ok <==> items@.len() > 0,
        r matches Ok(lines) ==> texts(lines@) == table_lines(
            items@[0].header_cells(),
            rows_of(items@),
        ),
        r matches Err(m) ==> m@ == colored(NOT_FOUND@, Color::Red),
{
    if items.len() == 0 {
        return Err(format_string_with_color(NOT_FOUND, Color::Red));
    }
    let headers = items[0].headers();
    let mut rows: Vec<Vec<String>> = Vec::new();
    let mut i: usize = 0;
    while i < items.len()
        invariant
            i <= items.len(),
            rows@.len() == i,
            forall|j: int| 0 <= j < i ==> #[trigger] grid(rows@)[j] == rows_of(items@)[j],
        decreases items.len() - i,
    {
        let row = items[i].row();
        let ghost before = rows@;
        rows.push(row);
        proof {
            assert forall|j: int| 0 <= j < i + 1 implies #[trigger] grid(rows@)[j] == rows_of(
                items@,
            )[j] by {
                if j < i {
                    assert(grid(before)[j] == rows_of(items@)[j]);
                }
            }
        }
        i += 1;
    }
    assert(grid(rows@) =~= rows_of(items@));
    Ok(print_tables(&headers, &rows))
}

} // verus!
