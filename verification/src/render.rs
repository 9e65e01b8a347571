//! What the dashboard shows of a table: three columns of labelled, coloured
//! slots and a help bar. Drawing it is the caller's work.

use vstd::prelude::*;
use crate::activity::State;
use crate::report::Category;
use crate::table::{App, AppView};
use crate::text::{label, label_of};

verus! {

/// The height of the help bar, in lines; the columns take the rest.
pub const HELP_HEIGHT: u16 = 3;

/// The colour of a slot.
#[derive(Debug, Clone, Copy, PartialEq, Eq, Structural)]
pub enum Color {
    Green,
    Red,
}

/// One slot as shown.
#[derive(Debug)]
pub struct Row {
    pub label: String,
    pub color: Color,
}

/// One category as shown.
#[derive(Debug)]
pub struct Column {
    pub title: String,
    /// The share of the screen's width that the column takes, in percent.
    pub width_percent: u16,
    pub rows: Vec<Row>,
}

/// Everything one frame shows.
#[derive(Debug)]
pub struct Screen {
    pub servers: Column,
    pub publishers: Column,
    pub subscribers: Column,
    pub help_title: String,
    pub help: String,
}

pub struct RowView {
    pub label: Seq<char>,
    pub color: Color,
}

pub struct ColumnView {
    pub title: Seq<char>,
    pub width_percent: u16,
    pub rows: Seq<RowView>,
}

pub struct ScreenView {
    pub servers: ColumnView,
    pub publishers: ColumnView,
    pub subscribers: ColumnView,
    pub help_title: Seq<char>,
    pub help: Seq<char>,
}

impl View for Row {
    type V = RowView;

    open spec fn view(&self) -> RowView {
        RowView { label: self.label@, color: self.color }
    }
}

impl View for Column {
    type V = ColumnView;

    open spec fn view(&self) -> ColumnView {
        ColumnView {
            title: self.title@,
            width_percent: self.width_percent,
            rows: Seq::new(self.rows@.len(), |i: int| self.rows@[i]@),
        }
    }
}

impl View for Screen {
    type V = ScreenView;

    open spec fn view(&self) -> ScreenView {
        ScreenView {
            servers: self.servers@,
            publishers: self.publishers@,
            subscribers: self.subscribers@,
            help_title: self.help_title@,
            help: self.help@,
        }
    }
}

/// Green for an active interface, red for an inactive one.
pub open spec fn color_of(state: State) -> Color {
    match state {
        State::Active => Color::Green,
        State::Inactive => Color::Red,
    }
}

/// The title over a category's column.
pub open spec fn title_of(category: Category) -> Seq<char> {
    match category {
        Category::Server => "Server"@,
        Category::Publisher => "Publisher"@,
        Category::Subscriber => "Subscriber"@,
    }
}

/// The width of a category's column, in percent of the screen.
pub open spec fn width_of(category: Category) -> u16 {
    match category {
        Category::Server => 33,
        Category::Publisher => 33,
        Category::Subscriber => 34,
    }
}

/// The column of a category: one row for each slot, in order, labelled with
/// the title and the slot's ordinal and coloured by its state.
pub open spec fn column_of(category: Category, slots: Seq<State>) -> ColumnView {
    ColumnView {
        title: title_of(category),
        width_percent: width_of(category),
        rows: Seq::new(
            slots.len(),
            |i: int|
                RowView {
                    label: label_of(title_of(category), (i + 1) as nat),
                    color: color_of(slots[i]),
                },
        ),
    }
}

/// The frame that shows a table.
pub open spec fn screen_of(table: AppView) -> ScreenView {
    ScreenView {
        servers: column_of(Category::Server, table.server_states),
        publishers: column_of(Category::Publisher, table.publisher_states),
        subscribers: column_of(Category::Subscriber, table.subscriber_states),
        help_title: "Help"@,
        help: "q - quit"@,
    }
}

/// The three columns fill the width of the screen.
pub proof fn lemma_columns_fill_the_width()
    ensures
        width_of(Category::Server) + width_of(Category::Publisher) + width_of(
            Category::Subscriber,
        ) == 100,
{
}

/// A frame has one row for each slot of the table, and none besides.
pub proof fn lemma_screen_has_a_row_for_each_slot(table: AppView)
    ensures
        screen_of(table).servers.rows.len() == table.server_states.len(),
        screen_of(table).publishers.rows.len() == table.publisher_states.len(),
        screen_of(table).subscribers.rows.len() == table.subscriber_states.len(),
{
}

/// The colour of a slot.
pub fn color(state: State) -> (color: Color)
    ensures
        color == color_of(state),
{
    match state {
        State::Active => Color::Green,
        State::Inactive => Color::Red,
    }
}

/// The title over a category's column.
pub fn title(category: Category) -> (title: &'static str)
    ensures
        title@ == title_of(category),
{
    match category {
        Category::Server => "Server",
        Category::Publisher => "Publisher",
        Category::Subscriber => "Subscriber",
    }
}

/// The width of a category's column, in percent of the screen.
pub fn width(category: Category) -> (percent: u16)
    ensures
        percent == width_of(category),
{
    match category {
        Category::Server => 33,
        Category::Publisher => 33,
        Category::Subscriber => 34,
    }
}

/// Lays out the column of one category.
pub fn category_column(category: Category, slots: &Vec<State>) -> (column: Column)
    ensures
        column@ == column_of(category, slots@),
{
    let heading = title(category);
    let mut rows: Vec<Row> = Vec::new();
    let mut i: usize = 0;
    while i < slots.len()
        invariant
            i <= slots.len(),
            heading@ == title_of(category),
            rows.len() == i,
            forall|j: int|
                0 <= j < i ==> (#[trigger] rows[j])@ == (RowView {
                    label: label_of(title_of(category), (j + 1) as nat),
                    color: color_of(slots[j]),
                }),
        decreases slots.len() - i,
    {
        rows.push(Row { label: label(heading, i + 1), color: color(slots[i]) });
        i = i + 1;
    }
    let column = Column { title: heading.to_owned(), width_percent: width(category), rows };
    assert(column@.rows =~= column_of(category, slots@).rows);
    column
}

/// Lays out the frame that shows `app`.
pub fn screen(app: &App) -> (screen: Screen)
    ensures
        screen@ == screen_of(app@),
{
    Screen {
        servers: category_column(Category::Server, &app.server_states),
        publishers: category_column(Category::Publisher, &app.publisher_states),
        subscribers: category_column(Category::Subscriber, &app.subscriber_states),
        help_title: "Help".to_owned(),
        help: "q - quit".to_owned(),
    }
}

} // verus!
