//! The status table: one row of slots for each category, indexed by ordinal.

use vstd::prelude::*;
use crate::activity::{state_of_text, State};
use crate::report::{category_of, Category, InterfaceState, ReportView};
use crate::text::{ordinal, ordinal_of};

verus! {

/// The table that the dashboard shows. Slot `i` of a row belongs to the
/// interface with ordinal `i + 1`.
#[derive(Debug)]
pub struct App {
    pub server_states: Vec<State>,
    pub publisher_states: Vec<State>,
    pub subscriber_states: Vec<State>,
}

/// A table as three sequences of slots.
pub struct AppView {
    pub server_states: Seq<State>,
    pub publisher_states: Seq<State>,
    pub subscriber_states: Seq<State>,
}

impl View for App {
    type V = AppView;

    open spec fn view(&self) -> AppView {
        AppView {
            server_states: self.server_states@,
            publisher_states: self.publisher_states@,
            subscriber_states: self.subscriber_states@,
        }
    }
}

/// A row made at least `len` long: what it lacks is added as `Inactive`.
pub open spec fn grown(slots: Seq<State>, len: nat) -> Seq<State> {
    if len > slots.len() {
        slots + Seq::new((len - slots.len()) as nat, |i: int| State::Inactive)
    } else {
        slots
    }
}

/// A row after the interface with `ordinal` reported `state`. Ordinal 0 names
/// no slot and changes nothing.
pub open spec fn placed(slots: Seq<State>, ordinal: nat, state: State) -> Seq<State> {
    if ordinal == 0 {
        slots
    } else {
        grown(slots, ordinal).update(ordinal - 1, state)
    }
}

/// A row after a report under `name`: the name's ordinal decides the slot, and
/// a name without one changes nothing.
pub open spec fn row_after(slots: Seq<State>, name: Seq<char>, state: State) -> Seq<State> {
    match ordinal_of(name) {
        Some(k) => placed(slots, k as nat, state),
        None => slots,
    }
}

impl AppView {
    /// The table with no slot in any row.
    pub open spec fn empty() -> AppView {
        AppView {
            server_states: Seq::empty(),
            publisher_states: Seq::empty(),
            subscriber_states: Seq::empty(),
        }
    }

    /// The row of one category.
    pub open spec fn row(self, category: Category) -> Seq<State> {
        match category {
            Category::Server => self.server_states,
            Category::Publisher => self.publisher_states,
            Category::Subscriber => self.subscriber_states,
        }
    }

    /// The table with one row replaced.
    pub open spec fn with_row(self, category: Category, slots: Seq<State>) -> AppView {
        match category {
            Category::Server => AppView { server_states: slots, ..self },
            Category::Publisher => AppView { publisher_states: slots, ..self },
            Category::Subscriber => AppView { subscriber_states: slots, ..self },
        }
    }

    /// The table after one report: the row of the report's category takes the
    /// report; a report of no known category changes nothing.
    pub open spec fn after(self, report: ReportView) -> AppView {
        match category_of(report.interface_type) {
            Some(category) => self.with_row(
                category,
                row_after(self.row(category), report.name, state_of_text(report.state)),
            ),
            None => self,
        }
    }

    /// The table after a run of reports, applied in the order given.
    pub open spec fn after_all(self, reports: Seq<ReportView>) -> AppView
        decreases reports.len(),
    {
        if reports.len() == 0 {
            self
        } else {
            self.after_all(reports.drop_last()).after(reports.last())
        }
    }
}

/// The ordinal under which `report` speaks for `category`: 0 where it is of
/// another category, or of none, or carries no ordinal.
pub open spec fn ordinal_in(report: ReportView, category: Category) -> nat {
    if category_of(report.interface_type) == Some(category) {
        match ordinal_of(report.name) {
            Some(k) => k as nat,
            None => 0,
        }
    } else {
        0
    }
}

/// The highest ordinal under which any of `reports` speaks for `category`,
/// 0 if none does.
pub open spec fn highest_ordinal(reports: Seq<ReportView>, category: Category) -> nat
    decreases reports.len(),
{
    if reports.len() == 0 {
        0
    } else {
        let before = highest_ordinal(reports.drop_last(), category);
        let last = ordinal_in(reports.last(), category);
        if last > before {
            last
        } else {
            before
        }
    }
}

/// A report that names no category, carries no ordinal, or carries ordinal 0
/// leaves the table as it was.
pub proof fn lemma_unusable_report_changes_nothing(table: AppView, report: ReportView)
    requires
        category_of(report.interface_type) is None || ordinal_of(report.name) is None
            || ordinal_of(report.name) == Some(0usize),
    ensures
        table.after(report) == table,
{
}

/// A report changes nothing in a category it does not speak for.
pub proof fn lemma_other_rows_keep(table: AppView, report: ReportView, category: Category)
    requires
        ordinal_in(report, category) == 0,
    ensures
        table.after(report).row(category) == table.row(category),
{
}

/// A report with ordinal `k` for a category makes that category's row at
/// least `k` long and no longer than that or its old length, and writes the
/// reported state into slot `k - 1`.
pub proof fn lemma_report_lands(table: AppView, report: ReportView, category: Category)
    requires
        ordinal_in(report, category) > 0,
    ensures
        ({
            let k = ordinal_in(report, category);
            let old_row = table.row(category);
            let new_row = table.after(report).row(category);
            &&& new_row.len() == if k > old_row.len() { k } else { old_row.len() }
            &&& new_row[k - 1] == state_of_text(report.state)
        }),
{
}

/// Applying a report a second time changes nothing more.
pub proof fn lemma_update_is_idempotent(table: AppView, report: ReportView)
    ensures
        table.after(report).after(report) == table.after(report),
{
    match category_of(report.interface_type) {
        Some(category) => {
            let state = state_of_text(report.state);
            let once = row_after(table.row(category), report.name, state);
            assert(row_after(once, report.name, state) =~= once);
        },
        None => {},
    }
}

/// A report with ordinal `k` overwrites slot `k - 1` of its category and no
/// other: every slot that was there, in any row, but that one keeps its state.
pub proof fn lemma_update_keeps_other_slots(
    table: AppView,
    report: ReportView,
    category: Category,
    i: int,
)
    requires
        0 <= i < table.row(category).len(),
        ordinal_in(report, category) != i + 1,
    ensures
        i < table.after(report).row(category).len(),
        table.after(report).row(category)[i] == table.row(category)[i],
{
}

/// A row that a report makes longer gets `Inactive` in every new slot but the
/// reported one.
pub proof fn lemma_new_slots_are_inactive(
    table: AppView,
    report: ReportView,
    category: Category,
    i: int,
)
    requires
        table.row(category).len() <= i < table.after(report).row(category).len(),
        ordinal_in(report, category) != i + 1,
    ensures
        table.after(report).row(category)[i] == State::Inactive,
{
}

/// A row never gets shorter.
pub proof fn lemma_rows_never_shrink(table: AppView, report: ReportView, category: Category)
    ensures
        table.after(report).row(category).len() >= table.row(category).len(),
{
}

/// After a run of reports each row is as long as the highest ordinal reported
/// for its category, or as long as it was before if that was longer.
pub proof fn lemma_row_length_is_highest_ordinal(
    table: AppView,
    reports: Seq<ReportView>,
    category: Category,
)
    ensures
        table.after_all(reports).row(category).len() == if highest_ordinal(reports, category)
            > table.row(category).len() {
            highest_ordinal(reports, category)
        } else {
            table.row(category).len()
        },
    decreases reports.len(),
{
    if reports.len() > 0 {
        lemma_row_length_is_highest_ordinal(table, reports.drop_last(), category);
        let before = table.after_all(reports.drop_last());
        if ordinal_in(reports.last(), category) > 0 {
            lemma_report_lands(before, reports.last(), category);
        } else {
            lemma_other_rows_keep(before, reports.last(), category);
        }
    }
}

/// Starting from the empty table, each row ends exactly as long as the
/// highest ordinal reported for its category, and empty if there was none.
pub proof fn lemma_row_length_from_empty(reports: Seq<ReportView>, category: Category)
    ensures
        AppView::empty().after_all(reports).row(category).len() == highest_ordinal(
            reports,
            category,
        ),
{
    lemma_row_length_is_highest_ordinal(AppView::empty(), reports, category);
}

impl Clone for App {
    /// A copy with the same slots in every row.
    fn clone(&self) -> (copy: App)
        ensures
            copy@ == self@,
    {
        self.snapshot()
    }
}

impl Default for App {
    /// The empty table.
    fn default() -> (app: App)
        ensures
            app@ == AppView::empty(),
    {
        App::new()
    }
}

impl App {
    /// The table before any report: every row is empty.
    pub fn new() -> (app: App)
        ensures
            app@ == AppView::empty(),
    {
        App {
            server_states: Vec::new(),
            publisher_states: Vec::new(),
            subscriber_states: Vec::new(),
        }
    }

    /// A copy of the table that later updates do not touch.
    pub fn snapshot(&self) -> (copy: App)
        ensures
            copy@ == self@,
    {
        App {
            server_states: self.server_states.clone(),
            publisher_states: self.publisher_states.clone(),
            subscriber_states: self.subscriber_states.clone(),
        }
    }

    /// Writes `state` into the slot that the ordinal in `name` names, growing
    /// the row with `Inactive` slots where it is too short. A name without an
    /// ordinal, or with ordinal 0, leaves the row as it is.
    pub fn update_specific_state(mut states: Vec<State>, name: &str, state: State) -> (row: Vec<
        State,
    >)
        ensures
            row@ == row_after(states@, name@, state),
            ordinal_of(name@) is None || ordinal_of(name@) == Some(0usize) ==> row@ == states@,
            ordinal_of(name@) matches Some(k) ==> k > 0 ==> {
                &&& row.len() == if k > states.len() { k } else { states.len() }
                &&& row[k - 1] == state
                &&& forall|i: int|
                    0 <= i < row.len() && i != k - 1 ==> #[trigger] row[i] == if i < states.len() {
                        states[i]
                    } else {
                        State::Inactive
                    }
            },
    {
        if let Some(pos) = ordinal(name) {
            if pos > 0 {
                if pos > states.len() {
                    states.resize(pos, State::Inactive);
                }
                states[pos - 1] = state;
            }
        }
        states
    }

    /// Applies one report to the table.
    pub fn update_state(self, interface: InterfaceState) -> (app: App)
        ensures
            app@ == self@.after(interface@),
            category_of(interface.interface_type@) is None ==> app@ == self@,
            forall|category: Category|
                ordinal_in(interface@, category) == 0 ==> #[trigger] app@.row(category)
                    == self@.row(category),
            forall|category: Category|
                ordinal_in(interface@, category) > 0 ==> {
                    &&& (#[trigger] app@.row(category)).len() >= self@.row(category).len()
                    &&& app@.row(category).len() >= ordinal_in(interface@, category)
                    &&& app@.row(category)[ordinal_in(interface@, category) - 1] == state_of_text(
                        interface.state@,
                    )
                },
    {
        let state = State::from_text(interface.state.as_str());
        let mut new_app = self;
        match Category::from_text(interface.interface_type.as_str()) {
            Some(Category::Server) => {
                new_app.server_states =
                App::update_specific_state(new_app.server_states, interface.name.as_str(), state);
            },
            Some(Category::Publisher) => {
                new_app.publisher_states =
                App::update_specific_state(
                    new_app.publisher_states,
                    interface.name.as_str(),
                    state,
                );
            },
            Some(Category::Subscriber) => {
                new_app.subscriber_states =
                App::update_specific_state(
                    new_app.subscriber_states,
                    interface.name.as_str(),
                    state,
                );
            },
            None => {},
        }
        new_app
    }
}

} // verus!
