//! One report, as it comes off the wire, and the category it names.

use vstd::prelude::*;

verus! {

/// What one interface says of itself: a name that ends in its ordinal, the
/// category it belongs to, and whether it is active.
#[derive(Debug)]
pub struct InterfaceState {
    pub name: String,
    pub interface_type: String,
    pub state: String,
}

/// A report as three runs of characters.
pub struct ReportView {
    pub name: Seq<char>,
    pub interface_type: Seq<char>,
    pub state: Seq<char>,
}

impl View for InterfaceState {
    type V = ReportView;

    open spec fn view(&self) -> ReportView {
        ReportView { name: self.name@, interface_type: self.interface_type@, state: self.state@ }
    }
}

/// The three kinds of interface that the table keeps apart.
#[derive(Debug, Clone, Copy, PartialEq, Eq, Structural)]
pub enum Category {
    Server,
    Publisher,
    Subscriber,
}

/// The category that an `interface_type` text names; none for any text but
/// the three exact words.
pub open spec fn category_of(text: Seq<char>) -> Option<Category> {
    if text == "server"@ {
        Some(Category::Server)
    } else if text == "publisher"@ {
        Some(Category::Publisher)
    } else if text == "subscriber"@ {
        Some(Category::Subscriber)
    } else {
        None
    }
}

impl Category {
    /// Reads a report's `interface_type`.
    pub fn from_text(text: &str) -> (category: Option<Category>)
        ensures
            category == category_of(text@),
    {
        if text.eq("server") {
            Some(Category::Server)
        } else if text.eq("publisher") {
            Some(Category::Publisher)
        } else if text.eq("subscriber") {
            Some(Category::Subscriber)
        } else {
            None
        }
    }
}

impl InterfaceState {
    /// A report made of the three given texts.
    pub fn new(name: &str, interface_type: &str, state: &str) -> (report: InterfaceState)
        ensures
            report@ == (ReportView { name: name@, interface_type: interface_type@, state: state@ }),
    {
        InterfaceState {
            name: name.to_owned(),
            interface_type: interface_type.to_owned(),
            state: state.to_owned(),
        }
    }
}

} // verus!
