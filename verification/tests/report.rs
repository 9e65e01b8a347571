use interface_monitor::report::{Category, InterfaceState};

#[test]
fn category_words_are_matched_exactly() {
    assert_eq!(Category::from_text("server"), Some(Category::Server));
    assert_eq!(Category::from_text("publisher"), Some(Category::Publisher));
    assert_eq!(Category::from_text("subscriber"), Some(Category::Subscriber));
    assert_eq!(Category::from_text("Server"), None);
    assert_eq!(Category::from_text("servers"), None);
    assert_eq!(Category::from_text(" server"), None);
    assert_eq!(Category::from_text(""), None);
    assert_eq!(Category::from_text("client"), None);
}

#[test]
fn report_keeps_its_three_texts() {
    let report = InterfaceState::new("server 3", "server", "Active");
    assert_eq!(report.name, "server 3");
    assert_eq!(report.interface_type, "server");
    assert_eq!(report.state, "Active");
}
