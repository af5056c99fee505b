use assistant_rs::pages::{page_at, AssistantPage, PAGE_COUNT};

#[test]
fn next_then_previous_returns_to_start() {
    for idx in 0..PAGE_COUNT {
        let page = page_at(idx);
        assert_eq!(page.next().previous(), page);
        assert_eq!(page.previous().next(), page);
    }
}

#[test]
fn home_is_first_page() {
    assert_eq!(page_at(0), AssistantPage::Home);
    assert_eq!(AssistantPage::Home.index(), 0);
    assert_eq!(AssistantPage::count(), PAGE_COUNT);
}
