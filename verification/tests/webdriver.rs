use tauri_webdriver::webdriver::element::ElementStore;
use tauri_webdriver::webdriver::locator::LocatorStrategy;

#[test]
fn test_store_element() {
    let mut store = ElementStore::new();
    let elem = store.store();

    assert!(!elem.id.is_empty());
    assert_eq!(elem.js_ref, "__wd_el_0");
    assert_eq!(store.count(), 1);
}

#[test]
fn test_get_element() {
    let mut store = ElementStore::new();
    let elem = store.store();
    let id = elem.id.clone();

    let retrieved = store.get(&id);
    assert!(retrieved.is_some());
    assert_eq!(retrieved.unwrap().id, id);
}

#[test]
fn test_clear_elements() {
    let mut store = ElementStore::new();
    store.store();
    store.store();

    assert_eq!(store.count(), 2);
    store.clear();
    assert_eq!(store.count(), 0);

    // Counter should not reset
    let elem = store.store();
    assert_eq!(elem.js_ref, "__wd_el_2");
}

#[test]
fn test_parse_strategy() {
    assert_eq!(
        LocatorStrategy::from_string("css selector"),
        Some(LocatorStrategy::CssSelector)
    );
    assert_eq!(
        LocatorStrategy::from_string("xpath"),
        Some(LocatorStrategy::XPath)
    );
    assert_eq!(LocatorStrategy::from_string("unknown"), None);
}

#[test]
fn test_css_selector_js() {
    let strategy = LocatorStrategy::CssSelector;
    let js = strategy.to_find_js("#my-button", false, "__wd_el_0");

    assert!(js.contains("querySelector"));
    assert!(js.contains("#my-button"));
    assert!(js.contains("__wd_el_0"));
}

#[test]
fn test_xpath_js() {
    let strategy = LocatorStrategy::XPath;
    let js = strategy.to_find_js("//div[@id='test']", false, "__wd_el_1");

    assert!(js.contains("document.evaluate"));
    assert!(js.contains("//div[@id='test']"));
}

#[test]
fn test_escaping() {
    let strategy = LocatorStrategy::CssSelector;
    let js = strategy.to_find_js("div[data-value='test']", false, "__wd_el_0");

    assert!(js.contains("div[data-value=\\'test\\']"));
}
