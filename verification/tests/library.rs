use tauri_webdriver::async_script::async_outcome;
use tauri_webdriver::id_map::IdMap;
use tauri_webdriver::platform::executor::{
    alert_error, attribute_from_reply, capture_result, extract_bool_value, extract_string_value,
    extract_usize_value, extract_value, find_cookie, pointer_buttons_value,
    pointer_event_name_str, prompt_error, script_result, touch_type_str, Cookie, ModifierState,
    PointerEventType, ReplyValue, ScriptReply, WaitOutcome,
};
use tauri_webdriver::platform::arguments::{
    android_async_script_request, execute_async_script_request, execute_script_request,
    macos_async_script_request, new_async_id,
};
use tauri_webdriver::platform::json_reply::webview_reply_value;
use tauri_webdriver::platform::keys::{key_code_name, key_event_script, special_key_info};
use tauri_webdriver::platform::native::{classify_native_value, png_payload, NativeValueKind};
use tauri_webdriver::platform::scripts::{
    add_cookie_script, cookie_string, delete_cookie_script, element_attribute_script,
    execute_async_script_source, execute_script_source, find_element_script, frame_index_script, navigate_script,
    pointer_event_script, scroll_event_script, send_keys_script, store_collected_element_script,
};
use tauri_webdriver::server::handlers::actions::{
    first_step, next_step, plan_actions, ActionSequence, ActionStep, ActionsRequest, KeyAction, PauseAction,
    PointerAction, WheelAction,
};
use tauri_webdriver::server::handlers::element::{
    parse_strategy, prepare_find, prepare_find_all, FindElementRequest,
};
use tauri_webdriver::server::handlers::frame::{parse_frame_id, FrameRequestId};
use tauri_webdriver::server::handlers::lookup::{
    element_js_ref, require_session, session_context, store_element, store_elements,
};
use tauri_webdriver::server::handlers::session::delete_session;
use tauri_webdriver::server::response::WebDriverErrorResponse;
use tauri_webdriver::platform::executor::FrameId;
use tauri_webdriver::text::{
    bool_string, concat3, decimal_i64, decimal_u64, escape, text_contains, text_eq, EscapeStyle,
};
use tauri_webdriver::webdriver::element::ElementStore;
use tauri_webdriver::webdriver::locator::LocatorStrategy;
use tauri_webdriver::webdriver::session::{Session, SessionManager, Timeouts};

fn assert_error(e: &WebDriverErrorResponse, status: u16, error: &str, message: &str) {
    assert_eq!(e.status, status);
    assert_eq!(e.error, error);
    assert_eq!(e.message, message);
    assert!(e.stacktrace.is_none());
}

// ---------------------------------------------------------------- text

#[test]
fn escape_styles() {
    assert_eq!(escape(EscapeStyle::SingleQuoted, r"a\b'c"), r"a\\b\'c");
    assert_eq!(escape(EscapeStyle::QuoteOnly, r"a\b'c"), r"a\b\'c");
    assert_eq!(escape(EscapeStyle::Template, r"x\`$y"), r"x\\\`\$y");
    assert_eq!(escape(EscapeStyle::DoubleQuoted, r#"a"b\"#), r#"a\"b\\"#);
    assert_eq!(escape(EscapeStyle::SingleQuoted, "plain"), "plain");
    assert_eq!(escape(EscapeStyle::SingleQuoted, "é'ü"), "é\\'ü");
}

#[test]
fn escape_reads_back() {
    // The escaped text read back (a backslash stands for the next character) is the text that went in.
    let plain = r"it's a \ test";
    let escaped = escape(EscapeStyle::SingleQuoted, plain);
    let mut back = String::new();
    let mut chars = escaped.chars();
    while let Some(c) = chars.next() {
        if c == '\\' {
            back.push(chars.next().unwrap());
        } else {
            back.push(c);
        }
    }
    assert_eq!(back, plain);
}

#[test]
fn decimal_numbers() {
    assert_eq!(decimal_u64(0), "0");
    assert_eq!(decimal_u64(7), "7");
    assert_eq!(decimal_u64(1234567890), "1234567890");
    assert_eq!(decimal_u64(u64::MAX), "18446744073709551615");
    assert_eq!(decimal_i64(-42), "-42");
    assert_eq!(decimal_i64(i64::MIN), "-9223372036854775808");
    assert_eq!(decimal_i64(0), "0");
    assert_eq!(bool_string(true), "true");
    assert_eq!(bool_string(false), "false");
}

#[test]
fn text_search_and_compare() {
    assert!(text_contains("__NSCFString", "String"));
    assert!(!text_contains("NSNumber", "String"));
    assert!(text_contains("abc", ""));
    assert!(!text_contains("ab", "abc"));
    assert!(text_eq("same", "same"));
    assert!(!text_eq("same", "Same"));
    assert_eq!(concat3("a", "b", "c"), "abc");
}

// ---------------------------------------------------------------- locator

#[test]
fn strategy_names() {
    assert_eq!(LocatorStrategy::from_string("link text"), Some(LocatorStrategy::LinkText));
    assert_eq!(
        LocatorStrategy::from_string("partial link text"),
        Some(LocatorStrategy::PartialLinkText)
    );
    assert_eq!(LocatorStrategy::from_string("tag name"), Some(LocatorStrategy::TagName));
    assert_eq!(LocatorStrategy::from_string("CSS selector"), None);
    assert_eq!(LocatorStrategy::from_string(""), None);
}

#[test]
fn selector_expressions() {
    assert_eq!(
        LocatorStrategy::CssSelector.to_selector_js("#a"),
        "document.querySelector('#a')"
    );
    assert_eq!(
        LocatorStrategy::TagName.to_selector_js("div"),
        "document.getElementsByTagName('div')[0] || null"
    );
    assert_eq!(
        LocatorStrategy::LinkText.to_selector_js_multiple("it's"),
        "Array.from(document.querySelectorAll('a')).filter(a => a.textContent.trim() === 'it\\'s')"
    );
    assert_eq!(
        LocatorStrategy::CssSelector.to_selector_js_single_from_element(".x"),
        "parent.querySelector('.x')"
    );
    assert_eq!(
        LocatorStrategy::TagName.to_selector_js_from_shadow("span"),
        "Array.from(shadow.querySelectorAll('span'))"
    );
    assert_eq!(
        LocatorStrategy::PartialLinkText.to_selector_js_from_element("go"),
        "Array.from(parent.querySelectorAll('a')).filter(a => a.textContent.includes('go'))"
    );
    let xpath = LocatorStrategy::XPath.to_selector_js_single_from_shadow(r#"//a[@t="x"]"#);
    assert!(xpath.contains(r#"document.evaluate('//a[@t="x"]', shadow"#));
    assert_eq!(
        LocatorStrategy::XPath.to_selector_js("a"),
        "(function() {\n                        var result = document.evaluate('a', document, null, XPathResult.FIRST_ORDERED_NODE_TYPE, null);\n                        return result.singleNodeValue;\n                    })()"
    );
    let quoted = LocatorStrategy::XPath.to_selector_js_from_element("//a[@t='x']");
    assert!(quoted.contains(r#"document.evaluate('//a[@t=\'x\']', parent, null, XPathResult.ORDERED_NODE_ITERATOR_TYPE"#));
}

#[test]
fn xpath_find_scripts() {
    // an expression without single quotes keeps the single-quoted literal of the selectors
    let js = LocatorStrategy::XPath.to_find_js("//a", true, "els");
    assert!(js.contains("document.evaluate('//a', document, null, XPathResult.ORDERED_NODE_ITERATOR_TYPE, null)"));
    assert!(!js.contains("FIRST_ORDERED_NODE_TYPE"));
    assert!(js.contains("window.els = el;"));
    let js = LocatorStrategy::XPath.to_find_js(r"//a[@b='\']", false, "e");
    assert!(js.contains(r#"document.evaluate("//a[@b='\\']", document, null, XPathResult.FIRST_ORDERED_NODE_TYPE, null)"#));
}

#[test]
fn find_script_wraps_selector() {
    let js = LocatorStrategy::TagName.to_find_js("p", true, "__wd_temp_els");
    assert_eq!(
        js,
        "(function() {\n                var el = Array.from(document.getElementsByTagName('p'));\n                if (el) {\n                    window.__wd_temp_els = el;\n                    return true;\n                }\n                return false;\n            })()"
    );
    let single = LocatorStrategy::LinkText.to_find_js("Home", false, "v");
    assert!(single.contains(&LocatorStrategy::LinkText.to_selector_js("Home")));
}

// ---------------------------------------------------------------- maps and stores

#[test]
fn id_map_operations() {
    let mut m: IdMap<u32> = IdMap::new();
    assert_eq!(m.len(), 0);
    m.insert("a".to_string(), 1);
    m.insert("b".to_string(), 2);
    m.insert("a".to_string(), 3);
    assert_eq!(m.len(), 2);
    assert_eq!(m.get("a"), Some(&3));
    assert!(m.contains_key("b"));
    if let Some(v) = m.get_mut("b") {
        *v = 20;
    }
    assert_eq!(m.get("b"), Some(&20));
    assert!(m.get_mut("c").is_none());
    assert!(m.remove("a"));
    assert!(!m.remove("a"));
    assert_eq!(m.get("a"), None);
    m.clear();
    assert_eq!(m.len(), 0);
}

#[test]
fn element_store_indices_and_removal() {
    let mut store = ElementStore::new();
    let a = store.store_with_id("id-a".to_string());
    let b = store.store_with_id("id-b".to_string());
    assert_eq!(a.js_ref, "__wd_el_0");
    assert_eq!(b.js_ref, "__wd_el_1");
    assert_eq!(store.next_ref_index(), 2);
    assert!(store.remove("id-a"));
    assert!(!store.remove("id-a"));
    assert!(store.get("id-a").is_none());
    assert_eq!(store.get("id-b").unwrap().js_ref, "__wd_el_1");
    assert_eq!(store.count(), 1);
    store.clear();
    assert_eq!(store.next_ref_index(), 2);
    // a name handed out before `clear` is not handed out again
    let c = store.store_with_id("id-c".to_string());
    assert_eq!(c.js_ref, "__wd_el_2");
    assert_ne!(c.js_ref, a.js_ref);
    assert_ne!(c.js_ref, b.js_ref);
}

#[test]
fn element_counts_follow_store_and_remove() {
    let mut store = ElementStore::new();
    store.store();
    let second = store.store();
    assert_eq!(store.count(), 2);
    // the same ID stored again replaces the reference, the count stays
    store.store_with_id(second.id.clone());
    assert_eq!(store.count(), 2);
    assert_eq!(store.get(&second.id).unwrap().js_ref, "__wd_el_2");
    assert!(store.remove(&second.id));
    assert_eq!(store.count(), 1);
    assert!(!store.remove(&second.id));
    assert_eq!(store.count(), 1);
}

#[test]
fn storing_many_elements() {
    let mut sessions = SessionManager::new();
    let id = sessions.create("main".to_string()).id.clone();
    let first = store_element(&mut sessions, &id).unwrap();
    assert_eq!(first.js_ref, "__wd_el_0");
    let refs = store_elements(&mut sessions, &id, 3).unwrap();
    let names: Vec<&str> = refs.iter().map(|r| r.js_ref.as_str()).collect();
    assert_eq!(names, vec!["__wd_el_1", "__wd_el_2", "__wd_el_3"]);
    let session = sessions.get(&id).unwrap();
    assert_eq!(session.elements.count(), 4);
    for r in &refs {
        assert_eq!(session.elements.get(&r.id).unwrap().js_ref, r.js_ref);
    }
    assert!(store_elements(&mut sessions, &id, 0).unwrap().is_empty());
    assert_error(
        &store_elements(&mut sessions, "nope", 2).unwrap_err(),
        404,
        "invalid session id",
        "Session nope not found",
    );
}

#[test]
fn stored_ids_are_uuids() {
    let mut store = ElementStore::new();
    let e = store.store();
    assert_eq!(e.id.len(), 36);
    for (i, c) in e.id.chars().enumerate() {
        if i == 8 || i == 13 || i == 18 || i == 23 {
            assert_eq!(c, '-');
        } else {
            assert!(c.is_ascii_digit() || ('a'..='f').contains(&c));
        }
    }
    let other = store.store();
    assert_ne!(e.id, other.id);
}

#[test]
fn sessions() {
    let t = Timeouts::default();
    assert_eq!((t.implicit_ms, t.page_load_ms, t.script_ms), (0, 300_000, 30_000));

    let s = Session::new("main".to_string());
    assert_eq!(s.id.len(), 36);
    assert_eq!(s.current_window, "main");
    assert_eq!(s.elements.count(), 0);

    let mut m = SessionManager::new();
    let id = m.create("main".to_string()).id.clone();
    assert!(m.get(&id).is_some());
    m.get_mut(&id).unwrap().current_window = "other".to_string();
    assert_eq!(m.get(&id).unwrap().current_window, "other");
    assert!(m.delete(&id));
    assert!(!m.delete(&id));
    assert!(m.get(&id).is_none());
    assert!(m.get_mut(&id).is_none());

    let inserted = m.insert_session(Session::with_id("fixed".to_string(), "w".to_string()));
    assert_eq!(inserted.id, "fixed");
}

// ---------------------------------------------------------------- responses

#[test]
fn error_responses() {
    assert_error(
        &WebDriverErrorResponse::invalid_session_id("abc"),
        404,
        "invalid session id",
        "Session abc not found",
    );
    assert_error(&WebDriverErrorResponse::no_such_element(), 404, "no such element", "Unable to locate element");
    assert_error(
        &WebDriverErrorResponse::stale_element_reference(),
        404,
        "stale element reference",
        "Element is no longer attached to the DOM",
    );
    assert_error(&WebDriverErrorResponse::no_such_window(), 404, "no such window", "No window could be found");
    assert_error(&WebDriverErrorResponse::javascript_error("boom"), 500, "javascript error", "boom");
    assert_error(&WebDriverErrorResponse::unknown_error("?"), 500, "unknown error", "?");
    assert_error(&WebDriverErrorResponse::invalid_argument("bad"), 400, "invalid argument", "bad");
    assert_error(&WebDriverErrorResponse::new(418, "teapot", "short"), 418, "teapot", "short");
    assert_error(&WebDriverErrorResponse::script_timeout(), 500, "script timeout", "Script execution timed out");
    assert_error(&WebDriverErrorResponse::no_such_alert(), 404, "no such alert", "No alert is currently open");
}

// ---------------------------------------------------------------- script replies

fn ok_reply(v: ReplyValue) -> ScriptReply {
    ScriptReply { success: Some(true), error: None, value: Some(v) }
}

#[test]
fn reply_extraction() {
    assert_eq!(extract_string_value(&ok_reply(ReplyValue::Text("t".into()))).unwrap(), "t");
    assert_eq!(extract_string_value(&ok_reply(ReplyValue::Count(12))).unwrap(), "12");
    assert_eq!(extract_string_value(&ok_reply(ReplyValue::Null)).unwrap(), "null");
    assert_eq!(extract_string_value(&ok_reply(ReplyValue::Bool(false))).unwrap(), "false");
    assert_eq!(extract_string_value(&ok_reply(ReplyValue::Other("[1,2]".into()))).unwrap(), "[1,2]");
    let missing = ScriptReply { success: None, error: None, value: None };
    assert_eq!(extract_string_value(&missing).unwrap(), "");
    let failed = ScriptReply { success: Some(false), error: Some("oops".into()), value: None };
    assert_error(&extract_string_value(&failed).unwrap_err(), 500, "javascript error", "oops");
    let failed_silently = ScriptReply { success: Some(false), error: None, value: None };
    assert!(!extract_bool_value(&failed_silently).unwrap());

    assert!(extract_bool_value(&ok_reply(ReplyValue::Bool(true))).unwrap());
    assert!(!extract_bool_value(&ok_reply(ReplyValue::Text("true".into()))).unwrap());
    assert!(extract_bool_value(&failed).is_err());

    assert_eq!(extract_usize_value(&ok_reply(ReplyValue::Count(5))).unwrap(), 5);
    assert_eq!(extract_usize_value(&ok_reply(ReplyValue::Other("-1".into()))).unwrap(), 0);
    assert!(extract_usize_value(&failed).is_err());

    assert!(matches!(extract_value(&ok_reply(ReplyValue::Count(3))).unwrap(), ReplyValue::Count(3)));
    assert!(matches!(extract_value(&missing).unwrap(), ReplyValue::Null));
    let no_value = ScriptReply { success: Some(true), error: None, value: None };
    assert!(matches!(extract_value(&no_value).unwrap(), ReplyValue::Null));
    assert!(extract_value(&failed).is_err());

    assert_eq!(attribute_from_reply(&ok_reply(ReplyValue::Text("x".into()))), Some("x".to_string()));
    assert_eq!(attribute_from_reply(&ok_reply(ReplyValue::Null)), None);
    assert_eq!(attribute_from_reply(&ok_reply(ReplyValue::Count(1))), None);
}

#[test]
fn wait_outcomes() {
    assert_eq!(script_result(WaitOutcome::Completed(7)).unwrap(), 7);
    assert_error(&script_result::<u8>(WaitOutcome::Failed("e".into())).unwrap_err(), 500, "javascript error", "e");
    assert_error(&script_result::<u8>(WaitOutcome::ChannelClosed).unwrap_err(), 500, "unknown error", "Channel closed");
    assert_error(&script_result::<u8>(WaitOutcome::TimedOut).unwrap_err(), 500, "script timeout", "Script execution timed out");
    assert_error(&capture_result::<u8>(WaitOutcome::Failed("no image".into())).unwrap_err(), 500, "unknown error", "no image");
}

#[test]
fn alert_errors() {
    assert_eq!(alert_error("error: no such alert open").error, "no such alert");
    assert_error(&alert_error("crashed"), 500, "unknown error", "crashed");
    assert_error(
        &prompt_error("this is not a prompt"),
        400,
        "element not interactable",
        "User prompt is not a prompt dialog",
    );
    assert_eq!(prompt_error("no such alert").error, "no such alert");
    assert_eq!(prompt_error("other").error, "unknown error");
}

// ---------------------------------------------------------------- scripts

#[test]
fn navigation_and_element_scripts() {
    assert_eq!(
        navigate_script("https://x.test/?q='a'"),
        "window.location.href = 'https://x.test/?q=\\'a\\''; null;"
    );
    let find = find_element_script("document.querySelector('p')", "__wd_el_3");
    assert!(find.contains("var el = document.querySelector('p');"));
    assert!(find.contains("window.__wd_el_3 = el;"));
    let attr = element_attribute_script("__wd_el_0", "data-'x'");
    assert!(attr.contains("return el.getAttribute('data-\\'x\\'');"));
    let keys = send_keys_script("__wd_el_0", "a`b$c\\d");
    assert!(keys.contains("var newValue = el.value + `a\\`b\\$c\\\\d`;"));
    assert_eq!(
        store_collected_element_script("__wd_el_9", 4),
        "window.__wd_el_9 = window.__wd_temp_els[4]; return true;"
    );
    let exec = execute_script_source("return arguments[0];", "[1]");
    assert!(exec.contains("var args = [1].map(deserializeArg);"));
    assert!(exec.contains("var fn = function() { return arguments[0]; };"));
}

#[test]
fn event_scripts() {
    assert_eq!(pointer_event_name_str(PointerEventType::Down), "mousedown");
    assert_eq!(pointer_event_name_str(PointerEventType::Move), "mousemove");
    assert_eq!(touch_type_str(PointerEventType::Up), "up");
    assert_eq!(pointer_buttons_value(PointerEventType::Down, 2), 4);
    assert_eq!(pointer_buttons_value(PointerEventType::Up, 2), 0);
    let down = pointer_event_script(PointerEventType::Down, 10, -5, 0);
    assert!(down.contains("new MouseEvent('mousedown'"));
    assert!(down.contains("document.elementFromPoint(10, -5)"));
    assert!(down.contains("buttons: 1"));
    let scroll = scroll_event_script(1, 2, -30, 40);
    assert!(scroll.contains("deltaX: -30"));
    assert!(scroll.contains("window.scrollBy(-30, 40);"));
    assert!(frame_index_script(3).contains("if (3 >= frames.length)"));
}

#[test]
fn cookie_scripts() {
    let c = Cookie {
        name: "n".into(),
        value: "v".into(),
        path: Some("/".into()),
        domain: Some("x.test".into()),
        secure: true,
        http_only: true,
        expiry: Some(99),
        same_site: Some("Lax".into()),
    };
    assert_eq!(
        cookie_string(&c),
        "n=v; path=/; domain=x.test; secure; httponly; expires=99; samesite=Lax"
    );
    let plain = Cookie { name: "a".into(), value: "it's".into(), ..Default::default() };
    assert_eq!(cookie_string(&plain), "a=it's");
    assert_eq!(add_cookie_script(&plain), "document.cookie = 'a=it\\'s'; true");
    assert_eq!(
        delete_cookie_script("o'k"),
        "document.cookie = 'o\\'k=; expires=Thu, 01 Jan 1970 00:00:00 GMT; path=/'; true"
    );
    let jar = vec![
        Cookie { name: "a".into(), value: "1".into(), ..Default::default() },
        Cookie { name: "b".into(), value: "2".into(), ..Default::default() },
        Cookie { name: "a".into(), value: "3".into(), ..Default::default() },
    ];
    assert_eq!(find_cookie(jar.clone(), "a").unwrap().value, "1");
    assert_eq!(find_cookie(jar.clone(), "b").unwrap().value, "2");
    assert!(find_cookie(jar, "c").is_none());
}

#[test]
fn key_scripts() {
    assert_eq!(special_key_info("\u{E007}"), Some(("Enter", "Enter", 13)));
    assert_eq!(special_key_info("\u{E00D}"), Some((" ", "Space", 32)));
    assert_eq!(special_key_info("a"), None);
    assert_eq!(key_code_name("a"), "KeyA");
    assert_eq!(key_code_name("Q"), "KeyQ");
    assert_eq!(key_code_name("5"), "Digit5");
    assert_eq!(key_code_name("!"), "!");
    assert_eq!(key_code_name(""), "");
    let m = ModifierState { ctrl: true, ..Default::default() };
    let enter = key_event_script("\u{E007}", true, &m);
    assert!(enter.contains("new KeyboardEvent('keydown'"));
    assert!(enter.contains("keyCode: 13"));
    let a_down = key_event_script("a", true, &m);
    assert!(a_down.contains("code: 'KeyA'"));
    assert!(a_down.contains("keyCode: 97"));
    assert!(a_down.contains("ctrlKey: true"));
    assert!(a_down.contains("shiftKey: false"));
    let a_up = key_event_script("'", false, &ModifierState::default());
    assert!(a_up.contains("new KeyboardEvent('keyup'"));
    assert!(a_up.contains("key: '\\''"));
}

// ---------------------------------------------------------------- native values

#[test]
fn native_values() {
    assert_eq!(classify_native_value("__NSCFString"), NativeValueKind::Text);
    assert_eq!(classify_native_value("__NSCFBoolean"), NativeValueKind::Boolean);
    assert_eq!(classify_native_value("__NSCFNumber"), NativeValueKind::Number);
    assert_eq!(classify_native_value("__NSArrayI"), NativeValueKind::Array);
    assert_eq!(classify_native_value("__NSDictionaryM"), NativeValueKind::Dictionary);
    assert_eq!(classify_native_value("NSNull"), NativeValueKind::Null);
    assert_eq!(png_payload(Some(b"hello".to_vec())).unwrap(), "aGVsbG8=");
    assert_eq!(png_payload(None).unwrap_err(), "Failed to convert to PNG");
}

// ---------------------------------------------------------------- actions

#[test]
fn action_plan() {
    let request = ActionsRequest {
        actions: vec![
            ActionSequence::Pointer {
                _id: "mouse".into(),
                actions: vec![
                    PointerAction::PointerMove { x: 5, y: 6, duration: Some(0) },
                    PointerAction::PointerDown { button: 0 },
                    PointerAction::Pause { duration: None },
                    PointerAction::PointerMove { x: 7, y: 8, duration: Some(15) },
                ],
            },
            ActionSequence::Key {
                _id: "kbd".into(),
                actions: vec![
                    KeyAction::KeyDown { value: "a".into() },
                    KeyAction::Pause { duration: Some(0) },
                    KeyAction::KeyUp { value: "a".into() },
                ],
            },
            ActionSequence::Pointer {
                _id: "mouse".into(),
                actions: vec![PointerAction::PointerUp { button: 0 }],
            },
            ActionSequence::Wheel {
                _id: "wheel".into(),
                actions: vec![WheelAction::Scroll { x: 1, y: 2, delta_x: 3, delta_y: 4, duration: None }],
            },
            ActionSequence::NoInput {
                _id: "none".into(),
                actions: vec![PauseAction::Pause { duration: Some(9) }],
            },
        ],
    };
    let steps = plan_actions(&request);
    assert_eq!(steps.len(), 10);
    assert!(matches!(steps[0], ActionStep::Pointer { event: PointerEventType::Move, x: 5, y: 6, button: 0 }));
    assert!(matches!(steps[1], ActionStep::Pointer { event: PointerEventType::Down, x: 5, y: 6, button: 0 }));
    assert!(matches!(steps[2], ActionStep::Sleep { ms: 15 }));
    assert!(matches!(steps[3], ActionStep::Pointer { event: PointerEventType::Move, x: 7, y: 8, button: 0 }));
    assert!(matches!(&steps[4], ActionStep::Key { key, down: true } if key == "a"));
    assert!(matches!(steps[5], ActionStep::Sleep { ms: 0 }));
    assert!(matches!(&steps[6], ActionStep::Key { key, down: false } if key == "a"));
    // the pointer keeps its position from one input source to the next
    assert!(matches!(steps[7], ActionStep::Pointer { event: PointerEventType::Up, x: 7, y: 8, button: 0 }));
    assert!(matches!(steps[8], ActionStep::Scroll { x: 1, y: 2, delta_x: 3, delta_y: 4 }));
    assert!(matches!(steps[9], ActionStep::Sleep { ms: 9 }));
}

// ---------------------------------------------------------------- handlers

#[test]
fn handler_lookups() {
    let mut sessions = SessionManager::new();
    let id = sessions.create("main".to_string()).id.clone();

    assert!(require_session(&sessions, &id).is_ok());
    assert_error(
        &require_session(&sessions, "nope").unwrap_err(),
        404,
        "invalid session id",
        "Session nope not found",
    );
    let (window, timeouts) = session_context(&sessions, &id).unwrap();
    assert_eq!(window, "main");
    assert_eq!(timeouts.script_ms, 30_000);

    let request = FindElementRequest { using: "css selector".into(), value: "#b".into() };
    let target = prepare_find(&mut sessions, &id, &request).unwrap();
    assert_eq!(target.strategy_js, "document.querySelector('#b')");
    assert_eq!(target.element.js_ref, "__wd_el_0");
    assert_eq!(element_js_ref(&sessions, &id, &target.element.id).unwrap(), "__wd_el_0");
    assert_error(&element_js_ref(&sessions, &id, "missing").unwrap_err(), 404, "no such element", "Unable to locate element");

    let bad = FindElementRequest { using: "id".into(), value: "b".into() };
    assert_error(
        &prepare_find(&mut sessions, &id, &bad).unwrap_err(),
        400,
        "invalid argument",
        "Unknown locator strategy: id",
    );
    assert_eq!(sessions.get(&id).unwrap().elements.count(), 1);
    assert!(prepare_find(&mut sessions, "nope", &request).is_err());
    assert_eq!(prepare_find_all(&sessions, &id, &request).unwrap(), LocatorStrategy::CssSelector);
    assert!(parse_strategy("xpath").is_ok());

    let stored = store_element(&mut sessions, &id).unwrap();
    assert_eq!(stored.js_ref, "__wd_el_1");
    assert!(store_element(&mut sessions, "nope").is_err());

    let session = sessions.get(&id).unwrap();
    assert!(matches!(parse_frame_id(&FrameRequestId::Null, session).unwrap(), FrameId::Top));
    assert!(matches!(parse_frame_id(&FrameRequestId::Number(Some(2)), session).unwrap(), FrameId::Index(2)));
    assert_error(
        &parse_frame_id(&FrameRequestId::Number(Some(1 << 40)), session).unwrap_err(),
        400,
        "invalid argument",
        "Frame index too large",
    );
    assert_error(
        &parse_frame_id(&FrameRequestId::Number(None), session).unwrap_err(),
        400,
        "invalid argument",
        "Frame index must be a non-negative integer",
    );
    let by_ref = FrameRequestId::Object { has_element_key: true, element_id: Some(stored.id.clone()) };
    assert!(matches!(parse_frame_id(&by_ref, session).unwrap(), FrameId::Element(v) if v == "__wd_el_1"));
    let unknown = FrameRequestId::Object { has_element_key: true, element_id: Some("x".into()) };
    assert_eq!(parse_frame_id(&unknown, session).unwrap_err().error, "no such element");
    let not_text = FrameRequestId::Object { has_element_key: true, element_id: None };
    assert_eq!(parse_frame_id(&not_text, session).unwrap_err().message, "Element reference must be a string");
    let no_key = FrameRequestId::Object { has_element_key: false, element_id: None };
    assert_eq!(parse_frame_id(&no_key, session).unwrap_err().message, "Invalid frame identifier object");
    assert_eq!(
        parse_frame_id(&FrameRequestId::Other, session).unwrap_err().message,
        "Frame ID must be null, a number, or an element reference"
    );

    assert!(delete_session(&mut sessions, &id).is_ok());
    assert_error(
        &delete_session(&mut sessions, &id).unwrap_err(),
        404,
        "invalid session id",
        &format!("Session {} not found", id),
    );
}

#[test]
fn async_outcomes() {
    assert_eq!(async_outcome(Some(1), None, 0), Ok(1));
    assert_eq!(async_outcome(None, None, 0), Ok(0));
    assert_eq!(async_outcome(Some(1), Some(String::new()), 0), Ok(1));
    assert_eq!(async_outcome(Some(1), Some("bad".to_string()), 0), Err("bad".to_string()));
}

#[test]
fn script_requests_carry_json_arguments() {
    let args = vec![serde_json::Value::from(1), serde_json::Value::from("a")];
    let js = execute_script_request("return arguments[0];", &args).unwrap();
    assert_eq!(js, execute_script_source("return arguments[0];", r#"[1,"a"]"#));
    assert!(js.contains(r#"var args = [1,"a"].map(deserializeArg);"#));

    let js = execute_async_script_request("arguments[1](2);", &[]).unwrap();
    assert_eq!(js, execute_async_script_source("arguments[1](2);", "[]"));

    let js = android_async_script_request("done(1);", &args).unwrap();
    assert!(js.contains(r#"var __args = [1,"a"].map(deserializeArg);"#));

    let js = macos_async_script_request("done(1);", &[serde_json::Value::Null], "handler", "id-1").unwrap();
    assert!(js.contains("[null]"));
    assert!(js.contains("handler"));
    assert!(js.contains("id-1"));
}

#[test]
fn webview_replies_parse_as_json_or_stay_text() {
    assert_eq!(webview_reply_value("1".to_string()), serde_json::Value::from(1));
    let mut object = serde_json::Map::new();
    object.insert(
        "a".to_string(),
        serde_json::Value::Array(vec![serde_json::Value::Bool(true), serde_json::Value::Null]),
    );
    assert_eq!(
        webview_reply_value(r#"{"a":[true,null]}"#.to_string()),
        serde_json::Value::Object(object)
    );
    assert_eq!(
        webview_reply_value(r#""quoted""#.to_string()),
        serde_json::Value::String("quoted".to_string())
    );
    // text that is not JSON comes back as a JSON string holding it
    assert_eq!(
        webview_reply_value("not json".to_string()),
        serde_json::Value::String("not json".to_string())
    );
    assert_eq!(webview_reply_value(String::new()), serde_json::Value::String(String::new()));
}

#[test]
fn async_ids_are_uuids() {
    let id = new_async_id();
    assert_eq!(id.len(), 36);
    assert_eq!(id.chars().filter(|c| *c == '-').count(), 4);
    assert_ne!(id, new_async_id());
}

#[test]
fn action_steps_stop_at_first_error() {
    assert_eq!(first_step(0), None);
    assert_eq!(first_step(3), Some(0));
    assert_eq!(next_step(3, 0, Ok(())).unwrap(), Some(1));
    assert_eq!(next_step(3, 2, Ok(())).unwrap(), None);
    let failed = next_step(3, 1, Err(WebDriverErrorResponse::unknown_error("boom"))).unwrap_err();
    assert_error(&failed, 500, "unknown error", "boom");
    // running three steps where the second fails runs exactly two
    let outcomes = [true, false, true];
    let mut ran = Vec::new();
    let mut next = first_step(outcomes.len());
    let mut failed_run = false;
    while let Some(i) = next {
        ran.push(i);
        let outcome = if outcomes[i] {
            Ok(())
        } else {
            Err(WebDriverErrorResponse::unknown_error("x"))
        };
        match next_step(outcomes.len(), i, outcome) {
            Ok(n) => next = n,
            Err(_) => {
                failed_run = true;
                next = None;
            }
        }
    }
    assert_eq!(ran, vec![0, 1]);
    assert!(failed_run);
}

#[test]
fn selector_forms_derive_from_each_other() {
    let values = ["#x", "it's", r"a\b", "div > p", ""];
    let others = [
        LocatorStrategy::CssSelector,
        LocatorStrategy::TagName,
        LocatorStrategy::LinkText,
        LocatorStrategy::PartialLinkText,
    ];
    for v in values {
        for st in others {
            let one = st.to_selector_js(v);
            let all = st.to_selector_js_multiple(v);
            assert_eq!(st.to_selector_js_single_from_element(v), one.replacen("document.", "parent.", 1));
            assert_eq!(st.to_selector_js_from_element(v), all.replacen("document.", "parent.", 1));
            if st != LocatorStrategy::TagName {
                assert_eq!(st.to_selector_js_single_from_shadow(v), one.replacen("document.", "shadow.", 1));
                assert_eq!(st.to_selector_js_from_shadow(v), all.replacen("document.", "shadow.", 1));
            }
        }
        let css = LocatorStrategy::CssSelector;
        assert_eq!(
            css.to_selector_js_multiple(v),
            format!("Array.from({})", css.to_selector_js(v).replacen("querySelector(", "querySelectorAll(", 1))
        );
        let tag = LocatorStrategy::TagName;
        assert_eq!(
            tag.to_selector_js_multiple(v),
            format!("Array.from({})", tag.to_selector_js(v).strip_suffix("[0] || null").unwrap())
        );
        assert_eq!(tag.to_selector_js_single_from_shadow(v), css.to_selector_js_single_from_shadow(v));
        for st in [LocatorStrategy::LinkText, LocatorStrategy::PartialLinkText] {
            assert_eq!(
                st.to_selector_js_multiple(v),
                st.to_selector_js(v).strip_suffix(" || null").unwrap().replacen(").find(", ").filter(", 1)
            );
        }
    }
}
