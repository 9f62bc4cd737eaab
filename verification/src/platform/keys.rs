use vstd::prelude::*;

use super::executor::ModifierState;
use super::scripts::{
    regular_key_down_js, regular_key_down_script, regular_key_up_js, regular_key_up_script,
    special_key_event_js, special_key_event_script,
};
use crate::text::text_eq;

verus! {

/// The DOM `key`, `code` and `keyCode` of the WebDriver special keys that have a fixed
/// keyboard event; `None` for every other key.
pub open spec fn special_key(key: Seq<char>) -> Option<(Seq<char>, Seq<char>, u32)> {
    if key == "\u{E007}"@ {
        Some(("Enter"@, "Enter"@, 13u32))
    } else if key == "\u{E003}"@ {
        Some(("Backspace"@, "Backspace"@, 8u32))
    } else if key == "\u{E004}"@ {
        Some(("Tab"@, "Tab"@, 9u32))
    } else if key == "\u{E006}"@ {
        Some(("Enter"@, "NumpadEnter"@, 13u32))
    } else if key == "\u{E00C}"@ {
        Some(("Escape"@, "Escape"@, 27u32))
    } else if key == "\u{E00D}"@ {
        Some((" "@, "Space"@, 32u32))
    } else if key == "\u{E012}"@ {
        Some(("ArrowLeft"@, "ArrowLeft"@, 37u32))
    } else if key == "\u{E013}"@ {
        Some(("ArrowUp"@, "ArrowUp"@, 38u32))
    } else if key == "\u{E014}"@ {
        Some(("ArrowRight"@, "ArrowRight"@, 39u32))
    } else if key == "\u{E015}"@ {
        Some(("ArrowDown"@, "ArrowDown"@, 40u32))
    } else if key == "\u{E017}"@ {
        Some(("Delete"@, "Delete"@, 46u32))
    } else if key == "\u{E008}"@ {
        Some(("Shift"@, "ShiftLeft"@, 16u32))
    } else if key == "\u{E009}"@ {
        Some(("Control"@, "ControlLeft"@, 17u32))
    } else if key == "\u{E00A}"@ {
        Some(("Alt"@, "AltLeft"@, 18u32))
    } else if key == "\u{E03D}"@ {
        Some(("Meta"@, "MetaLeft"@, 91u32))
    } else {
        None
    }
}

/// Looks `key` up among the special keys.
pub fn special_key_info(key: &str) -> (r: Option<(&'static str, &'static str, u32)>)
    ensures
        match r {
            Some(info) => special_key(key@) == Some((info.0@, info.1@, info.2)),
            None => special_key(key@) is None,
        },
{
    if text_eq(key, "\u{E007}") {
        Some(("Enter", "Enter", 13))
    } else if text_eq(key, "\u{E003}") {
        Some(("Backspace", "Backspace", 8))
    } else if text_eq(key, "\u{E004}") {
        Some(("Tab", "Tab", 9))
    } else if text_eq(key, "\u{E006}") {
        Some(("Enter", "NumpadEnter", 13))
    } else if text_eq(key, "\u{E00C}") {
        Some(("Escape", "Escape", 27))
    } else if text_eq(key, "\u{E00D}") {
        Some((" ", "Space", 32))
    } else if text_eq(key, "\u{E012}") {
        Some(("ArrowLeft", "ArrowLeft", 37))
    } else if text_eq(key, "\u{E013}") {
        Some(("ArrowUp", "ArrowUp", 38))
    } else if text_eq(key, "\u{E014}") {
        Some(("ArrowRight", "ArrowRight", 39))
    } else if text_eq(key, "\u{E015}") {
        Some(("ArrowDown", "ArrowDown", 40))
    } else if text_eq(key, "\u{E017}") {
        Some(("Delete", "Delete", 46))
    } else if text_eq(key, "\u{E008}") {
        Some(("Shift", "ShiftLeft", 16))
    } else if text_eq(key, "\u{E009}") {
        Some(("Control", "ControlLeft", 17))
    } else if text_eq(key, "\u{E00A}") {
        Some(("Alt", "AltLeft", 18))
    } else if text_eq(key, "\u{E03D}") {
        Some(("Meta", "MetaLeft", 91))
    } else {
        None
    }
}

/// The character a key event is built from: the key's first character, or a space for an
/// empty key.
pub open spec fn key_char(key: Seq<char>) -> char {
    if key.len() > 0 {
        key[0]
    } else {
        ' '
    }
}

pub open spec fn is_ascii_letter(c: char) -> bool {
    ('a' <= c && c <= 'z') || ('A' <= c && c <= 'Z')
}

pub open spec fn is_ascii_digit(c: char) -> bool {
    '0' <= c && c <= '9'
}

/// The ASCII upper-case form of a character.
pub open spec fn ascii_upper(c: char) -> char {
    if 'a' <= c && c <= 'z' {
        ((c as u32) - 32) as char
    } else {
        c
    }
}

/// The DOM `code` of a key that is not special: `Key` and the upper-case letter for an
/// ASCII letter, `Digit` and the digit for an ASCII digit, the key itself otherwise.
pub open spec fn regular_key_code(key: Seq<char>) -> Seq<char> {
    let ch = key_char(key);
    if is_ascii_letter(ch) {
        "Key"@.push(ascii_upper(ch))
    } else if is_ascii_digit(ch) {
        "Digit"@.push(ch)
    } else {
        key
    }
}

/// The script that dispatches a key press (`is_down`) or release of `key` on the focused
/// element.
pub open spec fn key_event_js(key: Seq<char>, is_down: bool, m: ModifierState) -> Seq<char> {
    match special_key(key) {
        Some(info) => special_key_event_js(
            if is_down {
                "keydown"@
            } else {
                "keyup"@
            },
            info.0,
            info.1,
            info.2,
        ),
        None => if is_down {
            regular_key_down_js(
                key,
                regular_key_code(key),
                key_char(key) as u32,
                m.ctrl,
                m.meta,
                m.shift,
                m.alt,
            )
        } else {
            regular_key_up_js(
                "keyup"@,
                key,
                regular_key_code(key),
                key_char(key) as u32,
                m.ctrl,
                m.meta,
                m.shift,
                m.alt,
            )
        },
    }
}

fn first_char(key: &str) -> (c: char)
    ensures
        c == key_char(key@),
{
    if key.unicode_len() > 0 {
        key.get_char(0)
    } else {
        ' '
    }
}

fn upper_letter(c: char) -> (u: char)
    ensures
        u == ascii_upper(c),
{
    if 'a' <= c && c <= 'z' {
        ((c as u8) - 32) as char
    } else {
        c
    }
}

/// The DOM `code` of a key that is not special.
pub fn key_code_name(key: &str) -> (code: String)
    ensures
        code@ == regular_key_code(key@),
{
    let ch = first_char(key);
    if ('a' <= ch && ch <= 'z') || ('A' <= ch && ch <= 'Z') {
        let mut code = "Key".to_string();
        code.push(upper_letter(ch));
        code
    } else if '0' <= ch && ch <= '9' {
        let mut code = "Digit".to_string();
        code.push(ch);
        code
    } else {
        key.to_string()
    }
}

/// Builds the script that dispatches a key press or release, with the modifier flags for
/// keys that are not special.
pub fn key_event_script(key: &str, is_down: bool, modifiers: &ModifierState) -> (js: String)
    ensures
        js@ == key_event_js(key@, is_down, *modifiers),
{
    match special_key_info(key) {
        Some((js_key, js_code, key_code)) => {
            let event_type = if is_down {
                "keydown"
            } else {
                "keyup"
            };
            special_key_event_script(event_type, js_key, js_code, key_code)
        },
        None => {
            let ch = first_char(key);
            let code = key_code_name(key);
            let key_code = ch as u32;
            if is_down {
                regular_key_down_script(
                    key,
                    code.as_str(),
                    key_code,
                    modifiers.ctrl,
                    modifiers.meta,
                    modifiers.shift,
                    modifiers.alt,
                )
            } else {
                regular_key_up_script(
                    "keyup",
                    key,
                    code.as_str(),
                    key_code,
                    modifiers.ctrl,
                    modifiers.meta,
                    modifiers.shift,
                    modifiers.alt,
                )
            }
        },
    }
}

} // verus!
