use vstd::prelude::*;

use super::executor::{Cookie, pointer_buttons, pointer_buttons_value, pointer_event_name, pointer_event_name_str, PointerEventType};
use crate::text::{
    bool_string, bool_text, decimal, decimal_i64, decimal_u64, escape, escaped, signed_decimal,
    EscapeStyle,
};

verus! {

/// The script that `PlatformExecutor::navigate` runs.
pub open spec fn navigate_js(url: Seq<char>) -> Seq<char> {
    "window.location.href = '"@
        + escaped(EscapeStyle::SingleQuoted, url)
        + "'; null;"@
}

/// The script that `PlatformExecutor::find_element` runs.
pub open spec fn find_element_js(strategy_js: Seq<char>, js_var: Seq<char>) -> Seq<char> {
    "(function() {\n                var el = "@
        + strategy_js
        + ";\n                if (el) {\n                    window."@
        + js_var
        + " = el;\n                    return true;\n                }\n                return false;\n            })()"@
}

/// The script that `PlatformExecutor::find_elements` runs.
pub open spec fn find_elements_js(strategy_js: Seq<char>, js_var_prefix: Seq<char>) -> Seq<char> {
    "(function() {\n                var elements = "@
        + strategy_js
        + ";\n                var count = elements.length;\n                for (var i = 0; i < count; i++) {\n                    window['"@
        + js_var_prefix
        + "' + i] = elements[i];\n                }\n                return count;\n            })()"@
}

/// The script that `PlatformExecutor::find_element_from_element` runs.
pub open spec fn find_element_from_element_js(parent_js_var: Seq<char>, strategy_js: Seq<char>, js_var: Seq<char>) -> Seq<char> {
    "(function() {\n                var parent = window."@
        + parent_js_var
        + ";\n                if (!parent || !document.contains(parent)) {\n                    throw new Error('stale element reference');\n                }\n                var el = "@
        + strategy_js
        + ";\n                if (el) {\n                    window."@
        + js_var
        + " = el;\n                    return true;\n                }\n                return false;\n            })()"@
}

/// The script that `PlatformExecutor::find_elements_from_element` runs.
pub open spec fn find_elements_from_element_js(parent_js_var: Seq<char>, strategy_js: Seq<char>, js_var_prefix: Seq<char>) -> Seq<char> {
    "(function() {\n                var parent = window."@
        + parent_js_var
        + ";\n                if (!parent || !document.contains(parent)) {\n                    throw new Error('stale element reference');\n                }\n                var elements = "@
        + strategy_js
        + ";\n                var count = elements.length;\n                for (var i = 0; i < count; i++) {\n                    window['"@
        + js_var_prefix
        + "' + i] = elements[i];\n                }\n                return count;\n            })()"@
}

/// The script that `PlatformExecutor::get_element_text` runs.
pub open spec fn element_text_js(js_var: Seq<char>) -> Seq<char> {
    "(function() {\n                var el = window."@
        + js_var
        + ";\n                if (!el || !document.contains(el)) {\n                    throw new Error('stale element reference');\n                }\n                return el.textContent || '';\n            })()"@
}

/// The script that `PlatformExecutor::get_element_tag_name` runs.
pub open spec fn element_tag_name_js(js_var: Seq<char>) -> Seq<char> {
    "(function() {\n                var el = window."@
        + js_var
        + ";\n                if (!el || !document.contains(el)) {\n                    throw new Error('stale element reference');\n                }\n                return el.tagName.toLowerCase();\n            })()"@
}

/// The script that `PlatformExecutor::get_element_attribute` runs.
pub open spec fn element_attribute_js(js_var: Seq<char>, name: Seq<char>) -> Seq<char> {
    "(function() {\n                var el = window."@
        + js_var
        + ";\n                if (!el || !document.contains(el)) {\n                    throw new Error('stale element reference');\n                }\n                return el.getAttribute('"@
        + escaped(EscapeStyle::SingleQuoted, name)
        + "');\n            })()"@
}

/// The script that `PlatformExecutor::get_element_property` runs.
pub open spec fn element_property_js(js_var: Seq<char>, name: Seq<char>) -> Seq<char> {
    "(function() {\n                var el = window."@
        + js_var
        + ";\n                if (!el || !document.contains(el)) {\n                    throw new Error('stale element reference');\n                }\n                return el['"@
        + escaped(EscapeStyle::SingleQuoted, name)
        + "'];\n            })()"@
}

/// The script that `PlatformExecutor::get_element_css_value` runs.
pub open spec fn element_css_value_js(js_var: Seq<char>, property: Seq<char>) -> Seq<char> {
    "(function() {\n                var el = window."@
        + js_var
        + ";\n                if (!el || !document.contains(el)) {\n                    throw new Error('stale element reference');\n                }\n                return window.getComputedStyle(el).getPropertyValue('"@
        + escaped(EscapeStyle::SingleQuoted, property)
        + "');\n            })()"@
}

/// The script that `PlatformExecutor::get_element_rect` runs.
pub open spec fn element_rect_js(js_var: Seq<char>) -> Seq<char> {
    "(function() {\n                var el = window."@
        + js_var
        + ";\n                if (!el || !document.contains(el)) {\n                    throw new Error('stale element reference');\n                }\n                var rect = el.getBoundingClientRect();\n                return {\n                    x: rect.x + window.scrollX,\n                    y: rect.y + window.scrollY,\n                    width: rect.width,\n                    height: rect.height\n                };\n            })()"@
}

/// The script that `PlatformExecutor::is_element_displayed` runs.
pub open spec fn element_displayed_js(js_var: Seq<char>) -> Seq<char> {
    "(function() {\n                var el = window."@
        + js_var
        + ";\n                if (!el || !document.contains(el)) {\n                    throw new Error('stale element reference');\n                }\n                var style = window.getComputedStyle(el);\n                return style.display !== 'none' && style.visibility !== 'hidden' && el.offsetParent !== null;\n            })()"@
}

/// The script that `PlatformExecutor::is_element_enabled` runs.
pub open spec fn element_enabled_js(js_var: Seq<char>) -> Seq<char> {
    "(function() {\n                var el = window."@
        + js_var
        + ";\n                if (!el || !document.contains(el)) {\n                    throw new Error('stale element reference');\n                }\n                return !el.disabled;\n            })()"@
}

/// The script that `PlatformExecutor::is_element_selected` runs.
pub open spec fn element_selected_js(js_var: Seq<char>) -> Seq<char> {
    "(function() {\n                var el = window."@
        + js_var
        + ";\n                if (!el || !document.contains(el)) {\n                    throw new Error('stale element reference');\n                }\n                if (el.tagName === 'INPUT' && (el.type === 'checkbox' || el.type === 'radio')) {\n                    return el.checked;\n                }\n                if (el.tagName === 'OPTION') {\n                    return el.selected;\n                }\n                return false;\n            })()"@
}

/// The script that `PlatformExecutor::click_element` runs.
pub open spec fn click_element_js(js_var: Seq<char>) -> Seq<char> {
    "(function() {\n                var el = window."@
        + js_var
        + ";\n                if (!el || !document.contains(el)) {\n                    throw new Error('stale element reference');\n                }\n                el.scrollIntoView({ block: 'center', inline: 'center' });\n                el.click();\n                return true;\n            })()"@
}

/// The script that `PlatformExecutor::clear_element` runs.
pub open spec fn clear_element_js(js_var: Seq<char>) -> Seq<char> {
    "(function() {\n                var el = window."@
        + js_var
        + ";\n                if (!el || !document.contains(el)) {\n                    throw new Error('stale element reference');\n                }\n                el.focus();\n                if (el.tagName === 'INPUT' || el.tagName === 'TEXTAREA') {\n                    var nativeInputValueSetter = Object.getOwnPropertyDescriptor(\n                        el.tagName === 'INPUT' ? window.HTMLInputElement.prototype : window.HTMLTextAreaElement.prototype,\n                        'value'\n                    ).set;\n                    nativeInputValueSetter.call(el, '');\n                    var inputEvent = new InputEvent('input', {\n                        bubbles: true,\n                        cancelable: true,\n                        inputType: 'deleteContentBackward'\n                    });\n                    el.dispatchEvent(inputEvent);\n                    var changeEvent = new Event('change', { bubbles: true });\n                    el.dispatchEvent(changeEvent);\n                } else if (el.isContentEditable) {\n                    el.innerHTML = '';\n                }\n                return true;\n            })()"@
}

/// The script that `PlatformExecutor::send_keys_to_element` runs.
pub open spec fn send_keys_js(js_var: Seq<char>, text: Seq<char>) -> Seq<char> {
    "(function() {\n                var el = window."@
        + js_var
        + ";\n                if (!el || !document.contains(el)) {\n                    throw new Error('stale element reference');\n                }\n                el.focus();\n\n                if (el.tagName === 'INPUT' || el.tagName === 'TEXTAREA') {\n                    var nativeInputValueSetter = Object.getOwnPropertyDescriptor(\n                        el.tagName === 'INPUT' ? window.HTMLInputElement.prototype : window.HTMLTextAreaElement.prototype,\n                        'value'\n                    ).set;\n\n                    var newValue = el.value + `"@
        + escaped(EscapeStyle::Template, text)
        + "`;\n                    nativeInputValueSetter.call(el, newValue);\n\n                    var inputEvent = new InputEvent('input', {\n                        bubbles: true,\n                        cancelable: true,\n                        inputType: 'insertText',\n                        data: `"@
        + escaped(EscapeStyle::Template, text)
        + "`\n                    });\n                    el.dispatchEvent(inputEvent);\n\n                    var changeEvent = new Event('change', { bubbles: true });\n                    el.dispatchEvent(changeEvent);\n                } else if (el.isContentEditable) {\n                    document.execCommand('insertText', false, `"@
        + escaped(EscapeStyle::Template, text)
        + "`);\n                }\n                return true;\n            })()"@
}

/// The script that `PlatformExecutor::get_active_element` runs.
pub open spec fn active_element_js(js_var: Seq<char>) -> Seq<char> {
    "(function() {\n                var el = document.activeElement;\n                if (el && el !== document.body) {\n                    window."@
        + js_var
        + " = el;\n                    return true;\n                }\n                return false;\n            })()"@
}

/// The script that `PlatformExecutor::get_element_computed_role` runs.
pub open spec fn computed_role_js(js_var: Seq<char>) -> Seq<char> {
    "(function() {\n                var el = window."@
        + js_var
        + ";\n                if (!el || !document.contains(el)) {\n                    throw new Error('stale element reference');\n                }\n                return el.computedRole || el.getAttribute('role') || '';\n            })()"@
}

/// The script that `PlatformExecutor::get_element_computed_label` runs.
pub open spec fn computed_label_js(js_var: Seq<char>) -> Seq<char> {
    "(function() {\n                var el = window."@
        + js_var
        + ";\n                if (!el || !document.contains(el)) {\n                    throw new Error('stale element reference');\n                }\n                return el.computedName || el.getAttribute('aria-label') || el.innerText || '';\n            })()"@
}

/// The script that `PlatformExecutor::get_element_shadow_root` runs.
pub open spec fn shadow_root_js(js_var: Seq<char>, shadow_var: Seq<char>) -> Seq<char> {
    "(function() {\n                var el = window."@
        + js_var
        + ";\n                if (!el || !document.contains(el)) {\n                    throw new Error('stale element reference');\n                }\n                var shadow = el.shadowRoot;\n                if (shadow) {\n                    window."@
        + shadow_var
        + " = shadow;\n                    return true;\n                }\n                return false;\n            })()"@
}

/// The script that `PlatformExecutor::find_element_from_shadow` runs.
pub open spec fn find_element_from_shadow_js(shadow_var: Seq<char>, strategy_js: Seq<char>, js_var: Seq<char>) -> Seq<char> {
    "(function() {\n                var shadow = window."@
        + shadow_var
        + ";\n                if (!shadow) {\n                    throw new Error('no such shadow root');\n                }\n                var el = "@
        + strategy_js
        + ";\n                if (el) {\n                    window."@
        + js_var
        + " = el;\n                    return true;\n                }\n                return false;\n            })()"@
}

/// The script that `PlatformExecutor::find_elements_from_shadow` runs.
pub open spec fn find_elements_from_shadow_js(shadow_var: Seq<char>, strategy_js: Seq<char>, js_var_prefix: Seq<char>) -> Seq<char> {
    "(function() {\n                var shadow = window."@
        + shadow_var
        + ";\n                if (!shadow) {\n                    throw new Error('no such shadow root');\n                }\n                var elements = "@
        + strategy_js
        + ";\n                var count = elements.length;\n                for (var i = 0; i < count; i++) {\n                    window['"@
        + js_var_prefix
        + "' + i] = elements[i];\n                }\n                return count;\n            })()"@
}

/// The script that `PlatformExecutor::execute_script` runs.
pub open spec fn execute_script_js(script: Seq<char>, args_json: Seq<char>) -> Seq<char> {
    "(function() {\n                var ELEMENT_KEY = 'element-6066-11e4-a52e-4f735466cecf';\n                function deserializeArg(arg) {\n                    if (arg === null || arg === undefined) return arg;\n                    if (Array.isArray(arg)) return arg.map(deserializeArg);\n                    if (typeof arg === 'object') {\n                        if (arg[ELEMENT_KEY]) {\n                            var el = window['__wd_el_' + arg[ELEMENT_KEY].replace(/-/g, '')];\n                            if (!el) throw new Error('stale element reference');\n                            return el;\n                        }\n                        var result = {};\n                        for (var key in arg) {\n                            if (arg.hasOwnProperty(key)) result[key] = deserializeArg(arg[key]);\n                        }\n                        return result;\n                    }\n                    return arg;\n                }\n                var args = "@
        + args_json
        + ".map(deserializeArg);\n                var fn = function() { "@
        + script
        + " };\n                return fn.apply(null, args);\n            })()"@
}

/// The script that `PlatformExecutor::execute_async_script` runs.
pub open spec fn execute_async_script_js(script: Seq<char>, args_json: Seq<char>) -> Seq<char> {
    "new Promise(function(resolve, reject) {\n                try {\n                    var ELEMENT_KEY = 'element-6066-11e4-a52e-4f735466cecf';\n                    function deserializeArg(arg) {\n                        if (arg === null || arg === undefined) return arg;\n                        if (Array.isArray(arg)) return arg.map(deserializeArg);\n                        if (typeof arg === 'object') {\n                            if (arg[ELEMENT_KEY]) {\n                                var el = window['__wd_el_' + arg[ELEMENT_KEY].replace(/-/g, '')];\n                                if (!el) throw new Error('stale element reference');\n                                return el;\n                            }\n                            var result = {};\n                            for (var key in arg) {\n                                if (arg.hasOwnProperty(key)) result[key] = deserializeArg(arg[key]);\n                            }\n                            return result;\n                        }\n                        return arg;\n                    }\n                    var args = "@
        + args_json
        + ".map(deserializeArg);\n                    args.push(function(result) { resolve(result); });\n                    var fn = function() { "@
        + script
        + " };\n                    fn.apply(null, args);\n                } catch (e) {\n                    reject(e);\n                }\n            })"@
}

/// The script that `PlatformExecutor::dispatch_scroll_event` runs.
pub open spec fn scroll_event_js(x: i32, y: i32, delta_x: i32, delta_y: i32) -> Seq<char> {
    "(function() {\n                var el = document.elementFromPoint("@
        + signed_decimal(x as int)
        + ", "@
        + signed_decimal(y as int)
        + ");\n                if (!el) el = document.body;\n\n                var event = new WheelEvent('wheel', {\n                    bubbles: true,\n                    cancelable: true,\n                    clientX: "@
        + signed_decimal(x as int)
        + ",\n                    clientY: "@
        + signed_decimal(y as int)
        + ",\n                    deltaX: "@
        + signed_decimal(delta_x as int)
        + ",\n                    deltaY: "@
        + signed_decimal(delta_y as int)
        + ",\n                    deltaMode: 0\n                });\n                el.dispatchEvent(event);\n\n                window.scrollBy("@
        + signed_decimal(delta_x as int)
        + ", "@
        + signed_decimal(delta_y as int)
        + ");\n                return true;\n            })()"@
}

/// The script that `PlatformExecutor::switch_to_frame` runs.
pub open spec fn frame_index_js(index: u32) -> Seq<char> {
    "(function() {\n                        var frames = document.querySelectorAll('iframe, frame');\n                        if ("@
        + decimal(index as nat)
        + " >= frames.length) {\n                            throw new Error('no such frame');\n                        }\n                        return true;\n                    })()"@
}

/// The script that `PlatformExecutor::switch_to_frame` runs.
pub open spec fn frame_element_js(js_var: Seq<char>) -> Seq<char> {
    "(function() {\n                        var el = window."@
        + js_var
        + ";\n                        if (!el || !document.contains(el)) {\n                            throw new Error('stale element reference');\n                        }\n                        if (el.tagName !== 'IFRAME' && el.tagName !== 'FRAME') {\n                            throw new Error('element is not a frame');\n                        }\n                        return true;\n                    })()"@
}

/// The script that `PlatformExecutor::delete_cookie` runs.
pub open spec fn delete_cookie_js(name: Seq<char>) -> Seq<char> {
    "document.cookie = '"@
        + escaped(EscapeStyle::QuoteOnly, name)
        + "=; expires=Thu, 01 Jan 1970 00:00:00 GMT; path=/'; true"@
}

/// The script that `take_element_screenshot` runs.
pub open spec fn scroll_into_view_js(js_var: Seq<char>) -> Seq<char> {
    "(function() {\n                var el = window."@
        + js_var
        + ";\n                if (!el || !document.contains(el)) {\n                    throw new Error('stale element reference');\n                }\n                el.scrollIntoView({ block: 'center', inline: 'center' });\n                return true;\n            })()"@
}

/// The script that `MacOSExecutor::take_element_screenshot` runs.
pub open spec fn element_bounds_js(js_var: Seq<char>) -> Seq<char> {
    "(function() {\n                var el = window."@
        + js_var
        + ";\n                if (!el || !document.contains(el)) {\n                    throw new Error('stale element reference');\n                }\n\n                // Use html2canvas-like approach if available, otherwise scroll into view\n                el.scrollIntoView({ block: 'center', inline: 'center' });\n\n                // Return element bounds for clipping\n                var rect = el.getBoundingClientRect();\n                return {\n                    x: rect.x,\n                    y: rect.y,\n                    width: rect.width,\n                    height: rect.height\n                };\n            })()"@
}

/// The script that `AndroidExecutor::take_element_screenshot` runs.
pub open spec fn android_scroll_into_view_js(js_var: Seq<char>) -> Seq<char> {
    "(function() {\n                var el = window."@
        + js_var
        + ";\n                if (!el || !el.isConnected) {\n                    throw new Error('stale element reference');\n                }\n                el.scrollIntoView({ block: 'center', inline: 'center' });\n                return true;\n            })()"@
}

/// The script that `AndroidExecutor::execute_async_script` runs.
pub open spec fn android_async_script_js(script: Seq<char>, args_json: Seq<char>) -> Seq<char> {
    "(function() {\n                var ELEMENT_KEY = 'element-6066-11e4-a52e-4f735466cecf';\n                function deserializeArg(arg) {\n                    if (arg === null || arg === undefined) return arg;\n                    if (Array.isArray(arg)) return arg.map(deserializeArg);\n                    if (typeof arg === 'object') {\n                        if (arg[ELEMENT_KEY]) {\n                            var el = window['__wd_el_' + arg[ELEMENT_KEY].replace(/-/g, '')];\n                            if (!el) throw new Error('stale element reference');\n                            return el;\n                        }\n                        var result = {};\n                        for (var key in arg) {\n                            if (arg.hasOwnProperty(key)) result[key] = deserializeArg(arg[key]);\n                        }\n                        return result;\n                    }\n                    return arg;\n                }\n                var __args = "@
        + args_json
        + ".map(deserializeArg);\n                __args.push(__done);\n                try {\n                    (function() { "@
        + script
        + " }).apply(null, __args);\n                } catch (e) {\n                    __done(null, e.message || String(e));\n                }\n            })()"@
}

/// The script that `MacOSExecutor::execute_async_script` runs.
pub open spec fn macos_async_script_js(script: Seq<char>, args_json: Seq<char>, handler_name: Seq<char>, async_id: Seq<char>) -> Seq<char> {
    "(function() {\n                var ELEMENT_KEY = 'element-6066-11e4-a52e-4f735466cecf';\n                function deserializeArg(arg) {\n                    if (arg === null || arg === undefined) return arg;\n                    if (Array.isArray(arg)) return arg.map(deserializeArg);\n                    if (typeof arg === 'object') {\n                        if (arg[ELEMENT_KEY]) {\n                            var el = window['__wd_el_' + arg[ELEMENT_KEY].replace(/-/g, '')];\n                            if (!el) throw new Error('stale element reference');\n                            return el;\n                        }\n                        var result = {};\n                        for (var key in arg) {\n                            if (arg.hasOwnProperty(key)) result[key] = deserializeArg(arg[key]);\n                        }\n                        return result;\n                    }\n                    return arg;\n                }\n                var __done = function(r) {\n                    window.webkit.messageHandlers."@
        + handler_name
        + ".postMessage({\n                        id: '"@
        + async_id
        + "',\n                        result: r,\n                        error: null\n                    });\n                };\n                var __args = "@
        + args_json
        + ".map(deserializeArg);\n                __args.push(__done);\n                try {\n                    (function() { "@
        + script
        + " }).apply(null, __args);\n                } catch (e) {\n                    window.webkit.messageHandlers."@
        + handler_name
        + ".postMessage({\n                        id: '"@
        + async_id
        + "',\n                        result: null,\n                        error: e.message || String(e)\n                    });\n                }\n            })()"@
}

/// The script that `PlatformExecutor::dispatch_pointer_event` runs.
pub open spec fn pointer_event_js(event_type: PointerEventType, x: i32, y: i32, button: u32) -> Seq<char> {
    "(function() {\n                var el = document.elementFromPoint("@
        + signed_decimal(x as int)
        + ", "@
        + signed_decimal(y as int)
        + ");\n                if (!el) el = document.body;\n\n                var event = new MouseEvent('"@
        + pointer_event_name(event_type)
        + "', {\n                    bubbles: true,\n                    cancelable: true,\n                    clientX: "@
        + signed_decimal(x as int)
        + ",\n                    clientY: "@
        + signed_decimal(y as int)
        + ",\n                    button: "@
        + decimal(button as nat)
        + ",\n                    buttons: "@
        + signed_decimal(pointer_buttons(event_type, button) as int)
        + "\n                });\n                el.dispatchEvent(event);\n                return true;\n            })()"@
}

/// The script that `AndroidExecutor::dispatch_key_event` runs.
pub open spec fn special_key_event_js(event_type: Seq<char>, js_key: Seq<char>, js_code: Seq<char>, key_code: u32) -> Seq<char> {
    "(function() {\n                var event = new KeyboardEvent('"@
        + event_type
        + "', {\n                    key: '"@
        + js_key
        + "',\n                    code: '"@
        + js_code
        + "',\n                    keyCode: "@
        + decimal(key_code as nat)
        + ",\n                    which: "@
        + decimal(key_code as nat)
        + ",\n                    bubbles: true,\n                    cancelable: true\n                });\n                var activeEl = document.activeElement || document.body;\n                activeEl.dispatchEvent(event);\n                return true;\n            })()"@
}

/// The script that `AndroidExecutor::dispatch_regular_key` runs.
pub open spec fn regular_key_down_js(key: Seq<char>, code: Seq<char>, key_code: u32, ctrl_key: bool, meta_key: bool, shift_key: bool, alt_key: bool) -> Seq<char> {
    "(function() {\n                    var activeEl = document.activeElement || document.body;\n\n                    var keydownEvent = new KeyboardEvent('keydown', {\n                        key: '"@
        + escaped(EscapeStyle::SingleQuoted, key)
        + "',\n                        code: '"@
        + escaped(EscapeStyle::SingleQuoted, code)
        + "',\n                        keyCode: "@
        + decimal(key_code as nat)
        + ",\n                        which: "@
        + decimal(key_code as nat)
        + ",\n                        ctrlKey: "@
        + bool_text(ctrl_key)
        + ",\n                        metaKey: "@
        + bool_text(meta_key)
        + ",\n                        shiftKey: "@
        + bool_text(shift_key)
        + ",\n                        altKey: "@
        + bool_text(alt_key)
        + ",\n                        bubbles: true,\n                        cancelable: true\n                    });\n                    activeEl.dispatchEvent(keydownEvent);\n\n                    if (!"@
        + bool_text(ctrl_key)
        + " && !"@
        + bool_text(meta_key)
        + " && !"@
        + bool_text(alt_key)
        + ") {\n                        if (activeEl.tagName === 'INPUT' || activeEl.tagName === 'TEXTAREA') {\n                            var nativeInputValueSetter = Object.getOwnPropertyDescriptor(\n                                activeEl.tagName === 'INPUT'\n                                    ? window.HTMLInputElement.prototype\n                                    : window.HTMLTextAreaElement.prototype,\n                                'value'\n                            ).set;\n\n                            var newValue = activeEl.value + '"@
        + escaped(EscapeStyle::SingleQuoted, key)
        + "';\n                            nativeInputValueSetter.call(activeEl, newValue);\n\n                            var inputEvent = new InputEvent('input', {\n                                bubbles: true,\n                                cancelable: true,\n                                inputType: 'insertText',\n                                data: '"@
        + escaped(EscapeStyle::SingleQuoted, key)
        + "'\n                            });\n                            activeEl.dispatchEvent(inputEvent);\n                        }\n                    }\n\n                    return true;\n                })()"@
}

/// The script that `AndroidExecutor::dispatch_regular_key` runs.
pub open spec fn regular_key_up_js(event_type: Seq<char>, key: Seq<char>, code: Seq<char>, key_code: u32, ctrl_key: bool, meta_key: bool, shift_key: bool, alt_key: bool) -> Seq<char> {
    "(function() {\n                    var activeEl = document.activeElement || document.body;\n                    var event = new KeyboardEvent('"@
        + event_type
        + "', {\n                        key: '"@
        + escaped(EscapeStyle::SingleQuoted, key)
        + "',\n                        code: '"@
        + escaped(EscapeStyle::SingleQuoted, code)
        + "',\n                        keyCode: "@
        + decimal(key_code as nat)
        + ",\n                        which: "@
        + decimal(key_code as nat)
        + ",\n                        ctrlKey: "@
        + bool_text(ctrl_key)
        + ",\n                        metaKey: "@
        + bool_text(meta_key)
        + ",\n                        shiftKey: "@
        + bool_text(shift_key)
        + ",\n                        altKey: "@
        + bool_text(alt_key)
        + ",\n                        bubbles: true,\n                        cancelable: true\n                    });\n                    activeEl.dispatchEvent(event);\n                    return true;\n                })()"@
}

/// The script that `handlers::element::find_all` runs.
pub open spec fn collect_elements_js(selector_js: Seq<char>) -> Seq<char> {
    "\n                var els = "@
        + selector_js
        + ";\n                window.__wd_temp_els = els;\n                return els ? els.length : 0;\n                "@
}

/// The script that `handlers::element::find_all` runs.
pub open spec fn store_collected_element_js(js_var: Seq<char>, i: usize) -> Seq<char> {
    "window."@
        + js_var
        + " = window.__wd_temp_els["@
        + decimal(i as nat)
        + "]; return true;"@
}

/// Builds the script that `PlatformExecutor::navigate` runs.
pub fn navigate_script(url: &str) -> (js: String)
    ensures
        js@ == navigate_js(url@),
{
    let escaped_url = escape(EscapeStyle::SingleQuoted, url);
    let mut js = String::new();
    js.append("window.location.href = '");
    js.append(escaped_url.as_str());
    js.append("'; null;");
    proof {
        assert(js@ =~= navigate_js(url@));
    }
    js
}

/// Builds the script that `PlatformExecutor::find_element` runs.
pub fn find_element_script(strategy_js: &str, js_var: &str) -> (js: String)
    ensures
        js@ == find_element_js(strategy_js@, js_var@),
{
    let mut js = String::new();
    js.append("(function() {\n                var el = ");
    js.append(strategy_js);
    js.append(";\n                if (el) {\n                    window.");
    js.append(js_var);
    js.append(" = el;\n                    return true;\n                }\n                return false;\n            })()");
    proof {
        assert(js@ =~= find_element_js(strategy_js@, js_var@));
    }
    js
}

/// Builds the script that `PlatformExecutor::find_elements` runs.
pub fn find_elements_script(strategy_js: &str, js_var_prefix: &str) -> (js: String)
    ensures
        js@ == find_elements_js(strategy_js@, js_var_prefix@),
{
    let mut js = String::new();
    js.append("(function() {\n                var elements = ");
    js.append(strategy_js);
    js.append(";\n                var count = elements.length;\n                for (var i = 0; i < count; i++) {\n                    window['");
    js.append(js_var_prefix);
    js.append("' + i] = elements[i];\n                }\n                return count;\n            })()");
    proof {
        assert(js@ =~= find_elements_js(strategy_js@, js_var_prefix@));
    }
    js
}

/// Builds the script that `PlatformExecutor::find_element_from_element` runs.
pub fn find_element_from_element_script(parent_js_var: &str, strategy_js: &str, js_var: &str) -> (js: String)
    ensures
        js@ == find_element_from_element_js(parent_js_var@, strategy_js@, js_var@),
{
    let mut js = String::new();
    js.append("(function() {\n                var parent = window.");
    js.append(parent_js_var);
    js.append(";\n                if (!parent || !document.contains(parent)) {\n                    throw new Error('stale element reference');\n                }\n                var el = ");
    js.append(strategy_js);
    js.append(";\n                if (el) {\n                    window.");
    js.append(js_var);
    js.append(" = el;\n                    return true;\n                }\n                return false;\n            })()");
    proof {
        assert(js@ =~= find_element_from_element_js(parent_js_var@, strategy_js@, js_var@));
    }
    js
}

/// Builds the script that `PlatformExecutor::find_elements_from_element` runs.
pub fn find_elements_from_element_script(parent_js_var: &str, strategy_js: &str, js_var_prefix: &str) -> (js: String)
    ensures
        js@ == find_elements_from_element_js(parent_js_var@, strategy_js@, js_var_prefix@),
{
    let mut js = String::new();
    js.append("(function() {\n                var parent = window.");
    js.append(parent_js_var);
    js.append(";\n                if (!parent || !document.contains(parent)) {\n                    throw new Error('stale element reference');\n                }\n                var elements = ");
    js.append(strategy_js);
    js.append(";\n                var count = elements.length;\n                for (var i = 0; i < count; i++) {\n                    window['");
    js.append(js_var_prefix);
    js.append("' + i] = elements[i];\n                }\n                return count;\n            })()");
    proof {
        assert(js@ =~= find_elements_from_element_js(parent_js_var@, strategy_js@, js_var_prefix@));
    }
    js
}

/// Builds the script that `PlatformExecutor::get_element_text` runs.
pub fn element_text_script(js_var: &str) -> (js: String)
    ensures
        js@ == element_text_js(js_var@),
{
    let mut js = String::new();
    js.append("(function() {\n                var el = window.");
    js.append(js_var);
    js.append(";\n                if (!el || !document.contains(el)) {\n                    throw new Error('stale element reference');\n                }\n                return el.textContent || '';\n            })()");
    proof {
        assert(js@ =~= element_text_js(js_var@));
    }
    js
}

/// Builds the script that `PlatformExecutor::get_element_tag_name` runs.
pub fn element_tag_name_script(js_var: &str) -> (js: String)
    ensures
        js@ == element_tag_name_js(js_var@),
{
    let mut js = String::new();
    js.append("(function() {\n                var el = window.");
    js.append(js_var);
    js.append(";\n                if (!el || !document.contains(el)) {\n                    throw new Error('stale element reference');\n                }\n                return el.tagName.toLowerCase();\n            })()");
    proof {
        assert(js@ =~= element_tag_name_js(js_var@));
    }
    js
}

/// Builds the script that `PlatformExecutor::get_element_attribute` runs.
pub fn element_attribute_script(js_var: &str, name: &str) -> (js: String)
    ensures
        js@ == element_attribute_js(js_var@, name@),
{
    let escaped_name = escape(EscapeStyle::SingleQuoted, name);
    let mut js = String::new();
    js.append("(function() {\n                var el = window.");
    js.append(js_var);
    js.append(";\n                if (!el || !document.contains(el)) {\n                    throw new Error('stale element reference');\n                }\n                return el.getAttribute('");
    js.append(escaped_name.as_str());
    js.append("');\n            })()");
    proof {
        assert(js@ =~= element_attribute_js(js_var@, name@));
    }
    js
}

/// Builds the script that `PlatformExecutor::get_element_property` runs.
pub fn element_property_script(js_var: &str, name: &str) -> (js: String)
    ensures
        js@ == element_property_js(js_var@, name@),
{
    let escaped_name = escape(EscapeStyle::SingleQuoted, name);
    let mut js = String::new();
    js.append("(function() {\n                var el = window.");
    js.append(js_var);
    js.append(";\n                if (!el || !document.contains(el)) {\n                    throw new Error('stale element reference');\n                }\n                return el['");
    js.append(escaped_name.as_str());
    js.append("'];\n            })()");
    proof {
        assert(js@ =~= element_property_js(js_var@, name@));
    }
    js
}

/// Builds the script that `PlatformExecutor::get_element_css_value` runs.
pub fn element_css_value_script(js_var: &str, property: &str) -> (js: String)
    ensures
        js@ == element_css_value_js(js_var@, property@),
{
    let escaped_prop = escape(EscapeStyle::SingleQuoted, property);
    let mut js = String::new();
    js.append("(function() {\n                var el = window.");
    js.append(js_var);
    js.append(";\n                if (!el || !document.contains(el)) {\n                    throw new Error('stale element reference');\n                }\n                return window.getComputedStyle(el).getPropertyValue('");
    js.append(escaped_prop.as_str());
    js.append("');\n            })()");
    proof {
        assert(js@ =~= element_css_value_js(js_var@, property@));
    }
    js
}

/// Builds the script that `PlatformExecutor::get_element_rect` runs.
pub fn element_rect_script(js_var: &str) -> (js: String)
    ensures
        js@ == element_rect_js(js_var@),
{
    let mut js = String::new();
    js.append("(function() {\n                var el = window.");
    js.append(js_var);
    js.append(";\n                if (!el || !document.contains(el)) {\n                    throw new Error('stale element reference');\n                }\n                var rect = el.getBoundingClientRect();\n                return {\n                    x: rect.x + window.scrollX,\n                    y: rect.y + window.scrollY,\n                    width: rect.width,\n                    height: rect.height\n                };\n            })()");
    proof {
        assert(js@ =~= element_rect_js(js_var@));
    }
    js
}

/// Builds the script that `PlatformExecutor::is_element_displayed` runs.
pub fn element_displayed_script(js_var: &str) -> (js: String)
    ensures
        js@ == element_displayed_js(js_var@),
{
    let mut js = String::new();
    js.append("(function() {\n                var el = window.");
    js.append(js_var);
    js.append(";\n                if (!el || !document.contains(el)) {\n                    throw new Error('stale element reference');\n                }\n                var style = window.getComputedStyle(el);\n                return style.display !== 'none' && style.visibility !== 'hidden' && el.offsetParent !== null;\n            })()");
    proof {
        assert(js@ =~= element_displayed_js(js_var@));
    }
    js
}

/// Builds the script that `PlatformExecutor::is_element_enabled` runs.
pub fn element_enabled_script(js_var: &str) -> (js: String)
    ensures
        js@ == element_enabled_js(js_var@),
{
    let mut js = String::new();
    js.append("(function() {\n                var el = window.");
    js.append(js_var);
    js.append(";\n                if (!el || !document.contains(el)) {\n                    throw new Error('stale element reference');\n                }\n                return !el.disabled;\n            })()");
    proof {
        assert(js@ =~= element_enabled_js(js_var@));
    }
    js
}

/// Builds the script that `PlatformExecutor::is_element_selected` runs.
pub fn element_selected_script(js_var: &str) -> (js: String)
    ensures
        js@ == element_selected_js(js_var@),
{
    let mut js = String::new();
    js.append("(function() {\n                var el = window.");
    js.append(js_var);
    js.append(";\n                if (!el || !document.contains(el)) {\n                    throw new Error('stale element reference');\n                }\n                if (el.tagName === 'INPUT' && (el.type === 'checkbox' || el.type === 'radio')) {\n                    return el.checked;\n                }\n                if (el.tagName === 'OPTION') {\n                    return el.selected;\n                }\n                return false;\n            })()");
    proof {
        assert(js@ =~= element_selected_js(js_var@));
    }
    js
}

/// Builds the script that `PlatformExecutor::click_element` runs.
pub fn click_element_script(js_var: &str) -> (js: String)
    ensures
        js@ == click_element_js(js_var@),
{
    let mut js = String::new();
    js.append("(function() {\n                var el = window.");
    js.append(js_var);
    js.append(";\n                if (!el || !document.contains(el)) {\n                    throw new Error('stale element reference');\n                }\n                el.scrollIntoView({ block: 'center', inline: 'center' });\n                el.click();\n                return true;\n            })()");
    proof {
        assert(js@ =~= click_element_js(js_var@));
    }
    js
}

/// Builds the script that `PlatformExecutor::clear_element` runs.
pub fn clear_element_script(js_var: &str) -> (js: String)
    ensures
        js@ == clear_element_js(js_var@),
{
    let mut js = String::new();
    js.append("(function() {\n                var el = window.");
    js.append(js_var);
    js.append(";\n                if (!el || !document.contains(el)) {\n                    throw new Error('stale element reference');\n                }\n                el.focus();\n                if (el.tagName === 'INPUT' || el.tagName === 'TEXTAREA') {\n                    var nativeInputValueSetter = Object.getOwnPropertyDescriptor(\n                        el.tagName === 'INPUT' ? window.HTMLInputElement.prototype : window.HTMLTextAreaElement.prototype,\n                        'value'\n                    ).set;\n                    nativeInputValueSetter.call(el, '');\n                    var inputEvent = new InputEvent('input', {\n                        bubbles: true,\n                        cancelable: true,\n                        inputType: 'deleteContentBackward'\n                    });\n                    el.dispatchEvent(inputEvent);\n                    var changeEvent = new Event('change', { bubbles: true });\n                    el.dispatchEvent(changeEvent);\n                } else if (el.isContentEditable) {\n                    el.innerHTML = '';\n                }\n                return true;\n            })()");
    proof {
        assert(js@ =~= clear_element_js(js_var@));
    }
    js
}

/// Builds the script that `PlatformExecutor::send_keys_to_element` runs.
pub fn send_keys_script(js_var: &str, text: &str) -> (js: String)
    ensures
        js@ == send_keys_js(js_var@, text@),
{
    let escaped = escape(EscapeStyle::Template, text);
    let mut js = String::new();
    js.append("(function() {\n                var el = window.");
    js.append(js_var);
    js.append(";\n                if (!el || !document.contains(el)) {\n                    throw new Error('stale element reference');\n                }\n                el.focus();\n\n                if (el.tagName === 'INPUT' || el.tagName === 'TEXTAREA') {\n                    var nativeInputValueSetter = Object.getOwnPropertyDescriptor(\n                        el.tagName === 'INPUT' ? window.HTMLInputElement.prototype : window.HTMLTextAreaElement.prototype,\n                        'value'\n                    ).set;\n\n                    var newValue = el.value + `");
    js.append(escaped.as_str());
    js.append("`;\n                    nativeInputValueSetter.call(el, newValue);\n\n                    var inputEvent = new InputEvent('input', {\n                        bubbles: true,\n                        cancelable: true,\n                        inputType: 'insertText',\n                        data: `");
    js.append(escaped.as_str());
    js.append("`\n                    });\n                    el.dispatchEvent(inputEvent);\n\n                    var changeEvent = new Event('change', { bubbles: true });\n                    el.dispatchEvent(changeEvent);\n                } else if (el.isContentEditable) {\n                    document.execCommand('insertText', false, `");
    js.append(escaped.as_str());
    js.append("`);\n                }\n                return true;\n            })()");
    proof {
        assert(js@ =~= send_keys_js(js_var@, text@));
    }
    js
}

/// Builds the script that `PlatformExecutor::get_active_element` runs.
pub fn active_element_script(js_var: &str) -> (js: String)
    ensures
        js@ == active_element_js(js_var@),
{
    let mut js = String::new();
    js.append("(function() {\n                var el = document.activeElement;\n                if (el && el !== document.body) {\n                    window.");
    js.append(js_var);
    js.append(" = el;\n                    return true;\n                }\n                return false;\n            })()");
    proof {
        assert(js@ =~= active_element_js(js_var@));
    }
    js
}

/// Builds the script that `PlatformExecutor::get_element_computed_role` runs.
pub fn computed_role_script(js_var: &str) -> (js: String)
    ensures
        js@ == computed_role_js(js_var@),
{
    let mut js = String::new();
    js.append("(function() {\n                var el = window.");
    js.append(js_var);
    js.append(";\n                if (!el || !document.contains(el)) {\n                    throw new Error('stale element reference');\n                }\n                return el.computedRole || el.getAttribute('role') || '';\n            })()");
    proof {
        assert(js@ =~= computed_role_js(js_var@));
    }
    js
}

/// Builds the script that `PlatformExecutor::get_element_computed_label` runs.
pub fn computed_label_script(js_var: &str) -> (js: String)
    ensures
        js@ == computed_label_js(js_var@),
{
    let mut js = String::new();
    js.append("(function() {\n                var el = window.");
    js.append(js_var);
    js.append(";\n                if (!el || !document.contains(el)) {\n                    throw new Error('stale element reference');\n                }\n                return el.computedName || el.getAttribute('aria-label') || el.innerText || '';\n            })()");
    proof {
        assert(js@ =~= computed_label_js(js_var@));
    }
    js
}

/// Builds the script that `PlatformExecutor::get_element_shadow_root` runs.
pub fn shadow_root_script(js_var: &str, shadow_var: &str) -> (js: String)
    ensures
        js@ == shadow_root_js(js_var@, shadow_var@),
{
    let mut js = String::new();
    js.append("(function() {\n                var el = window.");
    js.append(js_var);
    js.append(";\n                if (!el || !document.contains(el)) {\n                    throw new Error('stale element reference');\n                }\n                var shadow = el.shadowRoot;\n                if (shadow) {\n                    window.");
    js.append(shadow_var);
    js.append(" = shadow;\n                    return true;\n                }\n                return false;\n            })()");
    proof {
        assert(js@ =~= shadow_root_js(js_var@, shadow_var@));
    }
    js
}

/// Builds the script that `PlatformExecutor::find_element_from_shadow` runs.
pub fn find_element_from_shadow_script(shadow_var: &str, strategy_js: &str, js_var: &str) -> (js: String)
    ensures
        js@ == find_element_from_shadow_js(shadow_var@, strategy_js@, js_var@),
{
    let mut js = String::new();
    js.append("(function() {\n                var shadow = window.");
    js.append(shadow_var);
    js.append(";\n                if (!shadow) {\n                    throw new Error('no such shadow root');\n                }\n                var el = ");
    js.append(strategy_js);
    js.append(";\n                if (el) {\n                    window.");
    js.append(js_var);
    js.append(" = el;\n                    return true;\n                }\n                return false;\n            })()");
    proof {
        assert(js@ =~= find_element_from_shadow_js(shadow_var@, strategy_js@, js_var@));
    }
    js
}

/// Builds the script that `PlatformExecutor::find_elements_from_shadow` runs.
pub fn find_elements_from_shadow_script(shadow_var: &str, strategy_js: &str, js_var_prefix: &str) -> (js: String)
    ensures
        js@ == find_elements_from_shadow_js(shadow_var@, strategy_js@, js_var_prefix@),
{
    let mut js = String::new();
    js.append("(function() {\n                var shadow = window.");
    js.append(shadow_var);
    js.append(";\n                if (!shadow) {\n                    throw new Error('no such shadow root');\n                }\n                var elements = ");
    js.append(strategy_js);
    js.append(";\n                var count = elements.length;\n                for (var i = 0; i < count; i++) {\n                    window['");
    js.append(js_var_prefix);
    js.append("' + i] = elements[i];\n                }\n                return count;\n            })()");
    proof {
        assert(js@ =~= find_elements_from_shadow_js(shadow_var@, strategy_js@, js_var_prefix@));
    }
    js
}

/// Builds the script that `PlatformExecutor::execute_script` runs.
pub fn execute_script_source(script: &str, args_json: &str) -> (js: String)
    ensures
        js@ == execute_script_js(script@, args_json@),
{
    let mut js = String::new();
    js.append("(function() {\n                var ELEMENT_KEY = 'element-6066-11e4-a52e-4f735466cecf';\n                function deserializeArg(arg) {\n                    if (arg === null || arg === undefined) return arg;\n                    if (Array.isArray(arg)) return arg.map(deserializeArg);\n                    if (typeof arg === 'object') {\n                        if (arg[ELEMENT_KEY]) {\n                            var el = window['__wd_el_' + arg[ELEMENT_KEY].replace(/-/g, '')];\n                            if (!el) throw new Error('stale element reference');\n                            return el;\n                        }\n                        var result = {};\n                        for (var key in arg) {\n                            if (arg.hasOwnProperty(key)) result[key] = deserializeArg(arg[key]);\n                        }\n                        return result;\n                    }\n                    return arg;\n                }\n                var args = ");
    js.append(args_json);
    js.append(".map(deserializeArg);\n                var fn = function() { ");
    js.append(script);
    js.append(" };\n                return fn.apply(null, args);\n            })()");
    proof {
        assert(js@ =~= execute_script_js(script@, args_json@));
    }
    js
}

/// Builds the script that `PlatformExecutor::execute_async_script` runs.
pub fn execute_async_script_source(script: &str, args_json: &str) -> (js: String)
    ensures
        js@ == execute_async_script_js(script@, args_json@),
{
    let mut js = String::new();
    js.append("new Promise(function(resolve, reject) {\n                try {\n                    var ELEMENT_KEY = 'element-6066-11e4-a52e-4f735466cecf';\n                    function deserializeArg(arg) {\n                        if (arg === null || arg === undefined) return arg;\n                        if (Array.isArray(arg)) return arg.map(deserializeArg);\n                        if (typeof arg === 'object') {\n                            if (arg[ELEMENT_KEY]) {\n                                var el = window['__wd_el_' + arg[ELEMENT_KEY].replace(/-/g, '')];\n                                if (!el) throw new Error('stale element reference');\n                                return el;\n                            }\n                            var result = {};\n                            for (var key in arg) {\n                                if (arg.hasOwnProperty(key)) result[key] = deserializeArg(arg[key]);\n                            }\n                            return result;\n                        }\n                        return arg;\n                    }\n                    var args = ");
    js.append(args_json);
    js.append(".map(deserializeArg);\n                    args.push(function(result) { resolve(result); });\n                    var fn = function() { ");
    js.append(script);
    js.append(" };\n                    fn.apply(null, args);\n                } catch (e) {\n                    reject(e);\n                }\n            })");
    proof {
        assert(js@ =~= execute_async_script_js(script@, args_json@));
    }
    js
}

/// Builds the script that `PlatformExecutor::dispatch_scroll_event` runs.
pub fn scroll_event_script(x: i32, y: i32, delta_x: i32, delta_y: i32) -> (js: String)
    ensures
        js@ == scroll_event_js(x, y, delta_x, delta_y),
{
    let x_text = decimal_i64(x as i64);
    let y_text = decimal_i64(y as i64);
    let delta_x_text = decimal_i64(delta_x as i64);
    let delta_y_text = decimal_i64(delta_y as i64);
    let mut js = String::new();
    js.append("(function() {\n                var el = document.elementFromPoint(");
    js.append(x_text.as_str());
    js.append(", ");
    js.append(y_text.as_str());
    js.append(");\n                if (!el) el = document.body;\n\n                var event = new WheelEvent('wheel', {\n                    bubbles: true,\n                    cancelable: true,\n                    clientX: ");
    js.append(x_text.as_str());
    js.append(",\n                    clientY: ");
    js.append(y_text.as_str());
    js.append(",\n                    deltaX: ");
    js.append(delta_x_text.as_str());
    js.append(",\n                    deltaY: ");
    js.append(delta_y_text.as_str());
    js.append(",\n                    deltaMode: 0\n                });\n                el.dispatchEvent(event);\n\n                window.scrollBy(");
    js.append(delta_x_text.as_str());
    js.append(", ");
    js.append(delta_y_text.as_str());
    js.append(");\n                return true;\n            })()");
    proof {
        assert(js@ =~= scroll_event_js(x, y, delta_x, delta_y));
    }
    js
}

/// Builds the script that `PlatformExecutor::switch_to_frame` runs.
pub fn frame_index_script(index: u32) -> (js: String)
    ensures
        js@ == frame_index_js(index),
{
    let index_text = decimal_u64(index as u64);
    let mut js = String::new();
    js.append("(function() {\n                        var frames = document.querySelectorAll('iframe, frame');\n                        if (");
    js.append(index_text.as_str());
    js.append(" >= frames.length) {\n                            throw new Error('no such frame');\n                        }\n                        return true;\n                    })()");
    proof {
        assert(js@ =~= frame_index_js(index));
    }
    js
}

/// Builds the script that `PlatformExecutor::switch_to_frame` runs.
pub fn frame_element_script(js_var: &str) -> (js: String)
    ensures
        js@ == frame_element_js(js_var@),
{
    let mut js = String::new();
    js.append("(function() {\n                        var el = window.");
    js.append(js_var);
    js.append(";\n                        if (!el || !document.contains(el)) {\n                            throw new Error('stale element reference');\n                        }\n                        if (el.tagName !== 'IFRAME' && el.tagName !== 'FRAME') {\n                            throw new Error('element is not a frame');\n                        }\n                        return true;\n                    })()");
    proof {
        assert(js@ =~= frame_element_js(js_var@));
    }
    js
}

/// Builds the script that `PlatformExecutor::delete_cookie` runs.
pub fn delete_cookie_script(name: &str) -> (js: String)
    ensures
        js@ == delete_cookie_js(name@),
{
    let escaped_name = escape(EscapeStyle::QuoteOnly, name);
    let mut js = String::new();
    js.append("document.cookie = '");
    js.append(escaped_name.as_str());
    js.append("=; expires=Thu, 01 Jan 1970 00:00:00 GMT; path=/'; true");
    proof {
        assert(js@ =~= delete_cookie_js(name@));
    }
    js
}

/// Builds the script that `take_element_screenshot` runs.
pub fn scroll_into_view_script(js_var: &str) -> (js: String)
    ensures
        js@ == scroll_into_view_js(js_var@),
{
    let mut js = String::new();
    js.append("(function() {\n                var el = window.");
    js.append(js_var);
    js.append(";\n                if (!el || !document.contains(el)) {\n                    throw new Error('stale element reference');\n                }\n                el.scrollIntoView({ block: 'center', inline: 'center' });\n                return true;\n            })()");
    proof {
        assert(js@ =~= scroll_into_view_js(js_var@));
    }
    js
}

/// Builds the script that `MacOSExecutor::take_element_screenshot` runs.
pub fn element_bounds_script(js_var: &str) -> (js: String)
    ensures
        js@ == element_bounds_js(js_var@),
{
    let mut js = String::new();
    js.append("(function() {\n                var el = window.");
    js.append(js_var);
    js.append(";\n                if (!el || !document.contains(el)) {\n                    throw new Error('stale element reference');\n                }\n\n                // Use html2canvas-like approach if available, otherwise scroll into view\n                el.scrollIntoView({ block: 'center', inline: 'center' });\n\n                // Return element bounds for clipping\n                var rect = el.getBoundingClientRect();\n                return {\n                    x: rect.x,\n                    y: rect.y,\n                    width: rect.width,\n                    height: rect.height\n                };\n            })()");
    proof {
        assert(js@ =~= element_bounds_js(js_var@));
    }
    js
}

/// Builds the script that `AndroidExecutor::take_element_screenshot` runs.
pub fn android_scroll_into_view_script(js_var: &str) -> (js: String)
    ensures
        js@ == android_scroll_into_view_js(js_var@),
{
    let mut js = String::new();
    js.append("(function() {\n                var el = window.");
    js.append(js_var);
    js.append(";\n                if (!el || !el.isConnected) {\n                    throw new Error('stale element reference');\n                }\n                el.scrollIntoView({ block: 'center', inline: 'center' });\n                return true;\n            })()");
    proof {
        assert(js@ =~= android_scroll_into_view_js(js_var@));
    }
    js
}

/// Builds the script that `AndroidExecutor::execute_async_script` runs.
pub fn android_async_script_source(script: &str, args_json: &str) -> (js: String)
    ensures
        js@ == android_async_script_js(script@, args_json@),
{
    let mut js = String::new();
    js.append("(function() {\n                var ELEMENT_KEY = 'element-6066-11e4-a52e-4f735466cecf';\n                function deserializeArg(arg) {\n                    if (arg === null || arg === undefined) return arg;\n                    if (Array.isArray(arg)) return arg.map(deserializeArg);\n                    if (typeof arg === 'object') {\n                        if (arg[ELEMENT_KEY]) {\n                            var el = window['__wd_el_' + arg[ELEMENT_KEY].replace(/-/g, '')];\n                            if (!el) throw new Error('stale element reference');\n                            return el;\n                        }\n                        var result = {};\n                        for (var key in arg) {\n                            if (arg.hasOwnProperty(key)) result[key] = deserializeArg(arg[key]);\n                        }\n                        return result;\n                    }\n                    return arg;\n                }\n                var __args = ");
    js.append(args_json);
    js.append(".map(deserializeArg);\n                __args.push(__done);\n                try {\n                    (function() { ");
    js.append(script);
    js.append(" }).apply(null, __args);\n                } catch (e) {\n                    __done(null, e.message || String(e));\n                }\n            })()");
    proof {
        assert(js@ =~= android_async_script_js(script@, args_json@));
    }
    js
}

/// Builds the script that `MacOSExecutor::execute_async_script` runs.
pub fn macos_async_script_source(script: &str, args_json: &str, handler_name: &str, async_id: &str) -> (js: String)
    ensures
        js@ == macos_async_script_js(script@, args_json@, handler_name@, async_id@),
{
    let mut js = String::new();
    js.append("(function() {\n                var ELEMENT_KEY = 'element-6066-11e4-a52e-4f735466cecf';\n                function deserializeArg(arg) {\n                    if (arg === null || arg === undefined) return arg;\n                    if (Array.isArray(arg)) return arg.map(deserializeArg);\n                    if (typeof arg === 'object') {\n                        if (arg[ELEMENT_KEY]) {\n                            var el = window['__wd_el_' + arg[ELEMENT_KEY].replace(/-/g, '')];\n                            if (!el) throw new Error('stale element reference');\n                            return el;\n                        }\n                        var result = {};\n                        for (var key in arg) {\n                            if (arg.hasOwnProperty(key)) result[key] = deserializeArg(arg[key]);\n                        }\n                        return result;\n                    }\n                    return arg;\n                }\n                var __done = function(r) {\n                    window.webkit.messageHandlers.");
    js.append(handler_name);
    js.append(".postMessage({\n                        id: '");
    js.append(async_id);
    js.append("',\n                        result: r,\n                        error: null\n                    });\n                };\n                var __args = ");
    js.append(args_json);
    js.append(".map(deserializeArg);\n                __args.push(__done);\n                try {\n                    (function() { ");
    js.append(script);
    js.append(" }).apply(null, __args);\n                } catch (e) {\n                    window.webkit.messageHandlers.");
    js.append(handler_name);
    js.append(".postMessage({\n                        id: '");
    js.append(async_id);
    js.append("',\n                        result: null,\n                        error: e.message || String(e)\n                    });\n                }\n            })()");
    proof {
        assert(js@ =~= macos_async_script_js(script@, args_json@, handler_name@, async_id@));
    }
    js
}

/// Builds the script that `PlatformExecutor::dispatch_pointer_event` runs.
pub fn pointer_event_script(event_type: PointerEventType, x: i32, y: i32, button: u32) -> (js: String)
    requires
        !(event_type is Down) || button < 32,
    ensures
        js@ == pointer_event_js(event_type, x, y, button),
{
    let event_name = pointer_event_name_str(event_type);
    let buttons_text = decimal_i64(pointer_buttons_value(event_type, button) as i64);
    let x_text = decimal_i64(x as i64);
    let y_text = decimal_i64(y as i64);
    let button_text = decimal_u64(button as u64);
    let mut js = String::new();
    js.append("(function() {\n                var el = document.elementFromPoint(");
    js.append(x_text.as_str());
    js.append(", ");
    js.append(y_text.as_str());
    js.append(");\n                if (!el) el = document.body;\n\n                var event = new MouseEvent('");
    js.append(event_name);
    js.append("', {\n                    bubbles: true,\n                    cancelable: true,\n                    clientX: ");
    js.append(x_text.as_str());
    js.append(",\n                    clientY: ");
    js.append(y_text.as_str());
    js.append(",\n                    button: ");
    js.append(button_text.as_str());
    js.append(",\n                    buttons: ");
    js.append(buttons_text.as_str());
    js.append("\n                });\n                el.dispatchEvent(event);\n                return true;\n            })()");
    proof {
        assert(js@ =~= pointer_event_js(event_type, x, y, button));
    }
    js
}

/// Builds the script that `AndroidExecutor::dispatch_key_event` runs.
pub fn special_key_event_script(event_type: &str, js_key: &str, js_code: &str, key_code: u32) -> (js: String)
    ensures
        js@ == special_key_event_js(event_type@, js_key@, js_code@, key_code),
{
    let key_code_text = decimal_u64(key_code as u64);
    let mut js = String::new();
    js.append("(function() {\n                var event = new KeyboardEvent('");
    js.append(event_type);
    js.append("', {\n                    key: '");
    js.append(js_key);
    js.append("',\n                    code: '");
    js.append(js_code);
    js.append("',\n                    keyCode: ");
    js.append(key_code_text.as_str());
    js.append(",\n                    which: ");
    js.append(key_code_text.as_str());
    js.append(",\n                    bubbles: true,\n                    cancelable: true\n                });\n                var activeEl = document.activeElement || document.body;\n                activeEl.dispatchEvent(event);\n                return true;\n            })()");
    proof {
        assert(js@ =~= special_key_event_js(event_type@, js_key@, js_code@, key_code));
    }
    js
}

/// Builds the script that `AndroidExecutor::dispatch_regular_key` runs.
pub fn regular_key_down_script(key: &str, code: &str, key_code: u32, ctrl_key: bool, meta_key: bool, shift_key: bool, alt_key: bool) -> (js: String)
    ensures
        js@ == regular_key_down_js(key@, code@, key_code, ctrl_key, meta_key, shift_key, alt_key),
{
    let escaped_key = escape(EscapeStyle::SingleQuoted, key);
    let escaped_code = escape(EscapeStyle::SingleQuoted, code);
    let key_code_text = decimal_u64(key_code as u64);
    let ctrl_key_text = bool_string(ctrl_key);
    let meta_key_text = bool_string(meta_key);
    let shift_key_text = bool_string(shift_key);
    let alt_key_text = bool_string(alt_key);
    let mut js = String::new();
    js.append("(function() {\n                    var activeEl = document.activeElement || document.body;\n\n                    var keydownEvent = new KeyboardEvent('keydown', {\n                        key: '");
    js.append(escaped_key.as_str());
    js.append("',\n                        code: '");
    js.append(escaped_code.as_str());
    js.append("',\n                        keyCode: ");
    js.append(key_code_text.as_str());
    js.append(",\n                        which: ");
    js.append(key_code_text.as_str());
    js.append(",\n                        ctrlKey: ");
    js.append(ctrl_key_text.as_str());
    js.append(",\n                        metaKey: ");
    js.append(meta_key_text.as_str());
    js.append(",\n                        shiftKey: ");
    js.append(shift_key_text.as_str());
    js.append(",\n                        altKey: ");
    js.append(alt_key_text.as_str());
    js.append(",\n                        bubbles: true,\n                        cancelable: true\n                    });\n                    activeEl.dispatchEvent(keydownEvent);\n\n                    if (!");
    js.append(ctrl_key_text.as_str());
    js.append(" && !");
    js.append(meta_key_text.as_str());
    js.append(" && !");
    js.append(alt_key_text.as_str());
    js.append(") {\n                        if (activeEl.tagName === 'INPUT' || activeEl.tagName === 'TEXTAREA') {\n                            var nativeInputValueSetter = Object.getOwnPropertyDescriptor(\n                                activeEl.tagName === 'INPUT'\n                                    ? window.HTMLInputElement.prototype\n                                    : window.HTMLTextAreaElement.prototype,\n                                'value'\n                            ).set;\n\n                            var newValue = activeEl.value + '");
    js.append(escaped_key.as_str());
    js.append("';\n                            nativeInputValueSetter.call(activeEl, newValue);\n\n                            var inputEvent = new InputEvent('input', {\n                                bubbles: true,\n                                cancelable: true,\n                                inputType: 'insertText',\n                                data: '");
    js.append(escaped_key.as_str());
    js.append("'\n                            });\n                            activeEl.dispatchEvent(inputEvent);\n                        }\n                    }\n\n                    return true;\n                })()");
    proof {
        assert(js@ =~= regular_key_down_js(key@, code@, key_code, ctrl_key, meta_key, shift_key, alt_key));
    }
    js
}

/// Builds the script that `AndroidExecutor::dispatch_regular_key` runs.
pub fn regular_key_up_script(event_type: &str, key: &str, code: &str, key_code: u32, ctrl_key: bool, meta_key: bool, shift_key: bool, alt_key: bool) -> (js: String)
    ensures
        js@ == regular_key_up_js(event_type@, key@, code@, key_code, ctrl_key, meta_key, shift_key, alt_key),
{
    let escaped_key = escape(EscapeStyle::SingleQuoted, key);
    let escaped_code = escape(EscapeStyle::SingleQuoted, code);
    let key_code_text = decimal_u64(key_code as u64);
    let ctrl_key_text = bool_string(ctrl_key);
    let meta_key_text = bool_string(meta_key);
    let shift_key_text = bool_string(shift_key);
    let alt_key_text = bool_string(alt_key);
    let mut js = String::new();
    js.append("(function() {\n                    var activeEl = document.activeElement || document.body;\n                    var event = new KeyboardEvent('");
    js.append(event_type);
    js.append("', {\n                        key: '");
    js.append(escaped_key.as_str());
    js.append("',\n                        code: '");
    js.append(escaped_code.as_str());
    js.append("',\n                        keyCode: ");
    js.append(key_code_text.as_str());
    js.append(",\n                        which: ");
    js.append(key_code_text.as_str());
    js.append(",\n                        ctrlKey: ");
    js.append(ctrl_key_text.as_str());
    js.append(",\n                        metaKey: ");
    js.append(meta_key_text.as_str());
    js.append(",\n                        shiftKey: ");
    js.append(shift_key_text.as_str());
    js.append(",\n                        altKey: ");
    js.append(alt_key_text.as_str());
    js.append(",\n                        bubbles: true,\n                        cancelable: true\n                    });\n                    activeEl.dispatchEvent(event);\n                    return true;\n                })()");
    proof {
        assert(js@ =~= regular_key_up_js(event_type@, key@, code@, key_code, ctrl_key, meta_key, shift_key, alt_key));
    }
    js
}

/// Builds the script that `handlers::element::find_all` runs.
pub fn collect_elements_script(selector_js: &str) -> (js: String)
    ensures
        js@ == collect_elements_js(selector_js@),
{
    let mut js = String::new();
    js.append("\n                var els = ");
    js.append(selector_js);
    js.append(";\n                window.__wd_temp_els = els;\n                return els ? els.length : 0;\n                ");
    proof {
        assert(js@ =~= collect_elements_js(selector_js@));
    }
    js
}

/// Builds the script that `handlers::element::find_all` runs.
pub fn store_collected_element_script(js_var: &str, i: usize) -> (js: String)
    ensures
        js@ == store_collected_element_js(js_var@, i),
{
    let i_text = decimal_u64(i as u64);
    let mut js = String::new();
    js.append("window.");
    js.append(js_var);
    js.append(" = window.__wd_temp_els[");
    js.append(i_text.as_str());
    js.append("]; return true;");
    proof {
        assert(js@ =~= store_collected_element_js(js_var@, i));
    }
    js
}
/// An optional cookie attribute: the label and the value when there is one, nothing otherwise.
pub open spec fn cookie_attr(label: Seq<char>, v: Option<String>) -> Seq<char> {
    match v {
        Some(s) => label + s@,
        None => Seq::empty(),
    }
}

/// The `document.cookie` assignment text for a cookie: `name=value`, then the path, the
/// domain, the `secure` and `httponly` flags, the expiry and the same-site policy, each
/// only when set.
pub open spec fn cookie_text(c: Cookie) -> Seq<char> {
    c.name@ + "="@ + c.value@ + cookie_attr("; path="@, c.path) + cookie_attr("; domain="@, c.domain)
        + (if c.secure {
        "; secure"@
    } else {
        Seq::empty()
    }) + (if c.http_only {
        "; httponly"@
    } else {
        Seq::empty()
    }) + (match c.expiry {
        Some(n) => "; expires="@ + decimal(n as nat),
        None => Seq::empty(),
    }) + cookie_attr("; samesite="@, c.same_site)
}

/// The script that `PlatformExecutor::add_cookie` runs.
pub open spec fn add_cookie_js(c: Cookie) -> Seq<char> {
    "document.cookie = '"@ + escaped(EscapeStyle::QuoteOnly, cookie_text(c)) + "'; true"@
}

fn append_attr(s: &mut String, label: &str, v: &Option<String>)
    ensures
        final(s)@ == old(s)@ + cookie_attr(label@, *v),
{
    match v {
        Some(value) => {
            s.append(label);
            s.append(value.as_str());
        },
        None => {
            proof {
                assert(s@ =~= s@ + Seq::<char>::empty());
            }
        },
    }
}

/// Builds the `document.cookie` assignment text for a cookie.
pub fn cookie_string(c: &Cookie) -> (text: String)
    ensures
        text@ == cookie_text(*c),
{
    let mut s = String::new();
    s.append(c.name.as_str());
    s.append("=");
    s.append(c.value.as_str());
    let ghost base = s@;
    append_attr(&mut s, "; path=", &c.path);
    append_attr(&mut s, "; domain=", &c.domain);
    let ghost with_domain = s@;
    if c.secure {
        s.append("; secure");
    }
    let ghost with_secure = s@;
    if c.http_only {
        s.append("; httponly");
    }
    let ghost with_http_only = s@;
    match c.expiry {
        Some(n) => {
            let digits = decimal_u64(n);
            s.append("; expires=");
            s.append(digits.as_str());
        },
        None => {},
    }
    let ghost with_expiry = s@;
    append_attr(&mut s, "; samesite=", &c.same_site);
    proof {
        let secure_part: Seq<char> = if c.secure { "; secure"@ } else { Seq::empty() };
        let http_part: Seq<char> = if c.http_only { "; httponly"@ } else { Seq::empty() };
        let exp_part: Seq<char> = match c.expiry {
            Some(n) => "; expires="@ + decimal(n as nat),
            None => Seq::empty(),
        };
        assert(with_secure =~= with_domain + secure_part);
        assert(with_http_only =~= with_secure + http_part);
        assert(with_expiry =~= with_http_only + exp_part);
        assert(s@ =~= cookie_text(*c));
    }
    s
}

/// Builds the script that `PlatformExecutor::add_cookie` runs.
pub fn add_cookie_script(c: &Cookie) -> (js: String)
    ensures
        js@ == add_cookie_js(*c),
{
    let text = cookie_string(c);
    let escaped_text = escape(EscapeStyle::QuoteOnly, text.as_str());
    let mut js = String::new();
    js.append("document.cookie = '");
    js.append(escaped_text.as_str());
    js.append("'; true");
    proof {
        assert(js@ =~= add_cookie_js(*c));
    }
    js
}

} // verus!
