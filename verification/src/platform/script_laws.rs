use vstd::prelude::*;

use super::scripts::{collect_elements_js, element_enabled_js, execute_script_js, send_keys_js};
use crate::text::{
    backslashes_before, contains_text, escaped, is_blank, lemma_escape_round_trip,
    lemma_escaped_quotes_stay_inside, occurs_at, unescaped, EscapeStyle,
};

verus! {

/// The script that collects every element a selector matches evaluates the selector once
/// into `els`, keeps the collection in `window.__wd_temp_els` for the later per-element
/// copies, and returns the collection's length, 0 when it found nothing: so the count
/// handed back is the number of matching elements. Nothing else stands between these
/// statements but blank space.
pub proof fn lemma_collect_returns_match_count(selector: Seq<char>)
    ensures
        exists|w0: Seq<char>, w1: Seq<char>, w2: Seq<char>, w3: Seq<char>|
            #![trigger is_blank(w0), is_blank(w1), is_blank(w2), is_blank(w3)]
            is_blank(w0) && is_blank(w1) && is_blank(w2) && is_blank(w3) && collect_elements_js(
                selector,
            ) == w0 + "var els = "@ + selector + ";"@ + w1 + "window.__wd_temp_els = els;"@ + w2
                + "return els ? els.length : 0;"@ + w3,
{
    let w0 = "\n                "@;
    let w = "\n                "@;
    reveal_strlit("\n                ");
    reveal_strlit("\n                var els = ");
    reveal_strlit(";\n                window.__wd_temp_els = els;\n                return els ? els.length : 0;\n                ");
    reveal_strlit("var els = ");
    reveal_strlit(";");
    reveal_strlit("window.__wd_temp_els = els;");
    reveal_strlit("return els ? els.length : 0;");
    assert(is_blank(w0));
    assert(collect_elements_js(selector) =~= w0 + "var els = "@ + selector + ";"@ + w
        + "window.__wd_temp_els = els;"@ + w + "return els ? els.length : 0;"@ + w);
}

/// The statements that open every element script: look the element up in its global
/// variable and throw `stale element reference` when it is gone or detached.
pub open spec fn element_lookup_js(js_var: Seq<char>, w0: Seq<char>, w1: Seq<char>, w2: Seq<char>, w3: Seq<char>) -> Seq<char> {
    "(function() {"@ + w0 + "var el = window."@ + js_var + ";"@ + w1
        + "if (!el || !document.contains(el)) {"@ + w2
        + "throw new Error('stale element reference');"@ + w3 + "}"@
}

/// After looking the element up, the enabled script's one statement returns the
/// negation of the element's `disabled` property: an element is enabled exactly when it
/// is not disabled.
pub proof fn lemma_enabled_is_not_disabled(js_var: Seq<char>)
    ensures
        exists|w0: Seq<char>, w1: Seq<char>, w2: Seq<char>, w3: Seq<char>, w4: Seq<char>, w5: Seq<char>|
            #![trigger is_blank(w0), is_blank(w1), is_blank(w2), is_blank(w3), is_blank(w4), is_blank(w5)]
            is_blank(w0) && is_blank(w1) && is_blank(w2) && is_blank(w3) && is_blank(w4)
                && is_blank(w5) && element_enabled_js(js_var) == element_lookup_js(
                js_var,
                w0,
                w1,
                w2,
                w3,
            ) + w4 + "return !el.disabled;"@ + w5 + "})()"@,
{
    let w16 = "\n                "@;
    let w20 = "\n                    "@;
    let w12 = "\n            "@;
    reveal_strlit("\n                ");
    reveal_strlit("\n                    ");
    reveal_strlit("\n            ");
    reveal_strlit("(function() {\n                var el = window.");
    reveal_strlit(";\n                if (!el || !document.contains(el)) {\n                    throw new Error('stale element reference');\n                }\n                return !el.disabled;\n            })()");
    reveal_strlit("(function() {");
    reveal_strlit("var el = window.");
    reveal_strlit(";");
    reveal_strlit("if (!el || !document.contains(el)) {");
    reveal_strlit("throw new Error('stale element reference');");
    reveal_strlit("}");
    reveal_strlit("return !el.disabled;");
    reveal_strlit("})()");
    assert(is_blank(w16));
    assert(is_blank(w20));
    assert(is_blank(w12));
    assert(element_enabled_js(js_var) =~= element_lookup_js(js_var, w16, w16, w20, w16) + w16
        + "return !el.disabled;"@ + w12 + "})()"@);
}

/// The text of a JavaScript template literal that holds `text`: backslashes, backticks and
/// `$` are escaped, so the literal is not closed early nor interpolates, and it reads back
/// to exactly `text`.
pub proof fn lemma_template_literal_holds_text(text: Seq<char>)
    ensures
        unescaped(escaped(EscapeStyle::Template, text)) == text,
        forall|i: int|
            0 <= i < escaped(EscapeStyle::Template, text).len() && (#[trigger] escaped(
                EscapeStyle::Template,
                text,
            )[i] == '`' || escaped(EscapeStyle::Template, text)[i] == '$') ==> backslashes_before(
                escaped(EscapeStyle::Template, text),
                i,
            ) % 2 == 1,
        backslashes_before(
            escaped(EscapeStyle::Template, text),
            escaped(EscapeStyle::Template, text).len() as int,
        ) % 2 == 0,
{
    lemma_escape_round_trip(EscapeStyle::Template, text);
    lemma_escaped_quotes_stay_inside(EscapeStyle::Template, text, '`');
    lemma_escaped_quotes_stay_inside(EscapeStyle::Template, text, '$');
}

/// For an input or a text area, the send-keys script sets the value, through the native
/// value setter, to the old value followed by the typed text, written as a template
/// literal that reads back to exactly the text (`lemma_template_literal_holds_text`).
pub proof fn lemma_send_keys_appends_text(js_var: Seq<char>, text: Seq<char>)
    ensures
        exists|w: Seq<char>|
            #![trigger is_blank(w)]
            is_blank(w) && contains_text(
                send_keys_js(js_var, text),
                "var newValue = el.value + `"@ + escaped(EscapeStyle::Template, text) + "`;"@ + w
                    + "nativeInputValueSetter.call(el, newValue);"@,
            ),
{
    let head = "(function() {\n                var el = window."@;
    let mid = ";\n                if (!el || !document.contains(el)) {\n                    throw new Error('stale element reference');\n                }\n                el.focus();\n\n                if (el.tagName === 'INPUT' || el.tagName === 'TEXTAREA') {\n                    var nativeInputValueSetter = Object.getOwnPropertyDescriptor(\n                        el.tagName === 'INPUT' ? window.HTMLInputElement.prototype : window.HTMLTextAreaElement.prototype,\n                        'value'\n                    ).set;\n\n                    "@;
    let e = escaped(EscapeStyle::Template, text);
    let w = "\n                    "@;
    let pat = "var newValue = el.value + `"@ + e + "`;"@ + w + "nativeInputValueSetter.call(el, newValue);"@;
    let rest = "\n\n                    var inputEvent = new InputEvent('input', {\n                        bubbles: true,\n                        cancelable: true,\n                        inputType: 'insertText',\n                        data: `"@ + e + "`\n                    });\n                    el.dispatchEvent(inputEvent);\n\n                    var changeEvent = new Event('change', { bubbles: true });\n                    el.dispatchEvent(changeEvent);\n                } else if (el.isContentEditable) {\n                    document.execCommand('insertText', false, `"@ + e + "`);\n                }\n                return true;\n            })()"@;
    reveal_strlit("(function() {\n                var el = window.");
    reveal_strlit(";\n                if (!el || !document.contains(el)) {\n                    throw new Error('stale element reference');\n                }\n                el.focus();\n\n                if (el.tagName === 'INPUT' || el.tagName === 'TEXTAREA') {\n                    var nativeInputValueSetter = Object.getOwnPropertyDescriptor(\n                        el.tagName === 'INPUT' ? window.HTMLInputElement.prototype : window.HTMLTextAreaElement.prototype,\n                        'value'\n                    ).set;\n\n                    var newValue = el.value + `");
    reveal_strlit(";\n                if (!el || !document.contains(el)) {\n                    throw new Error('stale element reference');\n                }\n                el.focus();\n\n                if (el.tagName === 'INPUT' || el.tagName === 'TEXTAREA') {\n                    var nativeInputValueSetter = Object.getOwnPropertyDescriptor(\n                        el.tagName === 'INPUT' ? window.HTMLInputElement.prototype : window.HTMLTextAreaElement.prototype,\n                        'value'\n                    ).set;\n\n                    ");
    reveal_strlit("`;\n                    nativeInputValueSetter.call(el, newValue);\n\n                    var inputEvent = new InputEvent('input', {\n                        bubbles: true,\n                        cancelable: true,\n                        inputType: 'insertText',\n                        data: `");
    reveal_strlit("\n\n                    var inputEvent = new InputEvent('input', {\n                        bubbles: true,\n                        cancelable: true,\n                        inputType: 'insertText',\n                        data: `");
    reveal_strlit("`\n                    });\n                    el.dispatchEvent(inputEvent);\n\n                    var changeEvent = new Event('change', { bubbles: true });\n                    el.dispatchEvent(changeEvent);\n                } else if (el.isContentEditable) {\n                    document.execCommand('insertText', false, `");
    reveal_strlit("`);\n                }\n                return true;\n            })()");
    reveal_strlit("var newValue = el.value + `");
    reveal_strlit("`;");
    reveal_strlit("\n                    ");
    reveal_strlit("nativeInputValueSetter.call(el, newValue);");
    let js = send_keys_js(js_var, text);
    assert(js =~= head + js_var + mid + pat + rest);
    let i = (head + js_var + mid).len() as int;
    assert(js.subrange(i, i + pat.len()) =~= pat);
    assert(occurs_at(js, pat, i));
    assert(is_blank(w));
}

/// The text of the function that decodes script arguments: element references become the
/// elements stored under them (an error when gone), arrays and objects are decoded member
/// by member, everything else is kept.
pub open spec fn argument_decoder_js() -> Seq<char> {
    "var ELEMENT_KEY = 'element-6066-11e4-a52e-4f735466cecf';\n                function deserializeArg(arg) {\n                    if (arg === null || arg === undefined) return arg;\n                    if (Array.isArray(arg)) return arg.map(deserializeArg);\n                    if (typeof arg === 'object') {\n                        if (arg[ELEMENT_KEY]) {\n                            var el = window['__wd_el_' + arg[ELEMENT_KEY].replace(/-/g, '')];\n                            if (!el) throw new Error('stale element reference');\n                            return el;\n                        }\n                        var result = {};\n                        for (var key in arg) {\n                            if (arg.hasOwnProperty(key)) result[key] = deserializeArg(arg[key]);\n                        }\n                        return result;\n                    }\n                    return arg;\n                }"@
}

/// The synchronous script wrapper decodes the JSON arguments, wraps the user script as the
/// body of a function, and returns what that function returns when applied to the decoded
/// arguments; nothing but blank space follows the user function up to that `return`, and
/// the wrapper closes right after it.
pub proof fn lemma_execute_returns_script_result(script: Seq<char>, args_json: Seq<char>)
    ensures
        exists|w0: Seq<char>, w1: Seq<char>, w2: Seq<char>, w3: Seq<char>, w4: Seq<char>|
            #![trigger is_blank(w0), is_blank(w1), is_blank(w2), is_blank(w3), is_blank(w4)]
            is_blank(w0) && is_blank(w1) && is_blank(w2) && is_blank(w3) && is_blank(w4)
                && execute_script_js(script, args_json) == "(function() {"@ + w0
                + argument_decoder_js() + w1 + "var args = "@ + args_json + ".map(deserializeArg);"@
                + w2 + "var fn = function() { "@ + script + " };"@ + w3
                + "return fn.apply(null, args);"@ + w4 + "})()"@,
{
    let w16 = "\n                "@;
    let w12 = "\n            "@;
    reveal_strlit("\n                ");
    reveal_strlit("\n            ");
    reveal_strlit("(function() {\n                var ELEMENT_KEY = 'element-6066-11e4-a52e-4f735466cecf';\n                function deserializeArg(arg) {\n                    if (arg === null || arg === undefined) return arg;\n                    if (Array.isArray(arg)) return arg.map(deserializeArg);\n                    if (typeof arg === 'object') {\n                        if (arg[ELEMENT_KEY]) {\n                            var el = window['__wd_el_' + arg[ELEMENT_KEY].replace(/-/g, '')];\n                            if (!el) throw new Error('stale element reference');\n                            return el;\n                        }\n                        var result = {};\n                        for (var key in arg) {\n                            if (arg.hasOwnProperty(key)) result[key] = deserializeArg(arg[key]);\n                        }\n                        return result;\n                    }\n                    return arg;\n                }\n                var args = ");
    reveal_strlit(".map(deserializeArg);\n                var fn = function() { ");
    reveal_strlit(" };\n                return fn.apply(null, args);\n            })()");
    reveal_strlit("var ELEMENT_KEY = 'element-6066-11e4-a52e-4f735466cecf';\n                function deserializeArg(arg) {\n                    if (arg === null || arg === undefined) return arg;\n                    if (Array.isArray(arg)) return arg.map(deserializeArg);\n                    if (typeof arg === 'object') {\n                        if (arg[ELEMENT_KEY]) {\n                            var el = window['__wd_el_' + arg[ELEMENT_KEY].replace(/-/g, '')];\n                            if (!el) throw new Error('stale element reference');\n                            return el;\n                        }\n                        var result = {};\n                        for (var key in arg) {\n                            if (arg.hasOwnProperty(key)) result[key] = deserializeArg(arg[key]);\n                        }\n                        return result;\n                    }\n                    return arg;\n                }");
    reveal_strlit("(function() {");
    reveal_strlit("var args = ");
    reveal_strlit(".map(deserializeArg);");
    reveal_strlit("var fn = function() { ");
    reveal_strlit(" };");
    reveal_strlit("return fn.apply(null, args);");
    reveal_strlit("})()");
    assert(is_blank(w16));
    assert(is_blank(w12));
    assert(execute_script_js(script, args_json) =~= "(function() {"@ + w16 + argument_decoder_js()
        + w16 + "var args = "@ + args_json + ".map(deserializeArg);"@ + w16
        + "var fn = function() { "@ + script + " };"@ + w16 + "return fn.apply(null, args);"@ + w12
        + "})()"@);
}

} // verus!
