use vstd::prelude::*;

use crate::text::{
    concat3, escape, escaped, lemma_replace_first_after, lemma_replace_first_after_char, replace_first, text_eq, EscapeStyle,
};

verus! {

/// Locator strategies for finding elements
#[derive(Debug, Clone, Copy, PartialEq, Eq, Structural)]
pub enum LocatorStrategy {
    CssSelector,
    LinkText,
    PartialLinkText,
    TagName,
    XPath,
}

/// The name under which the WebDriver protocol sends each strategy.
pub open spec fn strategy_name(st: LocatorStrategy) -> Seq<char> {
    match st {
        LocatorStrategy::CssSelector => "css selector"@,
        LocatorStrategy::LinkText => "link text"@,
        LocatorStrategy::PartialLinkText => "partial link text"@,
        LocatorStrategy::TagName => "tag name"@,
        LocatorStrategy::XPath => "xpath"@,
    }
}

/// The strategy a protocol name stands for, if any.
pub open spec fn strategy_from_name(s: Seq<char>) -> Option<LocatorStrategy> {
    if s == "css selector"@ {
        Some(LocatorStrategy::CssSelector)
    } else if s == "link text"@ {
        Some(LocatorStrategy::LinkText)
    } else if s == "partial link text"@ {
        Some(LocatorStrategy::PartialLinkText)
    } else if s == "tag name"@ {
        Some(LocatorStrategy::TagName)
    } else if s == "xpath"@ {
        Some(LocatorStrategy::XPath)
    } else {
        None
    }
}

/// The JavaScript string literal, quotes included, that holds an XPath expression in the
/// script `LocatorStrategy::to_find_js` builds. An expression that holds a single quote
/// goes in double quotes, so that its quotes stay as written; any other goes in single
/// quotes with its backslashes doubled, as in `LocatorStrategy::to_selector_js`.
pub open spec fn xpath_literal(v: Seq<char>) -> Seq<char> {
    if v.contains('\'') {
        seq!['"'] + escaped(EscapeStyle::DoubleQuoted, v) + seq!['"']
    } else {
        seq!['\''] + escaped(EscapeStyle::SingleQuoted, v) + seq!['\'']
    }
}

fn has_single_quote(value: &str) -> (r: bool)
    ensures
        r == value@.contains('\''),
{
    let mut found = false;
    for c in it: value.chars()
        invariant
            it.seq() == value@,
            found == value@.take(it.index() as int).contains('\''),
    {
        let ghost prev = value@.take(it.index() as int);
        proof {
            let next = prev.push(c);
            assert(value@.take(it.index() + 1) =~= next);
            if c == '\'' {
                assert(next[prev.len() as int] == c);
            } else {
                assert forall|i: int| 0 <= i < next.len() && next[i] == '\'' implies prev.contains(
                    '\'',
                ) by {
                    assert(prev[i] == next[i]);
                }
                assert(prev.contains('\'') ==> next.contains('\'')) by {
                    if prev.contains('\'') {
                        let j = choose|j: int| 0 <= j < prev.len() && prev[j] == '\'';
                        assert(next[j] == '\'');
                    }
                }
            }
        }
        if c == '\'' {
            found = true;
        }
    }
    proof {
        assert(value@.take(value@.len() as int) =~= value@);
    }
    found
}

/// Builds `xpath_literal` of the value.
fn xpath_literal_text(value: &str) -> (lit: String)
    ensures
        lit@ == xpath_literal(value@),
{
    if has_single_quote(value) {
        let escaped_value = escape(EscapeStyle::DoubleQuoted, value);
        let mut lit = String::new();
        lit.push('"');
        lit.append(escaped_value.as_str());
        lit.push('"');
        proof {
            assert(lit@ =~= xpath_literal(value@));
        }
        lit
    } else {
        let escaped_value = escape(EscapeStyle::SingleQuoted, value);
        let mut lit = String::new();
        lit.push('\'');
        lit.append(escaped_value.as_str());
        lit.push('\'');
        proof {
            assert(lit@ =~= xpath_literal(value@));
        }
        lit
    }
}

/// The expression that `LocatorStrategy::to_selector_js` builds.
pub open spec fn selector_js(st: LocatorStrategy, v: Seq<char>) -> Seq<char> {
    match st {
        LocatorStrategy::CssSelector => "document.querySelector('"@ + escaped(EscapeStyle::SingleQuoted, v) + "')"@,
        LocatorStrategy::TagName => "document.getElementsByTagName('"@ + escaped(EscapeStyle::SingleQuoted, v) + "')[0] || null"@,
        LocatorStrategy::XPath => "(function() {\n                        var result = document.evaluate('"@ + escaped(EscapeStyle::SingleQuoted, v) + "', document, null, XPathResult.FIRST_ORDERED_NODE_TYPE, null);\n                        return result.singleNodeValue;\n                    })()"@,
        LocatorStrategy::LinkText => "Array.from(document.querySelectorAll('a')).find(a => a.textContent.trim() === '"@ + escaped(EscapeStyle::SingleQuoted, v) + "') || null"@,
        LocatorStrategy::PartialLinkText => "Array.from(document.querySelectorAll('a')).find(a => a.textContent.includes('"@ + escaped(EscapeStyle::SingleQuoted, v) + "')) || null"@,
    }
}

/// The expression that `LocatorStrategy::to_selector_js_multiple` builds.
pub open spec fn selector_js_multiple(st: LocatorStrategy, v: Seq<char>) -> Seq<char> {
    match st {
        LocatorStrategy::CssSelector => "Array.from(document.querySelectorAll('"@ + escaped(EscapeStyle::SingleQuoted, v) + "'))"@,
        LocatorStrategy::TagName => "Array.from(document.getElementsByTagName('"@ + escaped(EscapeStyle::SingleQuoted, v) + "'))"@,
        LocatorStrategy::XPath => "(function() {\n                        var result = [];\n                        var iter = document.evaluate('"@ + escaped(EscapeStyle::SingleQuoted, v) + "', document, null, XPathResult.ORDERED_NODE_ITERATOR_TYPE, null);\n                        var node;\n                        while ((node = iter.iterateNext())) {\n                            result.push(node);\n                        }\n                        return result;\n                    })()"@,
        LocatorStrategy::LinkText => "Array.from(document.querySelectorAll('a')).filter(a => a.textContent.trim() === '"@ + escaped(EscapeStyle::SingleQuoted, v) + "')"@,
        LocatorStrategy::PartialLinkText => "Array.from(document.querySelectorAll('a')).filter(a => a.textContent.includes('"@ + escaped(EscapeStyle::SingleQuoted, v) + "'))"@,
    }
}

/// The expression that `LocatorStrategy::to_selector_js_single_from_element` builds.
pub open spec fn selector_js_single_from_element(st: LocatorStrategy, v: Seq<char>) -> Seq<char> {
    match st {
        LocatorStrategy::CssSelector => "parent.querySelector('"@ + escaped(EscapeStyle::SingleQuoted, v) + "')"@,
        LocatorStrategy::TagName => "parent.getElementsByTagName('"@ + escaped(EscapeStyle::SingleQuoted, v) + "')[0] || null"@,
        LocatorStrategy::XPath => "(function() {\n                        var result = document.evaluate('"@ + escaped(EscapeStyle::SingleQuoted, v) + "', parent, null, XPathResult.FIRST_ORDERED_NODE_TYPE, null);\n                        return result.singleNodeValue;\n                    })()"@,
        LocatorStrategy::LinkText => "Array.from(parent.querySelectorAll('a')).find(a => a.textContent.trim() === '"@ + escaped(EscapeStyle::SingleQuoted, v) + "') || null"@,
        LocatorStrategy::PartialLinkText => "Array.from(parent.querySelectorAll('a')).find(a => a.textContent.includes('"@ + escaped(EscapeStyle::SingleQuoted, v) + "')) || null"@,
    }
}

/// The expression that `LocatorStrategy::to_selector_js_from_element` builds.
pub open spec fn selector_js_from_element(st: LocatorStrategy, v: Seq<char>) -> Seq<char> {
    match st {
        LocatorStrategy::CssSelector => "Array.from(parent.querySelectorAll('"@ + escaped(EscapeStyle::SingleQuoted, v) + "'))"@,
        LocatorStrategy::TagName => "Array.from(parent.getElementsByTagName('"@ + escaped(EscapeStyle::SingleQuoted, v) + "'))"@,
        LocatorStrategy::XPath => "(function() {\n                        var result = [];\n                        var iter = document.evaluate('"@ + escaped(EscapeStyle::SingleQuoted, v) + "', parent, null, XPathResult.ORDERED_NODE_ITERATOR_TYPE, null);\n                        var node;\n                        while ((node = iter.iterateNext())) {\n                            result.push(node);\n                        }\n                        return result;\n                    })()"@,
        LocatorStrategy::LinkText => "Array.from(parent.querySelectorAll('a')).filter(a => a.textContent.trim() === '"@ + escaped(EscapeStyle::SingleQuoted, v) + "')"@,
        LocatorStrategy::PartialLinkText => "Array.from(parent.querySelectorAll('a')).filter(a => a.textContent.includes('"@ + escaped(EscapeStyle::SingleQuoted, v) + "'))"@,
    }
}

/// The expression that `LocatorStrategy::to_selector_js_single_from_shadow` builds.
pub open spec fn selector_js_single_from_shadow(st: LocatorStrategy, v: Seq<char>) -> Seq<char> {
    match st {
        LocatorStrategy::CssSelector => "shadow.querySelector('"@ + escaped(EscapeStyle::SingleQuoted, v) + "')"@,
        LocatorStrategy::TagName => "shadow.querySelector('"@ + escaped(EscapeStyle::SingleQuoted, v) + "')"@,
        LocatorStrategy::XPath => "(function() {\n                        var result = document.evaluate('"@ + escaped(EscapeStyle::SingleQuoted, v) + "', shadow, null, XPathResult.FIRST_ORDERED_NODE_TYPE, null);\n                        return result.singleNodeValue;\n                    })()"@,
        LocatorStrategy::LinkText => "Array.from(shadow.querySelectorAll('a')).find(a => a.textContent.trim() === '"@ + escaped(EscapeStyle::SingleQuoted, v) + "') || null"@,
        LocatorStrategy::PartialLinkText => "Array.from(shadow.querySelectorAll('a')).find(a => a.textContent.includes('"@ + escaped(EscapeStyle::SingleQuoted, v) + "')) || null"@,
    }
}

/// The expression that `LocatorStrategy::to_selector_js_from_shadow` builds.
pub open spec fn selector_js_from_shadow(st: LocatorStrategy, v: Seq<char>) -> Seq<char> {
    match st {
        LocatorStrategy::CssSelector => "Array.from(shadow.querySelectorAll('"@ + escaped(EscapeStyle::SingleQuoted, v) + "'))"@,
        LocatorStrategy::TagName => "Array.from(shadow.querySelectorAll('"@ + escaped(EscapeStyle::SingleQuoted, v) + "'))"@,
        LocatorStrategy::XPath => "(function() {\n                        var result = [];\n                        var iter = document.evaluate('"@ + escaped(EscapeStyle::SingleQuoted, v) + "', shadow, null, XPathResult.ORDERED_NODE_ITERATOR_TYPE, null);\n                        var node;\n                        while ((node = iter.iterateNext())) {\n                            result.push(node);\n                        }\n                        return result;\n                    })()"@,
        LocatorStrategy::LinkText => "Array.from(shadow.querySelectorAll('a')).filter(a => a.textContent.trim() === '"@ + escaped(EscapeStyle::SingleQuoted, v) + "')"@,
        LocatorStrategy::PartialLinkText => "Array.from(shadow.querySelectorAll('a')).filter(a => a.textContent.includes('"@ + escaped(EscapeStyle::SingleQuoted, v) + "'))"@,
    }
}

/// The expression that `LocatorStrategy::to_find_js` evaluates to find the element(s).
pub open spec fn find_expr(st: LocatorStrategy, v: Seq<char>, multiple: bool) -> Seq<char> {
    match st {
        LocatorStrategy::CssSelector => if multiple {
            "Array.from(document.querySelectorAll('"@ + escaped(EscapeStyle::SingleQuoted, v) + "'))"@
        } else {
            "document.querySelector('"@ + escaped(EscapeStyle::SingleQuoted, v) + "')"@
        },
        LocatorStrategy::TagName => if multiple {
            "Array.from(document.getElementsByTagName('"@ + escaped(EscapeStyle::SingleQuoted, v) + "'))"@
        } else {
            "document.getElementsByTagName('"@ + escaped(EscapeStyle::SingleQuoted, v) + "')[0] || null"@
        },
        LocatorStrategy::XPath => if multiple {
            "(function() {\n                            var result = [];\n                            var iter = document.evaluate("@ + xpath_literal(v) + ", document, null, XPathResult.ORDERED_NODE_ITERATOR_TYPE, null);\n                            var node;\n                            while ((node = iter.iterateNext())) {\n                                result.push(node);\n                            }\n                            return result;\n                        })()"@
        } else {
            "(function() {\n                            var result = document.evaluate("@ + xpath_literal(v) + ", document, null, XPathResult.FIRST_ORDERED_NODE_TYPE, null);\n                            return result.singleNodeValue;\n                        })()"@
        },
        LocatorStrategy::LinkText => if multiple {
            "Array.from(document.querySelectorAll('a')).filter(a => a.textContent.trim() === '"@ + escaped(EscapeStyle::SingleQuoted, v) + "')"@
        } else {
            "Array.from(document.querySelectorAll('a')).find(a => a.textContent.trim() === '"@ + escaped(EscapeStyle::SingleQuoted, v) + "') || null"@
        },
        LocatorStrategy::PartialLinkText => if multiple {
            "Array.from(document.querySelectorAll('a')).filter(a => a.textContent.includes('"@ + escaped(EscapeStyle::SingleQuoted, v) + "'))"@
        } else {
            "Array.from(document.querySelectorAll('a')).find(a => a.textContent.includes('"@ + escaped(EscapeStyle::SingleQuoted, v) + "')) || null"@
        },
    }
}

/// The script that stores what `expr` finds in the global variable `js_var` and tells
/// whether anything was found.
pub open spec fn store_found_js(expr: Seq<char>, js_var: Seq<char>) -> Seq<char> {
    "(function() {\n                var el = "@ + expr + ";\n                if (el) {\n                    window."@ + js_var + " = el;\n                    return true;\n                }\n                return false;\n            })()"@
}

/// The script that `LocatorStrategy::to_find_js` builds.
pub open spec fn find_js(st: LocatorStrategy, v: Seq<char>, multiple: bool, js_var: Seq<char>) -> Seq<char> {
    store_found_js(find_expr(st, v, multiple), js_var)
}
/// `v` as a single-quoted JavaScript string literal, quotes included.
pub open spec fn single_quoted(v: Seq<char>) -> Seq<char> {
    seq!['\''] + escaped(EscapeStyle::SingleQuoted, v) + seq!['\'']
}

/// The indentation of the XPath functions that the selector forms build.
pub open spec fn selector_indent() -> Seq<char> {
    "                    "@
}

/// The indentation of the XPath functions inside the script of `to_find_js`.
pub open spec fn find_indent() -> Seq<char> {
    "                        "@
}

/// A function that evaluates the XPath expression written by `literal` with `context` as
/// the context node and returns the first node it selects, laid out with `indent`.
pub open spec fn xpath_first_js(literal: Seq<char>, context: Seq<char>, indent: Seq<char>) -> Seq<char> {
    "(function() {\n"@ + indent + "    var result = document.evaluate("@ + literal + ", "@ + context
        + ", null, XPathResult.FIRST_ORDERED_NODE_TYPE, null);\n"@ + indent
        + "    return result.singleNodeValue;\n"@ + indent + "})()"@
}

/// A function that evaluates the XPath expression written by `literal` with `context` as
/// the context node and returns every node it selects, in document order, laid out with
/// `indent`.
pub open spec fn xpath_all_js(literal: Seq<char>, context: Seq<char>, indent: Seq<char>) -> Seq<char> {
    "(function() {\n"@ + indent + "    var result = [];\n"@ + indent
        + "    var iter = document.evaluate("@ + literal + ", "@ + context
        + ", null, XPathResult.ORDERED_NODE_ITERATOR_TYPE, null);\n"@ + indent + "    var node;\n"@
        + indent + "    while ((node = iter.iterateNext())) {\n"@ + indent
        + "        result.push(node);\n"@ + indent + "    }\n"@ + indent + "    return result;\n"@
        + indent + "})()"@
}

/// The expression that finds the first element matching `v` under the node named `root`.
pub open spec fn scoped_one(st: LocatorStrategy, root: Seq<char>, v: Seq<char>) -> Seq<char> {
    match st {
        LocatorStrategy::CssSelector => root + ".querySelector("@ + single_quoted(v) + ")"@,
        LocatorStrategy::TagName => root + ".getElementsByTagName("@ + single_quoted(v) + ")[0] || null"@,
        LocatorStrategy::XPath => xpath_first_js(single_quoted(v), root, selector_indent()),
        LocatorStrategy::LinkText => "Array.from("@ + root
            + ".querySelectorAll('a')).find(a => a.textContent.trim() === "@ + single_quoted(v)
            + ") || null"@,
        LocatorStrategy::PartialLinkText => "Array.from("@ + root
            + ".querySelectorAll('a')).find(a => a.textContent.includes("@ + single_quoted(v)
            + ")) || null"@,
    }
}

/// The expression that finds every element matching `v` under the node named `root`, as
/// an array.
pub open spec fn scoped_all(st: LocatorStrategy, root: Seq<char>, v: Seq<char>) -> Seq<char> {
    match st {
        LocatorStrategy::CssSelector => "Array.from("@ + root + ".querySelectorAll("@ + single_quoted(v) + "))"@,
        LocatorStrategy::TagName => "Array.from("@ + root + ".getElementsByTagName("@ + single_quoted(v) + "))"@,
        LocatorStrategy::XPath => xpath_all_js(single_quoted(v), root, selector_indent()),
        LocatorStrategy::LinkText => "Array.from("@ + root
            + ".querySelectorAll('a')).filter(a => a.textContent.trim() === "@ + single_quoted(v)
            + ")"@,
        LocatorStrategy::PartialLinkText => "Array.from("@ + root
            + ".querySelectorAll('a')).filter(a => a.textContent.includes("@ + single_quoted(v)
            + "))"@,
    }
}

/// The strategy a shadow root is searched with: a shadow root has no
/// `getElementsByTagName`, so a tag name is searched as a CSS selector.
pub open spec fn shadow_strategy(st: LocatorStrategy) -> LocatorStrategy {
    if st == LocatorStrategy::TagName {
        LocatorStrategy::CssSelector
    } else {
        st
    }
}

impl LocatorStrategy {
    /// Parse locator strategy from WebDriver string
    pub fn from_string(s: &str) -> (r: Option<Self>)
        ensures
            r == strategy_from_name(s@),
    {
        if text_eq(s, "css selector") {
            Some(LocatorStrategy::CssSelector)
        } else if text_eq(s, "link text") {
            Some(LocatorStrategy::LinkText)
        } else if text_eq(s, "partial link text") {
            Some(LocatorStrategy::PartialLinkText)
        } else if text_eq(s, "tag name") {
            Some(LocatorStrategy::TagName)
        } else if text_eq(s, "xpath") {
            Some(LocatorStrategy::XPath)
        } else {
            None
        }
    }

    /// Generate JavaScript expression to find element (just the selector, no wrapper)
    pub fn to_selector_js(&self, value: &str) -> (js: String)
        ensures
            js@ == selector_js(*self, value@),
    {
        match self {
            LocatorStrategy::CssSelector => {
                let escaped_value = escape(EscapeStyle::SingleQuoted, value);
                concat3("document.querySelector('", escaped_value.as_str(), "')")
            },
            LocatorStrategy::TagName => {
                let escaped_value = escape(EscapeStyle::SingleQuoted, value);
                concat3("document.getElementsByTagName('", escaped_value.as_str(), "')[0] || null")
            },
            LocatorStrategy::XPath => {
                let escaped_value = escape(EscapeStyle::SingleQuoted, value);
                concat3("(function() {\n                        var result = document.evaluate('", escaped_value.as_str(), "', document, null, XPathResult.FIRST_ORDERED_NODE_TYPE, null);\n                        return result.singleNodeValue;\n                    })()")
            },
            LocatorStrategy::LinkText => {
                let escaped_value = escape(EscapeStyle::SingleQuoted, value);
                concat3("Array.from(document.querySelectorAll('a')).find(a => a.textContent.trim() === '", escaped_value.as_str(), "') || null")
            },
            LocatorStrategy::PartialLinkText => {
                let escaped_value = escape(EscapeStyle::SingleQuoted, value);
                concat3("Array.from(document.querySelectorAll('a')).find(a => a.textContent.includes('", escaped_value.as_str(), "')) || null")
            },
        }
    }

    /// Generate JavaScript expression to find multiple elements
    pub fn to_selector_js_multiple(&self, value: &str) -> (js: String)
        ensures
            js@ == selector_js_multiple(*self, value@),
    {
        match self {
            LocatorStrategy::CssSelector => {
                let escaped_value = escape(EscapeStyle::SingleQuoted, value);
                concat3("Array.from(document.querySelectorAll('", escaped_value.as_str(), "'))")
            },
            LocatorStrategy::TagName => {
                let escaped_value = escape(EscapeStyle::SingleQuoted, value);
                concat3("Array.from(document.getElementsByTagName('", escaped_value.as_str(), "'))")
            },
            LocatorStrategy::XPath => {
                let escaped_value = escape(EscapeStyle::SingleQuoted, value);
                concat3("(function() {\n                        var result = [];\n                        var iter = document.evaluate('", escaped_value.as_str(), "', document, null, XPathResult.ORDERED_NODE_ITERATOR_TYPE, null);\n                        var node;\n                        while ((node = iter.iterateNext())) {\n                            result.push(node);\n                        }\n                        return result;\n                    })()")
            },
            LocatorStrategy::LinkText => {
                let escaped_value = escape(EscapeStyle::SingleQuoted, value);
                concat3("Array.from(document.querySelectorAll('a')).filter(a => a.textContent.trim() === '", escaped_value.as_str(), "')")
            },
            LocatorStrategy::PartialLinkText => {
                let escaped_value = escape(EscapeStyle::SingleQuoted, value);
                concat3("Array.from(document.querySelectorAll('a')).filter(a => a.textContent.includes('", escaped_value.as_str(), "'))")
            },
        }
    }

    /// Generate JavaScript expression to find a single element from a parent element.
    /// Returns an expression that evaluates to a single element (or null).
    /// Assumes `parent` variable is defined
    pub fn to_selector_js_single_from_element(&self, value: &str) -> (js: String)
        ensures
            js@ == selector_js_single_from_element(*self, value@),
    {
        match self {
            LocatorStrategy::CssSelector => {
                let escaped_value = escape(EscapeStyle::SingleQuoted, value);
                concat3("parent.querySelector('", escaped_value.as_str(), "')")
            },
            LocatorStrategy::TagName => {
                let escaped_value = escape(EscapeStyle::SingleQuoted, value);
                concat3("parent.getElementsByTagName('", escaped_value.as_str(), "')[0] || null")
            },
            LocatorStrategy::XPath => {
                let escaped_value = escape(EscapeStyle::SingleQuoted, value);
                concat3("(function() {\n                        var result = document.evaluate('", escaped_value.as_str(), "', parent, null, XPathResult.FIRST_ORDERED_NODE_TYPE, null);\n                        return result.singleNodeValue;\n                    })()")
            },
            LocatorStrategy::LinkText => {
                let escaped_value = escape(EscapeStyle::SingleQuoted, value);
                concat3("Array.from(parent.querySelectorAll('a')).find(a => a.textContent.trim() === '", escaped_value.as_str(), "') || null")
            },
            LocatorStrategy::PartialLinkText => {
                let escaped_value = escape(EscapeStyle::SingleQuoted, value);
                concat3("Array.from(parent.querySelectorAll('a')).find(a => a.textContent.includes('", escaped_value.as_str(), "')) || null")
            },
        }
    }

    /// Generate JavaScript expression to find multiple elements from a parent element.
    /// Returns an expression that evaluates to an array-like collection.
    /// Assumes `parent` variable is defined
    pub fn to_selector_js_from_element(&self, value: &str) -> (js: String)
        ensures
            js@ == selector_js_from_element(*self, value@),
    {
        match self {
            LocatorStrategy::CssSelector => {
                let escaped_value = escape(EscapeStyle::SingleQuoted, value);
                concat3("Array.from(parent.querySelectorAll('", escaped_value.as_str(), "'))")
            },
            LocatorStrategy::TagName => {
                let escaped_value = escape(EscapeStyle::SingleQuoted, value);
                concat3("Array.from(parent.getElementsByTagName('", escaped_value.as_str(), "'))")
            },
            LocatorStrategy::XPath => {
                let escaped_value = escape(EscapeStyle::SingleQuoted, value);
                concat3("(function() {\n                        var result = [];\n                        var iter = document.evaluate('", escaped_value.as_str(), "', parent, null, XPathResult.ORDERED_NODE_ITERATOR_TYPE, null);\n                        var node;\n                        while ((node = iter.iterateNext())) {\n                            result.push(node);\n                        }\n                        return result;\n                    })()")
            },
            LocatorStrategy::LinkText => {
                let escaped_value = escape(EscapeStyle::SingleQuoted, value);
                concat3("Array.from(parent.querySelectorAll('a')).filter(a => a.textContent.trim() === '", escaped_value.as_str(), "')")
            },
            LocatorStrategy::PartialLinkText => {
                let escaped_value = escape(EscapeStyle::SingleQuoted, value);
                concat3("Array.from(parent.querySelectorAll('a')).filter(a => a.textContent.includes('", escaped_value.as_str(), "'))")
            },
        }
    }

    /// Generate JavaScript expression to find a single element from a shadow root.
    /// Returns an expression that evaluates to a single element (or null).
    /// Assumes `shadow` variable is defined
    pub fn to_selector_js_single_from_shadow(&self, value: &str) -> (js: String)
        ensures
            js@ == selector_js_single_from_shadow(*self, value@),
    {
        match self {
            LocatorStrategy::CssSelector => {
                let escaped_value = escape(EscapeStyle::SingleQuoted, value);
                concat3("shadow.querySelector('", escaped_value.as_str(), "')")
            },
            LocatorStrategy::TagName => {
                let escaped_value = escape(EscapeStyle::SingleQuoted, value);
                concat3("shadow.querySelector('", escaped_value.as_str(), "')")
            },
            LocatorStrategy::XPath => {
                let escaped_value = escape(EscapeStyle::SingleQuoted, value);
                concat3("(function() {\n                        var result = document.evaluate('", escaped_value.as_str(), "', shadow, null, XPathResult.FIRST_ORDERED_NODE_TYPE, null);\n                        return result.singleNodeValue;\n                    })()")
            },
            LocatorStrategy::LinkText => {
                let escaped_value = escape(EscapeStyle::SingleQuoted, value);
                concat3("Array.from(shadow.querySelectorAll('a')).find(a => a.textContent.trim() === '", escaped_value.as_str(), "') || null")
            },
            LocatorStrategy::PartialLinkText => {
                let escaped_value = escape(EscapeStyle::SingleQuoted, value);
                concat3("Array.from(shadow.querySelectorAll('a')).find(a => a.textContent.includes('", escaped_value.as_str(), "')) || null")
            },
        }
    }

    /// Generate JavaScript expression to find multiple elements from a shadow root.
    /// Returns an expression that evaluates to an array-like collection.
    /// Assumes `shadow` variable is defined
    pub fn to_selector_js_from_shadow(&self, value: &str) -> (js: String)
        ensures
            js@ == selector_js_from_shadow(*self, value@),
    {
        match self {
            LocatorStrategy::CssSelector => {
                let escaped_value = escape(EscapeStyle::SingleQuoted, value);
                concat3("Array.from(shadow.querySelectorAll('", escaped_value.as_str(), "'))")
            },
            LocatorStrategy::TagName => {
                let escaped_value = escape(EscapeStyle::SingleQuoted, value);
                concat3("Array.from(shadow.querySelectorAll('", escaped_value.as_str(), "'))")
            },
            LocatorStrategy::XPath => {
                let escaped_value = escape(EscapeStyle::SingleQuoted, value);
                concat3("(function() {\n                        var result = [];\n                        var iter = document.evaluate('", escaped_value.as_str(), "', shadow, null, XPathResult.ORDERED_NODE_ITERATOR_TYPE, null);\n                        var node;\n                        while ((node = iter.iterateNext())) {\n                            result.push(node);\n                        }\n                        return result;\n                    })()")
            },
            LocatorStrategy::LinkText => {
                let escaped_value = escape(EscapeStyle::SingleQuoted, value);
                concat3("Array.from(shadow.querySelectorAll('a')).filter(a => a.textContent.trim() === '", escaped_value.as_str(), "')")
            },
            LocatorStrategy::PartialLinkText => {
                let escaped_value = escape(EscapeStyle::SingleQuoted, value);
                concat3("Array.from(shadow.querySelectorAll('a')).filter(a => a.textContent.includes('", escaped_value.as_str(), "'))")
            },
        }
    }

    fn find_expr(&self, value: &str, multiple: bool) -> (js: String)
        ensures
            js@ == find_expr(*self, value@, multiple),
    {
        match self {
            LocatorStrategy::CssSelector => {
                let escaped_value = escape(EscapeStyle::SingleQuoted, value);
                if multiple {
                    concat3("Array.from(document.querySelectorAll('", escaped_value.as_str(), "'))")
                } else {
                    concat3("document.querySelector('", escaped_value.as_str(), "')")
                }
            },
            LocatorStrategy::TagName => {
                let escaped_value = escape(EscapeStyle::SingleQuoted, value);
                if multiple {
                    concat3("Array.from(document.getElementsByTagName('", escaped_value.as_str(), "'))")
                } else {
                    concat3("document.getElementsByTagName('", escaped_value.as_str(), "')[0] || null")
                }
            },
            LocatorStrategy::XPath => {
                let literal = xpath_literal_text(value);
                if multiple {
                    concat3("(function() {\n                            var result = [];\n                            var iter = document.evaluate(", literal.as_str(), ", document, null, XPathResult.ORDERED_NODE_ITERATOR_TYPE, null);\n                            var node;\n                            while ((node = iter.iterateNext())) {\n                                result.push(node);\n                            }\n                            return result;\n                        })()")
                } else {
                    concat3("(function() {\n                            var result = document.evaluate(", literal.as_str(), ", document, null, XPathResult.FIRST_ORDERED_NODE_TYPE, null);\n                            return result.singleNodeValue;\n                        })()")
                }
            },
            LocatorStrategy::LinkText => {
                let escaped_value = escape(EscapeStyle::SingleQuoted, value);
                if multiple {
                    concat3("Array.from(document.querySelectorAll('a')).filter(a => a.textContent.trim() === '", escaped_value.as_str(), "')")
                } else {
                    concat3("Array.from(document.querySelectorAll('a')).find(a => a.textContent.trim() === '", escaped_value.as_str(), "') || null")
                }
            },
            LocatorStrategy::PartialLinkText => {
                let escaped_value = escape(EscapeStyle::SingleQuoted, value);
                if multiple {
                    concat3("Array.from(document.querySelectorAll('a')).filter(a => a.textContent.includes('", escaped_value.as_str(), "'))")
                } else {
                    concat3("Array.from(document.querySelectorAll('a')).find(a => a.textContent.includes('", escaped_value.as_str(), "')) || null")
                }
            },
        }
    }

    /// Generate JavaScript code to find element(s) and store in global variable
    pub fn to_find_js(&self, value: &str, multiple: bool, js_var: &str) -> (js: String)
        ensures
            js@ == find_js(*self, value@, multiple, js_var@),
    {
        let expr = self.find_expr(value, multiple);
        let mut js = concat3("(function() {\n                var el = ", expr.as_str(), ";\n                if (el) {\n                    window.");
        js.append(js_var);
        js.append(" = el;\n                    return true;\n                }\n                return false;\n            })()");
        proof {
            assert(js@ =~= store_found_js(expr@, js_var@));
        }
        js
    }
}

/// Each strategy is parsed back from its protocol name.
pub proof fn lemma_strategy_name_round_trip(st: LocatorStrategy)
    ensures
        strategy_from_name(strategy_name(st)) == Some(st),
{
    reveal_strlit("css selector");
    reveal_strlit("link text");
    reveal_strlit("partial link text");
    reveal_strlit("tag name");
    reveal_strlit("xpath");
    assert("css selector"@.len() == 12);
    assert("link text"@.len() == 9);
    assert("partial link text"@.len() == 17);
    assert("tag name"@.len() == 8);
    assert("xpath"@.len() == 5);
}

/// A name parses to a strategy exactly when it is that strategy's protocol name.
pub proof fn lemma_strategy_name_unique(s: Seq<char>, st: LocatorStrategy)
    ensures
        strategy_from_name(s) == Some(st) <==> s == strategy_name(st),
{
    lemma_strategy_name_round_trip(st);
    reveal_strlit("css selector");
    reveal_strlit("link text");
    reveal_strlit("partial link text");
    reveal_strlit("tag name");
    reveal_strlit("xpath");
}

#[verifier::rlimit(40)]
proof fn lemma_selector_js_scoped(st: LocatorStrategy, v: Seq<char>)
    ensures
        selector_js(st, v) == scoped_one(st, "document"@, v),
{
    reveal_strlit("document.querySelector('");
    reveal_strlit("')");
    reveal_strlit("document.getElementsByTagName('");
    reveal_strlit("')[0] || null");
    reveal_strlit("(function() {\n                        var result = document.evaluate('");
    reveal_strlit("', document, null, XPathResult.FIRST_ORDERED_NODE_TYPE, null);\n                        return result.singleNodeValue;\n                    })()");
    reveal_strlit("Array.from(document.querySelectorAll('a')).find(a => a.textContent.trim() === '");
    reveal_strlit("') || null");
    reveal_strlit("Array.from(document.querySelectorAll('a')).find(a => a.textContent.includes('");
    reveal_strlit("')) || null");
    reveal_strlit("                    ");
    reveal_strlit("                        ");
    reveal_strlit("(function() {\n");
    reveal_strlit("    var result = document.evaluate(");
    reveal_strlit(", ");
    reveal_strlit(", null, XPathResult.FIRST_ORDERED_NODE_TYPE, null);\n");
    reveal_strlit("    return result.singleNodeValue;\n");
    reveal_strlit("})()");
    reveal_strlit("    var result = [];\n");
    reveal_strlit("    var iter = document.evaluate(");
    reveal_strlit(", null, XPathResult.ORDERED_NODE_ITERATOR_TYPE, null);\n");
    reveal_strlit("    var node;\n");
    reveal_strlit("    while ((node = iter.iterateNext())) {\n");
    reveal_strlit("        result.push(node);\n");
    reveal_strlit("    }\n");
    reveal_strlit("    return result;\n");
    reveal_strlit(".querySelector(");
    reveal_strlit(")");
    reveal_strlit(".getElementsByTagName(");
    reveal_strlit(")[0] || null");
    reveal_strlit("Array.from(");
    reveal_strlit(".querySelectorAll('a')).find(a => a.textContent.trim() === ");
    reveal_strlit(") || null");
    reveal_strlit(".querySelectorAll('a')).find(a => a.textContent.includes(");
    reveal_strlit(")) || null");
    reveal_strlit(".querySelectorAll(");
    reveal_strlit("))");
    reveal_strlit(".querySelectorAll('a')).filter(a => a.textContent.trim() === ");
    reveal_strlit(".querySelectorAll('a')).filter(a => a.textContent.includes(");
    reveal_strlit("document");
    reveal_strlit("parent");
    reveal_strlit("shadow");
    assert(selector_js(st, v) =~= scoped_one(st, "document"@, v));
}

#[verifier::rlimit(40)]
proof fn lemma_selector_js_multiple_scoped(st: LocatorStrategy, v: Seq<char>)
    ensures
        selector_js_multiple(st, v) == scoped_all(st, "document"@, v),
{
    reveal_strlit("Array.from(document.querySelectorAll('");
    reveal_strlit("'))");
    reveal_strlit("Array.from(document.getElementsByTagName('");
    reveal_strlit("(function() {\n                        var result = [];\n                        var iter = document.evaluate('");
    reveal_strlit("', document, null, XPathResult.ORDERED_NODE_ITERATOR_TYPE, null);\n                        var node;\n                        while ((node = iter.iterateNext())) {\n                            result.push(node);\n                        }\n                        return result;\n                    })()");
    reveal_strlit("Array.from(document.querySelectorAll('a')).filter(a => a.textContent.trim() === '");
    reveal_strlit("')");
    reveal_strlit("Array.from(document.querySelectorAll('a')).filter(a => a.textContent.includes('");
    reveal_strlit("                    ");
    reveal_strlit("                        ");
    reveal_strlit("(function() {\n");
    reveal_strlit("    var result = document.evaluate(");
    reveal_strlit(", ");
    reveal_strlit(", null, XPathResult.FIRST_ORDERED_NODE_TYPE, null);\n");
    reveal_strlit("    return result.singleNodeValue;\n");
    reveal_strlit("})()");
    reveal_strlit("    var result = [];\n");
    reveal_strlit("    var iter = document.evaluate(");
    reveal_strlit(", null, XPathResult.ORDERED_NODE_ITERATOR_TYPE, null);\n");
    reveal_strlit("    var node;\n");
    reveal_strlit("    while ((node = iter.iterateNext())) {\n");
    reveal_strlit("        result.push(node);\n");
    reveal_strlit("    }\n");
    reveal_strlit("    return result;\n");
    reveal_strlit(".querySelector(");
    reveal_strlit(")");
    reveal_strlit(".getElementsByTagName(");
    reveal_strlit(")[0] || null");
    reveal_strlit("Array.from(");
    reveal_strlit(".querySelectorAll('a')).find(a => a.textContent.trim() === ");
    reveal_strlit(") || null");
    reveal_strlit(".querySelectorAll('a')).find(a => a.textContent.includes(");
    reveal_strlit(")) || null");
    reveal_strlit(".querySelectorAll(");
    reveal_strlit("))");
    reveal_strlit(".querySelectorAll('a')).filter(a => a.textContent.trim() === ");
    reveal_strlit(".querySelectorAll('a')).filter(a => a.textContent.includes(");
    reveal_strlit("document");
    reveal_strlit("parent");
    reveal_strlit("shadow");
    assert(selector_js_multiple(st, v) =~= scoped_all(st, "document"@, v));
}

#[verifier::rlimit(40)]
proof fn lemma_selector_js_single_from_element_scoped(st: LocatorStrategy, v: Seq<char>)
    ensures
        selector_js_single_from_element(st, v) == scoped_one(st, "parent"@, v),
{
    reveal_strlit("parent.querySelector('");
    reveal_strlit("')");
    reveal_strlit("parent.getElementsByTagName('");
    reveal_strlit("')[0] || null");
    reveal_strlit("(function() {\n                        var result = document.evaluate('");
    reveal_strlit("', parent, null, XPathResult.FIRST_ORDERED_NODE_TYPE, null);\n                        return result.singleNodeValue;\n                    })()");
    reveal_strlit("Array.from(parent.querySelectorAll('a')).find(a => a.textContent.trim() === '");
    reveal_strlit("') || null");
    reveal_strlit("Array.from(parent.querySelectorAll('a')).find(a => a.textContent.includes('");
    reveal_strlit("')) || null");
    reveal_strlit("                    ");
    reveal_strlit("                        ");
    reveal_strlit("(function() {\n");
    reveal_strlit("    var result = document.evaluate(");
    reveal_strlit(", ");
    reveal_strlit(", null, XPathResult.FIRST_ORDERED_NODE_TYPE, null);\n");
    reveal_strlit("    return result.singleNodeValue;\n");
    reveal_strlit("})()");
    reveal_strlit("    var result = [];\n");
    reveal_strlit("    var iter = document.evaluate(");
    reveal_strlit(", null, XPathResult.ORDERED_NODE_ITERATOR_TYPE, null);\n");
    reveal_strlit("    var node;\n");
    reveal_strlit("    while ((node = iter.iterateNext())) {\n");
    reveal_strlit("        result.push(node);\n");
    reveal_strlit("    }\n");
    reveal_strlit("    return result;\n");
    reveal_strlit(".querySelector(");
    reveal_strlit(")");
    reveal_strlit(".getElementsByTagName(");
    reveal_strlit(")[0] || null");
    reveal_strlit("Array.from(");
    reveal_strlit(".querySelectorAll('a')).find(a => a.textContent.trim() === ");
    reveal_strlit(") || null");
    reveal_strlit(".querySelectorAll('a')).find(a => a.textContent.includes(");
    reveal_strlit(")) || null");
    reveal_strlit(".querySelectorAll(");
    reveal_strlit("))");
    reveal_strlit(".querySelectorAll('a')).filter(a => a.textContent.trim() === ");
    reveal_strlit(".querySelectorAll('a')).filter(a => a.textContent.includes(");
    reveal_strlit("document");
    reveal_strlit("parent");
    reveal_strlit("shadow");
    assert(selector_js_single_from_element(st, v) =~= scoped_one(st, "parent"@, v));
}

#[verifier::rlimit(40)]
proof fn lemma_selector_js_from_element_scoped(st: LocatorStrategy, v: Seq<char>)
    ensures
        selector_js_from_element(st, v) == scoped_all(st, "parent"@, v),
{
    reveal_strlit("Array.from(parent.querySelectorAll('");
    reveal_strlit("'))");
    reveal_strlit("Array.from(parent.getElementsByTagName('");
    reveal_strlit("(function() {\n                        var result = [];\n                        var iter = document.evaluate('");
    reveal_strlit("', parent, null, XPathResult.ORDERED_NODE_ITERATOR_TYPE, null);\n                        var node;\n                        while ((node = iter.iterateNext())) {\n                            result.push(node);\n                        }\n                        return result;\n                    })()");
    reveal_strlit("Array.from(parent.querySelectorAll('a')).filter(a => a.textContent.trim() === '");
    reveal_strlit("')");
    reveal_strlit("Array.from(parent.querySelectorAll('a')).filter(a => a.textContent.includes('");
    reveal_strlit("                    ");
    reveal_strlit("                        ");
    reveal_strlit("(function() {\n");
    reveal_strlit("    var result = document.evaluate(");
    reveal_strlit(", ");
    reveal_strlit(", null, XPathResult.FIRST_ORDERED_NODE_TYPE, null);\n");
    reveal_strlit("    return result.singleNodeValue;\n");
    reveal_strlit("})()");
    reveal_strlit("    var result = [];\n");
    reveal_strlit("    var iter = document.evaluate(");
    reveal_strlit(", null, XPathResult.ORDERED_NODE_ITERATOR_TYPE, null);\n");
    reveal_strlit("    var node;\n");
    reveal_strlit("    while ((node = iter.iterateNext())) {\n");
    reveal_strlit("        result.push(node);\n");
    reveal_strlit("    }\n");
    reveal_strlit("    return result;\n");
    reveal_strlit(".querySelector(");
    reveal_strlit(")");
    reveal_strlit(".getElementsByTagName(");
    reveal_strlit(")[0] || null");
    reveal_strlit("Array.from(");
    reveal_strlit(".querySelectorAll('a')).find(a => a.textContent.trim() === ");
    reveal_strlit(") || null");
    reveal_strlit(".querySelectorAll('a')).find(a => a.textContent.includes(");
    reveal_strlit(")) || null");
    reveal_strlit(".querySelectorAll(");
    reveal_strlit("))");
    reveal_strlit(".querySelectorAll('a')).filter(a => a.textContent.trim() === ");
    reveal_strlit(".querySelectorAll('a')).filter(a => a.textContent.includes(");
    reveal_strlit("document");
    reveal_strlit("parent");
    reveal_strlit("shadow");
    assert(selector_js_from_element(st, v) =~= scoped_all(st, "parent"@, v));
}

#[verifier::rlimit(40)]
proof fn lemma_selector_js_single_from_shadow_scoped(st: LocatorStrategy, v: Seq<char>)
    ensures
        selector_js_single_from_shadow(st, v) == scoped_one(shadow_strategy(st), "shadow"@, v),
{
    reveal_strlit("shadow.querySelector('");
    reveal_strlit("')");
    reveal_strlit("(function() {\n                        var result = document.evaluate('");
    reveal_strlit("', shadow, null, XPathResult.FIRST_ORDERED_NODE_TYPE, null);\n                        return result.singleNodeValue;\n                    })()");
    reveal_strlit("Array.from(shadow.querySelectorAll('a')).find(a => a.textContent.trim() === '");
    reveal_strlit("') || null");
    reveal_strlit("Array.from(shadow.querySelectorAll('a')).find(a => a.textContent.includes('");
    reveal_strlit("')) || null");
    reveal_strlit("                    ");
    reveal_strlit("                        ");
    reveal_strlit("(function() {\n");
    reveal_strlit("    var result = document.evaluate(");
    reveal_strlit(", ");
    reveal_strlit(", null, XPathResult.FIRST_ORDERED_NODE_TYPE, null);\n");
    reveal_strlit("    return result.singleNodeValue;\n");
    reveal_strlit("})()");
    reveal_strlit("    var result = [];\n");
    reveal_strlit("    var iter = document.evaluate(");
    reveal_strlit(", null, XPathResult.ORDERED_NODE_ITERATOR_TYPE, null);\n");
    reveal_strlit("    var node;\n");
    reveal_strlit("    while ((node = iter.iterateNext())) {\n");
    reveal_strlit("        result.push(node);\n");
    reveal_strlit("    }\n");
    reveal_strlit("    return result;\n");
    reveal_strlit(".querySelector(");
    reveal_strlit(")");
    reveal_strlit(".getElementsByTagName(");
    reveal_strlit(")[0] || null");
    reveal_strlit("Array.from(");
    reveal_strlit(".querySelectorAll('a')).find(a => a.textContent.trim() === ");
    reveal_strlit(") || null");
    reveal_strlit(".querySelectorAll('a')).find(a => a.textContent.includes(");
    reveal_strlit(")) || null");
    reveal_strlit(".querySelectorAll(");
    reveal_strlit("))");
    reveal_strlit(".querySelectorAll('a')).filter(a => a.textContent.trim() === ");
    reveal_strlit(".querySelectorAll('a')).filter(a => a.textContent.includes(");
    reveal_strlit("document");
    reveal_strlit("parent");
    reveal_strlit("shadow");
    assert(selector_js_single_from_shadow(st, v) =~= scoped_one(shadow_strategy(st), "shadow"@, v));
}

#[verifier::rlimit(40)]
proof fn lemma_selector_js_from_shadow_scoped(st: LocatorStrategy, v: Seq<char>)
    ensures
        selector_js_from_shadow(st, v) == scoped_all(shadow_strategy(st), "shadow"@, v),
{
    reveal_strlit("Array.from(shadow.querySelectorAll('");
    reveal_strlit("'))");
    reveal_strlit("(function() {\n                        var result = [];\n                        var iter = document.evaluate('");
    reveal_strlit("', shadow, null, XPathResult.ORDERED_NODE_ITERATOR_TYPE, null);\n                        var node;\n                        while ((node = iter.iterateNext())) {\n                            result.push(node);\n                        }\n                        return result;\n                    })()");
    reveal_strlit("Array.from(shadow.querySelectorAll('a')).filter(a => a.textContent.trim() === '");
    reveal_strlit("')");
    reveal_strlit("Array.from(shadow.querySelectorAll('a')).filter(a => a.textContent.includes('");
    reveal_strlit("                    ");
    reveal_strlit("                        ");
    reveal_strlit("(function() {\n");
    reveal_strlit("    var result = document.evaluate(");
    reveal_strlit(", ");
    reveal_strlit(", null, XPathResult.FIRST_ORDERED_NODE_TYPE, null);\n");
    reveal_strlit("    return result.singleNodeValue;\n");
    reveal_strlit("})()");
    reveal_strlit("    var result = [];\n");
    reveal_strlit("    var iter = document.evaluate(");
    reveal_strlit(", null, XPathResult.ORDERED_NODE_ITERATOR_TYPE, null);\n");
    reveal_strlit("    var node;\n");
    reveal_strlit("    while ((node = iter.iterateNext())) {\n");
    reveal_strlit("        result.push(node);\n");
    reveal_strlit("    }\n");
    reveal_strlit("    return result;\n");
    reveal_strlit(".querySelector(");
    reveal_strlit(")");
    reveal_strlit(".getElementsByTagName(");
    reveal_strlit(")[0] || null");
    reveal_strlit("Array.from(");
    reveal_strlit(".querySelectorAll('a')).find(a => a.textContent.trim() === ");
    reveal_strlit(") || null");
    reveal_strlit(".querySelectorAll('a')).find(a => a.textContent.includes(");
    reveal_strlit(")) || null");
    reveal_strlit(".querySelectorAll(");
    reveal_strlit("))");
    reveal_strlit(".querySelectorAll('a')).filter(a => a.textContent.trim() === ");
    reveal_strlit(".querySelectorAll('a')).filter(a => a.textContent.includes(");
    reveal_strlit("document");
    reveal_strlit("parent");
    reveal_strlit("shadow");
    assert(selector_js_from_shadow(st, v) =~= scoped_all(shadow_strategy(st), "shadow"@, v));
}

#[verifier::rlimit(40)]
proof fn lemma_find_expr_scoped(st: LocatorStrategy, v: Seq<char>, multiple: bool)
    ensures
        find_expr(st, v, multiple) == if st == LocatorStrategy::XPath {
            if multiple {
                xpath_all_js(xpath_literal(v), "document"@, find_indent())
            } else {
                xpath_first_js(xpath_literal(v), "document"@, find_indent())
            }
        } else if multiple {
            scoped_all(st, "document"@, v)
        } else {
            scoped_one(st, "document"@, v)
        },
{
    reveal_strlit("Array.from(document.querySelectorAll('");
    reveal_strlit("'))");
    reveal_strlit("document.querySelector('");
    reveal_strlit("')");
    reveal_strlit("Array.from(document.getElementsByTagName('");
    reveal_strlit("document.getElementsByTagName('");
    reveal_strlit("')[0] || null");
    reveal_strlit("(function() {\n                            var result = [];\n                            var iter = document.evaluate(");
    reveal_strlit(", document, null, XPathResult.ORDERED_NODE_ITERATOR_TYPE, null);\n                            var node;\n                            while ((node = iter.iterateNext())) {\n                                result.push(node);\n                            }\n                            return result;\n                        })()");
    reveal_strlit("(function() {\n                            var result = document.evaluate(");
    reveal_strlit(", document, null, XPathResult.FIRST_ORDERED_NODE_TYPE, null);\n                            return result.singleNodeValue;\n                        })()");
    reveal_strlit("Array.from(document.querySelectorAll('a')).filter(a => a.textContent.trim() === '");
    reveal_strlit("Array.from(document.querySelectorAll('a')).find(a => a.textContent.trim() === '");
    reveal_strlit("') || null");
    reveal_strlit("Array.from(document.querySelectorAll('a')).filter(a => a.textContent.includes('");
    reveal_strlit("Array.from(document.querySelectorAll('a')).find(a => a.textContent.includes('");
    reveal_strlit("')) || null");
    reveal_strlit("                    ");
    reveal_strlit("                        ");
    reveal_strlit("(function() {\n");
    reveal_strlit("    var result = document.evaluate(");
    reveal_strlit(", ");
    reveal_strlit(", null, XPathResult.FIRST_ORDERED_NODE_TYPE, null);\n");
    reveal_strlit("    return result.singleNodeValue;\n");
    reveal_strlit("})()");
    reveal_strlit("    var result = [];\n");
    reveal_strlit("    var iter = document.evaluate(");
    reveal_strlit(", null, XPathResult.ORDERED_NODE_ITERATOR_TYPE, null);\n");
    reveal_strlit("    var node;\n");
    reveal_strlit("    while ((node = iter.iterateNext())) {\n");
    reveal_strlit("        result.push(node);\n");
    reveal_strlit("    }\n");
    reveal_strlit("    return result;\n");
    reveal_strlit(".querySelector(");
    reveal_strlit(")");
    reveal_strlit(".getElementsByTagName(");
    reveal_strlit(")[0] || null");
    reveal_strlit("Array.from(");
    reveal_strlit(".querySelectorAll('a')).find(a => a.textContent.trim() === ");
    reveal_strlit(") || null");
    reveal_strlit(".querySelectorAll('a')).find(a => a.textContent.includes(");
    reveal_strlit(")) || null");
    reveal_strlit(".querySelectorAll(");
    reveal_strlit("))");
    reveal_strlit(".querySelectorAll('a')).filter(a => a.textContent.trim() === ");
    reveal_strlit(".querySelectorAll('a')).filter(a => a.textContent.includes(");
    reveal_strlit("document");
    assert(find_expr(st, v, multiple) =~= if st == LocatorStrategy::XPath {
        if multiple {
            xpath_all_js(xpath_literal(v), "document"@, find_indent())
        } else {
            xpath_first_js(xpath_literal(v), "document"@, find_indent())
        }
    } else if multiple {
        scoped_all(st, "document"@, v)
    } else {
        scoped_one(st, "document"@, v)
    });
}

/// The selector forms differ only in the node they search under: `to_selector_js` and
/// `to_selector_js_multiple` search the document, the `_from_element` forms the element
/// held in `parent`, and the `_from_shadow` forms the shadow root held in `shadow`, where a
/// tag name is searched as a CSS selector. For XPath the node is the context node of
/// `document.evaluate`.
pub proof fn lemma_selector_scopes(st: LocatorStrategy, v: Seq<char>)
    ensures
        selector_js(st, v) == scoped_one(st, "document"@, v),
        selector_js_multiple(st, v) == scoped_all(st, "document"@, v),
        selector_js_single_from_element(st, v) == scoped_one(st, "parent"@, v),
        selector_js_from_element(st, v) == scoped_all(st, "parent"@, v),
        selector_js_single_from_shadow(st, v) == scoped_one(shadow_strategy(st), "shadow"@, v),
        selector_js_from_shadow(st, v) == scoped_all(shadow_strategy(st), "shadow"@, v),
{
    lemma_selector_js_scoped(st, v);
    lemma_selector_js_multiple_scoped(st, v);
    lemma_selector_js_single_from_element_scoped(st, v);
    lemma_selector_js_from_element_scoped(st, v);
    lemma_selector_js_single_from_shadow_scoped(st, v);
    lemma_selector_js_from_shadow_scoped(st, v);
}

/// The script of `to_find_js` stores in `js_var` what the document-wide selector finds:
/// for every strategy but XPath it evaluates exactly `to_selector_js` (one element) or
/// `to_selector_js_multiple` (all elements). For XPath it evaluates the same XPath function,
/// laid out with a deeper indentation, and writes the expression as `xpath_literal`, which
/// is the single-quoted literal of the selector forms whenever the expression holds no
/// single quote.
pub proof fn lemma_find_js_uses_selector(st: LocatorStrategy, v: Seq<char>, multiple: bool, js_var: Seq<char>)
    ensures
        st != LocatorStrategy::XPath ==> find_js(st, v, multiple, js_var) == store_found_js(
            if multiple {
                selector_js_multiple(st, v)
            } else {
                selector_js(st, v)
            },
            js_var,
        ),
        st == LocatorStrategy::XPath ==> find_js(st, v, multiple, js_var) == store_found_js(
            if multiple {
                xpath_all_js(xpath_literal(v), "document"@, find_indent())
            } else {
                xpath_first_js(xpath_literal(v), "document"@, find_indent())
            },
            js_var,
        ),
        selector_js(LocatorStrategy::XPath, v) == xpath_first_js(single_quoted(v), "document"@, selector_indent()),
        selector_js_multiple(LocatorStrategy::XPath, v) == xpath_all_js(single_quoted(v), "document"@, selector_indent()),
        !v.contains('\'') ==> xpath_literal(v) == single_quoted(v),
{
    lemma_find_expr_scoped(st, v, multiple);
    lemma_selector_js_scoped(st, v);
    lemma_selector_js_multiple_scoped(st, v);
    lemma_selector_js_scoped(LocatorStrategy::XPath, v);
    lemma_selector_js_multiple_scoped(LocatorStrategy::XPath, v);
}

/// The text before the searched node's name in a selector that is not XPath.
spec fn scope_prefix(st: LocatorStrategy, multiple: bool) -> Seq<char> {
    if multiple || st == LocatorStrategy::LinkText || st == LocatorStrategy::PartialLinkText {
        "Array.from("@
    } else {
        Seq::empty()
    }
}

/// The text after the searched node's name and its dot in a selector that is not XPath.
spec fn scope_rest(st: LocatorStrategy, multiple: bool, v: Seq<char>) -> Seq<char> {
    match st {
        LocatorStrategy::CssSelector => if multiple {
            "querySelectorAll("@ + single_quoted(v) + "))"@
        } else {
            "querySelector("@ + single_quoted(v) + ")"@
        },
        LocatorStrategy::TagName => if multiple {
            "getElementsByTagName("@ + single_quoted(v) + "))"@
        } else {
            "getElementsByTagName("@ + single_quoted(v) + ")[0] || null"@
        },
        LocatorStrategy::LinkText => if multiple {
            "querySelectorAll('a')).filter(a => a.textContent.trim() === "@ + single_quoted(v) + ")"@
        } else {
            "querySelectorAll('a')).find(a => a.textContent.trim() === "@ + single_quoted(v)
                + ") || null"@
        },
        _ => if multiple {
            "querySelectorAll('a')).filter(a => a.textContent.includes("@ + single_quoted(v) + "))"@
        } else {
            "querySelectorAll('a')).find(a => a.textContent.includes("@ + single_quoted(v)
                + ")) || null"@
        },
    }
}

#[verifier::rlimit(40)]
proof fn lemma_scope_split(st: LocatorStrategy, root: Seq<char>, v: Seq<char>)
    requires
        st != LocatorStrategy::XPath,
    ensures
        scoped_one(st, root, v) == scope_prefix(st, false) + root + "."@ + scope_rest(st, false, v),
        scoped_all(st, root, v) == scope_prefix(st, true) + root + "."@ + scope_rest(st, true, v),
{
    reveal_strlit("Array.from(");
    reveal_strlit(".");
    reveal_strlit(".querySelector(");
    reveal_strlit("querySelector(");
    reveal_strlit(".querySelectorAll(");
    reveal_strlit("querySelectorAll(");
    reveal_strlit(".getElementsByTagName(");
    reveal_strlit("getElementsByTagName(");
    reveal_strlit(")");
    reveal_strlit("))");
    reveal_strlit(")[0] || null");
    reveal_strlit(".querySelectorAll('a')).find(a => a.textContent.trim() === ");
    reveal_strlit("querySelectorAll('a')).find(a => a.textContent.trim() === ");
    reveal_strlit(".querySelectorAll('a')).find(a => a.textContent.includes(");
    reveal_strlit("querySelectorAll('a')).find(a => a.textContent.includes(");
    reveal_strlit(".querySelectorAll('a')).filter(a => a.textContent.trim() === ");
    reveal_strlit("querySelectorAll('a')).filter(a => a.textContent.trim() === ");
    reveal_strlit(".querySelectorAll('a')).filter(a => a.textContent.includes(");
    reveal_strlit("querySelectorAll('a')).filter(a => a.textContent.includes(");
    reveal_strlit(") || null");
    reveal_strlit(")) || null");
    assert(scoped_one(st, root, v) =~= scope_prefix(st, false) + root + "."@ + scope_rest(st, false, v));
    assert(scoped_all(st, root, v) =~= scope_prefix(st, true) + root + "."@ + scope_rest(st, true, v));
}

proof fn lemma_scope_replace(st: LocatorStrategy, multiple: bool, root: Seq<char>, v: Seq<char>)
    requires
        st != LocatorStrategy::XPath,
    ensures
        replace_first(
            scope_prefix(st, multiple) + "document"@ + "."@ + scope_rest(st, multiple, v),
            "document."@,
            root + "."@,
        ) == scope_prefix(st, multiple) + root + "."@ + scope_rest(st, multiple, v),
{
    reveal_strlit("Array.from(");
    reveal_strlit("document");
    reveal_strlit(".");
    reveal_strlit("document.");
    let p = scope_prefix(st, multiple);
    let r = scope_rest(st, multiple, v);
    assert(p + "document"@ + "."@ + r =~= p + "document."@ + r);
    assert forall|k: int| 0 <= k < p.len() implies p[k] != "document."@[0] by {}
    lemma_replace_first_after_char(p, "document."@, root + "."@, r);
    assert(p + (root + "."@) + r =~= p + root + "."@ + r);
}

/// Read as text, the element and shadow forms of a selector that is not XPath are the
/// document form with its first `document.` replaced by `parent.` or `shadow.`, a tag
/// name on a shadow root being searched as a CSS selector; and the all-elements form
/// derives from the one-element form: a CSS selector goes from `querySelector(` to
/// `querySelectorAll(` inside `Array.from(..)`, a tag name drops its `[0] || null` and
/// goes inside `Array.from(..)`, and a link text drops its ` || null` and goes from
/// `.find(` to `.filter(`.
pub proof fn lemma_selector_replacements(st: LocatorStrategy, v: Seq<char>)
    requires
        st != LocatorStrategy::XPath,
    ensures
        selector_js_single_from_element(st, v) == replace_first(selector_js(st, v), "document."@, "parent."@),
        selector_js_from_element(st, v) == replace_first(selector_js_multiple(st, v), "document."@, "parent."@),
        st != LocatorStrategy::TagName ==> selector_js_single_from_shadow(st, v) == replace_first(
            selector_js(st, v),
            "document."@,
            "shadow."@,
        ),
        st != LocatorStrategy::TagName ==> selector_js_from_shadow(st, v) == replace_first(
            selector_js_multiple(st, v),
            "document."@,
            "shadow."@,
        ),
        selector_js_single_from_shadow(LocatorStrategy::TagName, v) == selector_js_single_from_shadow(
            LocatorStrategy::CssSelector,
            v,
        ),
        selector_js_from_shadow(LocatorStrategy::TagName, v) == selector_js_from_shadow(
            LocatorStrategy::CssSelector,
            v,
        ),
{
    reveal_strlit("parent");
    reveal_strlit("shadow");
    reveal_strlit(".");
    reveal_strlit("parent.");
    reveal_strlit("shadow.");
    assert("parent"@ + "."@ =~= "parent."@);
    assert("shadow"@ + "."@ =~= "shadow."@);
    lemma_selector_scopes(st, v);
    lemma_selector_scopes(LocatorStrategy::TagName, v);
    lemma_selector_scopes(LocatorStrategy::CssSelector, v);
    lemma_scope_split(st, "document"@, v);
    lemma_scope_split(st, "parent"@, v);
    lemma_scope_split(st, "shadow"@, v);
    lemma_scope_replace(st, false, "parent"@, v);
    lemma_scope_replace(st, true, "parent"@, v);
    lemma_scope_replace(st, false, "shadow"@, v);
    lemma_scope_replace(st, true, "shadow"@, v);
}

/// Read as text, the all-elements selector derives from the one-element selector for
/// every strategy but XPath: a CSS selector goes from `querySelector(` to
/// `querySelectorAll(` inside `Array.from(..)`; a tag name drops its `[0] || null` and
/// goes inside `Array.from(..)`; a link text drops its ` || null` and goes from `.find(`
/// to `.filter(`.
pub proof fn lemma_multiple_from_single(v: Seq<char>)
    ensures
        selector_js_multiple(LocatorStrategy::CssSelector, v) == "Array.from("@ + replace_first(
            selector_js(LocatorStrategy::CssSelector, v),
            "querySelector("@,
            "querySelectorAll("@,
        ) + ")"@,
        selector_js(LocatorStrategy::TagName, v) == "document.getElementsByTagName("@
            + single_quoted(v) + ")"@ + "[0] || null"@,
        selector_js_multiple(LocatorStrategy::TagName, v) == "Array.from("@ + (
        "document.getElementsByTagName("@ + single_quoted(v) + ")"@) + ")"@,
        selector_js(LocatorStrategy::LinkText, v) == link_find_js(v, true) + " || null"@,
        selector_js_multiple(LocatorStrategy::LinkText, v) == replace_first(
            link_find_js(v, true),
            ").find("@,
            ").filter("@,
        ),
        selector_js(LocatorStrategy::PartialLinkText, v) == link_find_js(v, false) + " || null"@,
        selector_js_multiple(LocatorStrategy::PartialLinkText, v) == replace_first(
            link_find_js(v, false),
            ").find("@,
            ").filter("@,
        ),
{
    lemma_css_multiple(v);
    lemma_tag_multiple(v);
    lemma_link_multiple(v);
}

proof fn lemma_css_multiple(v: Seq<char>)
    ensures
        selector_js_multiple(LocatorStrategy::CssSelector, v) == "Array.from("@ + replace_first(
            selector_js(LocatorStrategy::CssSelector, v),
            "querySelector("@,
            "querySelectorAll("@,
        ) + ")"@,
{
    reveal_strlit("document.querySelector('");
    reveal_strlit("')");
    reveal_strlit("Array.from(document.querySelectorAll('");
    reveal_strlit("'))");
    reveal_strlit("document.");
    reveal_strlit("querySelector(");
    reveal_strlit("querySelectorAll(");
    reveal_strlit("Array.from(");
    reveal_strlit(")");
    let sq = single_quoted(v);
    let r = sq + ")"@;
    assert(selector_js(LocatorStrategy::CssSelector, v) =~= "document."@ + "querySelector("@ + r);
    assert forall|k: int| 0 <= k < "document."@.len() implies "document."@[k] != "querySelector("@[0] by {}
    lemma_replace_first_after_char("document."@, "querySelector("@, "querySelectorAll("@, r);
    assert(selector_js_multiple(LocatorStrategy::CssSelector, v) =~= "Array.from("@ + (
    "document."@ + "querySelectorAll("@ + r) + ")"@);
}

proof fn lemma_tag_multiple(v: Seq<char>)
    ensures
        selector_js(LocatorStrategy::TagName, v) == "document.getElementsByTagName("@
            + single_quoted(v) + ")"@ + "[0] || null"@,
        selector_js_multiple(LocatorStrategy::TagName, v) == "Array.from("@ + (
        "document.getElementsByTagName("@ + single_quoted(v) + ")"@) + ")"@,
{
    reveal_strlit("document.getElementsByTagName('");
    reveal_strlit("')[0] || null");
    reveal_strlit("Array.from(document.getElementsByTagName('");
    reveal_strlit("'))");
    reveal_strlit("document.getElementsByTagName(");
    reveal_strlit("[0] || null");
    reveal_strlit("Array.from(");
    reveal_strlit(")");
    let sq = single_quoted(v);
    assert(selector_js(LocatorStrategy::TagName, v) =~= "document.getElementsByTagName("@ + sq
        + ")"@ + "[0] || null"@);
    assert(selector_js_multiple(LocatorStrategy::TagName, v) =~= "Array.from("@ + (
    "document.getElementsByTagName("@ + sq + ")"@) + ")"@);
}

proof fn lemma_link_multiple(v: Seq<char>)
    ensures
        selector_js(LocatorStrategy::LinkText, v) == link_find_js(v, true) + " || null"@,
        selector_js_multiple(LocatorStrategy::LinkText, v) == replace_first(
            link_find_js(v, true),
            ").find("@,
            ").filter("@,
        ),
        selector_js(LocatorStrategy::PartialLinkText, v) == link_find_js(v, false) + " || null"@,
        selector_js_multiple(LocatorStrategy::PartialLinkText, v) == replace_first(
            link_find_js(v, false),
            ").find("@,
            ").filter("@,
        ),
{
    lemma_link_multiple_one(v, true);
    lemma_link_multiple_one(v, false);
}

proof fn lemma_no_find_before(r: Seq<char>)
    ensures
        forall|k: int|
            0 <= k < "Array.from(document.querySelectorAll('a')"@.len() ==> #[trigger] (
            "Array.from(document.querySelectorAll('a')"@ + ").find("@ + r).subrange(
                k,
                k + ").find("@.len(),
            ) != ").find("@,
{
    reveal_strlit("Array.from(document.querySelectorAll('a')");
    reveal_strlit(").find(");
    let p = "Array.from(document.querySelectorAll('a')"@;
    assert forall|k: int| 0 <= k < p.len() implies #[trigger] (p + ").find("@ + r).subrange(
        k,
        k + ").find("@.len(),
    ) != ").find("@ by {
        let w = (p + ").find("@ + r).subrange(k, k + ").find("@.len());
        if k < p.len() - 1 {
            assert(w[0] == p[k]);
        } else {
            assert(w[1] == ").find("@[0]);
        }
    }
}

#[verifier::rlimit(40)]
proof fn lemma_link_multiple_one(v: Seq<char>, exact: bool)
    ensures
        selector_js(
            if exact {
                LocatorStrategy::LinkText
            } else {
                LocatorStrategy::PartialLinkText
            },
            v,
        ) == link_find_js(v, exact) + " || null"@,
        selector_js_multiple(
            if exact {
                LocatorStrategy::LinkText
            } else {
                LocatorStrategy::PartialLinkText
            },
            v,
        ) == replace_first(link_find_js(v, exact), ").find("@, ").filter("@),
{
    let sq = single_quoted(v);
    let p = "Array.from(document.querySelectorAll('a')"@;
    let r = if exact {
        "a => a.textContent.trim() === "@ + sq + ")"@
    } else {
        "a => a.textContent.includes("@ + sq + "))"@
    };
    lemma_no_find_before(r);
    reveal_strlit(")");
    reveal_strlit("))");
    reveal_strlit(" || null");
    reveal_strlit("Array.from(document.querySelectorAll('a')");
    reveal_strlit(").find(");
    reveal_strlit(").filter(");
    if exact {
        reveal_strlit("Array.from(document.querySelectorAll('a')).find(a => a.textContent.trim() === '");
        reveal_strlit("') || null");
        reveal_strlit("Array.from(document.querySelectorAll('a')).filter(a => a.textContent.trim() === '");
        reveal_strlit("')");
        reveal_strlit("a => a.textContent.trim() === ");
        reveal_strlit("Array.from(document.querySelectorAll('a')).find(a => a.textContent.trim() === ");
    } else {
        reveal_strlit("Array.from(document.querySelectorAll('a')).find(a => a.textContent.includes('");
        reveal_strlit("')) || null");
        reveal_strlit("Array.from(document.querySelectorAll('a')).filter(a => a.textContent.includes('");
        reveal_strlit("'))");
        reveal_strlit("a => a.textContent.includes(");
        reveal_strlit("Array.from(document.querySelectorAll('a')).find(a => a.textContent.includes(");
    }
    assert(link_find_js(v, exact) =~= p + ").find("@ + r);
    lemma_replace_first_after(p, ").find("@, ").filter("@, r);
    if exact {
        assert(selector_js(LocatorStrategy::LinkText, v) =~= link_find_js(v, exact) + " || null"@);
        assert(selector_js_multiple(LocatorStrategy::LinkText, v) =~= p + ").filter("@ + r);
    } else {
        assert(selector_js(LocatorStrategy::PartialLinkText, v) =~= link_find_js(v, exact) + " || null"@);
        assert(selector_js_multiple(LocatorStrategy::PartialLinkText, v) =~= p + ").filter("@ + r);
    }
}

/// The link-text search for `v` that finds the first matching link, before its
/// ` || null`: by exact trimmed text (`exact`) or by contained text.
pub open spec fn link_find_js(v: Seq<char>, exact: bool) -> Seq<char> {
    if exact {
        "Array.from(document.querySelectorAll('a')).find(a => a.textContent.trim() === "@
            + single_quoted(v) + ")"@
    } else {
        "Array.from(document.querySelectorAll('a')).find(a => a.textContent.includes("@
            + single_quoted(v) + "))"@
    }
}

} // verus!
