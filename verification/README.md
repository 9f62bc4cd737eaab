# tauri_webdriver

A WebDriver server for Tauri applications. The crate is split in two:

- `src/` is the verified library (Verus): session and element bookkeeping, locator
  strategies and the JavaScript they compile to, the scripts each WebDriver command runs in
  the web view, the readers of script replies, key and pointer event construction, action
  planning, the parse of web-view replies, and the request checks of the HTTP handlers.
  Each public function carries a contract; laws that relate several functions, or that
  hold over any history of calls on the element store and the session manager, are
  public proof functions.
- `app/` is the unverified shell around it: the Tauri plugin, the axum router and its async
  handlers, and the per-platform executors that hand scripts to WebKitGTK, WebView2 or
  WKWebView and bring the replies back as library values.

`tests/` exercises the library on concrete values.
