use vstd::prelude::*;

use super::scripts::{
    android_async_script_js, android_async_script_source, execute_async_script_js,
    execute_async_script_source, execute_script_js, execute_script_source, macos_async_script_js,
    macos_async_script_source,
};
use crate::server::response::WebDriverErrorResponse;
use crate::webdriver::element::{is_uuid_text, new_uuid_string};

verus! {

#[verifier::external_type_specification]
#[verifier::external_body]
pub struct ExJsonValue(serde_json::Value);

#[verifier::external_type_specification]
#[verifier::external_body]
pub struct ExJsonError(serde_json::Error);

/// The JSON text that `serde_json::to_string` writes for a slice of JSON values: an array
/// of their encodings. It depends on the values alone.
pub uninterp spec fn json_array_text(args: Seq<serde_json::Value>) -> Seq<char>;

/// Calls `serde_json::to_string` on the script arguments and claims that it succeeds with
/// the text named by `json_array_text`. serde_json's documentation names two causes of
/// failure, a `Serialize` impl that fails and a map with non-string keys; the `Serialize`
/// impl of `Value` fails on neither (it writes unit, booleans, numbers, strings, sequences
/// and string-keyed maps, non-finite numbers as `null`), and writing into the `Vec` that
/// `to_string` uses cannot fail.
#[verifier::external_body]
fn arguments_json(args: &[serde_json::Value]) -> (r: Result<String, serde_json::Error>)
    ensures
        r is Ok,
        r matches Ok(text) ==> text@ == json_array_text(args@),
{
    serde_json::to_string(args)
}

/// Formats a `serde_json::Error` through its `Display` impl; the text is not described.
#[verifier::external_body]
fn json_error_text(e: &serde_json::Error) -> String {
    e.to_string()
}

/// The script arguments as JSON text. Serializing JSON values does not fail; the error
/// arm answers a failure with `invalid argument` should serde_json ever report one.
fn arguments_text(args: &[serde_json::Value]) -> (r: Result<String, WebDriverErrorResponse>)
    ensures
        r matches Ok(text) && text@ == json_array_text(args@),
{
    match arguments_json(args) {
        Ok(text) => Ok(text),
        Err(e) => {
            let message = json_error_text(&e);
            Err(WebDriverErrorResponse::invalid_argument(message.as_str()))
        },
    }
}

/// The script that runs a synchronous user script with its arguments, the arguments
/// written as JSON.
pub fn execute_script_request(script: &str, args: &[serde_json::Value]) -> (r: Result<
    String,
    WebDriverErrorResponse,
>)
    ensures
        r is Ok,
        r matches Ok(js) ==> js@ == execute_script_js(script@, json_array_text(args@)),
{
    let args_json = arguments_text(args)?;
    let js = execute_script_source(script, args_json.as_str());
    Ok(js)
}

/// The script that runs an asynchronous user script with its arguments and a completion
/// callback, as a promise.
pub fn execute_async_script_request(script: &str, args: &[serde_json::Value]) -> (r: Result<
    String,
    WebDriverErrorResponse,
>)
    ensures
        r is Ok,
        r matches Ok(js) ==> js@ == execute_async_script_js(script@, json_array_text(args@)),
{
    let args_json = arguments_text(args)?;
    let js = execute_async_script_source(script, args_json.as_str());
    Ok(js)
}

/// The script that runs an asynchronous user script on Android, where the plugin supplies
/// the completion callback.
pub fn android_async_script_request(script: &str, args: &[serde_json::Value]) -> (r: Result<
    String,
    WebDriverErrorResponse,
>)
    ensures
        r is Ok,
        r matches Ok(js) ==> js@ == android_async_script_js(script@, json_array_text(args@)),
{
    let args_json = arguments_text(args)?;
    let js = android_async_script_source(script, args_json.as_str());
    Ok(js)
}

/// A fresh identifier for an asynchronous script run, under which its completion is
/// reported back: a random UUID in its hyphenated lower-case text form.
pub fn new_async_id() -> (id: String)
    ensures
        is_uuid_text(id@),
{
    new_uuid_string()
}

/// The script that runs an asynchronous user script on macOS, reporting its outcome
/// through the named native message handler under `async_id`.
pub fn macos_async_script_request(
    script: &str,
    args: &[serde_json::Value],
    handler_name: &str,
    async_id: &str,
) -> (r: Result<String, WebDriverErrorResponse>)
    ensures
        r is Ok,
        r matches Ok(js) ==> js@ == macos_async_script_js(
                script@,
                json_array_text(args@),
                handler_name@,
                async_id@,
            ),
{
    let args_json = arguments_text(args)?;
    let js = macos_async_script_source(script, args_json.as_str(), handler_name, async_id);
    Ok(js)
}

} // verus!
