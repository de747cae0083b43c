//! What the backend's exit and output become: a Nu value or a failure.

use vstd::prelude::*;
use vstd::string::to_string_from_display_ensures;
use vstd::string::StrSliceExecFns;
use vstd::string::StringExecFns;
use vstd::string::StringSliceAdditionalSpecFns;
use vstd::utf8::{valid_utf8, decode_utf8};
use crate::error::PluginError;
use crate::json::{json_document, json_error_text, json_from_str, json_to_value, nu_of_json};
use crate::plugin::{explicit_format, explicit_output_format, string_views};
use crate::text::{i64_decimal, is_blank, signed_decimal, str_equal, trim, trim_chars};
use crate::value::{NuModel, NuValue};

verus! {

/// The decoding error of `std::str::from_utf8`.
#[verifier::external_type_specification]
#[verifier::external_body]
pub struct ExUtf8Error(core::str::Utf8Error);

/// The display text of the error that `std::str::from_utf8` reports for
/// bytes that are not UTF-8.
pub uninterp spec fn utf8_error_text(bytes: Seq<u8>) -> Seq<char>;

/// Decode `bytes` as UTF-8.
///
/// Trusted: it calls `std::str::from_utf8`, which succeeds exactly on valid
/// UTF-8 and then returns the string made of exactly those bytes; its error,
/// and so the error's display text, depend on the bytes alone.
#[verifier::external_body]
pub(crate) fn str_from_utf8(bytes: &[u8]) -> (r: Result<&str, core::str::Utf8Error>)
    ensures
        r is Ok <==> valid_utf8(bytes@),
        r matches Ok(s) ==> s.spec_bytes() == bytes@,
        r matches Err(e) ==> forall|s: String|
            #[trigger] to_string_from_display_ensures::<core::str::Utf8Error>(&e, s) ==> s@
                == utf8_error_text(bytes@),
{
    std::str::from_utf8(bytes)
}

/// The text that `String::from_utf8_lossy` makes of some bytes.
pub uninterp spec fn lossy_text(bytes: Seq<u8>) -> Seq<char>;

/// Decode `bytes` as UTF-8, replacing invalid sequences.
///
/// Trusted: it calls `String::from_utf8_lossy`, whose result depends on the
/// bytes alone and is their plain decoding when they are valid UTF-8. How
/// invalid sequences are replaced is not stated.
#[verifier::external_body]
pub(crate) fn utf8_lossy(bytes: &[u8]) -> (r: String)
    ensures
        r@ == lossy_text(bytes@),
        valid_utf8(bytes@) ==> r@ == decode_utf8(bytes@),
{
    String::from_utf8_lossy(bytes).into_owned()
}

/// The characters of valid UTF-8 text.
proof fn lemma_decoded(s: &str, bytes: Seq<u8>)
    requires
        s.spec_bytes() == bytes,
    ensures
        s@ == decode_utf8(bytes),
        valid_utf8(bytes),
{
    vstd::utf8::encode_utf8_decode_utf8(s@);
    vstd::utf8::encode_utf8_valid_utf8(s@);
}

/// The start of the trimmed text, at most 512 characters, that an invalid
/// JSON error shows.
pub open spec fn json_preview(text: Seq<char>) -> Seq<char> {
    let t = trim_chars(text);
    if t.len() <= 512 {
        t
    } else {
        t.take(512)
    }
}

/// The preview of invalid JSON is the start of the trimmed text: a prefix of
/// it, 512 characters long, or all of it when it is shorter.
pub proof fn lemma_preview_is_trimmed_start(text: Seq<char>)
    ensures
        json_preview(text).is_prefix_of(trim_chars(text)),
        json_preview(text).len() == (if trim_chars(text).len() <= 512 {
            trim_chars(text).len()
        } else {
            512
        }),
{
}

/// A described exit code reads back as that code: the text of a code that is
/// not negative reads as the code, and that of a negative code is a minus
/// sign followed by text that reads as its magnitude.
pub proof fn lemma_exit_code_reads_back(c: i32)
    ensures
        c >= 0 ==> crate::text::decimal_value(status_text(Some(c))) == c,
        c < 0 ==> status_text(Some(c))[0] == '-' && crate::text::decimal_value(
            status_text(Some(c)).drop_first(),
        ) == -c,
{
    if c >= 0 {
        crate::text::lemma_decimal_reads_back(c as nat);
    } else {
        crate::text::lemma_decimal_reads_back((-c) as nat);
        assert(status_text(Some(c)).drop_first() =~= crate::text::decimal((-c) as nat));
    }
}

/// What JSON output becomes: invalid UTF-8 is an error carrying the decoding
/// error's text; blank text is nothing; text that does not parse is an error
/// carrying the parser's explanation and the start of the trimmed text; a
/// document becomes its Nu value.
pub open spec fn json_output(output: Seq<u8>, r: Result<NuValue, PluginError>) -> bool {
    if !valid_utf8(output) {
        r matches Err(PluginError::InvalidUtf8 { detail }) && detail@ == utf8_error_text(output)
    } else {
        let text = decode_utf8(output);
        if is_blank(text) {
            r == Ok::<NuValue, PluginError>(NuValue::Nothing)
        } else {
            match json_document(text) {
                None => r matches Err(PluginError::InvalidJson { detail, preview })
                    && detail@ == json_error_text(text) && preview@ == json_preview(text),
                Some(tree) => r matches Ok(v) && v@ == nu_of_json(tree),
            }
        }
    }
}

/// Convert the JSON emitted by ipscan into native Nu values.
pub fn parse_json_output(output: &[u8]) -> (r: Result<NuValue, PluginError>)
    ensures
        json_output(output@, r),
{
    let text = match str_from_utf8(output) {
        Ok(text) => text,
        Err(error) => {
            return Err(PluginError::InvalidUtf8 { detail: error.to_string() });
        },
    };
    proof {
        lemma_decoded(text, output@);
        crate::text::lemma_trim_empty_iff_blank(text@);
    }
    let trimmed = trim(text);
    if trimmed.is_empty() {
        return Ok(NuValue::Nothing);
    }
    match json_from_str(text) {
        Ok(json) => Ok(json_to_value(&json)),
        Err(error) => {
            let n = trimmed.unicode_len();
            let end = if n <= 512 {
                n
            } else {
                512
            };
            let preview = trimmed.substring_char(0, end).to_owned();
            proof {
                if n <= 512 {
                    assert(trimmed@.subrange(0, end as int) =~= trimmed@);
                }
            }
            Err(PluginError::InvalidJson { detail: error.to_string(), preview })
        },
    }
}

/// What JSON output becomes, case by case: bytes that are not UTF-8 are
/// exactly an `InvalidUtf8` failure with the decoder's explanation; blank text
/// is exactly nothing; text that is not JSON is exactly an `InvalidJson`
/// failure with the parser's explanation and the trimmed start; a parsed
/// document is exactly its converted value, with nothing dropped or reshaped.
pub proof fn lemma_json_output_cases(output: Seq<u8>, r: Result<NuValue, PluginError>)
    ensures
        !valid_utf8(output) ==> (json_output(output, r) <==> (r matches Err(
            PluginError::InvalidUtf8 { detail },
        ) && detail@ == utf8_error_text(output))),
        valid_utf8(output) && is_blank(decode_utf8(output)) ==> (json_output(output, r) <==> r
            == Ok::<NuValue, PluginError>(NuValue::Nothing)),
        valid_utf8(output) && !is_blank(decode_utf8(output)) && json_document(decode_utf8(output))
            is None ==> (json_output(output, r) <==> (r matches Err(
            PluginError::InvalidJson { detail, preview },
        ) && detail@ == json_error_text(decode_utf8(output)) && preview@ == json_preview(
            decode_utf8(output),
        ))),
        valid_utf8(output) && !is_blank(decode_utf8(output)) ==> (json_document(
            decode_utf8(output),
        ) matches Some(t) ==> (json_output(output, r) <==> (r matches Ok(v) && v@ == nu_of_json(
            t,
        )))),
{
}

/// How an exit is described: its code, or that a signal ended the process.
pub open spec fn status_text(code: Option<i32>) -> Seq<char> {
    match code {
        Some(c) => signed_decimal(c as int),
        None => "terminated by signal"@,
    }
}

/// The detail of a failed backend run: the exit, then the trimmed error
/// output when there is any.
pub open spec fn failure_detail(code: Option<i32>, stderr: Seq<char>) -> Seq<char> {
    let t = trim_chars(stderr);
    if t.len() == 0 {
        "exit status "@ + status_text(code)
    } else {
        "exit status "@ + status_text(code) + ": "@ + t
    }
}

/// Describe how the backend exited, given its exit code (none when a signal
/// ended it).
pub fn format_status(code: Option<i32>) -> (r: String)
    ensures
        r@ == status_text(code),
{
    match code {
        Some(code) => i64_decimal(code as i64),
        None => "terminated by signal".to_owned(),
    }
}

/// What a finished backend run becomes.
pub open spec fn backend_outcome(
    args: Seq<Seq<char>>,
    raw: bool,
    success: bool,
    code: Option<i32>,
    stdout: Seq<u8>,
    stderr: Seq<u8>,
    r: Result<NuValue, PluginError>,
) -> bool {
    if !success {
        r matches Err(PluginError::BackendFailed { detail }) && detail@ == failure_detail(
            code,
            lossy_text(stderr),
        )
    } else if raw {
        r matches Ok(v) && v@ == NuModel::Binary(stdout)
    } else if explicit_format(args) matches Some(f) && f != "json"@ {
        if valid_utf8(stdout) {
            r matches Ok(v) && v@ == NuModel::Str(decode_utf8(stdout))
        } else {
            r matches Err(PluginError::InvalidText { detail }) && detail@ == utf8_error_text(
                stdout,
            )
        }
    } else {
        json_output(stdout, r)
    }
}

/// What a finished run becomes, case by case: a failed run is exactly a
/// `BackendFailed` failure describing the exit and the trimmed error output;
/// a successful raw run is exactly its stdout bytes; a successful run in an
/// explicitly chosen format other than JSON is exactly its stdout as text
/// (or an `InvalidText` failure when that is not UTF-8); any other successful
/// run is exactly what JSON output becomes.
pub proof fn lemma_backend_outcome_cases(
    args: Seq<Seq<char>>,
    raw: bool,
    success: bool,
    code: Option<i32>,
    stdout: Seq<u8>,
    stderr: Seq<u8>,
    f: Seq<char>,
    r: Result<NuValue, PluginError>,
)
    ensures
        !success ==> (backend_outcome(args, raw, success, code, stdout, stderr, r) <==> (r matches Err(
            PluginError::BackendFailed { detail },
        ) && detail@ == failure_detail(code, lossy_text(stderr)))),
        success && raw ==> (backend_outcome(args, raw, success, code, stdout, stderr, r) <==> (
        r matches Ok(v) && v@ == NuModel::Binary(stdout))),
        success && !raw && explicit_format(args) == Some(f) && f != "json"@ && valid_utf8(stdout)
            ==> (backend_outcome(args, raw, success, code, stdout, stderr, r) <==> (r matches Ok(v)
            && v@ == NuModel::Str(decode_utf8(stdout)))),
        success && !raw && explicit_format(args) == Some(f) && f != "json"@ && !valid_utf8(stdout)
            ==> (backend_outcome(args, raw, success, code, stdout, stderr, r) <==> (r matches Err(
            PluginError::InvalidText { detail },
        ) && detail@ == utf8_error_text(stdout))),
        success && !raw && (explicit_format(args) is None || explicit_format(args) == Some(
            "json"@,
        )) ==> (backend_outcome(args, raw, success, code, stdout, stderr, r) <==> json_output(
            stdout,
            r,
        )),
{
}

/// On the JSON path (a successful run, not raw, with no format other than
/// JSON chosen) the command's result is exactly what [`parse_json_output`]
/// makes of the backend's output, failures and their texts included.
pub proof fn lemma_json_path_is_parse_json_output(
    args: Seq<Seq<char>>,
    code: Option<i32>,
    stdout: Seq<u8>,
    stderr: Seq<u8>,
    r: Result<NuValue, PluginError>,
)
    requires
        !(explicit_format(args) matches Some(f) && f != "json"@),
    ensures
        backend_outcome(args, false, true, code, stdout, stderr, r) == json_output(stdout, r),
{
}

/// Turn the result of running the backend into the command's value: a
/// failed run is an error; raw output is binary; output in an explicitly
/// selected text format is a string; otherwise it is JSON.
pub fn backend_output_value(
    arguments: &[String],
    raw: bool,
    success: bool,
    exit_code: Option<i32>,
    stdout: Vec<u8>,
    stderr: &[u8],
) -> (r: Result<NuValue, PluginError>)
    ensures
        backend_outcome(string_views(arguments@), raw, success, exit_code, stdout@, stderr@, r),
{
    if !success {
        let stderr_text = utf8_lossy(stderr);
        let trimmed = trim(stderr_text.as_str());
        let status = format_status(exit_code);
        proof {
            reveal_strlit("exit status ");
            reveal_strlit(": ");
        }
        let mut detail = "exit status ".to_owned();
        detail.append(status.as_str());
        if !trimmed.is_empty() {
            detail.append(": ");
            detail.append(trimmed);
        }
        return Err(PluginError::BackendFailed { detail });
    }
    if raw {
        return Ok(NuValue::Binary(stdout));
    }
    if let Some(format) = explicit_output_format(arguments) {
        if !str_equal(format, "json") {
            return match str_from_utf8(stdout.as_slice()) {
                Ok(text) => {
                    proof {
                        lemma_decoded(text, stdout@);
                    }
                    Ok(NuValue::String(text.to_owned()))
                },
                Err(error) => Err(PluginError::InvalidText { detail: error.to_string() }),
            };
        }
    }
    parse_json_output(stdout.as_slice())
}

} // verus!
