//! Output formats, structured errors and the result of a prompt run.

use vstd::prelude::*;

use crate::text::{append, ends_with_char, owned};

verus! {

broadcast use vstd::string::group_string_axioms;

/// The structured output format of one-shot commands.
#[derive(PartialEq, Eq, Structural, Clone, Copy, Debug)]
pub enum Format {
    Yaml,
    Json,
    Toml,
}

/// One key/value detail attached to a structured error.
pub struct ErrorDetail {
    pub key: String,
    pub value: String,
}

/// A machine-readable error, written to stderr in the selected format.
pub struct StructuredError {
    pub code: String,
    pub message: String,
    pub source: String,
    pub format: Format,
    pub details: Vec<ErrorDetail>,
}

/// The views of the details of an error, as key/value pairs.
pub open spec fn details_view(d: Seq<ErrorDetail>) -> Seq<(Seq<char>, Seq<char>)> {
    d.map_values(|e: ErrorDetail| (e.key@, e.value@))
}

/// Whether `e` is the error with this code, message, source and format and
/// these details.
pub open spec fn is_error(
    e: StructuredError,
    code: Seq<char>,
    message: Seq<char>,
    source: Seq<char>,
    format: Format,
    details: Seq<(Seq<char>, Seq<char>)>,
) -> bool {
    &&& e.code@ == code
    &&& e.message@ == message
    &&& e.source@ == source
    &&& e.format == format
    &&& details_view(e.details@) == details
}

impl StructuredError {
    /// An error with no details.
    pub fn new(code: &str, message: String, source: &str, format: Format) -> (r: Self)
        ensures
            is_error(r, code@, message@, source@, format, Seq::empty()),
    {
        let r = StructuredError {
            code: owned(code),
            message,
            source: owned(source),
            format,
            details: Vec::new(),
        };
        assert(details_view(r.details@) =~= Seq::empty());
        r
    }

    /// The same error with one more detail, after the others.
    pub fn with_detail(self, key: &str, value: &str) -> (r: Self)
        ensures
            r.code@ == self.code@,
            r.message@ == self.message@,
            r.source@ == self.source@,
            r.format == self.format,
            details_view(r.details@) == details_view(self.details@).push((key@, value@)),
    {
        let mut details = self.details;
        let ghost before = details@;
        details.push(ErrorDetail { key: owned(key), value: owned(value) });
        assert(details_view(details@) =~= details_view(before).push((key@, value@)));
        StructuredError {
            code: self.code,
            message: self.message,
            source: self.source,
            format: self.format,
            details,
        }
    }
}

/// The text of one result in the format, from what the serializer wrote:
/// JSON and TOML end with a newline (added where missing); YAML is kept.
pub open spec fn document_of(body: Seq<char>, format: Format) -> Seq<char> {
    match format {
        Format::Yaml => body,
        Format::Json => body + "\n"@,
        Format::Toml => if body.len() > 0 && body.last() == '\n' {
            body
        } else {
            body + "\n"@
        },
    }
}

/// Completes the serialized text of one result (see `document_of`).
pub fn document_text(body: String, format: Format) -> (r: String)
    ensures
        r@ == document_of(body@, format),
{
    let mut body = body;
    match format {
        Format::Yaml => {},
        Format::Json => append(&mut body, "\n"),
        Format::Toml => {
            if !ends_with_char(body.as_str(), '\n') {
                append(&mut body, "\n");
            }
        },
    }
    body
}

pub const STREAM_TOML_REFUSED: &'static str = "--stream does not support the toml format; use yaml or json";

/// One record of a stream, from its serialized text: a YAML document
/// between `---` and `...`, or one JSON line; TOML cannot be streamed.
pub open spec fn stream_record_of(body: Seq<char>, format: Format) -> Result<Seq<char>, Seq<char>> {
    match format {
        Format::Yaml => Ok("---\n"@ + body + "...\n"@),
        Format::Json => Ok(body + "\n"@),
        Format::Toml => Err(STREAM_TOML_REFUSED@),
    }
}

/// Frames one serialized record of a stream (see `stream_record_of`).
pub fn stream_record(body: &str, format: Format) -> (r: Result<String, String>)
    ensures
        match r {
            Ok(s) => stream_record_of(body@, format) == Ok::<Seq<char>, Seq<char>>(s@),
            Err(m) => stream_record_of(body@, format) == Err::<Seq<char>, Seq<char>>(m@),
        },
{
    match format {
        Format::Yaml => {
            let mut r = owned("---\n");
            append(&mut r, body);
            append(&mut r, "...\n");
            Ok(r)
        },
        Format::Json => {
            let mut r = owned(body);
            append(&mut r, "\n");
            Ok(r)
        },
        Format::Toml => Err(owned(STREAM_TOML_REFUSED)),
    }
}

/// One entry of an effective context.
pub struct ContextEntry {
    pub key: String,
    pub value: String,
}

/// The result of running one prompt.
pub struct AcpAgentCliOutput {
    pub status: String,
    pub message: String,
    pub input: String,
    pub effective_context: Vec<ContextEntry>,
}

/// The result of a prompt run: `ok`, the agent's text, the input and the
/// effective context.
pub fn run_output(input: &str, message: String, effective_context: Vec<ContextEntry>) -> (r: AcpAgentCliOutput)
    ensures
        r.status@ == "ok"@,
        r.message@ == message@,
        r.input@ == input@,
        r.effective_context@ == effective_context@,
{
    AcpAgentCliOutput { status: owned("ok"), message, input: owned(input), effective_context }
}

} // verus!
