use vstd::prelude::*;

verus! {

/// The kind of content a clipboard command writes.
#[derive(Clone, Copy, Debug, PartialEq, Eq, Structural)]
pub enum ClipboardFormat {
    Text,
    Html,
}

/// How a format is named in a diagnostic line.
pub open spec fn format_name(format: ClipboardFormat) -> Seq<char> {
    match format {
        ClipboardFormat::Text => "text"@,
        ClipboardFormat::Html => "HTML"@,
    }
}

/// The diagnostic line reported when the clipboard service rejects a write.
pub open spec fn write_failure_message(format: ClipboardFormat, error: Seq<char>) -> Seq<char> {
    "Failed to write "@ + format_name(format) + " to clipboard: "@ + error
}

/// Turns the clipboard service's answer to a write into what the command reports.
///
/// A write never fails the command: a success reports nothing, and a failure
/// becomes exactly one diagnostic line that names the format and carries the
/// service's error text.
pub fn clipboard_diagnostic(format: ClipboardFormat, outcome: &Result<(), String>) -> (r: Option<
    String,
>)
    ensures
        outcome is Ok <==> r is None,
        outcome is Err ==> r is Some && r->Some_0@ == write_failure_message(
            format,
            outcome->Err_0@,
        ),
{
    match outcome {
        Ok(()) => None,
        Err(e) => {
            let mut line = String::from_str("Failed to write ");
            match format {
                ClipboardFormat::Text => line.append("text"),
                ClipboardFormat::Html => line.append("HTML"),
            }
            line.append(" to clipboard: ");
            line.append(e.as_str());
            Some(line)
        },
    }
}

} // verus!
