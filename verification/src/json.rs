//! The renderer that writes one JSON record per event, one to a line.

use vstd::prelude::*;
use crate::event::Elapsed;
use crate::event::Event;
use crate::event::EventView;
use crate::event::wire_text;
use crate::text::decimal;
use crate::text::push_decimal;
use crate::text::push_text;

verus! {

/// What `serde_json` makes of a text: the JSON string literal that it
/// writes for it, which is the text between double quotes with the
/// characters escaped that JSON asks for; or nothing, where it does not
/// encode the text.
pub uninterp spec fn json_string(text: Seq<char>) -> Option<Seq<char>>;

/// Why an event could not be rendered.
#[derive(Copy, Clone, Debug, PartialEq, Eq, Structural)]
pub enum NotifyError {
    /// A text could not be encoded.
    Encode,
}

/// Writes a text as a JSON string literal with `serde_json::to_string`.
/// Whether the call succeeds, and the literal that it gives where it does,
/// depend on the text alone.
#[verifier::external_body]
fn to_json_string(text: &str) -> (r: Option<String>)
    ensures
        crate::event::text_of(r) == json_string(text@),
{
    serde_json::to_string(text).ok()
}

/// A field that may be absent: its value, or `null`.
pub open spec fn or_null(value: Option<Seq<char>>) -> Seq<char> {
    match value {
        Some(v) => v,
        None => "null"@,
    }
}

/// The text of an optional string slice.
pub open spec fn slice_text(s: Option<&str>) -> Option<Seq<char>> {
    match s {
        Some(t) => Some(t@),
        None => None,
    }
}

/// The record of an event whose texts are already written as JSON: the
/// name of its case, its message and its duration. The tag comes first,
/// then the fields of the event in their fixed order.
pub open spec fn record(
    e: EventView,
    name: Seq<char>,
    message: Option<Seq<char>>,
    elapsed: Option<Seq<char>>,
) -> Seq<char> {
    match e {
        EventView::DiscoverStart => Seq::<char>::empty() + "{\"event\":\"discover-start\"}\n"@,
        EventView::DiscoverCase { mode, run, .. } => Seq::<char>::empty()
            + "{\"event\":\"discover-case\",\"name\":"@ + name + ",\"mode\":\""@ + mode.word()
            + "\",\"run\":"@ + (if run {
            "true"@
        } else {
            "false"@
        }) + "}\n"@,
        EventView::DiscoverComplete { seed, .. } => Seq::<char>::empty()
            + "{\"event\":\"discover-complete\",\"elapsed_s\":"@ + or_null(elapsed) + ",\"seed\":"@
            + (match seed {
            Some(s) => decimal(s as nat),
            None => "null"@,
        }) + "}\n"@,
        EventView::SuiteStart => Seq::<char>::empty() + "{\"event\":\"suite-start\"}\n"@,
        EventView::CaseStart { .. } => Seq::<char>::empty() + "{\"event\":\"case-start\",\"name\":"@
            + name + "}\n"@,
        EventView::CaseComplete { mode, status, .. } => Seq::<char>::empty()
            + "{\"event\":\"case-complete\",\"name\":"@ + name + ",\"mode\":\""@ + mode.word()
            + "\",\"status\":"@ + (match status {
            Some(s) => "\""@ + s.word() + "\""@,
            None => "null"@,
        }) + ",\"message\":"@ + or_null(message) + ",\"elapsed_s\":"@ + or_null(elapsed) + "}\n"@,
        EventView::SuiteComplete { .. } => Seq::<char>::empty()
            + "{\"event\":\"suite-complete\",\"elapsed_s\":"@ + or_null(elapsed) + "}\n"@,
    }
}

/// The name of the case that an event is about, where it is about one.
pub open spec fn event_name(e: EventView) -> Option<Seq<char>> {
    match e {
        EventView::DiscoverCase { name, .. } => Some(name),
        EventView::CaseStart { name } => Some(name),
        EventView::CaseComplete { name, .. } => Some(name),
        _ => None,
    }
}

/// The message of an event, where it has one.
pub open spec fn event_message(e: EventView) -> Option<Seq<char>> {
    match e {
        EventView::CaseComplete { message, .. } => message,
        _ => None,
    }
}

/// The duration in an event, where it has one.
pub open spec fn event_elapsed(e: EventView) -> Option<Elapsed> {
    match e {
        EventView::DiscoverComplete { elapsed_s, .. } => Some(elapsed_s),
        EventView::CaseComplete { elapsed_s, .. } => elapsed_s,
        EventView::SuiteComplete { elapsed_s } => Some(elapsed_s),
        _ => None,
    }
}

/// A duration as it goes on the wire, where there is one.
pub open spec fn wire_of(elapsed: Option<Elapsed>) -> Option<Seq<char>> {
    match elapsed {
        Some(t) => Some(wire_text(t)),
        None => None,
    }
}

/// A text that may be absent, written as JSON: nothing to write where it
/// is absent, its literal where it is there, and no result at all where
/// it is there and cannot be encoded.
pub open spec fn json_optional(text: Option<Seq<char>>) -> Option<Option<Seq<char>>> {
    match text {
        None => Some(None),
        Some(t) => match json_string(t) {
            Some(literal) => Some(Some(literal)),
            None => None,
        },
    }
}

/// The line that the renderer writes for an event: its record, with the
/// name, the message and the duration that it holds written as JSON; or
/// nothing, where one of these cannot be encoded.
pub open spec fn json_text(e: EventView) -> Option<Seq<char>> {
    match (
        json_optional(event_name(e)),
        json_optional(event_message(e)),
        json_optional(wire_of(event_elapsed(e))),
    ) {
        (Some(name), Some(message), Some(elapsed)) => Some(
            record(
                e,
                match name {
                    Some(n) => n,
                    None => ""@,
                },
                message,
                elapsed,
            ),
        ),
        _ => None,
    }
}

/// What rendering comes to: the line, or the error of a text that cannot
/// be encoded.
pub open spec fn rendered(line: Option<Seq<char>>, r: Result<String, NotifyError>) -> bool {
    match line {
        Some(text) => r is Ok && r->Ok_0@ == text,
        None => r == Err::<String, NotifyError>(NotifyError::Encode),
    }
}

fn push_or_null(out: &mut String, value: Option<&str>)
    ensures
        final(out)@ == old(out)@ + or_null(slice_text(value)),
{
    match value {
        Some(v) => push_text(out, v),
        None => push_text(out, "null"),
    }
}

/// Puts together the record of `event` from texts that are already
/// written as JSON.
pub fn json_record(event: &Event, name: &str, message: Option<&str>, elapsed: Option<&str>) -> (r:
    String)
    ensures
        r@ == record(event@, name@, slice_text(message), slice_text(elapsed)),
{
    let mut out = String::new();
    match event {
        Event::DiscoverStart => {
            push_text(&mut out, "{\"event\":\"discover-start\"}\n");
        },
        Event::DiscoverCase { mode, run, .. } => {
            push_text(&mut out, "{\"event\":\"discover-case\",\"name\":");
            push_text(&mut out, name);
            push_text(&mut out, ",\"mode\":\"");
            push_text(&mut out, mode.as_str());
            push_text(&mut out, "\",\"run\":");
            if *run {
                push_text(&mut out, "true");
            } else {
                push_text(&mut out, "false");
            }
            push_text(&mut out, "}\n");
        },
        Event::DiscoverComplete { seed, .. } => {
            push_text(&mut out, "{\"event\":\"discover-complete\",\"elapsed_s\":");
            push_or_null(&mut out, elapsed);
            push_text(&mut out, ",\"seed\":");
            match seed {
                Some(s) => push_decimal(&mut out, *s as u128),
                None => push_text(&mut out, "null"),
            }
            push_text(&mut out, "}\n");
        },
        Event::SuiteStart => {
            push_text(&mut out, "{\"event\":\"suite-start\"}\n");
        },
        Event::CaseStart { .. } => {
            push_text(&mut out, "{\"event\":\"case-start\",\"name\":");
            push_text(&mut out, name);
            push_text(&mut out, "}\n");
        },
        Event::CaseComplete { mode, status, .. } => {
            push_text(&mut out, "{\"event\":\"case-complete\",\"name\":");
            push_text(&mut out, name);
            push_text(&mut out, ",\"mode\":\"");
            push_text(&mut out, mode.as_str());
            push_text(&mut out, "\",\"status\":");
            let ghost head = out@;
            match status {
                Some(s) => {
                    push_text(&mut out, "\"");
                    push_text(&mut out, s.as_str());
                    push_text(&mut out, "\"");
                    assert(out@ =~= head + ("\""@ + s.word() + "\""@));
                },
                None => push_text(&mut out, "null"),
            }
            push_text(&mut out, ",\"message\":");
            push_or_null(&mut out, message);
            push_text(&mut out, ",\"elapsed_s\":");
            push_or_null(&mut out, elapsed);
            push_text(&mut out, "}\n");
        },
        Event::SuiteComplete { .. } => {
            push_text(&mut out, "{\"event\":\"suite-complete\",\"elapsed_s\":");
            push_or_null(&mut out, elapsed);
            push_text(&mut out, "}\n");
        },
    }
    out
}

fn quote(text: &str) -> (r: Result<String, NotifyError>)
    ensures
        rendered(json_string(text@), r),
{
    match to_json_string(text) {
        Some(literal) => Ok(literal),
        None => Err(NotifyError::Encode),
    }
}

fn quote_elapsed(elapsed: &Elapsed) -> (r: Result<String, NotifyError>)
    ensures
        rendered(json_string(wire_text(*elapsed)), r),
{
    let plain = elapsed.wire();
    quote(plain.as_str())
}

/// Writes a text that may be absent as JSON.
fn quote_optional(text: Option<&str>) -> (r: Result<Option<String>, NotifyError>)
    ensures
        match json_optional(slice_text(text)) {
            Some(written) => r is Ok && crate::event::text_of(r->Ok_0) == written,
            None => r == Err::<Option<String>, NotifyError>(NotifyError::Encode),
        },
{
    match text {
        None => Ok(None),
        Some(t) => match quote(t) {
            Ok(literal) => Ok(Some(literal)),
            Err(e) => Err(e),
        },
    }
}

/// Writes a duration that may be absent as JSON.
fn quote_optional_elapsed(elapsed: Option<Elapsed>) -> (r: Result<Option<String>, NotifyError>)
    ensures
        match json_optional(wire_of(elapsed)) {
            Some(written) => r is Ok && crate::event::text_of(r->Ok_0) == written,
            None => r == Err::<Option<String>, NotifyError>(NotifyError::Encode),
        },
{
    match elapsed {
        None => Ok(None),
        Some(t) => match quote_elapsed(&t) {
            Ok(literal) => Ok(Some(literal)),
            Err(e) => Err(e),
        },
    }
}

fn as_slice(s: &Option<String>) -> (r: Option<&str>)
    ensures
        slice_text(r) == crate::event::text_of(*s),
{
    match s {
        Some(t) => Some(t.as_str()),
        None => None,
    }
}

fn name_in(event: &Event) -> (r: Option<&str>)
    ensures
        slice_text(r) == event_name(event@),
{
    match event {
        Event::DiscoverCase { name, .. } => Some(name.as_str()),
        Event::CaseStart { name } => Some(name.as_str()),
        Event::CaseComplete { name, .. } => Some(name.as_str()),
        _ => None,
    }
}

fn message_in(event: &Event) -> (r: Option<&str>)
    ensures
        slice_text(r) == event_message(event@),
{
    match event {
        Event::CaseComplete { message, .. } => as_slice(message),
        _ => None,
    }
}

fn elapsed_in(event: &Event) -> (r: Option<Elapsed>)
    ensures
        r == event_elapsed(event@),
{
    match event {
        Event::DiscoverComplete { elapsed_s, .. } => Some(*elapsed_s),
        Event::CaseComplete { elapsed_s, .. } => *elapsed_s,
        Event::SuiteComplete { elapsed_s } => Some(*elapsed_s),
        _ => None,
    }
}

/// The renderer that writes one JSON record per event.
#[derive(Debug)]
pub struct JsonNotifier {}

impl JsonNotifier {
    pub fn new() -> Self {
        JsonNotifier {  }
    }

    /// Returns the line to be written for an event: its record, or the
    /// error of a record that holds a text which cannot be encoded.
    pub fn notify(&mut self, event: &Event) -> (r: Result<String, NotifyError>)
        ensures
            rendered(json_text(event@), r),
    {
        let name = match quote_optional(name_in(event)) {
            Ok(written) => written,
            Err(e) => {
                return Err(e);
            },
        };
        let message = match quote_optional(message_in(event)) {
            Ok(written) => written,
            Err(e) => {
                return Err(e);
            },
        };
        let elapsed = match quote_optional_elapsed(elapsed_in(event)) {
            Ok(written) => written,
            Err(e) => {
                return Err(e);
            },
        };
        let named: &str = match &name {
            Some(n) => n.as_str(),
            None => "",
        };
        Ok(json_record(event, named, as_slice(&message), as_slice(&elapsed)))
    }
}

} // verus!
