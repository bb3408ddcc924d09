//! Validation and pretty-printing of JSON and XML bodies. The parsing and
//! the printing are `serde_json`'s and `quick_xml`'s; what is decided here is
//! when each is asked, and what is reported.

use vstd::prelude::*;

use crate::text::{concat, is_blank, text_is_blank};

verus! {

/// `serde_json::Value`: a parsed JSON value, carried from the parser to the
/// printer without a look inside.
#[verifier::external_type_specification]
#[verifier::external_body]
pub struct ExJsonValue(serde_json::Value);

/// `serde_json::Error`: read only through its message.
#[verifier::external_type_specification]
#[verifier::external_body]
pub struct ExJsonError(serde_json::Error);

/// What `serde_json::from_str` makes of a text read as one JSON value.
pub uninterp spec fn json_parsed(text: Seq<char>) -> Result<serde_json::Value, serde_json::Error>;

/// The text that `serde_json::to_string_pretty` writes for a value.
pub uninterp spec fn json_pretty(value: serde_json::Value) -> Seq<char>;

/// The message that a `serde_json::Error` displays.
pub uninterp spec fn json_error_text(error: serde_json::Error) -> Seq<char>;

/// `serde_json::from_str` into a `Value`: the outcome is a function of the
/// text alone.
#[verifier::external_body]
pub(crate) fn parse_json(input: &str) -> (parsed: Result<serde_json::Value, serde_json::Error>)
    ensures
        parsed == json_parsed(input@),
{
    serde_json::from_str::<serde_json::Value>(input)
}

/// `serde_json::to_string_pretty` of a `Value`: the text is a function of
/// the value alone, and there always is one. The printer fails only where
/// its writer does, where a map has a key that is no string, or where a type
/// refuses to be written; it writes into a byte vector, and a `Value` has
/// string keys and writes every variant.
#[verifier::external_body]
pub(crate) fn print_json(value: &serde_json::Value) -> (printed: Result<String, serde_json::Error>)
    ensures
        printed is Ok,
        printed matches Ok(text) ==> text@ == json_pretty(*value),
{
    serde_json::to_string_pretty(value)
}

/// The `Display` text of a `serde_json::Error`.
#[verifier::external_body]
pub(crate) fn describe_json_error(error: &serde_json::Error) -> (message: String)
    ensures
        message@ == json_error_text(*error),
{
    error.to_string()
}

/// The text of an outcome that carries a string or a message.
pub open spec fn outcome_view(outcome: Result<String, String>) -> Result<Seq<char>, Seq<char>> {
    match outcome {
        Ok(text) => Ok(text@),
        Err(message) => Err(message@),
    }
}

/// The text of an outcome that carries a message at most.
pub open spec fn check_view(outcome: Result<(), String>) -> Result<(), Seq<char>> {
    match outcome {
        Ok(()) => Ok(()),
        Err(message) => Err(message@),
    }
}

/// What formatting reports for a parsed text: the pretty-printed value, or
/// the parser's message.
pub open spec fn formatted_parsed_json(
    parsed: Result<serde_json::Value, serde_json::Error>,
) -> Result<Seq<char>, Seq<char>> {
    match parsed {
        Err(error) => Err("JSON parse error: "@ + json_error_text(error)),
        Ok(value) => Ok(json_pretty(value)),
    }
}

/// What `format_json` returns: blank input is refused as empty; any other is
/// parsed and printed again.
pub open spec fn formatted_json(input: Seq<char>) -> Result<Seq<char>, Seq<char>> {
    if is_blank(input) {
        Err("Empty input"@)
    } else {
        formatted_parsed_json(json_parsed(input))
    }
}

/// What validation reports for a parsed text.
pub open spec fn validated_parsed_json(
    parsed: Result<serde_json::Value, serde_json::Error>,
) -> Result<(), Seq<char>> {
    match parsed {
        Ok(_) => Ok(()),
        Err(error) => Err("Invalid JSON: "@ + json_error_text(error)),
    }
}

/// What `validate_json` returns: blank input is valid; any other is as valid
/// as the parser finds it.
pub open spec fn validated_json(input: Seq<char>) -> Result<(), Seq<char>> {
    if is_blank(input) {
        Ok(())
    } else {
        validated_parsed_json(json_parsed(input))
    }
}

/// The report of formatting, given what the parser made of the text.
pub fn format_parsed_json(parsed: Result<serde_json::Value, serde_json::Error>) -> (outcome: Result<
    String,
    String,
>)
    ensures
        outcome_view(outcome) == formatted_parsed_json(parsed),
{
    match parsed {
        Err(error) => Err(concat("JSON parse error: ", describe_json_error(&error).as_str())),
        Ok(value) => match print_json(&value) {
            Ok(text) => Ok(text),
            // The printer always has a text for a value; the arm stands for
            // the sake of the type.
            Err(error) => Err(concat("JSON format error: ", describe_json_error(&error).as_str())),
        },
    }
}

/// The report of validation, given what the parser made of the text.
pub fn validate_parsed_json(parsed: Result<serde_json::Value, serde_json::Error>) -> (outcome:
    Result<(), String>)
    ensures
        check_view(outcome) == validated_parsed_json(parsed),
{
    match parsed {
        Ok(_) => Ok(()),
        Err(error) => Err(concat("Invalid JSON: ", describe_json_error(&error).as_str())),
    }
}

/// Pretty-prints a JSON text with two-space indentation, keys and items in
/// the order in which they were written.
pub fn format_json(input: &str) -> (outcome: Result<String, String>)
    ensures
        outcome_view(outcome) == formatted_json(input@),
{
    if text_is_blank(input) {
        return Err("Empty input".to_owned());
    }
    format_parsed_json(parse_json(input))
}

/// Checks that a text is well-formed JSON; blank text passes.
pub fn validate_json(input: &str) -> (outcome: Result<(), String>)
    ensures
        check_view(outcome) == validated_json(input@),
{
    if text_is_blank(input) {
        return Ok(());
    }
    validate_parsed_json(parse_json(input))
}

/// For text that is not blank, formatting succeeds exactly where
/// validation does, which is where the text is parsed; and whatever can be
/// formatted is valid, blank or not.
pub proof fn lemma_json_format_needs_valid(input: Seq<char>)
    ensures
        formatted_json(input) is Ok ==> validated_json(input) is Ok,
        validated_json(input) is Err ==> formatted_json(input) is Err,
        !is_blank(input) ==> (formatted_json(input) is Ok <==> validated_json(input) is Ok),
        !is_blank(input) ==> (validated_json(input) is Ok <==> json_parsed(input) is Ok),
{
}

/// Blank JSON input is valid, and formatting it fails as empty.
pub proof fn lemma_json_blank(input: Seq<char>)
    requires
        is_blank(input),
    ensures
        validated_json(input) == Ok::<(), Seq<char>>(()),
        formatted_json(input) == Err::<Seq<char>, Seq<char>>("Empty input"@),
{
}

/// `quick_xml::Reader`: known only by the events that it is yet to yield.
#[verifier::external_type_specification]
#[verifier::external_body]
#[verifier::reject_recursive_types(R)]
pub struct ExXmlReader<R>(quick_xml::Reader<R>);

/// `quick_xml::Writer`: known only by its indentation and by the events
/// that were written to it.
#[verifier::external_type_specification]
#[verifier::external_body]
#[verifier::reject_recursive_types(W)]
pub struct ExXmlWriter<W>(quick_xml::Writer<W>);

/// `quick_xml::events::Event`: carried from the reader to the writer
/// without a look inside.
#[verifier::external_type_specification]
#[verifier::external_body]
pub struct ExXmlEvent<'i>(quick_xml::events::Event<'i>);

/// `quick_xml::Error`: read only through its message.
#[verifier::external_type_specification]
#[verifier::external_body]
pub struct ExXmlError(quick_xml::Error);

/// `std::io::Error`: read only through its message.
#[verifier::external_type_specification]
#[verifier::external_body]
pub struct ExIoError(std::io::Error);

/// `std::string::FromUtf8Error`: read only through its message.
#[verifier::external_type_specification]
#[verifier::external_body]
pub struct ExFromUtf8Error(std::string::FromUtf8Error);

/// The events that a `quick_xml` reader yields for a text, one by one, before
/// it reports the end of the input or its first error. `trim` says whether
/// the reader trims the white space around text.
pub uninterp spec fn xml_events(text: Seq<char>, trim: bool) -> Seq<
    quick_xml::events::Event<'static>,
>;

/// The first error that a `quick_xml` reader reports for a text; `None`
/// where it reaches the end of the input without one.
pub uninterp spec fn xml_failure(text: Seq<char>, trim: bool) -> Option<quick_xml::Error>;

/// The events that a reader still holds: those that it yields from now on,
/// before it reports the end of the input or an error.
pub uninterp spec fn pending_events(reader: quick_xml::Reader<&[u8]>) -> Seq<
    quick_xml::events::Event<'static>,
>;

/// The error that a reader reports once its pending events are out; `None`
/// where it then reports the end of the input.
pub uninterp spec fn pending_failure(reader: quick_xml::Reader<&[u8]>) -> Option<quick_xml::Error>;

/// The message that a `quick_xml::Error` displays.
pub uninterp spec fn xml_error_text(error: quick_xml::Error) -> Seq<char>;

/// The events that were written to a writer, in order.
pub uninterp spec fn written_events(writer: quick_xml::Writer<Vec<u8>>) -> Seq<
    quick_xml::events::Event<'static>,
>;

/// The character and the width by which a writer indents.
pub uninterp spec fn writer_indent(writer: quick_xml::Writer<Vec<u8>>) -> (u8, usize);

/// The bytes that a writer with the given indentation holds after the given
/// events were written to it.
pub uninterp spec fn xml_rendering(
    indent_char: u8,
    indent_size: usize,
    events: Seq<quick_xml::events::Event<'static>>,
) -> Seq<u8>;

/// `quick_xml::Reader::from_str`, with `trim_text` set: what the reader will
/// yield is a function of the text and of that setting.
#[verifier::external_body]
pub(crate) fn open_xml_reader<'a>(input: &'a str, trim: bool) -> (reader: quick_xml::Reader<
    &'a [u8],
>)
    ensures
        pending_events(reader) == xml_events(input@, trim),
        pending_failure(reader) == xml_failure(input@, trim),
{
    let mut reader = quick_xml::Reader::from_str(input);
    reader.config_mut().trim_text(trim);
    reader
}

/// `quick_xml::Reader::read_event`: hands out the first pending event;
/// when none is pending, reports the pending error, or the end of the input
/// as `None`.
#[verifier::external_body]
pub(crate) fn next_xml_event<'a>(reader: &mut quick_xml::Reader<&'a [u8]>) -> (event: Result<
    Option<quick_xml::events::Event<'a>>,
    quick_xml::Error,
>)
    ensures
        pending_events(*old(reader)).len() > 0 ==> (event matches Ok(Some(e)) && e
            == pending_events(*old(reader))[0]) && pending_events(*final(reader))
            == pending_events(*old(reader)).drop_first() && pending_failure(*final(reader))
            == pending_failure(*old(reader)),
        pending_events(*old(reader)).len() == 0 ==> match pending_failure(*old(reader)) {
            Some(error) => event == Err::<Option<quick_xml::events::Event<'a>>, quick_xml::Error>(
                error,
            ),
            None => event matches Ok(None),
        },
{
    reader.read_event().map(
        |event|
            match event {
                quick_xml::events::Event::Eof => None,
                other => Some(other),
            },
    )
}

/// The `Display` text of a `quick_xml::Error`.
#[verifier::external_body]
pub(crate) fn describe_xml_error(error: &quick_xml::Error) -> (message: String)
    ensures
        message@ == xml_error_text(*error),
{
    error.to_string()
}

/// `quick_xml::Writer::new_with_indent` over an empty byte vector. The
/// character is an ASCII one: the writer counts an indentation in bytes, and
/// cuts it where a character of more bytes would be split. The width is
/// bounded, so that the width of an indentation, which grows with every
/// element that is opened, stays far from the limit of `usize`.
#[verifier::external_body]
pub(crate) fn new_xml_writer(indent_char: u8, indent_size: usize) -> (writer: quick_xml::Writer<
    Vec<u8>,
>)
    requires
        indent_char < 0x80,
        indent_size <= 8,
    ensures
        written_events(writer) == Seq::<quick_xml::events::Event<'static>>::empty(),
        writer_indent(writer) == (indent_char, indent_size),
{
    quick_xml::Writer::new_with_indent(Vec::new(), indent_char, indent_size)
}

/// `quick_xml::Writer::write_event`, for a writer that indents by a bounded
/// number of ASCII characters: the event becomes the last of those written.
/// The call fails only where the inner writer does, and a byte vector takes
/// whatever is written to it.
#[verifier::external_body]
pub(crate) fn write_xml_event(
    writer: &mut quick_xml::Writer<Vec<u8>>,
    event: quick_xml::events::Event<'_>,
) -> (written: Result<(), std::io::Error>)
    requires
        writer_indent(*old(writer)).0 < 0x80,
        writer_indent(*old(writer)).1 <= 8,
    ensures
        written is Ok,
        writer_indent(*final(writer)) == writer_indent(*old(writer)),
        written_events(*final(writer)) == written_events(*old(writer)).push(event),
{
    writer.write_event(event)
}

/// `quick_xml::Writer::into_inner`: the bytes written, which depend on the
/// indentation and on the events alone.
#[verifier::external_body]
pub(crate) fn finish_xml_writer(writer: quick_xml::Writer<Vec<u8>>) -> (bytes: Vec<u8>)
    ensures
        bytes@ == xml_rendering(
            writer_indent(writer).0,
            writer_indent(writer).1,
            written_events(writer),
        ),
{
    writer.into_inner()
}

/// The `Display` text of a `std::io::Error`.
#[verifier::external_body]
pub(crate) fn describe_io_error(error: &std::io::Error) -> (message: String)
{
    error.to_string()
}

/// The refusal that `String::from_utf8` gives for bytes that are not UTF-8.
pub uninterp spec fn utf8_refusal(bytes: Seq<u8>) -> std::string::FromUtf8Error;

/// The message that a `std::string::FromUtf8Error` displays.
pub uninterp spec fn utf8_error_text(error: std::string::FromUtf8Error) -> Seq<char>;

/// `String::from_utf8`: succeeds exactly on valid UTF-8, and keeps the
/// bytes; the refusal of other bytes is a function of the bytes alone.
#[verifier::external_body]
pub(crate) fn string_from_utf8(bytes: Vec<u8>) -> (text: Result<String, std::string::FromUtf8Error>)
    ensures
        text is Ok <==> vstd::utf8::valid_utf8(bytes@),
        text matches Ok(s) ==> s@ == vstd::utf8::decode_utf8(bytes@),
        text matches Err(error) ==> error == utf8_refusal(bytes@),
{
    String::from_utf8(bytes)
}

/// The `Display` text of a `std::string::FromUtf8Error`.
#[verifier::external_body]
pub(crate) fn describe_utf8_error(error: &std::string::FromUtf8Error) -> (message: String)
    ensures
        message@ == utf8_error_text(*error),
{
    error.to_string()
}

/// What `validate_xml` returns: blank input is valid; any other is valid
/// where the reader reaches the end of the input without an error.
pub open spec fn validated_xml(input: Seq<char>) -> Result<(), Seq<char>> {
    if is_blank(input) {
        Ok(())
    } else {
        match xml_failure(input, true) {
            None => Ok(()),
            Some(error) => Err("Invalid XML: "@ + xml_error_text(error)),
        }
    }
}

/// The bytes of the indented form of a well-formed text: its events,
/// written with two spaces of indentation.
pub open spec fn indented_xml(input: Seq<char>) -> Seq<u8> {
    xml_rendering(0x20, 2, xml_events(input, true))
}

/// Checks that a text is well-formed XML; blank text passes.
pub fn validate_xml(input: &str) -> (outcome: Result<(), String>)
    ensures
        check_view(outcome) == validated_xml(input@),
{
    if text_is_blank(input) {
        return Ok(());
    }
    let mut reader = open_xml_reader(input, true);
    loop
        invariant
            pending_failure(reader) == xml_failure(input@, true),
            !is_blank(input@),
        decreases pending_events(reader).len(),
    {
        match next_xml_event(&mut reader) {
            Ok(None) => {
                return Ok(());
            },
            Ok(Some(_)) => {},
            Err(error) => {
                return Err(concat("Invalid XML: ", describe_xml_error(&error).as_str()));
            },
        }
    }
}

/// What `format_xml` returns. Blank input is refused as empty, and a text
/// that is not well-formed with the message of `validate_xml`. Otherwise the
/// outcome is the events of the input, written anew with two spaces of
/// indentation; should the bytes written not be UTF-8, the message says so.
pub open spec fn formatted_xml(input: Seq<char>) -> Result<Seq<char>, Seq<char>> {
    if is_blank(input) {
        Err("Empty input"@)
    } else {
        match validated_xml(input) {
            Err(message) => Err(message),
            Ok(_) => if vstd::utf8::valid_utf8(indented_xml(input)) {
                Ok(vstd::utf8::decode_utf8(indented_xml(input)))
            } else {
                Err("UTF-8 conversion error: "@ + utf8_error_text(utf8_refusal(indented_xml(input))))
            },
        }
    }
}

/// Re-emits a well-formed XML text with two-space indentation.
pub fn format_xml(input: &str) -> (outcome: Result<String, String>)
    ensures
        outcome_view(outcome) == formatted_xml(input@),
{
    if text_is_blank(input) {
        return Err("Empty input".to_owned());
    }
    match validate_xml(input) {
        Err(message) => {
            return Err(message);
        },
        Ok(()) => {},
    }
    let mut reader = open_xml_reader(input, true);
    let mut writer = new_xml_writer(0x20u8, 2);
    loop
        invariant_except_break
            written_events(writer) + pending_events(reader) == xml_events(input@, true),
            pending_failure(reader) is None,
        invariant
            writer_indent(writer) == (0x20u8, 2usize),
        ensures
            written_events(writer) == xml_events(input@, true),
        decreases pending_events(reader).len(),
    {
        let ghost before = written_events(writer);
        let ghost pending = pending_events(reader);
        match next_xml_event(&mut reader) {
            Ok(None) => {
                assert(before + pending =~= before);
                break ;
            },
            Ok(Some(event)) => {
                match write_xml_event(&mut writer, event) {
                    Ok(()) => {
                        assert(before.push(pending[0]) + pending.drop_first() =~= before + pending);
                    },
                    // A byte vector takes every write; the arm stands for the
                    // sake of the type.
                    Err(error) => {
                        return Err(
                            concat("XML write error: ", describe_io_error(&error).as_str()),
                        );
                    },
                }
            },
            // The text was read without an error just before, and is read
            // the same way again.
            Err(error) => {
                return Err(concat("XML read error: ", describe_xml_error(&error).as_str()));
            },
        }
    }
    let bytes = finish_xml_writer(writer);
    match string_from_utf8(bytes) {
        Ok(text) => Ok(text),
        Err(error) => Err(
            concat("UTF-8 conversion error: ", describe_utf8_error(&error).as_str()),
        ),
    }
}

/// Formatting follows validation: a text that is not well-formed is refused
/// with the message of the validation; whatever is formatted is well-formed
/// and not blank; and a well-formed text that is not blank is formatted
/// wherever the bytes written for it are UTF-8.
pub proof fn lemma_xml_format_follows_validation(input: Seq<char>)
    ensures
        !is_blank(input) ==> (validated_xml(input) matches Err(message) ==> formatted_xml(input)
            == Err::<Seq<char>, Seq<char>>(message)),
        formatted_xml(input) is Ok ==> !is_blank(input) && validated_xml(input) is Ok,
        !is_blank(input) && validated_xml(input) is Ok && vstd::utf8::valid_utf8(
            indented_xml(input),
        ) ==> formatted_xml(input) == Ok::<Seq<char>, Seq<char>>(
            vstd::utf8::decode_utf8(indented_xml(input)),
        ),
        is_blank(input) ==> formatted_xml(input) == Err::<Seq<char>, Seq<char>>("Empty input"@),
{
}

/// Blank XML input is valid, and a text is valid exactly when the reader
/// finds no error in it.
pub proof fn lemma_xml_blank(input: Seq<char>)
    ensures
        is_blank(input) ==> validated_xml(input) == Ok::<(), Seq<char>>(()),
        !is_blank(input) ==> (validated_xml(input) is Ok <==> xml_failure(input, true) is None),
{
}

} // verus!
