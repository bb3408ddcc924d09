//! The state of a body editor: which kind of body is chosen, the raw text
//! and its format, the form-data rows, and the report of the last
//! formatting or validation.

use vstd::prelude::*;

use crate::code_formatter::{
    check_view, format_json, format_xml, formatted_json, formatted_xml, outcome_view, validate_json,
    validate_xml, validated_json, validated_xml,
};
use crate::text::{concat, is_blank, opt_text, text_is_blank};
use crate::types::{
    clone_rows, rows_view, unicode_uppercase, BodyType, BodyTypeView, FormDataRow,
    FormDataRowView, FormDataValue, FormDataValueView, RawSubtype,
};

verus! {

/// The state of a body editor.
#[derive(Debug)]
pub struct BodyEditor {
    /// The kind of body chosen: 0 none, 1 raw, 2 form-data.
    pub body_type_index: usize,
    /// The row chosen in the selector of raw formats.
    pub raw_subtype_index: usize,
    /// The text of the raw body.
    pub raw_content: String,
    /// The format in which the raw body is highlighted and sent.
    pub current_raw_subtype: RawSubtype,
    pub formdata_rows: Vec<FormDataRow>,
    /// The report of the last formatting or validation.
    pub validation_message: Option<String>,
    /// Whether that report tells of a failure.
    pub validation_error: bool,
}

/// A body editor as plain text.
pub struct BodyEditorView {
    pub body_type_index: usize,
    pub raw_subtype_index: usize,
    pub raw_content: Seq<char>,
    pub current_raw_subtype: RawSubtype,
    pub formdata_rows: Seq<FormDataRowView>,
    pub validation_message: Option<Seq<char>>,
    pub validation_error: bool,
}

impl View for BodyEditor {
    type V = BodyEditorView;

    open spec fn view(&self) -> BodyEditorView {
        BodyEditorView {
            body_type_index: self.body_type_index,
            raw_subtype_index: self.raw_subtype_index,
            raw_content: self.raw_content@,
            current_raw_subtype: self.current_raw_subtype,
            formdata_rows: rows_view(self.formdata_rows@),
            validation_message: opt_text(self.validation_message),
            validation_error: self.validation_error,
        }
    }
}

/// An enabled text row without key or value.
pub open spec fn empty_row() -> FormDataRowView {
    FormDataRowView {
        enabled: true,
        key: Seq::empty(),
        value: FormDataValueView::Text(Seq::empty()),
    }
}

/// The position of a format in the selector's list.
pub open spec fn subtype_position(subtype: RawSubtype) -> usize {
    match subtype {
        RawSubtype::Json => 0,
        RawSubtype::Xml => 1,
        RawSubtype::Text => 2,
        RawSubtype::JavaScript => 3,
    }
}

impl BodyEditorView {
    /// The editor as it starts: raw JSON without text, one empty form-data
    /// row, nothing reported.
    pub open spec fn initial() -> BodyEditorView {
        BodyEditorView {
            body_type_index: 1,
            raw_subtype_index: 0,
            raw_content: Seq::empty(),
            current_raw_subtype: RawSubtype::Json,
            formdata_rows: seq![empty_row()],
            validation_message: None,
            validation_error: false,
        }
    }

    /// The body that the editor stands for.
    pub open spec fn body(self) -> BodyTypeView {
        if self.body_type_index == 1 {
            BodyTypeView::Raw { content: self.raw_content, subtype: self.current_raw_subtype }
        } else if self.body_type_index == 2 {
            BodyTypeView::FormData(self.formdata_rows)
        } else {
            BodyTypeView::Empty
        }
    }

    /// The editor after a body was loaded into it. Form-data rows are
    /// followed by one empty row that waits for input.
    pub open spec fn with_body(self, body: BodyTypeView) -> BodyEditorView {
        match body {
            BodyTypeView::Empty => BodyEditorView { body_type_index: 0, ..self },
            BodyTypeView::Raw { content, subtype } => BodyEditorView {
                body_type_index: 1,
                raw_subtype_index: subtype_position(subtype),
                raw_content: content,
                current_raw_subtype: subtype,
                ..self
            },
            BodyTypeView::FormData(rows) => BodyEditorView {
                body_type_index: 2,
                formdata_rows: rows.push(empty_row()),
                ..self
            },
        }
    }

    /// The number of bytes of the body, as far as it is known before
    /// sending: that of the raw text, and 0 for any other kind.
    pub open spec fn length(self) -> usize {
        if self.body_type_index == 1 {
            vstd::utf8::encode_utf8(self.raw_content).len() as usize
        } else {
            0
        }
    }

    /// The editor with one row replaced.
    pub open spec fn with_row(self, index: int, row: FormDataRowView) -> BodyEditorView {
        BodyEditorView { formdata_rows: self.formdata_rows.update(index, row), ..self }
    }

    /// The editor after a formatting that had the given outcome: on success
    /// the text is replaced and success is reported under the format's name
    /// in upper case; on failure the message is reported.
    pub open spec fn after_format(self, outcome: Result<Seq<char>, Seq<char>>) -> BodyEditorView {
        match outcome {
            Ok(text) => BodyEditorView {
                raw_content: text,
                validation_message: Some(
                    unicode_uppercase(self.current_raw_subtype.name_text())
                        + " formatted successfully"@,
                ),
                validation_error: false,
                ..self
            },
            Err(message) => BodyEditorView {
                validation_message: Some(message),
                validation_error: true,
                ..self
            },
        }
    }

    /// The editor after a validation that had the given outcome: a valid
    /// text is reported as such unless it is blank, which clears the report;
    /// an invalid one is reported with the message.
    pub open spec fn after_validation(self, outcome: Result<(), Seq<char>>) -> BodyEditorView {
        match outcome {
            Ok(_) => if is_blank(self.raw_content) {
                BodyEditorView { validation_message: None, ..self }
            } else {
                BodyEditorView {
                    validation_message: Some(
                        "\u{2713} Valid "@ + unicode_uppercase(
                            self.current_raw_subtype.name_text(),
                        ),
                    ),
                    validation_error: false,
                    ..self
                }
            },
            Err(message) => BodyEditorView {
                validation_message: Some(message),
                validation_error: true,
                ..self
            },
        }
    }
}

/// A body that was loaded into the editor is the body that the editor
/// stands for; but form-data rows are followed by the empty row that waits
/// for input.
pub proof fn lemma_loaded_body_is_shown(editor: BodyEditorView, body: BodyTypeView)
    ensures
        editor.with_body(body).body() == match body {
            BodyTypeView::FormData(rows) => BodyTypeView::FormData(rows.push(empty_row())),
            _ => body,
        },
{
}

impl BodyEditor {
    /// An editor in its initial state.
    pub fn new() -> (editor: BodyEditor)
        ensures
            editor@ == BodyEditorView::initial(),
    {
        let mut editor = BodyEditor {
            body_type_index: 1,
            raw_subtype_index: 0,
            raw_content: String::new(),
            current_raw_subtype: RawSubtype::Json,
            formdata_rows: Vec::new(),
            validation_message: None,
            validation_error: false,
        };
        editor.add_formdata_row();
        assert(editor@.formdata_rows =~= seq![empty_row()]);
        editor
    }

    /// Another kind of body was chosen.
    pub fn select_body_type(&mut self, index: usize)
        ensures
            final(self)@ == (BodyEditorView { body_type_index: index, ..old(self)@ }),
    {
        self.body_type_index = index;
    }

    /// The raw text was edited.
    pub fn set_raw_content(&mut self, content: String)
        ensures
            final(self)@ == (BodyEditorView { raw_content: content@, ..old(self)@ }),
    {
        self.raw_content = content;
    }

    /// A row of the selector of raw formats was chosen; no choice counts as
    /// the first row. Returns whether the format changed, so that the text
    /// is to be highlighted anew.
    pub fn handle_subtype_change(&mut self, selected: Option<usize>) -> (changed: bool)
        requires
            selected matches Some(index) ==> index < 4,
        ensures
            ({
                let index = match selected {
                    Some(index) => index,
                    None => 0,
                };
                &&& changed == (RawSubtype::all_spec()[index as int]
                    != old(self).current_raw_subtype)
                &&& final(self)@ == (BodyEditorView {
                    raw_subtype_index: index,
                    current_raw_subtype: RawSubtype::all_spec()[index as int],
                    ..old(self)@
                })
            }),
    {
        let index = match selected {
            Some(index) => index,
            None => 0,
        };
        self.raw_subtype_index = index;
        let all = RawSubtype::all();
        let new_subtype = all[index];
        if new_subtype != self.current_raw_subtype {
            self.current_raw_subtype = new_subtype;
            true
        } else {
            false
        }
    }

    /// The body that the editor stands for.
    pub fn get_body(&self) -> (body: BodyType)
        ensures
            body@ == self@.body(),
    {
        if self.body_type_index == 1 {
            BodyType::Raw { content: self.raw_content.clone(), subtype: self.current_raw_subtype }
        } else if self.body_type_index == 2 {
            BodyType::FormData(clone_rows(&self.formdata_rows))
        } else {
            BodyType::Empty
        }
    }

    /// Loads a body into the editor.
    pub fn set_body(&mut self, body: &BodyType)
        ensures
            final(self)@ == old(self)@.with_body(body@),
    {
        match body {
            BodyType::Empty => {
                self.body_type_index = 0;
            },
            BodyType::Raw { content, subtype } => {
                self.body_type_index = 1;
                self.raw_subtype_index = match subtype {
                    RawSubtype::Json => 0,
                    RawSubtype::Xml => 1,
                    RawSubtype::Text => 2,
                    RawSubtype::JavaScript => 3,
                };
                self.current_raw_subtype = *subtype;
                self.raw_content = content.clone();
            },
            BodyType::FormData(rows) => {
                self.body_type_index = 2;
                self.formdata_rows = clone_rows(rows);
                self.add_formdata_row();
            },
        }
    }

    /// The number of bytes of the body, as far as it is known before sending.
    pub fn calculate_length(&self) -> (length: usize)
        ensures
            length == self@.length(),
    {
        if self.body_type_index == 1 {
            self.raw_content.as_str().len()
        } else {
            0
        }
    }

    /// Appends an empty row.
    pub fn add_formdata_row(&mut self)
        ensures
            final(self)@ == (BodyEditorView {
                formdata_rows: old(self)@.formdata_rows.push(empty_row()),
                ..old(self)@
            }),
    {
        self.formdata_rows.push(
            FormDataRow {
                enabled: true,
                key: String::new(),
                value: FormDataValue::Text(String::new()),
            },
        );
        assert(final(self)@.formdata_rows =~= old(self)@.formdata_rows.push(empty_row()));
    }

    /// Removes the row at `index`; an index past the rows removes nothing.
    pub fn remove_formdata_row(&mut self, index: usize)
        ensures
            final(self)@ == if index < old(self)@.formdata_rows.len() {
                BodyEditorView {
                    formdata_rows: old(self)@.formdata_rows.remove(index as int),
                    ..old(self)@
                }
            } else {
                old(self)@
            },
    {
        if index < self.formdata_rows.len() {
            self.formdata_rows.remove(index);
            assert(final(self)@.formdata_rows =~= old(self)@.formdata_rows.remove(index as int));
        }
    }

    /// Enables or disables the row at `index`; an index past the rows
    /// changes nothing.
    pub fn toggle_formdata_row(&mut self, index: usize)
        ensures
            final(self)@ == if index < old(self)@.formdata_rows.len() {
                old(self)@.with_row(
                    index as int,
                    FormDataRowView {
                        enabled: !old(self)@.formdata_rows[index as int].enabled,
                        ..old(self)@.formdata_rows[index as int]
                    },
                )
            } else {
                old(self)@
            },
    {
        if index < self.formdata_rows.len() {
            self.formdata_rows[index].enabled = !self.formdata_rows[index].enabled;
            assert(final(self)@.formdata_rows =~= old(self)@.formdata_rows.update(
                index as int,
                FormDataRowView {
                    enabled: !old(self)@.formdata_rows[index as int].enabled,
                    ..old(self)@.formdata_rows[index as int]
                },
            ));
        }
    }

    /// Turns a text row into a file row and back; the string is kept as the
    /// payload of the new kind. An index past the rows changes nothing.
    pub fn toggle_formdata_type(&mut self, index: usize)
        ensures
            final(self)@ == if index < old(self)@.formdata_rows.len() {
                old(self)@.with_row(
                    index as int,
                    FormDataRowView {
                        value: old(self)@.formdata_rows[index as int].value.toggled(),
                        ..old(self)@.formdata_rows[index as int]
                    },
                )
            } else {
                old(self)@
            },
    {
        if index < self.formdata_rows.len() {
            let toggled = match &self.formdata_rows[index].value {
                FormDataValue::Text(text) => FormDataValue::File { path: text.clone() },
                FormDataValue::File { path } => FormDataValue::Text(path.clone()),
            };
            self.formdata_rows[index].value = toggled;
            assert(final(self)@.formdata_rows =~= old(self)@.formdata_rows.update(
                index as int,
                FormDataRowView {
                    value: old(self)@.formdata_rows[index as int].value.toggled(),
                    ..old(self)@.formdata_rows[index as int]
                },
            ));
        }
    }

    /// Sets the key of the row at `index`; an index past the rows changes
    /// nothing.
    pub fn update_formdata_key(&mut self, index: usize, new_key: String)
        ensures
            final(self)@ == if index < old(self)@.formdata_rows.len() {
                old(self)@.with_row(
                    index as int,
                    FormDataRowView { key: new_key@, ..old(self)@.formdata_rows[index as int] },
                )
            } else {
                old(self)@
            },
    {
        if index < self.formdata_rows.len() {
            self.formdata_rows[index].key = new_key;
            assert(final(self)@.formdata_rows =~= old(self)@.formdata_rows.update(
                index as int,
                FormDataRowView { key: new_key@, ..old(self)@.formdata_rows[index as int] },
            ));
        }
    }

    /// Sets the string of the value of the row at `index`, which stays a
    /// text or a file; an index past the rows changes nothing.
    pub fn update_formdata_value(&mut self, index: usize, new_value: String)
        ensures
            final(self)@ == if index < old(self)@.formdata_rows.len() {
                old(self)@.with_row(
                    index as int,
                    FormDataRowView {
                        value: old(self)@.formdata_rows[index as int].value.with_content(
                            new_value@,
                        ),
                        ..old(self)@.formdata_rows[index as int]
                    },
                )
            } else {
                old(self)@
            },
    {
        if index < self.formdata_rows.len() {
            let is_file = match &self.formdata_rows[index].value {
                FormDataValue::Text(_) => false,
                FormDataValue::File { .. } => true,
            };
            let value = if is_file {
                FormDataValue::File { path: new_value }
            } else {
                FormDataValue::Text(new_value)
            };
            self.formdata_rows[index].value = value;
            assert(final(self)@.formdata_rows =~= old(self)@.formdata_rows.update(
                index as int,
                FormDataRowView {
                    value: old(self)@.formdata_rows[index as int].value.with_content(new_value@),
                    ..old(self)@.formdata_rows[index as int]
                },
            ));
        }
    }

    /// The key or the value of a row was edited. The row takes the new
    /// string; and when it is the key of the last row that became non-empty,
    /// an empty row is appended to wait for more.
    pub fn handle_input_event(&mut self, index: usize, is_key: bool, value: String)
        ensures
            ({
                let rows = old(self)@.formdata_rows;
                if index >= rows.len() {
                    final(self)@ == old(self)@
                } else if !is_key {
                    final(self)@ == old(self)@.with_row(
                        index as int,
                        FormDataRowView {
                            value: rows[index as int].value.with_content(value@),
                            ..rows[index as int]
                        },
                    )
                } else {
                    let edited = rows.update(
                        index as int,
                        FormDataRowView { key: value@, ..rows[index as int] },
                    );
                    final(self)@ == (BodyEditorView {
                        formdata_rows: if index + 1 == rows.len() && value@.len() > 0 {
                            edited.push(empty_row())
                        } else {
                            edited
                        },
                        ..old(self)@
                    })
                }
            }),
    {
        if index >= self.formdata_rows.len() {
            return ;
        }
        if is_key {
            let grows = index + 1 == self.formdata_rows.len() && !value.as_str().is_empty();
            self.update_formdata_key(index, value);
            if grows {
                self.add_formdata_row();
            }
        } else {
            self.update_formdata_value(index, value);
        }
    }

    /// Reports the outcome of a formatting, and takes the formatted text.
    pub fn apply_format_outcome(&mut self, outcome: Result<String, String>)
        ensures
            final(self)@ == old(self)@.after_format(outcome_view(outcome)),
    {
        match outcome {
            Ok(formatted) => {
                self.raw_content = formatted;
                let label = self.current_raw_subtype.as_str().to_uppercase();
                self.validation_message = Some(concat(label.as_str(), " formatted successfully"));
                self.validation_error = false;
            },
            Err(message) => {
                self.validation_message = Some(message);
                self.validation_error = true;
            },
        }
    }

    /// Formats the raw text in place where its format is JSON or XML, and
    /// reports how that went; for any other format, that it cannot be done.
    pub fn format_raw_body(&mut self)
        ensures
            match old(self).current_raw_subtype {
                RawSubtype::Json => final(self)@ == old(self)@.after_format(
                    formatted_json(old(self)@.raw_content),
                ),
                RawSubtype::Xml => final(self)@ == old(self)@.after_format(
                    formatted_xml(old(self)@.raw_content),
                ),
                _ => final(self)@ == (BodyEditorView {
                    validation_message: Some("Formatting not supported for this type"@),
                    validation_error: true,
                    ..old(self)@
                }),
            },
    {
        let outcome = match self.current_raw_subtype {
            RawSubtype::Json => format_json(self.raw_content.as_str()),
            RawSubtype::Xml => format_xml(self.raw_content.as_str()),
            _ => {
                self.validation_message = Some(
                    "Formatting not supported for this type".to_owned(),
                );
                self.validation_error = true;
                return ;
            },
        };
        let ghost seen = outcome_view(outcome);
        self.apply_format_outcome(outcome);
        assert(final(self)@ == old(self)@.after_format(seen));
    }

    /// Reports the outcome of a validation.
    pub fn apply_validation_outcome(&mut self, outcome: Result<(), String>)
        ensures
            final(self)@ == old(self)@.after_validation(check_view(outcome)),
    {
        match outcome {
            Ok(()) => {
                if !text_is_blank(self.raw_content.as_str()) {
                    let label = self.current_raw_subtype.as_str().to_uppercase();
                    self.validation_message = Some(concat("\u{2713} Valid ", label.as_str()));
                    self.validation_error = false;
                } else {
                    self.validation_message = None;
                }
            },
            Err(message) => {
                self.validation_message = Some(message);
                self.validation_error = true;
            },
        }
    }

    /// Validates the raw text where its format is JSON or XML, and reports
    /// the outcome; any other format is left without report.
    pub fn validate_raw_body(&mut self)
        ensures
            final(self)@ == match old(self).current_raw_subtype {
                RawSubtype::Json => old(self)@.after_validation(
                    validated_json(old(self)@.raw_content),
                ),
                RawSubtype::Xml => old(self)@.after_validation(
                    validated_xml(old(self)@.raw_content),
                ),
                _ => old(self)@,
            },
    {
        let outcome = match self.current_raw_subtype {
            RawSubtype::Json => validate_json(self.raw_content.as_str()),
            RawSubtype::Xml => validate_xml(self.raw_content.as_str()),
            _ => {
                return ;
            },
        };
        self.apply_validation_outcome(outcome);
    }
}

} // verus!
