//! The header table of a request editor: the rows of the predefined
//! headers, the custom rows that follow them, and how the headers of a
//! request are loaded into the rows.

use vstd::prelude::*;

use crate::request_editor::{RequestEditor, RequestEditorView};
use crate::text::{eq_ignore_ascii_case, pair_view, pairs_view, same_ignoring_ascii_case};
use crate::types::{
    clone_header_states, header_states_view, HeaderState, HeaderStateView, HeaderType,
    PredefinedHeader,
};

verus! {

/// Whether any row is a custom one.
pub open spec fn has_custom_row(rows: Seq<HeaderStateView>) -> bool {
    exists|i: int| 0 <= i < rows.len() && (#[trigger] rows[i]).header_type == HeaderType::Custom
}

/// The empty custom row that waits for a new header.
pub open spec fn blank_header() -> HeaderStateView {
    HeaderStateView::custom(Seq::empty(), Seq::empty())
}

/// The rows, followed by an empty custom row where none of them is custom.
pub open spec fn with_custom_row(rows: Seq<HeaderStateView>) -> Seq<HeaderStateView> {
    if has_custom_row(rows) {
        rows
    } else {
        rows.push(blank_header())
    }
}

/// The rows of the predefined headers, in their order.
pub open spec fn predefined_rows() -> Seq<HeaderStateView> {
    Seq::new(
        PredefinedHeader::all_spec().len(),
        |i: int| HeaderStateView::of_predefined(PredefinedHeader::all_spec()[i]),
    )
}

/// The rows after the key of the row at `index` was edited: that row has
/// the new key; and where it is the last row, a custom one, and the key is
/// not empty, an empty custom row follows.
pub open spec fn headers_after_key_edit(
    rows: Seq<HeaderStateView>,
    index: int,
    key: Seq<char>,
) -> Seq<HeaderStateView> {
    let edited = rows.update(index, HeaderStateView { key, ..rows[index] });
    if index + 1 == rows.len() && rows[index].header_type == HeaderType::Custom && key.len() > 0 {
        edited.push(blank_header())
    } else {
        edited
    }
}

/// The position of the first row that stands for a predefined header; the
/// number of rows where none does.
pub open spec fn predefined_position(rows: Seq<HeaderStateView>, header: PredefinedHeader) -> int
    decreases rows.len(),
{
    if rows.len() == 0 {
        0
    } else if rows[0].predefined == Some(header) {
        0
    } else {
        1 + predefined_position(rows.drop_first(), header)
    }
}

/// `predefined_position` is within bounds, points at a row of the header
/// unless it is the number of rows, and no row before it is one.
pub proof fn lemma_predefined_position(rows: Seq<HeaderStateView>, header: PredefinedHeader)
    ensures
        0 <= predefined_position(rows, header) <= rows.len(),
        predefined_position(rows, header) < rows.len() ==> rows[predefined_position(
            rows,
            header,
        )].predefined == Some(header),
        forall|j: int|
            0 <= j < predefined_position(rows, header) ==> (#[trigger] rows[j]).predefined != Some(
                header,
            ),
    decreases rows.len(),
{
    if rows.len() > 0 && rows[0].predefined != Some(header) {
        let rest = rows.drop_first();
        lemma_predefined_position(rest, header);
        assert forall|j: int| 0 <= j < predefined_position(rows, header) implies (
        #[trigger] rows[j]).predefined != Some(header) by {
            if j > 0 {
                assert(rows[j] == rest[j - 1]);
            }
        }
    }
}

/// A position that holds a row of the header, with none before it, is the
/// one that `predefined_position` gives; so is the number of rows where no
/// row is one.
pub proof fn lemma_predefined_position_is(
    rows: Seq<HeaderStateView>,
    header: PredefinedHeader,
    at: int,
)
    requires
        0 <= at <= rows.len(),
        forall|j: int| 0 <= j < at ==> (#[trigger] rows[j]).predefined != Some(header),
        at < rows.len() ==> rows[at].predefined == Some(header),
    ensures
        predefined_position(rows, header) == at,
{
    lemma_predefined_position(rows, header);
    let found = predefined_position(rows, header);
    if found < at {
        assert(rows[found].predefined != Some(header));
    }
}

/// The rows with the value of a predefined header set: the first row that
/// stands for the header takes the value, and is enabled where `enable` says so.
pub open spec fn with_predefined_value(
    rows: Seq<HeaderStateView>,
    header: PredefinedHeader,
    value: Seq<char>,
    enable: bool,
) -> Seq<HeaderStateView> {
    let at = predefined_position(rows, header);
    if at < rows.len() {
        rows.update(
            at,
            HeaderStateView { value, enabled: rows[at].enabled || enable, ..rows[at] },
        )
    } else {
        rows
    }
}

/// The first of the given headers whose name is `key`, whatever the case of
/// its ASCII letters.
pub open spec fn first_named(candidates: Seq<PredefinedHeader>, key: Seq<char>) -> Option<
    PredefinedHeader,
>
    decreases candidates.len(),
{
    if candidates.len() == 0 {
        None
    } else if same_ignoring_ascii_case(candidates[0].name_text(), key) {
        Some(candidates[0])
    } else {
        first_named(candidates.drop_first(), key)
    }
}

/// Whether any of the headers has the name of the given predefined header,
/// whatever the case of its ASCII letters.
pub open spec fn names_predefined(
    headers: Seq<(Seq<char>, Seq<char>)>,
    header: PredefinedHeader,
) -> bool {
    exists|j: int|
        0 <= j < headers.len() && first_named(
            PredefinedHeader::all_spec(),
            (#[trigger] headers[j]).0,
        ) == Some(header)
}

/// The rows after one header of a request was loaded into them. The first
/// header with the name of a predefined header takes that header's row: the
/// row gets the value and is enabled. Every other header, a later one of the
/// same name too, gets a custom row at the end. `taken` says whether the
/// row of the predefined header went to an earlier header.
pub open spec fn with_loaded_header(
    rows: Seq<HeaderStateView>,
    key: Seq<char>,
    value: Seq<char>,
    taken: bool,
) -> Seq<HeaderStateView> {
    match first_named(PredefinedHeader::all_spec(), key) {
        Some(header) => if taken {
            rows.push(HeaderStateView::custom(key, value))
        } else {
            with_predefined_value(rows, header, value, true)
        },
        None => rows.push(HeaderStateView::custom(key, value)),
    }
}

/// Whether the row that a header would take went to one of the headers
/// before it.
pub open spec fn slot_taken(before: Seq<(Seq<char>, Seq<char>)>, key: Seq<char>) -> bool {
    match first_named(PredefinedHeader::all_spec(), key) {
        Some(header) => names_predefined(before, header),
        None => false,
    }
}

/// The rows after the headers of a request were loaded into them, one
/// after the other: none is lost, and of several headers with the name of
/// one predefined header the first takes its row.
pub open spec fn with_loaded_headers(
    rows: Seq<HeaderStateView>,
    headers: Seq<(Seq<char>, Seq<char>)>,
) -> Seq<HeaderStateView>
    decreases headers.len(),
{
    if headers.len() == 0 {
        rows
    } else {
        with_loaded_header(
            with_loaded_headers(rows, headers.drop_last()),
            headers.last().0,
            headers.last().1,
            slot_taken(headers.drop_last(), headers.last().0),
        )
    }
}

/// The name and value of each row.
pub open spec fn header_pairs(rows: Seq<HeaderStateView>) -> Seq<(Seq<char>, Seq<char>)> {
    Seq::new(rows.len(), |i: int| (rows[i].key, rows[i].value))
}

/// Whether any row is a custom one.
fn any_custom_row(rows: &Vec<HeaderState>) -> (any: bool)
    ensures
        any == has_custom_row(header_states_view(rows@)),
{
    let mut i: usize = 0;
    while i < rows.len()
        invariant
            i <= rows.len(),
            forall|j: int|
                0 <= j < i ==> (#[trigger] header_states_view(rows@)[j]).header_type
                    != HeaderType::Custom,
        decreases rows.len() - i,
    {
        if rows[i].header_type == HeaderType::Custom {
            assert(header_states_view(rows@)[i as int].header_type == HeaderType::Custom);
            return true;
        }
        i += 1;
    }
    false
}

/// The predefined header with the given name, whatever the case of its
/// ASCII letters.
pub fn find_predefined(key: &str) -> (found: Option<PredefinedHeader>)
    ensures
        found == first_named(PredefinedHeader::all_spec(), key@),
{
    let all = PredefinedHeader::all();
    let mut i: usize = 0;
    assert(all@.skip(0) =~= all@);
    while i < all.len()
        invariant
            i <= all.len(),
            all@ == PredefinedHeader::all_spec(),
            first_named(PredefinedHeader::all_spec(), key@) == first_named(
                all@.skip(i as int),
                key@,
            ),
        decreases all.len() - i,
    {
        assert(all@.skip(i as int)[0] == all@[i as int]);
        assert(all@.skip(i as int).drop_first() =~= all@.skip(i as int + 1));
        if eq_ignore_ascii_case(all[i].name(), key) {
            return Some(all[i]);
        }
        i += 1;
    }
    None
}

/// Whether the row that the header at `index` would take went to one of
/// the headers before it.
pub(crate) fn slot_is_taken(headers: &Vec<(String, String)>, index: usize) -> (taken: bool)
    requires
        index < headers.len(),
    ensures
        taken == slot_taken(
            pairs_view(headers@).take(index as int),
            pairs_view(headers@)[index as int].0,
        ),
{
    let wanted = match find_predefined(headers[index].0.as_str()) {
        Some(header) => header,
        None => {
            return false;
        },
    };
    let ghost before = pairs_view(headers@).take(index as int);
    let mut j: usize = 0;
    while j < index
        invariant
            j <= index < headers.len(),
            before == pairs_view(headers@).take(index as int),
            first_named(PredefinedHeader::all_spec(), pairs_view(headers@)[index as int].0)
                == Some(wanted),
            forall|k: int|
                0 <= k < j ==> first_named(
                    PredefinedHeader::all_spec(),
                    (#[trigger] before[k]).0,
                ) != Some(wanted),
        decreases index - j,
    {
        let found = match find_predefined(headers[j].0.as_str()) {
            Some(header) => header == wanted,
            None => false,
        };
        assert(before[j as int] == pair_view(headers@[j as int]));
        if found {
            assert(first_named(PredefinedHeader::all_spec(), before[j as int].0) == Some(wanted));
            return true;
        }
        j += 1;
    }
    false
}

impl RequestEditorView {
    /// The editor with other header rows.
    pub open spec fn with_headers(self, headers: Seq<HeaderStateView>) -> RequestEditorView {
        RequestEditorView { headers, ..self }
    }

    /// The editor after kept header rows were loaded into it: where none of
    /// them is a custom row, an empty one follows.
    pub open spec fn after_headers_state(self, state: Seq<HeaderStateView>) -> RequestEditorView {
        self.with_headers(with_custom_row(state))
    }
}

impl RequestEditor {
    /// Appends the rows of the predefined headers.
    pub fn init_predefined_headers(&mut self)
        ensures
            final(self)@ == old(self)@.with_headers(old(self)@.headers + predefined_rows()),
    {
        let all = PredefinedHeader::all();
        let mut i: usize = 0;
        assert(old(self)@.headers + predefined_rows().take(0) =~= old(self)@.headers);
        while i < all.len()
            invariant
                i <= all.len(),
                all@ == PredefinedHeader::all_spec(),
                self@ == old(self)@.with_headers(
                    old(self)@.headers + predefined_rows().take(i as int),
                ),
            decreases all.len() - i,
        {
            let predefined = all[i];
            let ghost before = self@.headers;
            self.headers.push(
                HeaderState {
                    enabled: true,
                    key: predefined.name().to_owned(),
                    value: predefined.default_value().to_owned(),
                    header_type: predefined.header_type(),
                    predefined: Some(predefined),
                },
            );
            assert(self@.headers =~= before.push(HeaderStateView::of_predefined(predefined)));
            assert(old(self)@.headers + predefined_rows().take(i as int + 1) =~= (old(
                self,
            )@.headers + predefined_rows().take(i as int)).push(
                HeaderStateView::of_predefined(predefined),
            ));
            i += 1;
        }
        assert(predefined_rows().take(all.len() as int) =~= predefined_rows());
    }

    /// Appends an empty custom header row.
    pub fn add_custom_header_row(&mut self)
        ensures
            final(self)@ == old(self)@.with_headers(old(self)@.headers.push(blank_header())),
    {
        self.headers.push(
            HeaderState {
                enabled: true,
                key: String::new(),
                value: String::new(),
                header_type: HeaderType::Custom,
                predefined: None,
            },
        );
        assert(final(self)@.headers =~= old(self)@.headers.push(blank_header()));
    }

    /// The name of the header at `index` was edited: the row takes it, and
    /// an empty custom row is appended where the row is the last one, a
    /// custom one, and its name is not empty. An index past the rows does
    /// nothing.
    pub fn set_header_key(&mut self, index: usize, key: String)
        ensures
            final(self)@ == if index < old(self)@.headers.len() {
                old(self)@.with_headers(
                    headers_after_key_edit(old(self)@.headers, index as int, key@),
                )
            } else {
                old(self)@
            },
    {
        if index < self.headers.len() {
            let grows = index + 1 == self.headers.len() && self.headers[index].header_type
                == HeaderType::Custom && !key.as_str().is_empty();
            self.headers[index].key = key;
            assert(self@.headers =~= old(self)@.headers.update(
                index as int,
                HeaderStateView { key: key@, ..old(self)@.headers[index as int] },
            ));
            if grows {
                self.add_custom_header_row();
            }
        }
    }

    /// The value of the header at `index` was edited. An index past the
    /// rows does nothing.
    pub fn set_header_value(&mut self, index: usize, value: String)
        ensures
            final(self)@ == if index < old(self)@.headers.len() {
                old(self)@.with_headers(
                    old(self)@.headers.update(
                        index as int,
                        HeaderStateView { value: value@, ..old(self)@.headers[index as int] },
                    ),
                )
            } else {
                old(self)@
            },
    {
        if index < self.headers.len() {
            self.headers[index].value = value;
            assert(self@.headers =~= old(self)@.headers.update(
                index as int,
                HeaderStateView { value: value@, ..old(self)@.headers[index as int] },
            ));
        }
    }

    /// Enables or disables the header at `index`, unless it is mandatory.
    /// An index past the rows does nothing.
    pub fn toggle_header(&mut self, index: usize)
        ensures
            final(self)@ == if index < old(self)@.headers.len() && old(
                self,
            )@.headers[index as int].header_type != HeaderType::Mandatory {
                old(self)@.with_headers(
                    old(self)@.headers.update(
                        index as int,
                        HeaderStateView {
                            enabled: !old(self)@.headers[index as int].enabled,
                            ..old(self)@.headers[index as int]
                        },
                    ),
                )
            } else {
                old(self)@
            },
    {
        if index < self.headers.len() {
            if self.headers[index].header_type != HeaderType::Mandatory {
                self.headers[index].enabled = !self.headers[index].enabled;
                assert(self@.headers =~= old(self)@.headers.update(
                    index as int,
                    HeaderStateView {
                        enabled: !old(self)@.headers[index as int].enabled,
                        ..old(self)@.headers[index as int]
                    },
                ));
            }
        }
    }

    /// Removes the header at `index` where it is a custom one; where no
    /// custom row is left then, an empty one is appended. Any other index
    /// does nothing.
    pub fn remove_header_row(&mut self, index: usize)
        ensures
            final(self)@ == if index < old(self)@.headers.len() && old(
                self,
            )@.headers[index as int].header_type == HeaderType::Custom {
                old(self)@.with_headers(with_custom_row(old(self)@.headers.remove(index as int)))
            } else {
                old(self)@
            },
    {
        if index < self.headers.len() {
            if self.headers[index].header_type == HeaderType::Custom {
                self.headers.remove(index);
                assert(self@.headers =~= old(self)@.headers.remove(index as int));
                if !any_custom_row(&self.headers) {
                    self.add_custom_header_row();
                }
            }
        }
    }

    /// Writes a value into the first row that stands for a predefined
    /// header, and enables the row where `enable` says so.
    pub fn set_predefined_value(&mut self, header: PredefinedHeader, value: String, enable: bool)
        ensures
            final(self)@ == old(self)@.with_headers(
                with_predefined_value(old(self)@.headers, header, value@, enable),
            ),
    {
        let mut i: usize = 0;
        while i < self.headers.len()
            invariant
                i <= self.headers.len(),
                self@ == old(self)@,
                forall|j: int|
                    0 <= j < i ==> (#[trigger] self@.headers[j]).predefined != Some(header),
            decreases self.headers.len() - i,
        {
            let found = match self.headers[i].predefined {
                Some(predefined) => predefined == header,
                None => false,
            };
            if found {
                proof {
                    lemma_predefined_position_is(self@.headers, header, i as int);
                }
                self.headers[i].value = value;
                if enable {
                    self.headers[i].enabled = true;
                }
                assert(self@.headers =~= old(self)@.headers.update(
                    i as int,
                    HeaderStateView {
                        value: value@,
                        enabled: old(self)@.headers[i as int].enabled || enable,
                        ..old(self)@.headers[i as int]
                    },
                ));
                return ;
            }
            i += 1;
        }
        proof {
            lemma_predefined_position_is(self@.headers, header, self@.headers.len() as int);
        }
    }

    /// All header rows, disabled ones too.
    pub fn get_headers_state(&self) -> (state: Vec<HeaderState>)
        ensures
            header_states_view(state@) == self@.headers,
    {
        clone_header_states(&self.headers)
    }

    /// Replaces the header rows by kept ones; where none of them is a
    /// custom row, an empty one is appended.
    pub fn load_headers_state(&mut self, state: &Vec<HeaderState>)
        ensures
            final(self)@ == old(self)@.after_headers_state(header_states_view(state@)),
    {
        self.headers = clone_header_states(state);
        if !any_custom_row(&self.headers) {
            self.add_custom_header_row();
        }
    }

    /// Loads one header of a request into the rows. `taken` says whether
    /// the row of the predefined header with its name, if there is one, went
    /// to an earlier header.
    pub(crate) fn load_header(&mut self, key: &str, value: &str, taken: bool)
        ensures
            final(self)@ == old(self)@.with_headers(
                with_loaded_header(old(self)@.headers, key@, value@, taken),
            ),
    {
        match find_predefined(key) {
            Some(predefined) if !taken => {
                self.set_predefined_value(predefined, value.to_owned(), true);
            },
            _ => {
                self.headers.push(
                    HeaderState {
                        enabled: true,
                        key: key.to_owned(),
                        value: value.to_owned(),
                        header_type: HeaderType::Custom,
                        predefined: None,
                    },
                );
                assert(final(self)@.headers =~= old(self)@.headers.push(
                    HeaderStateView::custom(key@, value@),
                ));
            },
        }
    }
}

} // verus!
