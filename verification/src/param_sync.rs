//! The parameter table of a request editor, and the rules that keep it in
//! step with the address.
//!
//! The address and the parameter rows are two projections of one thing. An
//! edit of either rebuilds the other; `SyncPhase` records which rebuild is
//! under way, so that the write it causes does not start the opposite one.
//! A rebuild of the address stays under way until it is released, which the
//! controller does once the change that the write announces has passed.

use vstd::prelude::*;

use crate::request_editor::{RequestEditor, RequestEditorView, SyncPhase};
use crate::text::{lemma_find_char, pairs_view};
use crate::types::{clone_param_states, param_states_view, ParamState, ParamStateView};
use crate::url_params::{
    base_of, build_url_with_params, built_url, extract_base_url, is_placeholder, is_sent,
    lemma_filter_all, lemma_parse_built_url, pairs_of, params_equal, params_view, query_reading,
    read_query_params, same_params, sent_params, significant, strict_reads_as_scanned,
    QueryParam, QueryParamView,
};

verus! {

/// The key and value of each parameter row.
pub open spec fn param_pairs(rows: Seq<ParamStateView>) -> Seq<(Seq<char>, Seq<char>)> {
    Seq::new(rows.len(), |i: int| (rows[i].key, rows[i].value))
}

/// The parameter rows as the parameters from which a URL is built.
pub open spec fn query_params(rows: Seq<ParamStateView>) -> Seq<QueryParamView> {
    Seq::new(
        rows.len(),
        |i: int| QueryParamView { key: rows[i].key, value: rows[i].value, enabled: rows[i].enabled },
    )
}

/// An enabled parameter row for each pair.
pub open spec fn rows_of_pairs(pairs: Seq<(Seq<char>, Seq<char>)>) -> Seq<ParamStateView> {
    Seq::new(
        pairs.len(),
        |i: int| ParamStateView { enabled: true, key: pairs[i].0, value: pairs[i].1 },
    )
}

/// The rows that hold a key or a value, in order.
pub open spec fn filled_rows(rows: Seq<ParamStateView>) -> Seq<ParamStateView> {
    rows.filter(|row: ParamStateView| !row.is_blank())
}

/// The rows without the one at `index`; where that was the only row, a
/// placeholder takes its place.
pub open spec fn rows_after_removal(rows: Seq<ParamStateView>, index: int) -> Seq<ParamStateView> {
    let rest = rows.remove(index);
    if rest.len() == 0 {
        seq![ParamStateView::placeholder()]
    } else {
        rest
    }
}

/// The rows after the key of the row at `index` was edited: that row has
/// the new key; and where it is the last row and the key is not empty, a
/// placeholder follows.
pub open spec fn rows_after_key_edit(rows: Seq<ParamStateView>, index: int, key: Seq<char>) -> Seq<
    ParamStateView,
> {
    let edited = rows.update(index, ParamStateView { key, ..rows[index] });
    if index + 1 == rows.len() && key.len() > 0 {
        edited.push(ParamStateView::placeholder())
    } else {
        edited
    }
}

/// Whether every row either holds nothing or is sent: enabled, with a key.
pub open spec fn rows_all_sent(rows: Seq<ParamStateView>) -> bool {
    forall|i: int|
        0 <= i < rows.len() ==> (#[trigger] rows[i]).is_blank() || (rows[i].enabled
            && rows[i].key.len() > 0)
}

/// The key and value of each row, as strings of their own.
fn rows_to_pairs(rows: &Vec<ParamState>) -> (pairs: Vec<(String, String)>)
    ensures
        pairs_view(pairs@) == param_pairs(param_states_view(rows@)),
{
    let mut pairs: Vec<(String, String)> = Vec::new();
    let mut i: usize = 0;
    while i < rows.len()
        invariant
            i <= rows.len(),
            pairs_view(pairs@) == param_pairs(param_states_view(rows@)).take(i as int),
        decreases rows.len() - i,
    {
        let ghost before = pairs_view(pairs@);
        pairs.push((rows[i].key.clone(), rows[i].value.clone()));
        assert(pairs_view(pairs@) =~= before.push((rows@[i as int].key@, rows@[i as int].value@)));
        assert(param_pairs(param_states_view(rows@)).take(i as int + 1) =~= param_pairs(
            param_states_view(rows@),
        ).take(i as int).push((rows@[i as int].key@, rows@[i as int].value@)));
        i += 1;
    }
    assert(param_pairs(param_states_view(rows@)).take(rows.len() as int) =~= param_pairs(
        param_states_view(rows@),
    ));
    pairs
}

/// The rows as parameters from which a URL is built.
fn rows_to_query(rows: &Vec<ParamState>) -> (params: Vec<QueryParam>)
    ensures
        params_view(params@) == query_params(param_states_view(rows@)),
{
    let mut params: Vec<QueryParam> = Vec::new();
    let mut i: usize = 0;
    while i < rows.len()
        invariant
            i <= rows.len(),
            params_view(params@) == query_params(param_states_view(rows@)).take(i as int),
        decreases rows.len() - i,
    {
        let ghost before = params_view(params@);
        let param = QueryParam {
            key: rows[i].key.clone(),
            value: rows[i].value.clone(),
            enabled: rows[i].enabled,
        };
        params.push(param);
        assert(params_view(params@) =~= before.push(param@));
        assert(query_params(param_states_view(rows@)).take(i as int + 1) =~= query_params(
            param_states_view(rows@),
        ).take(i as int).push(param@));
        i += 1;
    }
    assert(query_params(param_states_view(rows@)).take(rows.len() as int) =~= query_params(
        param_states_view(rows@),
    ));
    params
}

/// An enabled row for each pair, in order.
fn pairs_to_rows(pairs: &Vec<(String, String)>) -> (rows: Vec<ParamState>)
    ensures
        param_states_view(rows@) == rows_of_pairs(pairs_view(pairs@)),
{
    let ghost views = pairs_view(pairs@);
    let mut rows: Vec<ParamState> = Vec::new();
    let mut i: usize = 0;
    while i < pairs.len()
        invariant
            i <= pairs.len(),
            views == pairs_view(pairs@),
            param_states_view(rows@) == rows_of_pairs(views).take(i as int),
        decreases pairs.len() - i,
    {
        let ghost before = param_states_view(rows@);
        let row = ParamState { enabled: true, key: pairs[i].0.clone(), value: pairs[i].1.clone() };
        rows.push(row);
        assert(param_states_view(rows@) =~= before.push(row@));
        assert(rows_of_pairs(views).take(i as int + 1) =~= rows_of_pairs(views).take(
            i as int,
        ).push(row@));
        i += 1;
    }
    assert(rows_of_pairs(views).take(pairs.len() as int) =~= rows_of_pairs(views));
    rows
}

impl RequestEditorView {
    /// The editor after the address changed.
    ///
    /// Nothing happens while a rebuild is under way, nor where the address
    /// is the one last read, nor where nothing can be read of it. Otherwise
    /// the address counts as read; and unless its parameters are those of the
    /// rows already, placeholders aside, the rows are replaced by one enabled
    /// row for each parameter read, in order, followed by one placeholder.
    pub open spec fn after_url_change(self) -> RequestEditorView {
        if self.sync != SyncPhase::Idle || self.url == self.last_parsed_url {
            self
        } else {
            match query_reading(self.url) {
                None => self,
                Some(pairs) => if same_params(pairs, param_pairs(self.params)) {
                    RequestEditorView { last_parsed_url: self.url, ..self }
                } else {
                    RequestEditorView {
                        params: rows_of_pairs(pairs).push(ParamStateView::placeholder()),
                        last_parsed_url: self.url,
                        ..self
                    }
                },
            }
        }
    }

    /// The address rebuilt from the rows: what stands before the first `?`
    /// of the address as it is now, and the rows that are enabled and have a key.
    pub open spec fn rebuilt_url(self) -> Seq<char> {
        built_url(base_of(self.url), query_params(self.params))
    }

    /// The editor after the rows changed: nothing happens while a rebuild is
    /// under way; otherwise the address is rebuilt from the rows, and the
    /// rebuild stays under way until it is released.
    pub open spec fn after_params_change(self) -> RequestEditorView {
        if self.sync != SyncPhase::Idle {
            self
        } else {
            RequestEditorView { url: self.rebuilt_url(), sync: SyncPhase::SyncingFromParams, ..self }
        }
    }

    /// The editor with other parameter rows.
    pub open spec fn with_params(self, params: Seq<ParamStateView>) -> RequestEditorView {
        RequestEditorView { params, ..self }
    }

    /// The editor after kept parameter rows were loaded into it: they are
    /// followed by a placeholder, and the address is left as it is.
    pub open spec fn after_params_state(self, state: Seq<ParamStateView>) -> RequestEditorView {
        RequestEditorView {
            params: state.push(ParamStateView::placeholder()),
            sync: if self.sync == SyncPhase::SyncingFromParams {
                SyncPhase::SyncingFromParams
            } else {
                SyncPhase::Idle
            },
            ..self
        }
    }
}

impl RequestEditor {
    /// Appends a placeholder row to the parameters.
    pub fn add_param_row(&mut self)
        ensures
            final(self)@ == old(self)@.with_params(
                old(self)@.params.push(ParamStateView::placeholder()),
            ),
    {
        self.params.push(ParamState { enabled: true, key: String::new(), value: String::new() });
        assert(final(self)@.params =~= old(self)@.params.push(ParamStateView::placeholder()));
    }

    /// The address changed: reads the parameter rows from it, unless a
    /// rebuild is under way or there is nothing new to read. Returns whether
    /// the rows were replaced.
    pub fn parse_url_to_params(&mut self) -> (rebuilt: bool)
        ensures
            final(self)@ == old(self)@.after_url_change(),
            rebuilt == (final(self)@.params != old(self)@.params),
    {
        if self.sync != SyncPhase::Idle {
            return false;
        }
        if self.url == self.last_parsed_url {
            return false;
        }
        let new_params = match read_query_params(self.url.as_str()) {
            Some(pairs) => pairs,
            None => {
                return false;
            },
        };
        let current = rows_to_pairs(&self.params);
        if params_equal(new_params.as_slice(), current.as_slice()) {
            self.last_parsed_url = self.url.clone();
            return false;
        }
        self.sync = SyncPhase::SyncingFromUrl;
        self.last_parsed_url = self.url.clone();
        self.params = pairs_to_rows(&new_params);
        self.add_param_row();
        self.sync = SyncPhase::Idle;
        proof {
            lemma_rebuild_differs(pairs_view(new_params@), old(self)@.params);
        }
        true
    }

    /// The address rebuilt from the parameter rows: what stands before the
    /// first `?` of `url_str`, and the rows that are enabled and have a key.
    pub fn rebuild_url_with_params(&self, url_str: &str) -> (url: String)
        ensures
            url@ == built_url(base_of(url_str@), query_params(self@.params)),
    {
        let base = extract_base_url(url_str);
        let params = rows_to_query(&self.params);
        build_url_with_params(base, params.as_slice())
    }

    /// The parameter rows changed: rebuilds the address from them, unless a
    /// rebuild is under way. Returns whether the address was written; the
    /// rebuild then stays under way until `finish_url_update`.
    pub fn sync_params_to_url(&mut self) -> (written: bool)
        ensures
            final(self)@ == old(self)@.after_params_change(),
            written == (old(self).sync == SyncPhase::Idle),
    {
        if self.sync != SyncPhase::Idle {
            return false;
        }
        self.sync = SyncPhase::SyncingFromParams;
        let new_url = self.rebuild_url_with_params(self.url.as_str());
        self.url = new_url;
        true
    }

    /// The change that a rebuilt address announced has passed: edits of the
    /// address are read again.
    pub fn finish_url_update(&mut self)
        ensures
            final(self)@ == (RequestEditorView {
                sync: if old(self).sync == SyncPhase::SyncingFromParams {
                    SyncPhase::Idle
                } else {
                    old(self).sync
                },
                ..old(self)@
            }),
    {
        if self.sync == SyncPhase::SyncingFromParams {
            self.sync = SyncPhase::Idle;
        }
    }

    /// The address field was edited.
    pub fn set_url(&mut self, url: String) -> (rebuilt: bool)
        ensures
            final(self)@ == (RequestEditorView { url: url@, ..old(self)@ }).after_url_change(),
            rebuilt == (final(self)@.params != old(self)@.params),
    {
        self.url = url;
        self.parse_url_to_params()
    }

    /// Enables or disables the parameter at `index` and rebuilds the
    /// address; an index past the rows does nothing. Returns whether the
    /// address was written.
    pub fn toggle_param(&mut self, index: usize) -> (written: bool)
        ensures
            final(self)@ == if index < old(self)@.params.len() {
                old(self)@.with_params(
                    old(self)@.params.update(
                        index as int,
                        ParamStateView {
                            enabled: !old(self)@.params[index as int].enabled,
                            ..old(self)@.params[index as int]
                        },
                    ),
                ).after_params_change()
            } else {
                old(self)@
            },
            written == (index < old(self)@.params.len() && old(self).sync == SyncPhase::Idle),
    {
        if index < self.params.len() {
            self.params[index].enabled = !self.params[index].enabled;
            assert(self@.params =~= old(self)@.params.update(
                index as int,
                ParamStateView {
                    enabled: !old(self)@.params[index as int].enabled,
                    ..old(self)@.params[index as int]
                },
            ));
            self.sync_params_to_url()
        } else {
            false
        }
    }

    /// Removes the parameter at `index` and rebuilds the address; where no
    /// row is left, a placeholder takes its place, so that removing the last
    /// parameter leaves only the placeholder. An index past the rows does
    /// nothing. Returns whether the address was written.
    pub fn remove_param(&mut self, index: usize) -> (written: bool)
        ensures
            final(self)@ == if index < old(self)@.params.len() {
                old(self)@.with_params(
                    rows_after_removal(old(self)@.params, index as int),
                ).after_params_change()
            } else {
                old(self)@
            },
            written == (index < old(self)@.params.len() && old(self).sync == SyncPhase::Idle),
    {
        if index < self.params.len() {
            self.params.remove(index);
            assert(self@.params =~= old(self)@.params.remove(index as int));
            if self.params.len() == 0 {
                self.add_param_row();
                assert(self@.params =~= seq![ParamStateView::placeholder()]);
            }
            self.sync_params_to_url()
        } else {
            false
        }
    }

    /// The key of the parameter at `index` was edited: the row takes it, the
    /// address is rebuilt, and a placeholder is appended where the row is the
    /// last one and its key is not empty. An index past the rows does
    /// nothing. Returns whether the address was written.
    pub fn set_param_key(&mut self, index: usize, key: String) -> (written: bool)
        ensures
            final(self)@ == if index < old(self)@.params.len() {
                old(self)@.with_params(
                    rows_after_key_edit(old(self)@.params, index as int, key@),
                ).after_params_change()
            } else {
                old(self)@
            },
            written == (index < old(self)@.params.len() && old(self).sync == SyncPhase::Idle),
    {
        if index < self.params.len() {
            let grows = index + 1 == self.params.len() && !key.as_str().is_empty();
            self.params[index].key = key;
            assert(self@.params =~= old(self)@.params.update(
                index as int,
                ParamStateView { key: key@, ..old(self)@.params[index as int] },
            ));
            if grows {
                self.add_param_row();
            }
            self.sync_params_to_url()
        } else {
            false
        }
    }

    /// The value of the parameter at `index` was edited: the row takes it
    /// and the address is rebuilt. An index past the rows does nothing.
    /// Returns whether the address was written.
    pub fn set_param_value(&mut self, index: usize, value: String) -> (written: bool)
        ensures
            final(self)@ == if index < old(self)@.params.len() {
                old(self)@.with_params(
                    old(self)@.params.update(
                        index as int,
                        ParamStateView { value: value@, ..old(self)@.params[index as int] },
                    ),
                ).after_params_change()
            } else {
                old(self)@
            },
            written == (index < old(self)@.params.len() && old(self).sync == SyncPhase::Idle),
    {
        if index < self.params.len() {
            self.params[index].value = value;
            assert(self@.params =~= old(self)@.params.update(
                index as int,
                ParamStateView { value: value@, ..old(self)@.params[index as int] },
            ));
            self.sync_params_to_url()
        } else {
            false
        }
    }

    /// The parameter rows that hold a key or a value, disabled ones too.
    pub fn get_params_state(&self) -> (state: Vec<ParamState>)
        ensures
            param_states_view(state@) == filled_rows(self@.params),
    {
        let ghost views = self@.params;
        let mut state: Vec<ParamState> = Vec::new();
        let mut i: usize = 0;
        proof {
            reveal(Seq::filter);
            assert(views.take(0) =~= Seq::empty());
            assert(param_states_view(state@) =~= filled_rows(views.take(0)));
        }
        while i < self.params.len()
            invariant
                i <= self.params.len(),
                views == param_states_view(self.params@),
                param_states_view(state@) == filled_rows(views.take(i as int)),
            decreases self.params.len() - i,
        {
            let ghost before = param_states_view(state@);
            let row = &self.params[i];
            proof {
                reveal(Seq::filter);
                assert(views.take(i as int + 1).drop_last() =~= views.take(i as int));
                assert(views.take(i as int + 1).last() == row@);
            }
            if !row.key.as_str().is_empty() || !row.value.as_str().is_empty() {
                state.push(row.clone());
                assert(param_states_view(state@) =~= before.push(row@));
            }
            i += 1;
        }
        assert(views.take(self.params.len() as int) =~= views);
        state
    }

    /// Replaces the parameter rows by kept ones, followed by a placeholder.
    /// The address is left as it is.
    pub fn load_params_state(&mut self, state: &Vec<ParamState>)
        ensures
            final(self)@ == old(self)@.after_params_state(param_states_view(state@)),
    {
        let resumed = if self.sync == SyncPhase::SyncingFromParams {
            SyncPhase::SyncingFromParams
        } else {
            SyncPhase::Idle
        };
        self.sync = SyncPhase::SyncingFromUrl;
        self.params = clone_param_states(state);
        self.add_param_row();
        self.sync = resumed;
    }
}

/// Rows rebuilt from parameters that are not those of the rows before
/// differ from the rows before.
proof fn lemma_rebuild_differs(pairs: Seq<(Seq<char>, Seq<char>)>, before: Seq<ParamStateView>)
    requires
        !same_params(pairs, param_pairs(before)),
    ensures
        rows_of_pairs(pairs).push(ParamStateView::placeholder()) != before,
{
    let rebuilt = rows_of_pairs(pairs).push(ParamStateView::placeholder());
    if rebuilt == before {
        let blank = (Seq::<char>::empty(), Seq::<char>::empty());
        assert(param_pairs(rebuilt) =~= pairs.push(blank));
        reveal(Seq::filter);
        assert(pairs.push(blank).drop_last() =~= pairs);
        assert(significant(param_pairs(rebuilt)) == significant(pairs));
    }
}

/// While a rebuild is under way, neither a change of the address nor a
/// change of the rows starts another: the editor stays as it is.
pub proof fn lemma_no_rebuild_while_syncing(editor: RequestEditorView)
    requires
        editor.sync != SyncPhase::Idle,
    ensures
        editor.after_url_change() == editor,
        editor.after_params_change() == editor,
{
}

/// Reading the address does not write it, and rebuilding the address does
/// not touch the rows: neither direction feeds the other by itself.
pub proof fn lemma_sync_directions_apart(editor: RequestEditorView)
    ensures
        editor.after_url_change().url == editor.url,
        editor.after_url_change().sync == editor.sync,
        editor.after_params_change().params == editor.params,
        editor.after_params_change().last_parsed_url == editor.last_parsed_url,
{
}

/// Reading the same address twice is reading it once.
pub proof fn lemma_url_change_idempotent(editor: RequestEditorView)
    ensures
        editor.after_url_change().after_url_change() == editor.after_url_change(),
{
}

/// Rows rebuilt from an address are the parameters read from it, each as
/// an enabled row and in their order, followed by one placeholder.
pub proof fn lemma_rebuilt_rows_are_the_pairs_read(editor: RequestEditorView)
    requires
        editor.after_url_change().params != editor.params,
    ensures
        ({
            let rows = editor.after_url_change().params;
            &&& query_reading(editor.url) matches Some(pairs) && rows.len() == pairs.len() + 1
                && param_pairs(rows.drop_last()) == pairs
            &&& rows.last() == ParamStateView::placeholder()
            &&& forall|i: int| 0 <= i < rows.len() ==> (#[trigger] rows[i]).enabled
            &&& editor.after_url_change().last_parsed_url == editor.url
        }),
{
    let pairs = query_reading(editor.url)->0;
    let rows = editor.after_url_change().params;
    assert(rows == rows_of_pairs(pairs).push(ParamStateView::placeholder()));
    assert(param_pairs(rows.drop_last()) =~= pairs);
}

/// Of rows that are each blank or sent, the pairs that count in a
/// comparison are the keys and values of the parameters that reach the URL.
proof fn lemma_sent_pairs(rows: Seq<ParamStateView>)
    requires
        rows_all_sent(rows),
    ensures
        significant(param_pairs(rows)) == pairs_of(
            sent_params(query_params(rows)),
        ),
    decreases rows.len(),
{
    reveal(Seq::filter);
    if rows.len() == 0 {
        assert(param_pairs(rows) =~= Seq::empty());
        assert(query_params(rows) =~= Seq::empty());
        assert(pairs_of(Seq::<QueryParamView>::empty()) =~= Seq::empty());
    } else {
        let init = rows.drop_last();
        let last = rows.last();
        assert forall|i: int| 0 <= i < init.len() implies (#[trigger] init[i]).is_blank() || (
        init[i].enabled && init[i].key.len() > 0) by {
            assert(init[i] == rows[i]);
        }
        lemma_sent_pairs(init);
        assert(param_pairs(rows).drop_last() =~= param_pairs(init));
        assert(query_params(rows).drop_last() =~= query_params(init));
        assert(param_pairs(rows).last() == (last.key, last.value));
        assert(query_params(rows).last() == QueryParamView {
            key: last.key,
            value: last.value,
            enabled: last.enabled,
        });
        let sent_init = sent_params(query_params(init));
        if !last.is_blank() {
            assert(pairs_of(sent_init.push(query_params(rows).last()))
                =~= pairs_of(sent_init).push((last.key, last.value)));
        }
    }
}

/// At rest the two projections agree: once the address was rebuilt from
/// rows that are each blank or sent, and the rebuild was released, reading
/// the address back leaves the rows as they are. This is stated for an
/// address that the strict parser leaves to the scanner, or reads as the
/// scanner does.
pub proof fn lemma_rebuilt_url_reads_back(editor: RequestEditorView)
    requires
        editor.sync == SyncPhase::Idle,
        rows_all_sent(editor.params),
        strict_reads_as_scanned(editor.rebuilt_url()),
    ensures
        (RequestEditorView {
            sync: SyncPhase::Idle,
            ..editor.after_params_change()
        }).after_url_change().params == editor.params,
{
    let base = base_of(editor.url);
    let params = query_params(editor.params);
    lemma_find_char(editor.url, '?');
    assert forall|i: int| 0 <= i < base.len() implies base[i] != '?' by {
        assert(base[i] == editor.url[i]);
    }
    lemma_parse_built_url(base, params);
    lemma_sent_pairs(editor.params);
    let sent = pairs_of(sent_params(params));
    let pred = |p: (Seq<char>, Seq<char>)| !is_placeholder(p);
    assert forall|i: int| 0 <= i < sent.len() implies pred(#[trigger] sent[i]) by {
        params.lemma_filter_pred(|p: QueryParamView| is_sent(p), i);
    }
    lemma_filter_all(sent, pred);
    lemma_filter_all(significant(param_pairs(editor.params)), pred);
}

} // verus!
