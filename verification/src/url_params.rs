//! A URL and its query parameters: taking a URL apart into an ordered list
//! of key-value pairs, and putting one together from a base and such a list.

use vstd::prelude::*;
use vstd::string::StrSliceExecFns;
use vstd::string::StringExecFns;

use crate::percent::{
    decode_lenient, decode_or_raw, encode_component, lemma_decode_encode, lemma_encode_no_delimiter,
    percent_encode,
};
use crate::text::{
    find_between, find_char, lemma_find_char_is, pair_view, pairs_view, string_of_range, to_chars,
};

verus! {

/// A query parameter, with the switch that says whether it is sent.
#[derive(Debug, PartialEq)]
pub struct QueryParam {
    pub key: String,
    pub value: String,
    pub enabled: bool,
}

/// A query parameter as plain text.
pub struct QueryParamView {
    pub key: Seq<char>,
    pub value: Seq<char>,
    pub enabled: bool,
}

impl View for QueryParam {
    type V = QueryParamView;

    open spec fn view(&self) -> QueryParamView {
        QueryParamView { key: self.key@, value: self.value@, enabled: self.enabled }
    }
}

impl Clone for QueryParam {
    fn clone(&self) -> (copy: QueryParam)
        ensures
            copy@ == self@,
    {
        QueryParam { key: self.key.clone(), value: self.value.clone(), enabled: self.enabled }
    }
}

/// The views of a list of parameters.
pub open spec fn params_view(params: Seq<QueryParam>) -> Seq<QueryParamView> {
    Seq::new(params.len(), |i: int| params[i]@)
}

impl QueryParam {
    /// A parameter with the given key, value and switch.
    pub fn new(key: &str, value: &str, enabled: bool) -> (param: QueryParam)
        ensures
            param@ == (QueryParamView { key: key@, value: value@, enabled }),
    {
        QueryParam { key: key.to_owned(), value: value.to_owned(), enabled }
    }
}

/// `url::Url`: a parsed URL, known only by its query pairs.
#[verifier::external_type_specification]
#[verifier::external_body]
pub struct ExUrl(url::Url);

/// `url::ParseError`: the strict parser's refusal; nothing is read of it.
#[verifier::external_type_specification]
#[verifier::external_body]
pub struct ExUrlParseError(url::ParseError);

/// What `url::Url::parse` makes of a text.
pub uninterp spec fn strict_url(text: Seq<char>) -> Result<url::Url, url::ParseError>;

/// The query pairs of a parsed URL, as `url::Url::query_pairs` yields them.
pub uninterp spec fn strict_pairs(parsed: url::Url) -> Seq<(Seq<char>, Seq<char>)>;

/// `url::Url::parse` is a function of its input alone.
pub assume_specification[ url::Url::parse ](input: &str) -> (parsed: Result<
    url::Url,
    url::ParseError,
>)
    ensures
        parsed == strict_url(input@),
;

/// `url::Url::query_pairs`, collected: the decoded pairs of the URL's query, in order.
#[verifier::external_body]
pub(crate) fn query_pairs(parsed: &url::Url) -> (pairs: Vec<(String, String)>)
    ensures
        pairs_view(pairs@) == strict_pairs(*parsed),
{
    parsed.query_pairs().into_owned().collect()
}

/// The part of a URL before its first `?`; all of it where it has none.
pub open spec fn base_of(url: Seq<char>) -> Seq<char> {
    url.take(find_char(url, '?'))
}

/// The pair that one `&`-separated piece of a query stands for: key and
/// value are split at the first `=` and decoded; a piece without `=` is a key
/// with an empty value; a piece whose key is empty stands for nothing.
pub open spec fn scan_pair(piece: Seq<char>) -> Option<(Seq<char>, Seq<char>)> {
    let eq = find_char(piece, '=');
    let key = decode_or_raw(piece.take(eq));
    let value = if eq < piece.len() {
        decode_or_raw(piece.skip(eq + 1))
    } else {
        Seq::empty()
    };
    if key.len() == 0 {
        None
    } else {
        Some((key, value))
    }
}

/// The pairs of a query text: those of the piece before the first `&`,
/// then those of what follows it.
pub open spec fn scan_query(query: Seq<char>) -> Seq<(Seq<char>, Seq<char>)>
    decreases query.len(),
{
    let end = find_char(query, '&');
    let head = match scan_pair(query.take(end)) {
        Some(pair) => seq![pair],
        None => Seq::empty(),
    };
    if 0 <= end < query.len() {
        head + scan_query(query.skip(end + 1))
    } else {
        head
    }
}

/// The pairs found by scanning what follows the first `?` of a text.
pub open spec fn scanned_params(url: Seq<char>) -> Seq<(Seq<char>, Seq<char>)> {
    let at = find_char(url, '?');
    if at < url.len() {
        scan_query(url.skip(at + 1))
    } else {
        Seq::empty()
    }
}

/// The query parameters of a URL: those of the strict parser where it
/// accepts the text, else those found by scanning.
pub open spec fn query_params_of(url: Seq<char>) -> Seq<(Seq<char>, Seq<char>)> {
    if url.len() == 0 {
        Seq::empty()
    } else {
        match strict_url(url) {
            Ok(parsed) => strict_pairs(parsed),
            Err(_) => scanned_params(url),
        }
    }
}

/// Whether a parameter goes into a URL: it is enabled and has a key.
pub open spec fn is_sent(param: QueryParamView) -> bool {
    param.enabled && param.key.len() > 0
}

/// The parameters that go into a URL, in order.
pub open spec fn sent_params(params: Seq<QueryParamView>) -> Seq<QueryParamView> {
    params.filter(|p: QueryParamView| is_sent(p))
}

/// `key=value`, both percent-encoded.
pub open spec fn query_piece(param: QueryParamView) -> Seq<char> {
    percent_encode(param.key) + seq!['='] + percent_encode(param.value)
}

/// The pieces of the given parameters, joined by `&`.
pub open spec fn query_text(params: Seq<QueryParamView>) -> Seq<char>
    decreases params.len(),
{
    if params.len() == 0 {
        Seq::empty()
    } else if params.len() == 1 {
        query_piece(params[0])
    } else {
        query_text(params.drop_last()) + seq!['&'] + query_piece(params.last())
    }
}

/// The URL made of a base and the parameters that are sent: the base alone
/// where none is, else the base, `?` and the query text.
pub open spec fn built_url(base: Seq<char>, params: Seq<QueryParamView>) -> Seq<char> {
    let sent = sent_params(params);
    if sent.len() == 0 {
        base
    } else {
        base + seq!['?'] + query_text(sent)
    }
}

/// Whether a pair is a placeholder: key and value are both empty.
pub open spec fn is_placeholder(pair: (Seq<char>, Seq<char>)) -> bool {
    pair.0.len() == 0 && pair.1.len() == 0
}

/// The pairs that are no placeholders, in order.
pub open spec fn significant(pairs: Seq<(Seq<char>, Seq<char>)>) -> Seq<(Seq<char>, Seq<char>)> {
    pairs.filter(|p: (Seq<char>, Seq<char>)| !is_placeholder(p))
}

/// Whether two lists hold the same pairs in the same order, placeholders
/// left out.
pub open spec fn same_params(
    left: Seq<(Seq<char>, Seq<char>)>,
    right: Seq<(Seq<char>, Seq<char>)>,
) -> bool {
    significant(left) == significant(right)
}

/// The key and value of each parameter.
pub open spec fn pairs_of(params: Seq<QueryParamView>) -> Seq<(Seq<char>, Seq<char>)> {
    Seq::new(params.len(), |i: int| (params[i].key, params[i].value))
}

/// The base URL: the part before the first `?`.
pub fn extract_base_url<'a>(url: &'a str) -> (base: &'a str)
    ensures
        base@ == base_of(url@),
{
    let chars = to_chars(url);
    let at = find_between(&chars, 0, chars.len(), '?');
    assert(chars@.subrange(0, chars.len() as int) =~= url@);
    url.substring_char(0, at)
}

/// The pairs found by scanning the text after the first `?`, without the
/// strict parser.
pub fn scan_query_params(url: &str) -> (pairs: Vec<(String, String)>)
    ensures
        pairs_view(pairs@) == scanned_params(url@),
{
    let chars = to_chars(url);
    let len = chars.len();
    let mut pairs: Vec<(String, String)> = Vec::new();
    let mark = find_between(&chars, 0, len, '?');
    assert(chars@.subrange(0, len as int) =~= url@);
    if mark >= len {
        assert(pairs_view(pairs@) =~= Seq::empty());
        return pairs;
    }
    let mut pos: usize = mark + 1;
    assert(pairs_view(pairs@) + scan_query(chars@.skip(pos as int)) =~= scan_query(
        chars@.skip(mark + 1),
    ));
    loop
        invariant_except_break
            pairs_view(pairs@) + scan_query(chars@.skip(pos as int)) == scan_query(
                chars@.skip(mark + 1),
            ),
        invariant
            pos <= len,
            len == chars.len(),
            mark < len,
        ensures
            pairs_view(pairs@) == scan_query(chars@.skip(mark + 1)),
        decreases len - pos,
    {
        let ghost rest = chars@.skip(pos as int);
        let ghost before = pairs_view(pairs@);
        let end = find_between(&chars, pos, len, '&');
        let eq = find_between(&chars, pos, end, '=');
        proof {
            assert(chars@.subrange(pos as int, len as int) =~= rest);
            assert(chars@.subrange(pos as int, end as int) =~= rest.take(end - pos));
        }
        let ghost piece = rest.take(end - pos);
        let key = decode_lenient(string_of_range(&chars, pos, eq).as_str());
        proof {
            assert(chars@.subrange(pos as int, eq as int) =~= piece.take(eq - pos));
        }
        let value = if eq < end {
            proof {
                assert(chars@.subrange(eq as int + 1, end as int) =~= piece.skip(eq - pos + 1));
            }
            decode_lenient(string_of_range(&chars, eq + 1, end).as_str())
        } else {
            String::new()
        };
        if !key.as_str().is_empty() {
            pairs.push((key, value));
            assert(pairs_view(pairs@) =~= before + seq![scan_pair(piece)->0]);
        } else {
            assert(pairs_view(pairs@) =~= before);
        }
        if end >= len {
            proof {
                assert(before + scan_query(rest) =~= pairs_view(pairs@));
            }
            break;
        }
        proof {
            assert(rest.skip(end - pos + 1) =~= chars@.skip(end as int + 1));
            assert(before + scan_query(rest) =~= pairs_view(pairs@) + scan_query(
                chars@.skip(end as int + 1),
            ));
        }
        pos = end + 1;
    }
    pairs
}

/// What can be read of the query parameters of a URL: nothing where the
/// text is not empty, the strict parser rejects it and it holds no `?`;
/// else its query parameters.
pub open spec fn query_reading(url: Seq<char>) -> Option<Seq<(Seq<char>, Seq<char>)>> {
    if url.len() > 0 && strict_url(url) is Err && find_char(url, '?') >= url.len() {
        None
    } else {
        Some(query_params_of(url))
    }
}

/// The views of pairs that may be absent.
pub open spec fn opt_pairs_view(pairs: Option<Vec<(String, String)>>) -> Option<
    Seq<(Seq<char>, Seq<char>)>,
> {
    match pairs {
        Some(pairs) => Some(pairs_view(pairs@)),
        None => None,
    }
}

/// The query parameters of a URL, or `None` for a text that tells nothing
/// of them: one that is not empty, that the strict parser rejects and that
/// holds no `?`.
pub fn read_query_params(url: &str) -> (pairs: Option<Vec<(String, String)>>)
    ensures
        opt_pairs_view(pairs) == query_reading(url@),
{
    if url.is_empty() {
        let pairs: Vec<(String, String)> = Vec::new();
        assert(pairs_view(pairs@) =~= Seq::empty());
        return Some(pairs);
    }
    match url::Url::parse(url) {
        Ok(parsed) => Some(query_pairs(&parsed)),
        Err(_) => {
            let chars = to_chars(url);
            let mark = find_between(&chars, 0, chars.len(), '?');
            assert(chars@.subrange(0, chars.len() as int) =~= url@);
            if mark < chars.len() {
                Some(scan_query_params(url))
            } else {
                None
            }
        },
    }
}

/// The query parameters of a URL, in order and decoded. The strict parser
/// is tried first; a text that it rejects is scanned after its first `?`.
pub fn parse_query_params(url: &str) -> (pairs: Vec<(String, String)>)
    ensures
        pairs_view(pairs@) == query_params_of(url@),
{
    match read_query_params(url) {
        Some(pairs) => pairs,
        None => {
            let pairs: Vec<(String, String)> = Vec::new();
            assert(pairs_view(pairs@) =~= Seq::empty());
            pairs
        },
    }
}

/// `query_text` of a list with one more parameter at its end.
pub proof fn lemma_query_text_push(params: Seq<QueryParamView>, last: QueryParamView)
    ensures
        query_text(params.push(last)) == if params.len() == 0 {
            query_piece(last)
        } else {
            query_text(params) + seq!['&'] + query_piece(last)
        },
{
    let all = params.push(last);
    assert(all.drop_last() =~= params);
    assert(all.last() == last);
}

/// The URL made of `base_url` and the parameters that are enabled and have
/// a key, each written `key=value` with both percent-encoded.
pub fn build_url_with_params(base_url: &str, params: &[QueryParam]) -> (url: String)
    ensures
        url@ == built_url(base_url@, params_view(params@)),
{
    let ghost views = params_view(params@);
    let mut query = String::new();
    let mut any = false;
    let mut i: usize = 0;
    proof {
        reveal(Seq::filter);
        assert(views.take(0) =~= Seq::empty());
    }
    while i < params.len()
        invariant
            i <= params.len(),
            views == params_view(params@),
            any == (sent_params(views.take(i as int)).len() > 0),
            query@ == query_text(sent_params(views.take(i as int))),
        decreases params.len() - i,
    {
        let param = &params[i];
        proof {
            reveal(Seq::filter);
            assert(views.take(i as int + 1).drop_last() =~= views.take(i as int));
            assert(views.take(i as int + 1).last() == param@);
        }
        if param.enabled && !param.key.as_str().is_empty() {
            proof {
                lemma_query_text_push(sent_params(views.take(i as int)), param@);
            }
            if any {
                query.push('&');
            }
            let key = encode_component(param.key.as_str());
            let value = encode_component(param.value.as_str());
            query.append(key.as_str());
            query.push('=');
            query.append(value.as_str());
            any = true;
            assert(query@ =~= query_text(sent_params(views.take(i as int + 1))));
        }
        i += 1;
    }
    assert(views.take(params.len() as int) =~= views);
    let mut url = base_url.to_owned();
    if any {
        url.push('?');
        url.append(query.as_str());
        assert(url@ =~= base_url@ + seq!['?'] + query@);
    }
    url
}

/// The texts of the pairs that a list of references points at.
pub open spec fn refs_view(refs: Seq<&(String, String)>) -> Seq<(Seq<char>, Seq<char>)> {
    Seq::new(refs.len(), |i: int| pair_view(*refs[i]))
}

/// The pairs of a list that are no placeholders, in order.
fn significant_entries(params: &[(String, String)]) -> (kept: Vec<&(String, String)>)
    ensures
        refs_view(kept@) == significant(pairs_view(params@)),
{
    let ghost views = pairs_view(params@);
    let mut kept: Vec<&(String, String)> = Vec::new();
    let mut i: usize = 0;
    proof {
        reveal(Seq::filter);
        assert(views.take(0) =~= Seq::empty());
        assert(refs_view(kept@) =~= Seq::empty());
    }
    while i < params.len()
        invariant
            i <= params.len(),
            views == pairs_view(params@),
            refs_view(kept@) == significant(views.take(i as int)),
        decreases params.len() - i,
    {
        let entry = &params[i];
        let ghost before = refs_view(kept@);
        proof {
            reveal(Seq::filter);
            assert(views.take(i as int + 1).drop_last() =~= views.take(i as int));
            assert(views.take(i as int + 1).last() == pair_view(*entry));
        }
        if !entry.0.as_str().is_empty() || !entry.1.as_str().is_empty() {
            kept.push(entry);
            assert(refs_view(kept@) =~= before.push(pair_view(*entry)));
        }
        i += 1;
    }
    assert(views.take(params.len() as int) =~= views);
    kept
}

/// Whether two lists hold the same pairs in the same order, once the
/// placeholders (pairs whose key and value are both empty) are left out.
pub fn params_equal(params1: &[(String, String)], params2: &[(String, String)]) -> (same: bool)
    ensures
        same == same_params(pairs_view(params1@), pairs_view(params2@)),
{
    let left = significant_entries(params1);
    let right = significant_entries(params2);
    if left.len() != right.len() {
        return false;
    }
    let mut i: usize = 0;
    while i < left.len()
        invariant
            i <= left.len(),
            left.len() == right.len(),
            refs_view(left@) == significant(pairs_view(params1@)),
            refs_view(right@) == significant(pairs_view(params2@)),
            refs_view(left@).take(i as int) == refs_view(right@).take(i as int),
        decreases left.len() - i,
    {
        let a = left[i];
        let b = right[i];
        if !(a.0 == b.0 && a.1 == b.1) {
            assert(refs_view(left@)[i as int] != refs_view(right@)[i as int]);
            return false;
        }
        assert(refs_view(left@).take(i as int + 1) =~= refs_view(left@).take(i as int).push(
            pair_view(*a),
        ));
        assert(refs_view(right@).take(i as int + 1) =~= refs_view(right@).take(i as int).push(
            pair_view(*b),
        ));
        i += 1;
    }
    assert(refs_view(left@).take(left.len() as int) =~= refs_view(left@));
    assert(refs_view(right@).take(right.len() as int) =~= refs_view(right@));
    true
}

/// A text without `c` has its first `c` at its end.
proof fn lemma_find_char_absent(s: Seq<char>, c: char)
    requires
        forall|i: int| 0 <= i < s.len() ==> s[i] != c,
    ensures
        find_char(s, c) == s.len(),
{
    lemma_find_char_is(s, c, s.len() as int);
}

/// In `head + [c] + tail`, where `head` holds no `c`, the first `c` is the
/// one after `head`.
proof fn lemma_find_char_joint(head: Seq<char>, c: char, tail: Seq<char>)
    requires
        forall|i: int| 0 <= i < head.len() ==> head[i] != c,
    ensures
        find_char(head + seq![c] + tail, c) == head.len(),
        (head + seq![c] + tail).take(head.len() as int) == head,
        (head + seq![c] + tail).skip(head.len() as int + 1) == tail,
{
    let all = head + seq![c] + tail;
    assert forall|j: int| 0 <= j < head.len() implies all[j] != c by {
        assert(all[j] == head[j]);
    }
    assert(all[head.len() as int] == c);
    lemma_find_char_is(all, c, head.len() as int);
    assert(all.take(head.len() as int) =~= head);
    assert(all.skip(head.len() as int + 1) =~= tail);
}

/// The piece written for a parameter with a key holds no `&` and is read
/// back as that parameter's key and value.
proof fn lemma_scan_piece(param: QueryParamView)
    requires
        param.key.len() > 0,
    ensures
        scan_pair(query_piece(param)) == Some((param.key, param.value)),
        forall|i: int| 0 <= i < query_piece(param).len() ==> query_piece(param)[i] != '&',
{
    let key = percent_encode(param.key);
    let value = percent_encode(param.value);
    let piece = query_piece(param);
    lemma_encode_no_delimiter(param.key);
    lemma_encode_no_delimiter(param.value);
    lemma_decode_encode(param.key);
    lemma_decode_encode(param.value);
    lemma_find_char_joint(key, '=', value);
    assert forall|i: int| 0 <= i < piece.len() implies piece[i] != '&' by {
        if i < key.len() {
            assert(piece[i] == key[i]);
        } else if i > key.len() {
            assert(piece[i] == value[i - key.len() - 1]);
        }
    }
}

/// `query_text` of a list of two or more parameters, read from its front.
proof fn lemma_query_text_front(params: Seq<QueryParamView>)
    requires
        params.len() >= 2,
    ensures
        query_text(params) == query_piece(params[0]) + seq!['&'] + query_text(
            params.drop_first(),
        ),
    decreases params.len(),
{
    let init = params.drop_last();
    let tail = params.drop_first();
    if params.len() == 2 {
        assert(init =~= seq![params[0]]);
        assert(tail =~= seq![params[1]]);
        assert(query_text(init) == query_piece(params[0]));
        assert(query_text(tail) == query_piece(params[1]));
    } else {
        lemma_query_text_front(init);
        assert(init.drop_first() =~= tail.drop_last());
        assert(init[0] == params[0]);
        assert(tail.last() == params.last());
        assert(query_text(params) =~= query_piece(params[0]) + seq!['&'] + (query_text(
            tail.drop_last(),
        ) + seq!['&'] + query_piece(tail.last())));
    }
}

/// Scanning the query text of parameters that all have a key gives back
/// their keys and values, in order.
proof fn lemma_scan_query_text(params: Seq<QueryParamView>)
    requires
        params.len() > 0,
        forall|i: int| 0 <= i < params.len() ==> (#[trigger] params[i]).key.len() > 0,
    ensures
        scan_query(query_text(params)) == pairs_of(params),
    decreases params.len(),
{
    let first = params[0];
    let piece = query_piece(first);
    lemma_scan_piece(first);
    if params.len() == 1 {
        lemma_find_char_absent(piece, '&');
        assert(piece.take(piece.len() as int) =~= piece);
        assert(pairs_of(params) =~= seq![(first.key, first.value)]);
    } else {
        let tail = params.drop_first();
        lemma_query_text_front(params);
        lemma_find_char_joint(piece, '&', query_text(tail));
        assert forall|i: int| 0 <= i < tail.len() implies (#[trigger] tail[i]).key.len() > 0 by {
            assert(tail[i] == params[i + 1]);
        }
        lemma_scan_query_text(tail);
        assert(pairs_of(params) =~= seq![(first.key, first.value)] + pairs_of(tail));
    }
}

/// Round trip through scanning: for a base without `?`, the URL built from
/// it and a list of parameters is scanned back into the keys and values of
/// the parameters that were sent, in order.
pub proof fn lemma_scan_built_url(base: Seq<char>, params: Seq<QueryParamView>)
    requires
        forall|i: int| 0 <= i < base.len() ==> base[i] != '?',
    ensures
        scanned_params(built_url(base, params)) == pairs_of(sent_params(params)),
{
    let sent = sent_params(params);
    if sent.len() == 0 {
        lemma_find_char_absent(base, '?');
        assert(pairs_of(sent) =~= Seq::empty());
    } else {
        assert forall|i: int| 0 <= i < sent.len() implies (#[trigger] sent[i]).key.len() > 0 by {
            params.lemma_filter_pred(|p: QueryParamView| is_sent(p), i);
        }
        lemma_find_char_joint(base, '?', query_text(sent));
        lemma_scan_query_text(sent);
    }
}

/// Whether the strict parser, where it accepts a text, yields the pairs
/// that scanning the text yields. It does wherever it rejects the text.
pub open spec fn strict_reads_as_scanned(url: Seq<char>) -> bool {
    match strict_url(url) {
        Ok(parsed) => strict_pairs(parsed) == scanned_params(url),
        Err(_) => true,
    }
}

/// Round trip: for a base without `?`, parsing the URL built from it and a
/// list of parameters gives back the keys and values of the parameters that
/// were sent, in order. This holds wherever the built URL is left to the
/// scanner, and wherever the strict parser reads it as the scanner does;
/// of what the strict parser reads, nothing else is known here.
pub proof fn lemma_parse_built_url(base: Seq<char>, params: Seq<QueryParamView>)
    requires
        forall|i: int| 0 <= i < base.len() ==> base[i] != '?',
        strict_reads_as_scanned(built_url(base, params)),
    ensures
        query_params_of(built_url(base, params)) == pairs_of(sent_params(params)),
{
    lemma_scan_built_url(base, params);
    if built_url(base, params).len() == 0 {
        assert(sent_params(params).len() == 0);
        assert(pairs_of(sent_params(params)) =~= Seq::empty());
    }
}

/// Filtering a list whose entries all pass leaves it as it is.
pub proof fn lemma_filter_all<A>(s: Seq<A>, pred: spec_fn(A) -> bool)
    requires
        forall|i: int| 0 <= i < s.len() ==> pred(#[trigger] s[i]),
    ensures
        s.filter(pred) == s,
    decreases s.len(),
{
    reveal(Seq::filter);
    if s.len() > 0 {
        lemma_filter_all(s.drop_last(), pred);
        assert(s.drop_last().push(s.last()) =~= s);
    }
}

/// Parameters that are disabled or have no key do not reach the URL: it is
/// the one built from the parameters that are sent.
pub proof fn lemma_built_url_only_sent(base: Seq<char>, params: Seq<QueryParamView>)
    ensures
        built_url(base, params) == built_url(base, sent_params(params)),
        forall|i: int|
            0 <= i < sent_params(params).len() ==> is_sent(#[trigger] sent_params(params)[i]),
{
    let pred = |p: QueryParamView| is_sent(p);
    let sent = sent_params(params);
    assert forall|i: int| 0 <= i < sent.len() implies pred(#[trigger] sent[i]) by {
        params.lemma_filter_pred(pred, i);
    }
    lemma_filter_all(sent, pred);
}

/// Placeholders count for nothing in a comparison: pairs whose key and
/// value are both empty, put at the end of either list, change no outcome.
pub proof fn lemma_same_params_ignores_placeholders(
    left: Seq<(Seq<char>, Seq<char>)>,
    right: Seq<(Seq<char>, Seq<char>)>,
    extra: Seq<(Seq<char>, Seq<char>)>,
)
    requires
        forall|i: int| 0 <= i < extra.len() ==> is_placeholder(#[trigger] extra[i]),
    ensures
        same_params(left + extra, right) == same_params(left, right),
        same_params(left, right + extra) == same_params(left, right),
{
    let pred = |p: (Seq<char>, Seq<char>)| !is_placeholder(p);
    assert(significant(extra) =~= Seq::empty()) by {
        extra.lemma_all_neg_filter_empty(pred);
    }
    Seq::filter_distributes_over_add(left, extra, pred);
    Seq::filter_distributes_over_add(right, extra, pred);
    assert(significant(left) + Seq::empty() =~= significant(left));
    assert(significant(right) + Seq::empty() =~= significant(right));
}

} // verus!
