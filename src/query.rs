use vstd::prelude::*;
use vstd::string::*;
use crate::text::{form_encode, form_encoded_text, lemma_form_encoded_no_separator};
use vstd::utf8::encode_utf8;

verus! {

/// The name of a query parameter.
#[derive(Clone, Copy, Debug, PartialEq, Eq, Structural)]
pub enum ParamKey {
    Chain,
    Currency,
    Exchange,
    From,
    Interval,
    Keyword,
    Limit,
    Market,
    Page,
    Pool,
    Sort,
    Symbol,
    To,
}

/// The text of a parameter name as it stands in a query string.
pub open spec fn key_name(k: ParamKey) -> Seq<char> {
    match k {
        ParamKey::Chain => "chain"@,
        ParamKey::Currency => "currency"@,
        ParamKey::Exchange => "exchange"@,
        ParamKey::From => "from"@,
        ParamKey::Interval => "interval"@,
        ParamKey::Keyword => "keyword"@,
        ParamKey::Limit => "limit"@,
        ParamKey::Market => "market"@,
        ParamKey::Page => "page"@,
        ParamKey::Pool => "pool"@,
        ParamKey::Sort => "sort"@,
        ParamKey::Symbol => "symbol"@,
        ParamKey::To => "to"@,
    }
}

impl ParamKey {
    /// The parameter's name.
    pub fn name(&self) -> (r: &'static str)
        ensures
            r@ == key_name(*self),
    {
        match self {
            ParamKey::Chain => "chain",
            ParamKey::Currency => "currency",
            ParamKey::Exchange => "exchange",
            ParamKey::From => "from",
            ParamKey::Interval => "interval",
            ParamKey::Keyword => "keyword",
            ParamKey::Limit => "limit",
            ParamKey::Market => "market",
            ParamKey::Page => "page",
            ParamKey::Pool => "pool",
            ParamKey::Sort => "sort",
            ParamKey::Symbol => "symbol",
            ParamKey::To => "to",
        }
    }
}

/// A parameter set as a sequence of (name, value) entries.
pub type Entries = Seq<(ParamKey, Seq<char>)>;

/// Whether some entry has the name `k`.
pub open spec fn has_key(s: Entries, k: ParamKey) -> bool {
    exists|i: int| 0 <= i < s.len() && #[trigger] s[i].0 == k
}

/// No two entries share a name.
pub open spec fn keys_distinct(s: Entries) -> bool {
    forall|i: int, j: int| 0 <= i < s.len() && 0 <= j < s.len() && i != j ==> s[i].0 != s[j].0
}

/// The position of the entry named `k` (meaningful only where `has_key(s, k)`).
pub open spec fn key_index(s: Entries, k: ParamKey) -> int {
    choose|i: int| 0 <= i < s.len() && s[i].0 == k
}

/// The entries after setting `k` to `v`: the value of an entry with that name
/// is replaced in place (the last write wins); a new name goes at the end.
pub open spec fn inserted(s: Entries, k: ParamKey, v: Seq<char>) -> Entries {
    if has_key(s, k) {
        s.update(key_index(s, k), (k, v))
    } else {
        s.push((k, v))
    }
}

/// One entry as it stands in the query string: `name=value`, the value form-encoded.
pub open spec fn entry_text(e: (ParamKey, Seq<char>)) -> Seq<char> {
    key_name(e.0) + seq!['='] + form_encoded_text(e.1)
}

/// The query string of a parameter set: its entries, in order, joined by `&`.
pub open spec fn query_of(s: Entries) -> Seq<char>
    decreases s.len(),
{
    if s.len() == 0 {
        seq![]
    } else if s.len() == 1 {
        entry_text(s[0])
    } else {
        query_of(s.drop_last()) + seq!['&'] + entry_text(s.last())
    }
}

/// The pieces of `q` between the occurrences of `sep`, in order.
pub open spec fn split_on(q: Seq<char>, sep: char) -> Seq<Seq<char>>
    decreases q.len(),
{
    if q.len() == 0 {
        seq![seq![]]
    } else {
        let rest = split_on(q.drop_last(), sep);
        if q.last() == sep {
            rest.push(seq![])
        } else {
            rest.update(rest.len() - 1, rest.last().push(q.last()))
        }
    }
}

/// The name of a `name=value` piece: what stands before its first `=`.
pub open spec fn piece_name(p: Seq<char>) -> Seq<char>
    decreases p.len(),
{
    if p.len() == 0 || p[0] == '=' {
        seq![]
    } else {
        seq![p[0]] + piece_name(p.drop_first())
    }
}

/// The value of a `name=value` piece: what stands after its first `=`.
pub open spec fn piece_value(p: Seq<char>) -> Seq<char>
    decreases p.len(),
{
    if p.len() == 0 {
        seq![]
    } else if p[0] == '=' {
        p.drop_first()
    } else {
        piece_value(p.drop_first())
    }
}

/// The (name, value) pairs that a query string reads as, in order.
pub open spec fn query_pairs(q: Seq<char>) -> Seq<(Seq<char>, Seq<char>)> {
    if q.len() == 0 {
        seq![]
    } else {
        split_on(q, '&').map_values(|p: Seq<char>| (piece_name(p), piece_value(p)))
    }
}

proof fn lemma_split_len(q: Seq<char>, sep: char)
    ensures
        split_on(q, sep).len() >= 1,
    decreases q.len(),
{
    if q.len() > 0 {
        lemma_split_len(q.drop_last(), sep);
    }
}

proof fn lemma_split_plain(b: Seq<char>, sep: char)
    requires
        !b.contains(sep),
    ensures
        split_on(b, sep) == seq![b],
    decreases b.len(),
{
    if b.len() == 0 {
        assert(b =~= seq![]);
    } else {
        let init = b.drop_last();
        assert(!init.contains(sep)) by {
            if init.contains(sep) {
                let i = choose|i: int| 0 <= i < init.len() && init[i] == sep;
                assert(b[i] == sep);
            }
        }
        lemma_split_plain(init, sep);
        assert(b.last() != sep) by {
            assert(b[b.len() - 1] == b.last());
        }
        assert(init.push(b.last()) =~= b);
        assert(seq![init].update(0, init.push(b.last())) =~= seq![b]);
    }
}

proof fn lemma_split_join(a: Seq<char>, b: Seq<char>, sep: char)
    requires
        !b.contains(sep),
    ensures
        split_on(a + seq![sep] + b, sep) == split_on(a, sep).push(b),
    decreases b.len(),
{
    let q = a + seq![sep] + b;
    if b.len() == 0 {
        assert(q.drop_last() =~= a);
        assert(q.last() == sep);
        assert(b =~= seq![]);
    } else {
        let init = b.drop_last();
        assert(!init.contains(sep)) by {
            if init.contains(sep) {
                let i = choose|i: int| 0 <= i < init.len() && init[i] == sep;
                assert(b[i] == sep);
            }
        }
        lemma_split_join(a, init, sep);
        assert(q.drop_last() =~= a + seq![sep] + init);
        assert(q.last() == b.last());
        assert(b.last() != sep) by {
            assert(b[b.len() - 1] == b.last());
        }
        let rest = split_on(a, sep).push(init);
        assert(init.push(b.last()) =~= b);
        assert(split_on(q, sep) == rest.update(rest.len() - 1, rest.last().push(q.last())));
        assert(rest.update(rest.len() - 1, rest.last().push(q.last())) =~= split_on(a, sep).push(b));
    }
}

proof fn lemma_piece(n: Seq<char>, v: Seq<char>)
    requires
        !n.contains('='),
    ensures
        piece_name(n + seq!['='] + v) == n,
        piece_value(n + seq!['='] + v) == v,
    decreases n.len(),
{
    let p = n + seq!['='] + v;
    if n.len() == 0 {
        assert(p[0] == '=');
        assert(p.drop_first() =~= v);
    } else {
        assert(n[0] != '=');
        let m = n.drop_first();
        assert(!m.contains('=')) by {
            if m.contains('=') {
                let i = choose|i: int| 0 <= i < m.len() && m[i] == '=';
                assert(n[i + 1] == '=');
            }
        }
        lemma_piece(m, v);
        assert(p.drop_first() =~= m + seq!['='] + v);
        assert(seq![n[0]] + m =~= n);
    }
}

proof fn lemma_key_name_plain(k: ParamKey)
    ensures
        !key_name(k).contains('&'),
        !key_name(k).contains('='),
{
    reveal_strlit("chain");
    reveal_strlit("currency");
    reveal_strlit("exchange");
    reveal_strlit("from");
    reveal_strlit("interval");
    reveal_strlit("keyword");
    reveal_strlit("limit");
    reveal_strlit("market");
    reveal_strlit("page");
    reveal_strlit("pool");
    reveal_strlit("sort");
    reveal_strlit("symbol");
    reveal_strlit("to");
    let n = key_name(k);
    assert(forall|i: int| 0 <= i < n.len() ==> 'a' <= #[trigger] n[i] <= 'z');
}

proof fn lemma_entry_text(e: (ParamKey, Seq<char>))
    ensures
        !entry_text(e).contains('&'),
        piece_name(entry_text(e)) == key_name(e.0),
        piece_value(entry_text(e)) == form_encoded_text(e.1),
{
    let n = key_name(e.0);
    let v = form_encoded_text(e.1);
    lemma_key_name_plain(e.0);
    lemma_form_encoded_no_separator(encode_utf8(e.1));
    lemma_piece(n, v);
    let t = n + seq!['='] + v;
    assert(entry_text(e) == t);
    if t.contains('&') {
        let i = choose|i: int| 0 <= i < t.len() && t[i] == '&';
        if i < n.len() {
            assert(n[i] == '&');
        } else if i > n.len() {
            assert(v[i - n.len() - 1] == '&');
        }
    }
}

/// A query string reads back as its parameters: split at `&` and at the first
/// `=` of each piece, it gives each parameter's name with its form-encoded
/// value, in order, and nothing else. So a name is in the query string exactly
/// when the parameter set holds it.
pub proof fn lemma_query_pairs(s: Entries)
    ensures
        query_pairs(query_of(s)) == s.map_values(
            |e: (ParamKey, Seq<char>)| (key_name(e.0), form_encoded_text(e.1)),
        ),
    decreases s.len(),
{
    let f = |e: (ParamKey, Seq<char>)| (key_name(e.0), form_encoded_text(e.1));
    let g = |p: Seq<char>| (piece_name(p), piece_value(p));
    if s.len() == 0 {
        assert(s.map_values(f) =~= seq![]);
    } else if s.len() == 1 {
        lemma_entry_text(s[0]);
        lemma_split_plain(entry_text(s[0]), '&');
        assert(entry_text(s[0]).len() > 0) by {
            assert(entry_text(s[0])[key_name(s[0].0).len() as int] == '=');
        }
        assert(query_pairs(query_of(s)) =~= s.map_values(f));
    } else {
        let init = s.drop_last();
        let t = entry_text(s.last());
        lemma_query_pairs(init);
        lemma_entry_text(s.last());
        lemma_split_join(query_of(init), t, '&');
        let q = query_of(s);
        assert(q == query_of(init) + seq!['&'] + t);
        assert(q.len() > 0) by {
            assert(q[query_of(init).len() as int] == '&');
        }
        assert(query_of(init).len() > 0) by {
            let e = init[0];
            if init.len() == 1 {
                assert(entry_text(e)[key_name(e.0).len() as int] == '=');
            } else {
                assert(query_of(init) == query_of(init.drop_last()) + seq!['&'] + entry_text(init.last()));
                assert(query_of(init)[query_of(init.drop_last()).len() as int] == '&');
            }
        }
        assert(split_on(q, '&').map_values(g) =~= split_on(query_of(init), '&').map_values(g).push(g(t)));
        assert(s.map_values(f) =~= init.map_values(f).push(f(s.last())));
    }
}

proof fn lemma_key_name_injective(a: ParamKey, b: ParamKey)
    ensures
        key_name(a) == key_name(b) ==> a == b,
{
    reveal_strlit("chain");
    reveal_strlit("currency");
    reveal_strlit("exchange");
    reveal_strlit("from");
    reveal_strlit("interval");
    reveal_strlit("keyword");
    reveal_strlit("limit");
    reveal_strlit("market");
    reveal_strlit("page");
    reveal_strlit("pool");
    reveal_strlit("sort");
    reveal_strlit("symbol");
    reveal_strlit("to");
    if key_name(a) == key_name(b) {
        assert(key_name(a)[0] == key_name(b)[0]);
        assert(key_name(a).len() == key_name(b).len());
        if key_name(a).len() > 1 {
            assert(key_name(a)[1] == key_name(b)[1]);
        }
    }
}

/// Optional fields in the query string: a field that is not set never appears
/// there as a name, and one that is set always appears, with its form-encoded
/// text. `required` are the parameters that a request always sends, with
/// names of their own.
pub proof fn lemma_optional_fields_in_query(
    required: Entries,
    fields: Seq<(ParamKey, Option<Seq<char>>)>,
    j: int,
)
    requires
        field_keys_distinct(fields),
        forall|k: ParamKey| has_key(required, k) ==> !field_has_key(fields, k),
        0 <= j < fields.len(),
    ensures
        fields[j].1 is None ==> forall|i: int|
            0 <= i < query_pairs(query_of(required + present_entries(fields))).len()
                ==> #[trigger] query_pairs(query_of(required + present_entries(fields)))[i].0
                != key_name(fields[j].0),
        fields[j].1 matches Some(v) ==> query_pairs(
            query_of(required + present_entries(fields)),
        ).contains((key_name(fields[j].0), form_encoded_text(v))),
{
    let p = present_entries(fields);
    let s = required + p;
    let f = |e: (ParamKey, Seq<char>)| (key_name(e.0), form_encoded_text(e.1));
    let pairs = query_pairs(query_of(s));
    let k = fields[j].0;
    lemma_query_pairs(s);
    assert(pairs == s.map_values(f));
    lemma_present_entries(fields, k);
    if fields[j].1 is None {
        assert forall|i: int| 0 <= i < pairs.len() implies #[trigger] pairs[i].0 != key_name(k) by {
            if pairs[i].0 == key_name(k) {
                assert(pairs[i] == f(s[i]));
                lemma_key_name_injective(s[i].0, k);
                assert(s[i].0 == k);
                assert(has_key(s, k));
                lemma_has_key_concat(required, p, k);
                if has_key(required, k) {
                    assert(field_has_key(fields, k));
                } else {
                    let jj = choose|jj: int| 0 <= jj < fields.len() && #[trigger] fields[jj].0 == k && fields[jj].1 is Some;
                    assert(jj == j);
                }
            }
        }
    } else {
        let v = fields[j].1->0;
        assert(p.contains((k, v)));
        let q = choose|q: int| 0 <= q < p.len() && p[q] == (k, v);
        assert(s[required.len() + q] == (k, v));
        assert(pairs[required.len() + q] == f((k, v)));
    }
}

/// The query parameters of one request, in the order in which they were first set.
pub struct Params {
    entries: Vec<(ParamKey, String)>,
}

impl View for Params {
    type V = Entries;

    closed spec fn view(&self) -> Entries {
        self.entries@.map_values(|e: (ParamKey, String)| (e.0, e.1@))
    }
}

impl Params {
    /// A parameter set is well formed when no name occurs twice.
    pub open spec fn wf(&self) -> bool {
        keys_distinct(self@)
    }

    /// An empty parameter set.
    pub fn new() -> (r: Params)
        ensures
            r@ == Seq::<(ParamKey, Seq<char>)>::empty(),
            r.wf(),
    {
        let r = Params { entries: Vec::new() };
        assert(r@ =~= Seq::<(ParamKey, Seq<char>)>::empty());
        r
    }

    /// The number of parameters.
    pub fn len(&self) -> (r: usize)
        ensures
            r == self@.len(),
    {
        self.entries.len()
    }

    /// Sets the parameter `key` to `value`.
    pub fn insert(&mut self, key: ParamKey, value: String)
        requires
            old(self).wf(),
        ensures
            final(self).wf(),
            final(self)@ == inserted(old(self)@, key, value@),
            !has_key(old(self)@, key) ==> final(self)@ == old(self)@.push((key, value@)),
    {
        let ghost s = self@;
        let n = self.entries.len();
        let mut i: usize = 0;
        while i < n
            invariant
                n == self.entries.len(),
                self@ == s,
                s == old(self)@,
                keys_distinct(s),
                i <= n,
                forall|j: int| 0 <= j < i ==> s[j].0 != key,
            decreases n - i,
        {
            if self.entries[i].0 == key {
                assert(s[i as int].0 == key);
                assert(has_key(s, key));
                assert(key_index(s, key) == i) by {
                    let c = key_index(s, key);
                    assert(0 <= c < s.len() && s[c].0 == key);
                }
                self.entries.set(i, (key, value));
                assert(self@ =~= s.update(i as int, (key, value@)));
                return;
            }
            assert(s[i as int].0 != key);
            i = i + 1;
        }
        assert(!has_key(s, key));
        self.entries.push((key, value));
        assert(self@ =~= s.push((key, value@)));
    }

    /// The query string: `name=value` for each parameter, in order, joined by
    /// `&`; values are form-encoded, so `&`, `=`, spaces and non-ASCII text in
    /// them cannot break the string apart.
    pub fn to_query(&self) -> (r: String)
        ensures
            r@ == query_of(self@),
    {
        let ghost s = self@;
        let n = self.entries.len();
        let mut out = String::new();
        let mut i: usize = 0;
        while i < n
            invariant
                n == self.entries.len(),
                s == self@,
                i <= n,
                out@ == query_of(s.take(i as int)),
            decreases n - i,
        {
            if i > 0 {
                out.append("&");
            }
            let entry = &self.entries[i];
            out.append(entry.0.name());
            out.append("=");
            let encoded = form_encode(entry.1.as_str());
            out.append(encoded.as_str());
            proof {
                reveal_strlit("&");
                reveal_strlit("=");
                let t = s.take(i + 1);
                assert(t.drop_last() =~= s.take(i as int));
                assert(t.last() == s[i as int]);
                assert(s[i as int] == (entry.0, entry.1@));
                if i == 0 {
                    assert(out@ =~= entry_text(s[0]));
                } else {
                    assert(out@ =~= query_of(s.take(i as int)) + seq!['&'] + entry_text(s[i as int]));
                }
            }
            i = i + 1;
        }
        assert(s.take(n as int) =~= s);
        out
    }
}

/// The text value of an optional field.
pub open spec fn text_opt(o: Option<String>) -> Option<Seq<char>> {
    match o {
        Some(s) => Some(s@),
        None => None,
    }
}

/// The parameters that optional fields give: one `(name, value)` entry for each
/// field that is set, in the order of the fields; none for a field that is not.
pub open spec fn present_entries(fields: Seq<(ParamKey, Option<Seq<char>>)>) -> Entries
    decreases fields.len(),
{
    if fields.len() == 0 {
        seq![]
    } else {
        present_entries(fields.drop_last()) + match fields.last().1 {
            Some(v) => seq![(fields.last().0, v)],
            None => seq![],
        }
    }
}

/// Whether some field sets the parameter `k`.
pub open spec fn field_has_key(fields: Seq<(ParamKey, Option<Seq<char>>)>, k: ParamKey) -> bool {
    exists|j: int| 0 <= j < fields.len() && #[trigger] fields[j].0 == k
}

/// No two fields share a parameter name.
pub open spec fn field_keys_distinct(fields: Seq<(ParamKey, Option<Seq<char>>)>) -> bool {
    forall|i: int, j: int|
        0 <= i < fields.len() && 0 <= j < fields.len() && i != j ==> fields[i].0 != fields[j].0
}

proof fn lemma_has_key_concat(s: Entries, t: Entries, k: ParamKey)
    ensures
        has_key(s + t, k) == (has_key(s, k) || has_key(t, k)),
{
    if has_key(s + t, k) {
        let i = choose|i: int| 0 <= i < (s + t).len() && #[trigger] (s + t)[i].0 == k;
        if i >= s.len() {
            assert(t[i - s.len()].0 == k);
        } else {
            assert(s[i].0 == k);
        }
    }
    if has_key(s, k) {
        let i = choose|i: int| 0 <= i < s.len() && #[trigger] s[i].0 == k;
        assert((s + t)[i].0 == k);
    }
    if has_key(t, k) {
        let i = choose|i: int| 0 <= i < t.len() && #[trigger] t[i].0 == k;
        assert((s + t)[s.len() + i].0 == k);
    }
}

proof fn lemma_has_key_one(e: (ParamKey, Seq<char>), k: ParamKey)
    ensures
        has_key(seq![e], k) == (e.0 == k),
{
    if e.0 == k {
        assert(seq![e][0].0 == k);
    }
}

/// An optional field gives a parameter exactly when it is set, and a set field
/// gives one with its value; the parameters that fields give have distinct names.
pub proof fn lemma_present_entries(fields: Seq<(ParamKey, Option<Seq<char>>)>, k: ParamKey)
    requires
        field_keys_distinct(fields),
    ensures
        has_key(present_entries(fields), k) <==> exists|j: int|
            0 <= j < fields.len() && #[trigger] fields[j].0 == k && fields[j].1 is Some,
        forall|j: int|
            0 <= j < fields.len() && #[trigger] fields[j].1 is Some ==> present_entries(
                fields,
            ).contains((fields[j].0, fields[j].1->0)),
        keys_distinct(present_entries(fields)),
    decreases fields.len(),
{
    if fields.len() > 0 {
        let init = fields.drop_last();
        let last = fields.last();
        let tail: Entries = match last.1 {
            Some(v) => seq![(last.0, v)],
            None => seq![],
        };
        assert(field_keys_distinct(init));
        lemma_present_entries(init, k);
        lemma_present_entries(init, last.0);
        let p = present_entries(init);
        assert(present_entries(fields) == p + tail);
        lemma_has_key_concat(p, tail, k);
        if last.1 is Some {
            lemma_has_key_one((last.0, last.1->0), k);
        }
        if has_key(present_entries(fields), k) {
            if has_key(p, k) {
                let j = choose|j: int| 0 <= j < init.len() && #[trigger] init[j].0 == k && init[j].1 is Some;
                assert(fields[j] == init[j]);
            } else {
                assert(fields[fields.len() - 1].0 == k);
            }
        }
        if exists|j: int| 0 <= j < fields.len() && #[trigger] fields[j].0 == k && fields[j].1 is Some {
            let j = choose|j: int| 0 <= j < fields.len() && #[trigger] fields[j].0 == k && fields[j].1 is Some;
            if j < init.len() {
                assert(init[j] == fields[j]);
            }
        }
        assert forall|j: int| 0 <= j < fields.len() && #[trigger] fields[j].1 is Some implies present_entries(
            fields,
        ).contains((fields[j].0, fields[j].1->0)) by {
            if j < init.len() {
                assert(init[j] == fields[j]);
                lemma_present_entries(init, fields[j].0);
                let q = choose|q: int| 0 <= q < p.len() && p[q] == (fields[j].0, fields[j].1->0);
                assert((p + tail)[q] == p[q]);
            } else {
                assert((p + tail)[p.len() as int] == (fields[j].0, fields[j].1->0));
            }
        }
        if last.1 is Some {
            assert(!has_key(p, last.0)) by {
                if has_key(p, last.0) {
                    let j = choose|j: int| 0 <= j < init.len() && #[trigger] init[j].0 == last.0 && init[j].1 is Some;
                    assert(fields[j].0 == fields[fields.len() - 1].0);
                }
            }
            assert forall|a: int, b: int|
                0 <= a < (p + tail).len() && 0 <= b < (p + tail).len() && a != b implies (p
                + tail)[a].0 != (p + tail)[b].0 by {
                if a < p.len() && b >= p.len() {
                    assert(p[a].0 == (p + tail)[a].0);
                    if p[a].0 == last.0 {
                        assert(has_key(p, last.0));
                    }
                } else if b < p.len() && a >= p.len() {
                    assert(p[b].0 == (p + tail)[b].0);
                    if p[b].0 == last.0 {
                        assert(has_key(p, last.0));
                    }
                }
            }
        } else {
            assert(p + tail =~= p);
        }
    }
}

impl Params {
    /// Sets a parameter for each field of `fields` that is set, in order.
    pub fn add_present(&mut self, fields: Vec<(ParamKey, Option<String>)>)
        requires
            old(self).wf(),
            field_keys_distinct(fields@.map_values(|f: (ParamKey, Option<String>)| (f.0, text_opt(f.1)))),
            forall|k: ParamKey|
                has_key(old(self)@, k) ==> !field_has_key(
                    fields@.map_values(|f: (ParamKey, Option<String>)| (f.0, text_opt(f.1))),
                    k,
                ),
        ensures
            final(self).wf(),
            final(self)@ == old(self)@ + present_entries(
                fields@.map_values(|f: (ParamKey, Option<String>)| (f.0, text_opt(f.1))),
            ),
    {
        let ghost fv = fields@.map_values(|f: (ParamKey, Option<String>)| (f.0, text_opt(f.1)));
        let ghost start = self@;
        let n = fields.len();
        let mut rest = fields;
        let mut i: usize = 0;
        assert(fv.take(0) =~= Seq::<(ParamKey, Option<Seq<char>>)>::empty());
        assert(start + present_entries(fv.take(0)) =~= start);
        while i < n
            invariant
                n == fv.len(),
                rest@ == fields@,
                fv == fields@.map_values(|f: (ParamKey, Option<String>)| (f.0, text_opt(f.1))),
                field_keys_distinct(fv),
                forall|k: ParamKey| has_key(start, k) ==> !field_has_key(fv, k),
                i <= n,
                self.wf(),
                self@ == start + present_entries(fv.take(i as int)),
            decreases n - i,
        {
            let key = rest[i].0;
            let value = rest[i].1.clone();
            let ghost before = self@;
            proof {
                let t = fv.take(i as int);
                assert(field_keys_distinct(t));
                lemma_present_entries(t, key);
                lemma_has_key_concat(start, present_entries(t), key);
                if has_key(present_entries(t), key) {
                    let j = choose|j: int| 0 <= j < t.len() && #[trigger] t[j].0 == key && t[j].1 is Some;
                    assert(fv[j].0 == fv[i as int].0);
                }
                if has_key(start, key) {
                    assert(fv[i as int].0 == key);
                    assert(field_has_key(fv, key));
                }
                assert(fv.take(i + 1).drop_last() =~= t);
            }
            match value {
                Some(v) => {
                    self.insert(key, v);
                    assert(self@ =~= start + present_entries(fv.take(i + 1)));
                },
                None => {
                    assert(self@ =~= start + present_entries(fv.take(i + 1)));
                },
            }
            i = i + 1;
        }
        assert(fv.take(n as int) =~= fv);
    }
}

} // verus!
