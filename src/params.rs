//! The parameter list of an invocation: a left-to-right scan of
//! `key=value` pairs separated by commas outside double quotes.
use vstd::prelude::*;
use crate::text::{is_ws, trim, trim_start, trim_end, is_whitespace, trim_bounds, string_of, eq_ascii_ci, eq_ignore_ascii_case};

verus! {

/// Where the scan stands: reading a key, a value, or a value inside quotes.
#[derive(Clone, Copy, Debug, PartialEq, Eq, Structural)]
pub enum ScanMode {
    ReadingKey,
    ReadingValue,
    ReadingValueQuoted,
}

/// The state of the scan: the pairs committed so far and the pair being read.
pub struct Scan {
    pub pairs: Seq<(Seq<char>, Seq<char>)>,
    pub key: Seq<char>,
    pub value: Seq<char>,
    pub mode: ScanMode,
}

pub open spec fn scan_start() -> Scan {
    Scan { pairs: Seq::empty(), key: Seq::empty(), value: Seq::empty(), mode: ScanMode::ReadingKey }
}

/// The pair being read, trimmed, appended to the committed ones.
pub open spec fn commit(st: Scan) -> Seq<(Seq<char>, Seq<char>)> {
    st.pairs.push((trim(st.key), trim(st.value)))
}

/// One character of the scan.
pub open spec fn scan_step(st: Scan, c: char) -> Scan {
    match st.mode {
        ScanMode::ReadingKey => if c == '=' {
            Scan { pairs: st.pairs, key: st.key, value: st.value, mode: ScanMode::ReadingValue }
        } else if !is_ws(c) || st.key.len() > 0 {
            Scan { pairs: st.pairs, key: st.key.push(c), value: st.value, mode: st.mode }
        } else {
            st
        },
        ScanMode::ReadingValue => if c == '"' {
            Scan { pairs: st.pairs, key: st.key, value: st.value.push(c), mode: ScanMode::ReadingValueQuoted }
        } else if c == ',' {
            Scan { pairs: commit(st), key: Seq::empty(), value: Seq::empty(), mode: ScanMode::ReadingKey }
        } else {
            Scan { pairs: st.pairs, key: st.key, value: st.value.push(c), mode: st.mode }
        },
        ScanMode::ReadingValueQuoted => if c == '"' {
            Scan { pairs: st.pairs, key: st.key, value: st.value.push(c), mode: ScanMode::ReadingValue }
        } else {
            Scan { pairs: st.pairs, key: st.key, value: st.value.push(c), mode: st.mode }
        },
    }
}

/// The state after scanning all of `s`.
pub open spec fn scan(s: Seq<char>) -> Scan
    decreases s.len(),
{
    if s.len() == 0 {
        scan_start()
    } else {
        scan_step(scan(s.drop_last()), s.last())
    }
}

/// The pairs of a parameter body: those committed by commas, and the last
/// one if anything of it was read.
pub open spec fn params_of(s: Seq<char>) -> Seq<(Seq<char>, Seq<char>)> {
    let st = scan(s);
    if st.key.len() > 0 || st.value.len() > 0 {
        commit(st)
    } else {
        st.pairs
    }
}

/// The characters of each key and value.
pub open spec fn pairs_view(ps: Seq<(String, String)>) -> Seq<(Seq<char>, Seq<char>)> {
    ps.map_values(|p: (String, String)| (p.0@, p.1@))
}

/// The value of the first pair whose key equals `key` up to ASCII case.
pub open spec fn lookup(ps: Seq<(Seq<char>, Seq<char>)>, key: Seq<char>) -> Option<Seq<char>>
    decreases ps.len(),
{
    if ps.len() == 0 {
        None
    } else if eq_ascii_ci(ps[0].0, key) {
        Some(ps[0].1)
    } else {
        lookup(ps.drop_first(), key)
    }
}

/// The state after scanning `t`, starting from `st`.
pub open spec fn scan_from(st: Scan, t: Seq<char>) -> Scan
    decreases t.len(),
{
    if t.len() == 0 {
        st
    } else {
        scan_step(scan_from(st, t.drop_last()), t.last())
    }
}

proof fn lemma_scan_concat(st: Scan, a: Seq<char>, b: Seq<char>)
    ensures
        scan_from(st, a + b) == scan_from(scan_from(st, a), b),
    decreases b.len(),
{
    if b.len() == 0 {
        assert(a + b =~= a);
    } else {
        assert((a + b).drop_last() =~= a + b.drop_last());
        assert((a + b).last() == b.last());
        lemma_scan_concat(st, a, b.drop_last());
    }
}

proof fn lemma_scan_is_scan_from(s: Seq<char>)
    ensures
        scan(s) == scan_from(scan_start(), s),
    decreases s.len(),
{
    if s.len() > 0 {
        lemma_scan_is_scan_from(s.drop_last());
    }
}

proof fn lemma_scan_one(st: Scan, c: char)
    ensures
        scan_from(st, seq![c]) == scan_step(st, c),
{
    assert(seq![c].drop_last() =~= Seq::<char>::empty());
    assert(seq![c].last() == c);
    assert(scan_from(st, seq![c].drop_last()) == st);
}

/// A key without `=` that starts with a non-space is read whole.
proof fn lemma_scan_key(k: Seq<char>)
    requires
        k.len() > 0,
        !is_ws(k[0]),
        forall|i: int| 0 <= i < k.len() ==> k[i] != '=',
    ensures
        scan_from(scan_start(), k) == (Scan { pairs: Seq::empty(), key: k, value: Seq::empty(), mode: ScanMode::ReadingKey }),
    decreases k.len(),
{
    let p = k.drop_last();
    let c = k.last();
    assert(c == k[k.len() - 1]);
    assert(c != '=');
    if p.len() > 0 {
        assert(p[0] == k[0]);
        assert forall|i: int| 0 <= i < p.len() implies p[i] != '=' by {
            assert(p[i] == k[i]);
        }
        lemma_scan_key(p);
    } else {
        assert(p =~= Seq::<char>::empty());
        assert(scan_from(scan_start(), p) == scan_start());
        assert(c == k[0]);
    }
    assert(scan_from(scan_start(), k) == scan_step(scan_from(scan_start(), p), c));
    assert(p.push(c) =~= k);
}

/// Inside quotes, characters other than `"` only extend the value.
proof fn lemma_scan_quoted(st: Scan, t: Seq<char>)
    requires
        st.mode == ScanMode::ReadingValueQuoted,
        forall|i: int| 0 <= i < t.len() ==> t[i] != '"',
    ensures
        scan_from(st, t) == (Scan { pairs: st.pairs, key: st.key, value: st.value + t, mode: st.mode }),
    decreases t.len(),
{
    if t.len() == 0 {
        assert(st.value + t =~= st.value);
    } else {
        lemma_scan_quoted(st, t.drop_last());
        assert((st.value + t.drop_last()).push(t.last()) =~= st.value + t);
    }
}

proof fn lemma_trim_fixed(s: Seq<char>)
    requires
        s.len() > 0,
        !is_ws(s[0]),
        !is_ws(s.last()),
    ensures
        trim(s) == s,
{
    assert(trim_start(s) == s);
    assert(trim_end(s) == s);
}

/// A value in double quotes is read as one value, quotes included, however
/// many commas stand between them.
pub proof fn lemma_quoted_value(key: Seq<char>, inner: Seq<char>)
    requires
        key.len() > 0,
        !is_ws(key[0]),
        !is_ws(key.last()),
        forall|i: int| 0 <= i < key.len() ==> key[i] != '=',
        forall|i: int| 0 <= i < inner.len() ==> inner[i] != '"',
    ensures
        params_of(key + seq!['='] + (seq!['"'] + inner + seq!['"'])) == seq![(key, seq!['"'] + inner + seq!['"'])],
{
    let v = seq!['"'] + inner + seq!['"'];
    let s = key + seq!['='] + v;
    let st0 = scan_start();
    lemma_scan_is_scan_from(s);
    lemma_scan_key(key);
    let stk = scan_from(st0, key);
    lemma_scan_concat(st0, key, seq!['=']);
    lemma_scan_one(stk, '=');
    let st1 = scan_from(st0, key + seq!['=']);
    assert(st1 == (Scan { pairs: Seq::empty(), key: key, value: Seq::empty(), mode: ScanMode::ReadingValue }));
    lemma_scan_concat(st0, key + seq!['='], v);
    assert(v =~= (seq!['"'] + inner) + seq!['"']);
    lemma_scan_concat(st1, seq!['"'] + inner, seq!['"']);
    lemma_scan_concat(st1, seq!['"'], inner);
    lemma_scan_one(st1, '"');
    let st2 = scan_from(st1, seq!['"']);
    assert(st2 == (Scan { pairs: Seq::empty(), key: key, value: Seq::<char>::empty().push('"'), mode: ScanMode::ReadingValueQuoted }));
    assert(Seq::<char>::empty().push('"') =~= seq!['"']);
    lemma_scan_quoted(st2, inner);
    let st3 = scan_from(st1, seq!['"'] + inner);
    assert(st3.value == seq!['"'] + inner);
    assert(st3.mode == ScanMode::ReadingValueQuoted);
    lemma_scan_one(st3, '"');
    let st4 = scan_from(st3, seq!['"']);
    assert((seq!['"'] + inner).push('"') =~= v);
    assert(st4 == (Scan { pairs: Seq::empty(), key: key, value: v, mode: ScanMode::ReadingValue }));
    assert(scan(s) == st4);
    lemma_trim_fixed(key);
    assert(v[0] == '"');
    assert(v.last() == '"');
    lemma_trim_fixed(v);
    assert(params_of(s) =~= seq![(key, v)]);
}

fn commit_pair(pairs: &mut Vec<(String, String)>, key: &Vec<char>, value: &Vec<char>)
    ensures
        pairs_view(final(pairs)@) == pairs_view(old(pairs)@).push((trim(key@), trim(value@))),
{
    let (ka, kb) = trim_bounds(key, 0, key.len());
    let (va, vb) = trim_bounds(value, 0, value.len());
    assert(key@.subrange(0, key@.len() as int) =~= key@);
    assert(value@.subrange(0, value@.len() as int) =~= value@);
    let k = string_of(key, ka, kb);
    let v = string_of(value, va, vb);
    pairs.push((k, v));
    assert(pairs_view(pairs@) =~= pairs_view(old(pairs)@).push((trim(key@), trim(value@))));
}

/// Splits a parameter body into its `(key, value)` pairs, in order.
pub fn parse_params(body: &Vec<char>) -> (r: Vec<(String, String)>)
    ensures
        pairs_view(r@) == params_of(body@),
{
    let mut pairs: Vec<(String, String)> = Vec::new();
    let mut key: Vec<char> = Vec::new();
    let mut value: Vec<char> = Vec::new();
    let mut mode = ScanMode::ReadingKey;
    let n = body.len();
    let mut i: usize = 0;
    assert(pairs_view(pairs@) =~= Seq::<(Seq<char>, Seq<char>)>::empty());
    assert(key@ =~= Seq::<char>::empty());
    assert(value@ =~= Seq::<char>::empty());
    while i < n
        invariant
            n == body@.len(),
            i <= n,
            scan(body@.subrange(0, i as int)) == (Scan { pairs: pairs_view(pairs@), key: key@, value: value@, mode }),
        decreases n - i,
    {
        let c = body[i];
        let ghost pre = body@.subrange(0, i as int);
        assert(body@.subrange(0, i + 1).drop_last() =~= pre);
        assert(body@.subrange(0, i + 1).last() == c);
        match mode {
            ScanMode::ReadingKey => {
                if c == '=' {
                    mode = ScanMode::ReadingValue;
                } else if !is_whitespace(c) || key.len() > 0 {
                    key.push(c);
                }
            },
            ScanMode::ReadingValue => {
                if c == '"' {
                    value.push(c);
                    mode = ScanMode::ReadingValueQuoted;
                } else if c == ',' {
                    commit_pair(&mut pairs, &key, &value);
                    key = Vec::new();
                    value = Vec::new();
                    mode = ScanMode::ReadingKey;
                    assert(key@ =~= Seq::<char>::empty());
                    assert(value@ =~= Seq::<char>::empty());
                } else {
                    value.push(c);
                }
            },
            ScanMode::ReadingValueQuoted => {
                if c == '"' {
                    mode = ScanMode::ReadingValue;
                }
                value.push(c);
            },
        }
        i = i + 1;
    }
    assert(body@.subrange(0, n as int) =~= body@);
    if key.len() > 0 || value.len() > 0 {
        commit_pair(&mut pairs, &key, &value);
    }
    pairs
}

/// The value of the first pair whose key is `key`, up to ASCII case.
pub fn get_param<'a>(params: &'a Vec<(String, String)>, key: &str) -> (r: Option<&'a str>)
    ensures
        r matches Some(v) ==> lookup(pairs_view(params@), key@) == Some(v@),
        r is None ==> lookup(pairs_view(params@), key@) is None,
{
    let n = params.len();
    let mut i: usize = 0;
    assert(pairs_view(params@).subrange(0, n as int) =~= pairs_view(params@));
    while i < n
        invariant
            n == params@.len(),
            i <= n,
            lookup(pairs_view(params@), key@) == lookup(pairs_view(params@).subrange(i as int, n as int), key@),
        decreases n - i,
    {
        let ghost rest = pairs_view(params@).subrange(i as int, n as int);
        assert(rest.drop_first() =~= pairs_view(params@).subrange(i + 1, n as int));
        assert(rest[0] == (params@[i as int].0@, params@[i as int].1@));
        if eq_ignore_ascii_case(params[i].0.as_str(), key) {
            return Some(params[i].1.as_str());
        }
        i = i + 1;
    }
    None
}

} // verus!
