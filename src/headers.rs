use vstd::prelude::*;

verus! {

/// The longest header name that the transport accepts.
pub const MAX_HEADER_NAME_LEN: usize = 65535;

/// A byte allowed in a header name: an RFC 7230 `tchar`.
pub open spec fn is_token_char(c: char) -> bool {
    ('a' <= c && c <= 'z') || ('A' <= c && c <= 'Z') || ('0' <= c && c <= '9') || c == '!'
        || c == '#' || c == '$' || c == '%' || c == '&' || c == '\'' || c == '*' || c == '+'
        || c == '-' || c == '.' || c == '^' || c == '_' || c == '`' || c == '|' || c == '~'
}

pub open spec fn valid_header_name(k: Seq<char>) -> bool {
    &&& 0 < k.len() <= MAX_HEADER_NAME_LEN
    &&& forall|i: int| 0 <= i < k.len() ==> is_token_char(#[trigger] k[i])
}

pub open spec fn lower_char(c: char) -> char {
    if 'A' <= c && c <= 'Z' {
        ((c as u32) + 32) as char
    } else {
        c
    }
}

/// The canonical (lower-case) form of a header name.
pub open spec fn lower_name(k: Seq<char>) -> Seq<char> {
    Seq::new(k.len(), |i: int| lower_char(k[i]))
}

/// A character that may appear in a header value on the wire: visible ASCII,
/// space, tab, or any non-ASCII character (whose UTF-8 bytes are all >= 0x80).
pub open spec fn is_value_char(c: char) -> bool {
    ((c as u32) >= 32 && (c as u32) != 127) || c == '\t'
}

pub open spec fn valid_header_value(v: Seq<char>) -> bool {
    forall|i: int| 0 <= i < v.len() ==> is_value_char(#[trigger] v[i])
}

/// Relies on `http::HeaderName::from_bytes` (re-exported by reqwest): it accepts
/// a non-empty name of at most 65535 token characters and lower-cases it.
#[verifier::external_body]
fn canonical_header_name(k: &str) -> (r: Option<String>)
    ensures
        r is Some <==> valid_header_name(k@),
        r matches Some(n) ==> n@ == lower_name(k@),
{
    match reqwest::header::HeaderName::from_bytes(k.as_bytes()) {
        Ok(n) => Some(n.as_str().to_string()),
        Err(_) => None,
    }
}

/// Relies on `http::HeaderValue::from_str` (re-exported by reqwest): it accepts
/// exactly the strings whose bytes are all `>= 32` and not `127`, or a tab.
#[verifier::external_body]
pub(crate) fn header_value_is_valid(v: &str) -> (r: bool)
    ensures
        r == valid_header_value(v@),
{
    reqwest::header::HeaderValue::from_str(v).is_ok()
}

/// The key/value view of a list of header entries; a later entry overrides an
/// earlier one with the same name.
pub open spec fn entries_map(s: Seq<(String, String)>) -> Map<Seq<char>, Seq<char>>
    decreases s.len(),
{
    if s.len() == 0 {
        Map::empty()
    } else {
        entries_map(s.drop_last()).insert(s.last().0@, s.last().1@)
    }
}

/// The names and values of a list of string pairs, as character sequences.
pub open spec fn pairs_view(s: Seq<(String, String)>) -> Seq<(Seq<char>, Seq<char>)> {
    s.map_values(|p: (String, String)| (p.0@, p.1@))
}

/// Adds caller-supplied headers to `base` in order: each name is put in its
/// canonical form, and a later header replaces an earlier one of the same name.
pub open spec fn merged(base: Map<Seq<char>, Seq<char>>, extra: Seq<(Seq<char>, Seq<char>)>) -> Map<
    Seq<char>,
    Seq<char>,
>
    decreases extra.len(),
{
    if extra.len() == 0 {
        base
    } else {
        merged(base, extra.drop_last()).insert(lower_name(extra.last().0), extra.last().1)
    }
}

/// A header with a valid name and a valid value.
pub open spec fn header_ok(h: (Seq<char>, Seq<char>)) -> bool {
    valid_header_name(h.0) && valid_header_value(h.1)
}

/// Every caller-supplied header has a valid name and a valid value.
pub open spec fn all_valid(extra: Seq<(Seq<char>, Seq<char>)>) -> bool {
    forall|i: int| 0 <= i < extra.len() ==> #[trigger] header_ok(extra[i])
}

/// A set of request headers with unique names.
#[derive(Debug, Clone)]
pub struct HeaderList {
    pub entries: Vec<(String, String)>,
}

impl View for HeaderList {
    type V = Map<Seq<char>, Seq<char>>;

    open spec fn view(&self) -> Map<Seq<char>, Seq<char>> {
        entries_map(self.entries@)
    }
}

proof fn lemma_entries_map_dom(s: Seq<(String, String)>, k: Seq<char>)
    ensures
        entries_map(s).contains_key(k) <==> exists|i: int| 0 <= i < s.len() && #[trigger] s[i].0@ == k,
    decreases s.len(),
{
    if s.len() > 0 {
        lemma_entries_map_dom(s.drop_last(), k);
        if entries_map(s.drop_last()).contains_key(k) {
            let i = choose|i: int| 0 <= i < s.drop_last().len() && #[trigger] s.drop_last()[i].0@ == k;
            assert(s[i].0@ == k);
        }
        if exists|i: int| 0 <= i < s.len() && #[trigger] s[i].0@ == k {
            let i = choose|i: int| 0 <= i < s.len() && #[trigger] s[i].0@ == k;
            if i < s.len() - 1 {
                assert(s.drop_last()[i].0@ == k);
            }
        }
    }
}

proof fn lemma_entries_map_value(s: Seq<(String, String)>, i: int)
    requires
        0 <= i < s.len(),
        forall|a: int, b: int| 0 <= a < b < s.len() ==> s[a].0@ != s[b].0@,
    ensures
        entries_map(s).contains_key(s[i].0@),
        entries_map(s)[s[i].0@] == s[i].1@,
    decreases s.len(),
{
    if i < s.len() - 1 {
        lemma_entries_map_value(s.drop_last(), i);
        assert(s.drop_last()[i] == s[i]);
    }
}

impl HeaderList {
    /// Names are unique.
    pub open spec fn wf(&self) -> bool {
        forall|a: int, b: int|
            0 <= a < b < self.entries@.len() ==> self.entries@[a].0@ != self.entries@[b].0@
    }

    pub fn new() -> (r: HeaderList)
        ensures
            r.wf(),
            r@ == Map::<Seq<char>, Seq<char>>::empty(),
    {
        HeaderList { entries: Vec::new() }
    }

    pub fn len(&self) -> (r: usize)
        requires
            self.wf(),
        ensures
            r == self@.len(),
    {
        proof {
            lemma_entries_map_len(self.entries@);
        }
        self.entries.len()
    }

    /// Looks a header up by its canonical name.
    pub fn get(&self, name: &str) -> (r: Option<&String>)
        requires
            self.wf(),
        ensures
            r is Some <==> self@.contains_key(name@),
            r matches Some(v) ==> self@[name@] == v@,
    {
        let key = String::from_str(name);
        let mut i: usize = 0;
        while i < self.entries.len()
            invariant
                i <= self.entries@.len(),
                self.wf(),
                key@ == name@,
                forall|j: int| 0 <= j < i ==> self.entries@[j].0@ != name@,
            decreases self.entries@.len() - i,
        {
            if self.entries[i].0 == key {
                proof {
                    lemma_entries_map_value(self.entries@, i as int);
                }
                return Some(&self.entries[i].1);
            }
            i = i + 1;
        }
        proof {
            lemma_entries_map_dom(self.entries@, name@);
        }
        None
    }

    /// Sets `name` to `value`, replacing any earlier value of that name.
    pub fn insert(&mut self, name: String, value: String)
        requires
            old(self).wf(),
        ensures
            final(self).wf(),
            final(self)@ == old(self)@.insert(name@, value@),
    {
        let ghost k = name@;
        let ghost v = value@;
        let mut i: usize = 0;
        while i < self.entries.len()
            invariant
                i <= self.entries@.len(),
                self.entries@ == old(self).entries@,
                old(self).wf(),
                k == name@,
                v == value@,
                forall|j: int| 0 <= j < i ==> self.entries@[j].0@ != k,
            decreases self.entries@.len() - i,
        {
            if self.entries[i].0 == name {
                let ghost before = self.entries@;
                let entry = (name, value);
                let ghost set_entry = entry;
                self.entries.set(i, entry);
                proof {
                    let after = self.entries@;
                    assert(after == before.update(i as int, set_entry));
                    assert(set_entry.0@ == k && set_entry.1@ == v);
                    assert(self.wf()) by {
                        assert(forall|j: int| 0 <= j < after.len() && j != i ==> after[j] == before[j]);
                    }
                    assert forall|key: Seq<char>| #[trigger]
                        entries_map(after).contains_key(key) == entries_map(before).insert(k, v).contains_key(key)
                    by {
                        lemma_entries_map_dom(after, key);
                        lemma_entries_map_dom(before, key);
                        if exists|j: int| 0 <= j < before.len() && #[trigger] before[j].0@ == key {
                            let j = choose|j: int| 0 <= j < before.len() && #[trigger] before[j].0@ == key;
                            if j == i {
                                assert(after[j].0@ == key);
                            } else {
                                assert(after[j] == before[j]);
                            }
                        }
                        if exists|j: int| 0 <= j < after.len() && #[trigger] after[j].0@ == key {
                            let j = choose|j: int| 0 <= j < after.len() && #[trigger] after[j].0@ == key;
                            if j != i {
                                assert(after[j] == before[j]);
                            }
                        }
                    }
                    assert forall|key: Seq<char>| #[trigger] entries_map(after).contains_key(key)
                        implies entries_map(after)[key] == entries_map(before).insert(k, v)[key]
                    by {
                        lemma_entries_map_dom(after, key);
                        let j = choose|j: int| 0 <= j < after.len() && #[trigger] after[j].0@ == key;
                        lemma_entries_map_value(after, j);
                        if j != i {
                            assert(after[j] == before[j]);
                            assert(before[j].0@ != k);
                            lemma_entries_map_value(before, j);
                        } else {
                            assert(after[j].0@ == k && after[j].1@ == v);
                        }
                    }
                    assert(entries_map(after) =~= entries_map(before).insert(k, v));
                }
                return;
            }
            i = i + 1;
        }
        self.entries.push((name, value));
        proof {
            let after = self.entries@;
            assert(after.drop_last() =~= old(self).entries@);
        }
    }
}

proof fn lemma_entries_map_len(s: Seq<(String, String)>)
    requires
        forall|a: int, b: int| 0 <= a < b < s.len() ==> s[a].0@ != s[b].0@,
    ensures
        entries_map(s).dom().finite(),
        entries_map(s).len() == s.len(),
    decreases s.len(),
{
    if s.len() > 0 {
        assert(forall|a: int, b: int|
            0 <= a < b < s.drop_last().len() ==> s.drop_last()[a].0@ != s.drop_last()[b].0@);
        lemma_entries_map_len(s.drop_last());
        lemma_entries_map_dom(s.drop_last(), s.last().0@);
        if entries_map(s.drop_last()).contains_key(s.last().0@) {
            let i = choose|i: int|
                0 <= i < s.drop_last().len() && #[trigger] s.drop_last()[i].0@ == s.last().0@;
            assert(s[i].0@ == s[s.len() - 1].0@);
        }
    }
}

/// Adds the caller-supplied headers `extra` to `headers` in order, each name in
/// its canonical form, a later one replacing an earlier one of the same name.
/// Returns false, and leaves `headers` as it was, when a name or a value in
/// `extra` cannot be sent.
pub fn merge_headers(headers: &mut HeaderList, extra: &Vec<(String, String)>) -> (ok: bool)
    requires
        old(headers).wf(),
    ensures
        final(headers).wf(),
        ok == all_valid(pairs_view(extra@)),
        ok ==> final(headers)@ == merged(old(headers)@, pairs_view(extra@)),
        !ok ==> *final(headers) == *old(headers),
{
    let ghost ex = pairs_view(extra@);
    let mut names: Vec<String> = Vec::new();
    let mut i: usize = 0;
    while i < extra.len()
        invariant
            i <= extra@.len(),
            ex == pairs_view(extra@),
            *headers == *old(headers),
            old(headers).wf(),
            names@.len() == i,
            forall|j: int| 0 <= j < i ==> #[trigger] header_ok(ex[j]),
            forall|j: int| 0 <= j < i ==> #[trigger] names@[j]@ == lower_name(ex[j].0),
        decreases extra@.len() - i,
    {
        assert(ex[i as int] == (extra@[i as int].0@, extra@[i as int].1@));
        match canonical_header_name(extra[i].0.as_str()) {
            Some(n) => {
                if !header_value_is_valid(extra[i].1.as_str()) {
                    assert(!header_ok(ex[i as int]));
                    return false;
                }
                names.push(n);
            },
            None => {
                assert(!header_ok(ex[i as int]));
                return false;
            },
        }
        i = i + 1;
    }
    let mut i: usize = 0;
    while i < extra.len()
        invariant
            i <= extra@.len(),
            ex == pairs_view(extra@),
            names@.len() == extra@.len(),
            forall|j: int| 0 <= j < extra@.len() ==> #[trigger] names@[j]@ == lower_name(ex[j].0),
            headers.wf(),
            headers@ == merged(old(headers)@, ex.subrange(0, i as int)),
        decreases extra@.len() - i,
    {
        headers.insert(names[i].clone(), extra[i].1.clone());
        proof {
            let pre = ex.subrange(0, i as int + 1);
            assert(pre.drop_last() =~= ex.subrange(0, i as int));
        }
        i = i + 1;
    }
    proof {
        assert(ex.subrange(0, ex.len() as int) =~= ex);
    }
    true
}

} // verus!
