//! Option strings such as `--memory=512m -d --name job`: splitting them into
//! words, reading `key=value` pairs and flags, and writing them back.

use crate::domain::error::{ContainerOptionsError, ValidationError};
use crate::text::{chars_of, push_char, str_eq, string_of};
use vstd::prelude::*;

verus! {

/// One option: its key and its value.
pub type Entry = (Seq<char>, Seq<char>);

/// The fault that ends a parse: a missing value after `=`.
pub open spec fn fault_missing_value() -> int {
    1
}

/// The fault that ends a parse: a word that is not an option.
pub open spec fn fault_positional() -> int {
    2
}

/// The words of `s` between single spaces, empty words included, as
/// `str::split(" ")` yields them.
pub open spec fn split_spaces(s: Seq<char>) -> Seq<Seq<char>>
    decreases s.len(),
{
    if s.len() == 0 {
        seq![Seq::<char>::empty()]
    } else {
        let prev = split_spaces(s.drop_last());
        if s.last() == ' ' {
            prev.push(Seq::<char>::empty())
        } else {
            prev.update(prev.len() - 1, prev.last().push(s.last()))
        }
    }
}

/// Whether a word starts with `-`.
pub open spec fn is_flag(t: Seq<char>) -> bool {
    t.len() > 0 && t[0] == '-'
}

/// The position of the first `=` of a word that holds one.
pub open spec fn first_eq(t: Seq<char>) -> int {
    choose|p: int| 0 <= p < t.len() && t[p] == '=' && forall|j: int| 0 <= j < p ==> t[j] != '='
}

/// Whether some entry has key `k`.
pub open spec fn has_key(e: Seq<Entry>, k: Seq<char>) -> bool {
    exists|j: int| 0 <= j < e.len() && (#[trigger] e[j]).0 == k
}

/// The entries after setting key `k` to `v`: the value of an existing key
/// is replaced in place, a new key goes at the end.
pub open spec fn assoc_insert(e: Seq<Entry>, k: Seq<char>, v: Seq<char>) -> Seq<Entry> {
    if has_key(e, k) {
        e.update(choose|j: int| 0 <= j < e.len() && (#[trigger] e[j]).0 == k, (k, v))
    } else {
        e.push((k, v))
    }
}

/// No two entries share a key.
pub open spec fn keys_distinct(e: Seq<Entry>) -> bool {
    forall|i: int, j: int| 0 <= i < e.len() && 0 <= j < e.len() && i != j ==> (#[trigger] e[i]).0 != (#[trigger] e[j]).0
}

/// Whether `a` and `b` hold the same options, whatever their order: as many
/// of them, and every option of `a` also in `b`.
pub open spec fn same_options(a: Seq<Entry>, b: Seq<Entry>) -> bool {
    &&& a.len() == b.len()
    &&& forall|i: int| 0 <= i < a.len() ==> b.contains(#[trigger] a[i])
}

/// The text `true`, the value given to a flag that has none.
pub open spec fn true_text() -> Seq<char> {
    seq!['t', 'r', 'u', 'e']
}

/// Reads the words `t[i..]` into the entries `acc`. A word `-k=v` sets `k`
/// to `v` (an empty `v` is a fault); a word `-k` takes the next word as its
/// value when that word does not start with `-`, and `true` otherwise; any
/// other word is a fault.
pub open spec fn parse_tokens(t: Seq<Seq<char>>, i: int, acc: Seq<Entry>) -> Result<Seq<Entry>, (int, Seq<char>)>
    decreases t.len() - i,
{
    if i < 0 || i >= t.len() {
        Ok(acc)
    } else {
        let arg = t[i];
        if is_flag(arg) {
            if arg.contains('=') {
                let p = first_eq(arg);
                let key = arg.subrange(0, p);
                let val = arg.subrange(p + 1, arg.len() as int);
                if val.len() == 0 {
                    Err((fault_missing_value(), key))
                } else {
                    parse_tokens(t, i + 1, assoc_insert(acc, key, val))
                }
            } else if i + 1 < t.len() && !is_flag(t[i + 1]) {
                parse_tokens(t, i + 2, assoc_insert(acc, arg, t[i + 1]))
            } else {
                parse_tokens(t, i + 1, assoc_insert(acc, arg, true_text()))
            }
        } else {
            Err((fault_positional(), arg))
        }
    }
}

/// The options that the string `s` describes, or the fault that refuses it.
pub open spec fn parse_options(s: Seq<char>) -> Result<Seq<Entry>, (int, Seq<char>)> {
    parse_tokens(split_spaces(s), 0, Seq::empty())
}

/// The text `key=value` of one entry.
pub open spec fn entry_text(p: Entry) -> Seq<char> {
    p.0 + seq!['='] + p.1
}

/// The entries written as `key=value` words joined by single spaces.
pub open spec fn render_options(e: Seq<Entry>) -> Seq<char>
    decreases e.len(),
{
    if e.len() == 0 {
        Seq::empty()
    } else if e.len() == 1 {
        entry_text(e[0])
    } else {
        render_options(e.drop_last()) + seq![' '] + entry_text(e.last())
    }
}

/// Whether a parse fault is the error that the parser reports for it.
pub open spec fn fault_reported(ce: ContainerOptionsError, f: (int, Seq<char>)) -> bool {
    match ce {
        ContainerOptionsError::MissingValue(k) => f.0 == fault_missing_value() && k@ == f.1,
        ContainerOptionsError::UnexpectedPositional(w) => f.0 == fault_positional() && w@ == f.1,
        ContainerOptionsError::MalformedArgument(_) => false,
    }
}

/// Whether `r` is what the option parser returns for the text `s`, the
/// options taken as entries.
pub open spec fn options_outcome(s: Seq<char>, r: Result<Seq<Entry>, ValidationError>) -> bool {
    match parse_options(s) {
        Ok(e) => r == Ok::<Seq<Entry>, ValidationError>(e),
        Err(f) => r matches Err(ValidationError::InvalidContainerOption(ce)) && fault_reported(ce, f),
    }
}

/// Whether `r` is what the option parser returns for the text `s`.
pub open spec fn options_result(s: Seq<char>, r: Result<OptionMap, ValidationError>) -> bool {
    options_outcome(
        s,
        match r {
            Ok(m) => Ok(m@),
            Err(e) => Err(e),
        },
    )
}

/// A set of options: keys with their values, in the order in which the keys
/// were first given, no key twice.
#[derive(Debug)]
pub struct OptionMap {
    entries: Vec<(String, String)>,
}

impl View for OptionMap {
    type V = Seq<Entry>;

    closed spec fn view(&self) -> Seq<Entry> {
        self.entries@.map_values(|p: (String, String)| (p.0@, p.1@))
    }
}

impl OptionMap {
    #[verifier::type_invariant]
    closed spec fn inv(self) -> bool {
        keys_distinct(self@)
    }

    /// An empty set of options.
    pub fn new() -> (m: Self)
        ensures
            m@ == Seq::<Entry>::empty(),
    {
        let m = OptionMap { entries: Vec::new() };
        assert(m@ =~= Seq::<Entry>::empty());
        m
    }

    /// Sets `key` to `value`, replacing the value of a key already present.
    pub fn insert(&mut self, key: String, value: String)
        ensures
            final(self)@ == assoc_insert(old(self)@, key@, value@),
    {
        proof {
            use_type_invariant(&*self);
        }
        let ghost old_view = self@;
        let mut entries: Vec<(String, String)> = Vec::new();
        std::mem::swap(&mut entries, &mut self.entries);
        assert(entries@.map_values(|p: (String, String)| (p.0@, p.1@)) == old_view);
        let n = entries.len();
        let mut j: usize = 0;
        let mut found = false;
        while j < n && !found
            invariant
                n == entries@.len(),
                j <= n,
                keys_distinct(old_view),
                !found ==> entries@.map_values(|p: (String, String)| (p.0@, p.1@)) == old_view,
                !found ==> forall|i: int| 0 <= i < j ==> (#[trigger] old_view[i]).0 != key@,
                found ==> entries@.map_values(|p: (String, String)| (p.0@, p.1@)) == assoc_insert(old_view, key@, value@),
                found ==> keys_distinct(assoc_insert(old_view, key@, value@)),
            decreases n - j + (if found { 0int } else { 1int }),
        {
            assert(old_view[j as int].0 == entries@[j as int].0@);
            if entries[j].0 == key {
                proof {
                    assert(old_view[j as int].0 == key@);
                    assert(has_key(old_view, key@));
                    let c = choose|i: int| 0 <= i < old_view.len() && (#[trigger] old_view[i]).0 == key@;
                    assert(c == j);
                }
                entries[j] = (key.clone(), value.clone());
                proof {
                    let updated = entries@.map_values(|p: (String, String)| (p.0@, p.1@));
                    assert(updated =~= old_view.update(j as int, (key@, value@)));
                    assert forall|a: int, b: int| 0 <= a < updated.len() && 0 <= b < updated.len() && a != b
                        implies (#[trigger] updated[a]).0 != (#[trigger] updated[b]).0 by {
                        assert(old_view[a].0 == updated[a].0);
                        assert(old_view[b].0 == updated[b].0);
                    }
                }
                found = true;
            } else {
                j = j + 1;
            }
        }
        if !found {
            proof {
                assert(!has_key(old_view, key@));
            }
            entries.push((key, value));
            proof {
                let pushed = entries@.map_values(|p: (String, String)| (p.0@, p.1@));
                assert(pushed =~= old_view.push((key@, value@)));
                assert forall|a: int, b: int| 0 <= a < pushed.len() && 0 <= b < pushed.len() && a != b
                    implies (#[trigger] pushed[a]).0 != (#[trigger] pushed[b]).0 by {
                    if a < old_view.len() {
                        assert(pushed[a] == old_view[a]);
                    }
                    if b < old_view.len() {
                        assert(pushed[b] == old_view[b]);
                    }
                }
            }
        }
        self.entries = entries;
    }

    /// A copy of these options.
    pub fn duplicate(&self) -> (m: Self)
        ensures
            m@ == self@,
    {
        proof {
            use_type_invariant(self);
        }
        let n = self.entries.len();
        let mut entries: Vec<(String, String)> = Vec::new();
        let mut i: usize = 0;
        while i < n
            invariant
                n == self@.len(),
                i <= n,
                entries@.map_values(|p: (String, String)| (p.0@, p.1@)) == self@.subrange(0, i as int),
            decreases n - i,
        {
            let ghost before = entries@.map_values(|p: (String, String)| (p.0@, p.1@));
            let p = &self.entries[i];
            entries.push((p.0.clone(), p.1.clone()));
            assert(entries@.map_values(|p: (String, String)| (p.0@, p.1@)) =~= before.push(self@[i as int]));
            assert(self@.subrange(0, i + 1) =~= self@.subrange(0, i as int).push(self@[i as int]));
            i = i + 1;
        }
        assert(self@.subrange(0, n as int) =~= self@);
        OptionMap { entries }
    }

    /// The number of options.
    pub fn len(&self) -> (n: usize)
        ensures
            n == self@.len(),
    {
        self.entries.len()
    }

    /// The key and value of the option at position `i`.
    pub fn get(&self, i: usize) -> (r: (&String, &String))
        requires
            i < self@.len(),
        ensures
            r.0@ == self@[i as int].0,
            r.1@ == self@[i as int].1,
    {
        let p = &self.entries[i];
        (&p.0, &p.1)
    }

    /// The value of `key`, if it is present.
    pub fn value_of(&self, key: &str) -> (r: Option<&String>)
        ensures
            r is Some <==> has_key(self@, key@),
            r matches Some(v) ==> exists|i: int| 0 <= i < self@.len() && (#[trigger] self@[i]).0 == key@ && self@[i].1 == v@,
    {
        let k = key.to_owned();
        let n = self.entries.len();
        let mut j: usize = 0;
        while j < n
            invariant
                n == self@.len(),
                j <= n,
                k@ == key@,
                forall|i: int| 0 <= i < j ==> (#[trigger] self@[i]).0 != k@,
            decreases n - j,
        {
            assert(self@[j as int].0 == self.entries@[j as int].0@);
            if self.entries[j].0 == k {
                assert(self@[j as int].0 == key@);
                assert(self@[j as int].1 == self.entries@[j as int].1@);
                assert(has_key(self@, key@));
                return Some(&self.entries[j].1);
            }
            j = j + 1;
        }
        None
    }

    /// The options written as `key=value` words joined by single spaces.
    pub fn render(&self) -> (s: String)
        ensures
            s@ == render_options(self@),
    {
        let mut buf = String::new();
        let mut first = true;
        let n = self.entries.len();
        let mut i: usize = 0;
        while i < n
            invariant
                n == self@.len(),
                i <= n,
                first == (i == 0),
                buf@ == render_options(self@.subrange(0, i as int)),
            decreases n - i,
        {
            let ghost before = buf@;
            if !first {
                push_char(&mut buf, ' ');
            }
            first = false;
            let p = &self.entries[i];
            buf.append(p.0.as_str());
            push_char(&mut buf, '=');
            buf.append(p.1.as_str());
            proof {
                let e = self@.subrange(0, i + 1);
                assert(e.drop_last() =~= self@.subrange(0, i as int));
                assert(e.last() == self@[i as int]);
                assert(self@[i as int] == (self.entries@[i as int].0@, self.entries@[i as int].1@));
                if i == 0 {
                    assert(buf@ =~= entry_text(e.last()));
                } else {
                    assert(buf@ =~= before + seq![' '] + entry_text(e.last()));
                }
            }
            i = i + 1;
        }
        assert(self@.subrange(0, n as int) =~= self@);
        buf
    }
}

impl Default for OptionMap {
    /// No options.
    fn default() -> (m: Self)
        ensures
            m@ == Seq::<Entry>::empty(),
    {
        OptionMap::new()
    }
}

impl Clone for OptionMap {
    /// A copy of these options.
    fn clone(&self) -> (m: Self)
        ensures
            m@ == self@,
    {
        self.duplicate()
    }
}

impl PartialEq for OptionMap {
    /// Whether both hold the same options, whatever their order.
    fn eq(&self, other: &Self) -> (r: bool) {
        proof {
            use_type_invariant(self);
            use_type_invariant(other);
        }
        let n = self.len();
        if n != other.len() {
            return false;
        }
        let mut i: usize = 0;
        while i < n
            invariant
                n == self@.len(),
                n == other@.len(),
                i <= n,
                keys_distinct(other@),
                forall|j: int| 0 <= j < i ==> other@.contains(#[trigger] self@[j]),
            decreases n - i,
        {
            let (k, v) = self.get(i);
            match other.value_of(k.as_str()) {
                Some(w) => {
                    let ghost j = choose|j: int| 0 <= j < other@.len() && (#[trigger] other@[j]).0 == k@ && other@[j].1 == w@;
                    if !str_eq(w.as_str(), v.as_str()) {
                        proof {
                            if other@.contains(self@[i as int]) {
                                let j2 = choose|j2: int| 0 <= j2 < other@.len() && other@[j2] == self@[i as int];
                                assert(other@[j2].0 == other@[j].0);
                            }
                        }
                        return false;
                    }
                    assert(other@[j] == self@[i as int]);
                },
                None => {
                    proof {
                        if other@.contains(self@[i as int]) {
                            let j2 = choose|j2: int| 0 <= j2 < other@.len() && other@[j2] == self@[i as int];
                            assert(other@[j2].0 == k@);
                        }
                    }
                    return false;
                },
            }
            i = i + 1;
        }
        true
    }
}

impl vstd::std_specs::cmp::PartialEqSpecImpl for OptionMap {
    open spec fn obeys_eq_spec() -> bool {
        true
    }

    open spec fn eq_spec(&self, other: &Self) -> bool {
        same_options(self@, other@)
    }
}


/// The words of `cs` between single spaces.
fn split_words(cs: &Vec<char>) -> (t: Vec<Vec<char>>)
    ensures
        t@.map_values(|w: Vec<char>| w@) == split_spaces(cs@),
{
    let n = cs.len();
    let mut words: Vec<Vec<char>> = Vec::new();
    let mut cur: Vec<char> = Vec::new();
    let mut i: usize = 0;
    while i < n
        invariant
            n == cs@.len(),
            i <= n,
            words@.map_values(|w: Vec<char>| w@).push(cur@) == split_spaces(cs@.subrange(0, i as int)),
        decreases n - i,
    {
        let c = cs[i];
        let ghost prev = split_spaces(cs@.subrange(0, i as int));
        let ghost old_words = words@.map_values(|w: Vec<char>| w@);
        let ghost old_cur = cur@;
        assert(cs@.subrange(0, i + 1).drop_last() =~= cs@.subrange(0, i as int));
        if c == ' ' {
            words.push(cur);
            cur = Vec::new();
            assert(words@.map_values(|w: Vec<char>| w@) =~= old_words.push(old_cur));
            assert(words@.map_values(|w: Vec<char>| w@).push(cur@) =~= prev.push(Seq::<char>::empty()));
        } else {
            cur.push(c);
            assert(words@.map_values(|w: Vec<char>| w@).push(cur@) =~= prev.update(prev.len() - 1, prev.last().push(c)));
        }
        i = i + 1;
    }
    assert(cs@.subrange(0, n as int) =~= cs@);
    let ghost before = words@.map_values(|w: Vec<char>| w@);
    words.push(cur);
    assert(words@.map_values(|w: Vec<char>| w@) =~= before.push(cur@));
    words
}

/// The position of the first `=` in `w`, if any.
fn find_eq(w: &Vec<char>) -> (r: Option<usize>)
    ensures
        r is None <==> !w@.contains('='),
        r matches Some(p) ==> p == first_eq(w@) && p < w@.len(),
{
    let n = w.len();
    let mut j: usize = 0;
    while j < n
        invariant
            n == w@.len(),
            j <= n,
            forall|k: int| 0 <= k < j ==> w@[k] != '=',
        decreases n - j,
    {
        if w[j] == '=' {
            proof {
                let c = first_eq(w@);
                assert(0 <= j < w@.len() && w@[j as int] == '=' && forall|k: int| 0 <= k < j ==> w@[k] != '=');
                assert(0 <= c < w@.len() && w@[c] == '=' && forall|k: int| 0 <= k < c ==> w@[k] != '=');
                assert(c == j);
            }
            return Some(j);
        }
        j = j + 1;
    }
    None
}

/// Reads an option string into keys and values (see `parse_options`).
pub fn try_string_to_hashmap(value: String) -> (r: Result<OptionMap, ValidationError>)
    ensures
        options_result(value@, r),
{
    let cs = chars_of(value.as_str());
    let words = split_words(&cs);
    let ghost t = split_spaces(value@);
    let n = words.len();
    let mut map = OptionMap::new();
    let mut i: usize = 0;
    while i < n
        invariant
            n == words@.len(),
            t == words@.map_values(|w: Vec<char>| w@),
            t == split_spaces(value@),
            i <= n,
            parse_tokens(t, 0, Seq::empty()) == parse_tokens(t, i as int, map@),
        decreases n - i,
    {
        let arg = &words[i];
        assert(t[i as int] == arg@);
        if arg.len() > 0 && arg[0] == '-' {
            match find_eq(arg) {
                Some(p) => {
                    let key = string_of(arg, 0, p);
                    let val = string_of(arg, p + 1, arg.len());
                    if val.unicode_len() == 0 {
                        let err = ContainerOptionsError::MissingValue(key);
                        return Err(ValidationError::InvalidContainerOption(err));
                    }
                    map.insert(key, val);
                    i = i + 1;
                },
                None => {
                    let key = string_of(arg, 0, arg.len());
                    assert(key@ =~= arg@);
                    if i + 1 < n && !(words[i + 1].len() > 0 && words[i + 1][0] == '-') {
                        assert(t[i + 1] == words@[i + 1]@);
                        let next = &words[i + 1];
                        let val = string_of(next, 0, next.len());
                        assert(val@ =~= next@);
                        map.insert(key, val);
                        i = i + 2;
                    } else {
                        let val = String::from_str("true");
                        proof {
                            reveal_strlit("true");
                            assert(val@ =~= true_text());
                        }
                        map.insert(key, val);
                        i = i + 1;
                    }
                },
            }
        } else {
            let word = string_of(arg, 0, arg.len());
            assert(word@ =~= arg@);
            let err = ContainerOptionsError::UnexpectedPositional(word);
            return Err(ValidationError::InvalidContainerOption(err));
        }
    }
    Ok(map)
}

/// Entries as the parser produces them: distinct keys that start with `-`
/// and hold neither `=` nor a space, values without a space.
pub open spec fn entries_well_formed(e: Seq<Entry>) -> bool {
    &&& keys_distinct(e)
    &&& forall|i: int| 0 <= i < e.len() ==> {
        &&& is_flag((#[trigger] e[i]).0)
        &&& !e[i].0.contains('=')
        &&& !e[i].0.contains(' ')
        &&& !e[i].1.contains(' ')
    }
}

/// Every value of the entries is non-empty.
pub open spec fn values_nonempty(e: Seq<Entry>) -> bool {
    forall|i: int| 0 <= i < e.len() ==> (#[trigger] e[i]).1.len() > 0
}

proof fn lemma_split_len(s: Seq<char>)
    ensures
        split_spaces(s).len() >= 1,
    decreases s.len(),
{
    if s.len() > 0 {
        lemma_split_len(s.drop_last());
    }
}

proof fn lemma_split_words_have_no_space(s: Seq<char>)
    ensures
        forall|i: int| 0 <= i < split_spaces(s).len() ==> !(#[trigger] split_spaces(s)[i]).contains(' '),
    decreases s.len(),
{
    if s.len() > 0 {
        let prev = split_spaces(s.drop_last());
        lemma_split_len(s.drop_last());
        lemma_split_words_have_no_space(s.drop_last());
        if s.last() != ' ' {
            let w = prev.last().push(s.last());
            assert forall|k: int| 0 <= k < w.len() implies w[k] != ' ' by {
                if k < prev.last().len() {
                    assert(prev.last()[k] == w[k]);
                    assert(prev[prev.len() - 1] == prev.last());
                }
            }
        }
        assert forall|i: int| 0 <= i < split_spaces(s).len() implies !(#[trigger] split_spaces(s)[i]).contains(' ') by {
            if i < prev.len() - 1 || (s.last() == ' ' && i < prev.len()) {
                assert(split_spaces(s)[i] == prev[i]);
            }
        }
    }
}

proof fn lemma_split_append(w: Seq<char>, y: Seq<char>)
    requires
        !y.contains(' '),
    ensures
        split_spaces(w + y) == split_spaces(w).update(
            split_spaces(w).len() - 1,
            split_spaces(w).last() + y,
        ),
    decreases y.len(),
{
    lemma_split_len(w);
    if y.len() == 0 {
        assert(w + y =~= w);
        assert(split_spaces(w).last() + y =~= split_spaces(w).last());
        assert(split_spaces(w).update(split_spaces(w).len() - 1, split_spaces(w).last())
            =~= split_spaces(w));
    } else {
        let y1 = y.drop_last();
        assert(!y1.contains(' ')) by {
            assert forall|k: int| 0 <= k < y1.len() implies y1[k] != ' ' by {
                assert(y1[k] == y[k]);
            }
        }
        lemma_split_append(w, y1);
        assert((w + y).drop_last() =~= w + y1);
        assert((w + y).last() == y.last());
        assert(y[y.len() - 1] != ' ');
        lemma_split_len(w + y1);
        let sw = split_spaces(w);
        assert(split_spaces(w + y) =~= sw.update(sw.len() - 1, sw.last() + y)) by {
            assert((sw.last() + y1).push(y.last()) =~= sw.last() + y);
        }
    }
}

proof fn lemma_split_sep(x: Seq<char>, y: Seq<char>)
    requires
        !y.contains(' '),
    ensures
        split_spaces(x + seq![' '] + y) == split_spaces(x).push(y),
{
    let xs = x + seq![' '];
    assert(xs.drop_last() =~= x);
    assert(xs.last() == ' ');
    assert(split_spaces(xs) == split_spaces(x).push(Seq::<char>::empty()));
    lemma_split_append(xs, y);
    let sx = split_spaces(xs);
    assert(sx.last() + y =~= y);
    assert(sx.update(sx.len() - 1, y) =~= split_spaces(x).push(y));
}

proof fn lemma_split_single(y: Seq<char>)
    requires
        !y.contains(' '),
    ensures
        split_spaces(y) == seq![y],
{
    lemma_split_append(Seq::<char>::empty(), y);
    assert(Seq::<char>::empty() + y =~= y);
    assert(split_spaces(Seq::<char>::empty()) == seq![Seq::<char>::empty()]);
    assert(Seq::<char>::empty() + y =~= y);
    assert(seq![Seq::<char>::empty()].update(0, y) =~= seq![y]);
}

proof fn lemma_entry_text_no_space(p: Entry)
    requires
        !p.0.contains(' '),
        !p.1.contains(' '),
    ensures
        !entry_text(p).contains(' '),
{
    let t = entry_text(p);
    assert forall|k: int| 0 <= k < t.len() implies t[k] != ' ' by {
        if k < p.0.len() {
            assert(t[k] == p.0[k]);
        } else if k > p.0.len() {
            assert(t[k] == p.1[k - p.0.len() - 1]);
        }
    }
}

proof fn lemma_render_split(e: Seq<Entry>)
    requires
        e.len() > 0,
        entries_well_formed(e),
    ensures
        split_spaces(render_options(e)) == e.map_values(|p: Entry| entry_text(p)),
    decreases e.len(),
{
    lemma_entry_text_no_space(e.last());
    if e.len() == 1 {
        lemma_split_single(entry_text(e[0]));
        assert(e.map_values(|p: Entry| entry_text(p)) =~= seq![entry_text(e[0])]);
    } else {
        let d = e.drop_last();
        assert(entries_well_formed(d)) by {
            assert forall|i: int| 0 <= i < d.len() implies {
                &&& is_flag((#[trigger] d[i]).0)
                &&& !d[i].0.contains('=')
                &&& !d[i].0.contains(' ')
                &&& !d[i].1.contains(' ')
            } by {
                assert(d[i] == e[i]);
            }
            assert forall|i: int, j: int| 0 <= i < d.len() && 0 <= j < d.len() && i != j
                implies (#[trigger] d[i]).0 != (#[trigger] d[j]).0 by {
                assert(d[i] == e[i] && d[j] == e[j]);
            }
        }
        lemma_render_split(d);
        lemma_split_sep(render_options(d), entry_text(e.last()));
        assert(e.map_values(|p: Entry| entry_text(p)) =~= d.map_values(|p: Entry| entry_text(p)).push(
            entry_text(e.last()),
        ));
    }
}

proof fn lemma_first_eq_of_entry_text(p: Entry)
    requires
        !p.0.contains('='),
    ensures
        entry_text(p).contains('='),
        first_eq(entry_text(p)) == p.0.len(),
{
    let t = entry_text(p);
    let n = p.0.len() as int;
    assert(t[n] == '=');
    assert forall|j: int| 0 <= j < n implies t[j] != '=' by {
        assert(t[j] == p.0[j]);
    }
    let c = first_eq(t);
    assert(0 <= n < t.len() && t[n] == '=' && forall|j: int| 0 <= j < n ==> t[j] != '=');
    assert(0 <= c < t.len() && t[c] == '=' && forall|j: int| 0 <= j < c ==> t[j] != '=');
    assert(c == n);
}

#[verifier::spinoff_prover]
#[verifier::rlimit(40)]
proof fn lemma_parse_rendered(e: Seq<Entry>, i: int)
    requires
        entries_well_formed(e),
        values_nonempty(e),
        0 <= i <= e.len(),
    ensures
        parse_tokens(e.map_values(|p: Entry| entry_text(p)), i, e.subrange(0, i)) == Ok::<
            Seq<Entry>,
            (int, Seq<char>),
        >(e),
    decreases e.len() - i,
{
    let t = e.map_values(|p: Entry| entry_text(p));
    if i == e.len() {
        assert(e.subrange(0, i) =~= e);
    } else {
        let p = e[i];
        assert(t[i] == entry_text(p));
        lemma_first_eq_of_entry_text(p);
        let arg = entry_text(p);
        assert(arg[0] == p.0[0]);
        assert(is_flag(arg));
        let q = first_eq(arg);
        assert(arg.subrange(0, q) =~= p.0);
        assert(arg.subrange(q + 1, arg.len() as int) =~= p.1);
        let acc = e.subrange(0, i);
        assert(!has_key(acc, p.0)) by {
            if has_key(acc, p.0) {
                let j = choose|j: int| 0 <= j < acc.len() && (#[trigger] acc[j]).0 == p.0;
                assert(acc[j] == e[j]);
            }
        }
        assert(assoc_insert(acc, p.0, p.1) =~= e.subrange(0, i + 1));
        lemma_parse_rendered(e, i + 1);
    }
}

proof fn lemma_assoc_insert_well_formed(acc: Seq<Entry>, k: Seq<char>, v: Seq<char>)
    requires
        entries_well_formed(acc),
        is_flag(k),
        !k.contains('='),
        !k.contains(' '),
        !v.contains(' '),
    ensures
        entries_well_formed(assoc_insert(acc, k, v)),
        assoc_insert(acc, k, v).len() > 0,
        assoc_insert(acc, k, v).len() >= acc.len(),
{
    let r = assoc_insert(acc, k, v);
    if has_key(acc, k) {
        let c = choose|j: int| 0 <= j < acc.len() && (#[trigger] acc[j]).0 == k;
        assert forall|a: int, b: int| 0 <= a < r.len() && 0 <= b < r.len() && a != b
            implies (#[trigger] r[a]).0 != (#[trigger] r[b]).0 by {
            assert(r[a].0 == acc[a].0);
            assert(r[b].0 == acc[b].0);
        }
    } else {
        assert forall|a: int, b: int| 0 <= a < r.len() && 0 <= b < r.len() && a != b
            implies (#[trigger] r[a]).0 != (#[trigger] r[b]).0 by {
            if a < acc.len() {
                assert(r[a] == acc[a]);
            }
            if b < acc.len() {
                assert(r[b] == acc[b]);
            }
        }
        assert forall|i: int| 0 <= i < r.len() implies {
            &&& is_flag((#[trigger] r[i]).0)
            &&& !r[i].0.contains('=')
            &&& !r[i].0.contains(' ')
            &&& !r[i].1.contains(' ')
        } by {
            if i < acc.len() {
                assert(r[i] == acc[i]);
            }
        }
    }
}

proof fn lemma_parse_well_formed(t: Seq<Seq<char>>, i: int, acc: Seq<Entry>)
    requires
        forall|k: int| 0 <= k < t.len() ==> !(#[trigger] t[k]).contains(' '),
        entries_well_formed(acc),
        0 <= i,
        parse_tokens(t, i, acc) is Ok,
    ensures
        entries_well_formed(parse_tokens(t, i, acc)->Ok_0),
        (i < t.len() || acc.len() > 0) ==> parse_tokens(t, i, acc)->Ok_0.len() > 0,
    decreases t.len() - i,
{
    if i < t.len() {
        let arg = t[i];
        assert(!arg.contains(' '));
        if arg.contains('=') {
            let p = first_eq(arg);
            let w = choose|x: int| 0 <= x < arg.len() && arg[x] == '=';
            assert(exists|x: int| 0 <= x < arg.len() && arg[x] == '=');
            let key = arg.subrange(0, p);
            let val = arg.subrange(p + 1, arg.len() as int);
            // the first `=` exists: take the least index holding one
            assert(0 <= p < arg.len() && arg[p] == '=' && forall|j: int| 0 <= j < p ==> arg[j] != '=') by {
                lemma_least_eq(arg, w);
            }
            assert(p > 0);
            assert(key[0] == arg[0]);
            assert(!key.contains('=')) by {
                assert forall|j: int| 0 <= j < key.len() implies key[j] != '=' by {
                    assert(key[j] == arg[j]);
                }
            }
            assert(!key.contains(' ')) by {
                assert forall|j: int| 0 <= j < key.len() implies key[j] != ' ' by {
                    assert(key[j] == arg[j]);
                }
            }
            assert(!val.contains(' ')) by {
                assert forall|j: int| 0 <= j < val.len() implies val[j] != ' ' by {
                    assert(val[j] == arg[j + p + 1]);
                }
            }
            lemma_assoc_insert_well_formed(acc, key, val);
            lemma_parse_well_formed(t, i + 1, assoc_insert(acc, key, val));
        } else if i + 1 < t.len() && !is_flag(t[i + 1]) {
            assert(!t[i + 1].contains(' '));
            lemma_assoc_insert_well_formed(acc, arg, t[i + 1]);
            lemma_parse_well_formed(t, i + 2, assoc_insert(acc, arg, t[i + 1]));
        } else {
            assert(!true_text().contains(' ')) by {
                assert forall|j: int| 0 <= j < true_text().len() implies true_text()[j] != ' ' by {}
            }
            lemma_assoc_insert_well_formed(acc, arg, true_text());
            lemma_parse_well_formed(t, i + 1, assoc_insert(acc, arg, true_text()));
        }
    }
}

proof fn lemma_least_eq(arg: Seq<char>, w: int)
    requires
        0 <= w < arg.len(),
        arg[w] == '=',
    ensures
        0 <= first_eq(arg) < arg.len(),
        arg[first_eq(arg)] == '=',
        forall|j: int| 0 <= j < first_eq(arg) ==> arg[j] != '=',
    decreases w,
{
    if exists|j: int| 0 <= j < w && arg[j] == '=' {
        let j = choose|j: int| 0 <= j < w && arg[j] == '=';
        lemma_least_eq(arg, j);
    } else {
        assert(0 <= w < arg.len() && arg[w] == '=' && forall|j: int| 0 <= j < w ==> arg[j] != '=');
    }
}

/// Rendering and parsing again: the options read from any string, when
/// every value is non-empty, are written by `render_options` into a string
/// that reads back into the same options, in the same order.
pub proof fn lemma_options_roundtrip(s: Seq<char>)
    requires
        parse_options(s) is Ok,
        values_nonempty(parse_options(s)->Ok_0),
    ensures
        parse_options(render_options(parse_options(s)->Ok_0)) == parse_options(s),
{
    let e = parse_options(s)->Ok_0;
    let t = split_spaces(s);
    lemma_split_words_have_no_space(s);
    lemma_split_len(s);
    lemma_parse_well_formed(t, 0, Seq::empty());
    lemma_render_split(e);
    lemma_parse_rendered(e, 0);
    assert(e.subrange(0, 0) =~= Seq::<Entry>::empty());
}

} // verus!
