//! The ordered header template: name/value pairs whose insertion order is
//! significant, with names unique and case preserved. An override with an
//! existing name replaces that entry's value in place, keeping its
//! position; a new name is appended at the end.

use vstd::prelude::*;
use vstd::pervasive::VecAdditionalExecFns;
use crate::strutil::str_eq;

verus! {

/// One header line: a name and a value.
pub struct HeaderEntry {
    pub name: String,
    pub value: String,
}

impl View for HeaderEntry {
    type V = (Seq<char>, Seq<char>);

    open spec fn view(&self) -> (Seq<char>, Seq<char>) {
        (self.name@, self.value@)
    }
}

/// The rightmost index at or before `k` whose name is `n`, or -1.
pub open spec fn find_name_upto(t: Seq<(Seq<char>, Seq<char>)>, n: Seq<char>, k: int) -> int
    decreases k,
{
    if k <= 0 {
        -1
    } else if t[k - 1].0 == n {
        k - 1
    } else {
        find_name_upto(t, n, k - 1)
    }
}

/// The index of the entry named `n`, or -1 if there is none.
pub open spec fn find_name(t: Seq<(Seq<char>, Seq<char>)>, n: Seq<char>) -> int {
    find_name_upto(t, n, t.len() as int)
}

/// Whether an entry named `n` is present.
pub open spec fn has_name(t: Seq<(Seq<char>, Seq<char>)>, n: Seq<char>) -> bool {
    find_name(t, n) >= 0
}

/// The value of the entry named `n` (meaningful when `has_name`).
pub open spec fn header_value_of(t: Seq<(Seq<char>, Seq<char>)>, n: Seq<char>) -> Seq<char> {
    t[find_name(t, n)].1
}

/// No two entries share a name.
pub open spec fn distinct_names(t: Seq<(Seq<char>, Seq<char>)>) -> bool {
    forall|i: int, j: int| 0 <= i < j < t.len() ==> t[i].0 != t[j].0
}

/// The merge step: replace in place when the name is present, else append.
pub open spec fn model_insert(
    t: Seq<(Seq<char>, Seq<char>)>,
    n: Seq<char>,
    v: Seq<char>,
) -> Seq<(Seq<char>, Seq<char>)> {
    if has_name(t, n) {
        t.update(find_name(t, n), (n, v))
    } else {
        t.push((n, v))
    }
}

proof fn lemma_find_upto_props(t: Seq<(Seq<char>, Seq<char>)>, n: Seq<char>, k: int)
    requires
        0 <= k <= t.len(),
    ensures
        find_name_upto(t, n, k) >= 0 ==> find_name_upto(t, n, k) < k && t[find_name_upto(
            t,
            n,
            k,
        )].0 == n,
        find_name_upto(t, n, k) < 0 ==> forall|i: int| 0 <= i < k ==> t[i].0 != n,
    decreases k,
{
    if k > 0 {
        lemma_find_upto_props(t, n, k - 1);
    }
}

/// When `n` is present, `find_name` points at an entry named `n`; when it
/// is not, no entry is named `n`.
pub proof fn lemma_find_name_props(t: Seq<(Seq<char>, Seq<char>)>, n: Seq<char>)
    ensures
        has_name(t, n) ==> 0 <= find_name(t, n) < t.len() && t[find_name(t, n)].0 == n,
        !has_name(t, n) ==> forall|i: int| 0 <= i < t.len() ==> t[i].0 != n,
{
    lemma_find_upto_props(t, n, t.len() as int);
}

/// An ordered, case-preserving header collection with unique names.
pub struct HeaderTemplate {
    entries: Vec<HeaderEntry>,
}

impl View for HeaderTemplate {
    type V = Seq<(Seq<char>, Seq<char>)>;

    closed spec fn view(&self) -> Seq<(Seq<char>, Seq<char>)> {
        self.entries@.map(|i: int, e: HeaderEntry| e@)
    }
}

impl HeaderTemplate {
    /// Well-formed: entry names are pairwise distinct.
    pub open spec fn wf(&self) -> bool {
        distinct_names(self@)
    }

    /// An empty template.
    pub fn new() -> (t: HeaderTemplate)
        ensures
            t.wf(),
            t@ == Seq::<(Seq<char>, Seq<char>)>::empty(),
    {
        let t = HeaderTemplate { entries: Vec::new() };
        proof {
            assert(t@ =~= Seq::<(Seq<char>, Seq<char>)>::empty());
        }
        t
    }

    /// The number of entries.
    pub fn len(&self) -> (n: usize)
        ensures
            n == self@.len(),
    {
        self.entries.len()
    }

    /// The index of the entry named `name`, if any.
    fn find(&self, name: &str) -> (r: Option<usize>)
        ensures
            match r {
                Some(i) => has_name(self@, name@) && i == find_name(self@, name@),
                None => !has_name(self@, name@),
            },
    {
        let n = self.entries.len();
        let mut i: usize = 0;
        while i < n
            invariant
                n == self@.len(),
                i <= n,
                forall|j: int| 0 <= j < i ==> self@[j].0 != name@,
            decreases n - i,
        {
            if str_eq(self.entries[i].name.as_str(), name) {
                let r = self.find_from(i, name);
                return Some(r);
            }
            i = i + 1;
        }
        proof {
            lemma_find_upto_props(self@, name@, self@.len() as int);
            if has_name(self@, name@) {
                assert(self@[find_name(self@, name@)].0 == name@);
            }
        }
        None
    }

    /// The rightmost index carrying `name`, starting the scan at `lo`,
    /// which already carries it.
    fn find_from(&self, lo: usize, name: &str) -> (r: usize)
        requires
            lo < self@.len(),
            self@[lo as int].0 == name@,
        ensures
            r == find_name(self@, name@),
            has_name(self@, name@),
    {
        let n = self.entries.len();
        let mut best: usize = lo;
        let mut i: usize = lo + 1;
        while i < n
            invariant
                n == self@.len(),
                lo <= best < i <= n,
                self@[best as int].0 == name@,
                forall|j: int| best < j < i ==> self@[j].0 != name@,
            decreases n - i,
        {
            if str_eq(self.entries[i].name.as_str(), name) {
                best = i;
            }
            i = i + 1;
        }
        proof {
            lemma_find_rightmost(self@, name@, best as int);
        }
        best
    }

    /// Whether an entry named `name` is present.
    pub fn contains(&self, name: &str) -> (r: bool)
        ensures
            r == has_name(self@, name@),
    {
        self.find(name).is_some()
    }

    /// The value of the entry named `name`, if any.
    pub fn get(&self, name: &str) -> (r: Option<&String>)
        ensures
            match r {
                Some(v) => has_name(self@, name@) && v@ == header_value_of(self@, name@),
                None => !has_name(self@, name@),
            },
    {
        match self.find(name) {
            Some(i) => {
                proof {
                    lemma_find_name_props(self@, name@);
                }
                Some(&self.entries[i].value)
            },
            None => None,
        }
    }

    /// The name at position `i`, if `i` is in range.
    pub fn name_at(&self, i: usize) -> (r: Option<&String>)
        ensures
            match r {
                Some(s) => i < self@.len() && s@ == self@[i as int].0,
                None => i >= self@.len(),
            },
    {
        if i < self.entries.len() {
            Some(&self.entries[i].name)
        } else {
            None
        }
    }

    /// The value at position `i`, if `i` is in range.
    pub fn value_at(&self, i: usize) -> (r: Option<&String>)
        ensures
            match r {
                Some(s) => i < self@.len() && s@ == self@[i as int].1,
                None => i >= self@.len(),
            },
    {
        if i < self.entries.len() {
            Some(&self.entries[i].value)
        } else {
            None
        }
    }

    /// Merge one header in: replace the value in place when the name is
    /// already present (keeping its position), append otherwise.
    pub fn insert(&mut self, name: &str, value: &str)
        requires
            old(self).wf(),
        ensures
            final(self).wf(),
            final(self)@ == model_insert(old(self)@, name@, value@),
    {
        let entry = HeaderEntry { name: name.to_owned(), value: value.to_owned() };
        match self.find(name) {
            Some(i) => {
                proof {
                    lemma_find_name_props(self@, name@);
                }
                self.entries.set(i, entry);
                proof {
                    assert(self@ =~= model_insert(old(self)@, name@, value@));
                    lemma_insert_distinct(old(self)@, name@, value@);
                }
            },
            None => {
                self.entries.push(entry);
                proof {
                    assert(self@ =~= model_insert(old(self)@, name@, value@));
                    lemma_insert_distinct(old(self)@, name@, value@);
                }
            },
        }
    }
}

/// An index carrying `n` with no later index carrying it is what
/// `find_name` returns.
proof fn lemma_find_rightmost(t: Seq<(Seq<char>, Seq<char>)>, n: Seq<char>, b: int)
    requires
        0 <= b < t.len(),
        t[b].0 == n,
        forall|j: int| b < j < t.len() ==> t[j].0 != n,
    ensures
        find_name(t, n) == b,
{
    lemma_find_upto_from(t, n, t.len() as int, b);
}

proof fn lemma_find_upto_from(t: Seq<(Seq<char>, Seq<char>)>, n: Seq<char>, k: int, b: int)
    requires
        0 <= b < k <= t.len(),
        t[b].0 == n,
        forall|j: int| b < j < k ==> t[j].0 != n,
    ensures
        find_name_upto(t, n, k) == b,
    decreases k,
{
    if k - 1 > b {
        lemma_find_upto_from(t, n, k - 1, b);
    }
}

/// The merge step keeps names pairwise distinct.
pub proof fn lemma_insert_distinct(t: Seq<(Seq<char>, Seq<char>)>, n: Seq<char>, v: Seq<char>)
    requires
        distinct_names(t),
    ensures
        distinct_names(model_insert(t, n, v)),
{
    lemma_find_name_props(t, n);
}

} // verus!
