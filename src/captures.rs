//! The capture store: values bound by name while a pattern is matched.
use vstd::prelude::*;
use crate::ast::{Value, ValueView};
use crate::number::Number;
use vstd::string::*;

verus! {

/// `s` with every leading `$` removed.
pub open spec fn strip_sigil(s: Seq<char>) -> Seq<char>
    decreases s.len(),
{
    if s.len() > 0 && s[0] == '$' {
        strip_sigil(s.drop_first())
    } else {
        s
    }
}

/// The bindings that a list of entries records, later entries winning.
pub open spec fn entries_map(s: Seq<(String, Value)>) -> Map<Seq<char>, ValueView>
    decreases s.len(),
{
    if s.len() == 0 {
        Map::empty()
    } else {
        entries_map(s.drop_last()).insert(s.last().0@, s.last().1@)
    }
}

pub open spec fn names_unique(s: Seq<(String, Value)>) -> bool {
    forall|i: int, j: int| 0 <= i < s.len() && 0 <= j < s.len() && #[trigger] s[i].0@ == #[trigger] s[j].0@ ==> i == j
}

proof fn lemma_entries_lookup(s: Seq<(String, Value)>, i: int)
    requires
        names_unique(s),
        0 <= i < s.len(),
    ensures
        entries_map(s).contains_key(s[i].0@),
        entries_map(s)[s[i].0@] == s[i].1@,
    decreases s.len(),
{
    if i < s.len() - 1 {
        let t = s.drop_last();
        assert(t[i] == s[i]);
        assert(names_unique(t)) by {
            assert forall|a: int, b: int| 0 <= a < t.len() && 0 <= b < t.len() && #[trigger] t[a].0@ == #[trigger] t[b].0@ implies a == b by {
                assert(t[a] == s[a] && t[b] == s[b]);
            }
        }
        lemma_entries_lookup(t, i);
        assert(s[i].0@ != s.last().0@);
    }
}

proof fn lemma_entries_absent(s: Seq<(String, Value)>, k: Seq<char>)
    requires
        forall|i: int| 0 <= i < s.len() ==> (#[trigger] s[i]).0@ != k,
    ensures
        !entries_map(s).contains_key(k),
    decreases s.len(),
{
    if s.len() > 0 {
        let t = s.drop_last();
        assert forall|i: int| 0 <= i < t.len() implies (#[trigger] t[i]).0@ != k by {
            assert(t[i] == s[i]);
        }
        lemma_entries_absent(t, k);
        assert(s[s.len() - 1] == s.last());
    }
}

proof fn lemma_entries_update(s: Seq<(String, Value)>, i: int, e: (String, Value))
    requires
        names_unique(s),
        0 <= i < s.len(),
        e.0@ == s[i].0@,
    ensures
        entries_map(s.update(i, e)) == entries_map(s).insert(e.0@, e.1@),
    decreases s.len(),
{
    let u = s.update(i, e);
    let t = s.drop_last();
    if i == s.len() - 1 {
        assert(u.drop_last() =~= t);
        assert(entries_map(u) =~= entries_map(s).insert(e.0@, e.1@));
    } else {
        assert(u.drop_last() =~= t.update(i, e));
        assert(names_unique(t)) by {
            assert forall|a: int, b: int| 0 <= a < t.len() && 0 <= b < t.len() && #[trigger] t[a].0@ == #[trigger] t[b].0@ implies a == b by {
                assert(t[a] == s[a] && t[b] == s[b]);
            }
        }
        lemma_entries_update(t, i, e);
        assert(s[i].0@ != s[s.len() - 1].0@);
        assert(entries_map(u) =~= entries_map(s).insert(e.0@, e.1@));
    }
}

/// The values bound by name during one match attempt.
#[derive(Debug)]
pub struct Captures {
    entries: Vec<(String, Value)>,
}

impl View for Captures {
    type V = Map<Seq<char>, ValueView>;

    closed spec fn view(&self) -> Map<Seq<char>, ValueView> {
        entries_map(self.entries@)
    }
}

impl Captures {
    /// The store's internal invariant: no name is recorded twice.
    pub closed spec fn wf(&self) -> bool {
        names_unique(self.entries@)
    }

    pub fn new() -> (r: Captures)
        ensures
            r.wf(),
            r@ == Map::<Seq<char>, ValueView>::empty(),
    {
        Captures { entries: Vec::new() }
    }

    /// The position of the entry named exactly `name`.
    fn position(&self, name: &String) -> (r: Option<usize>)
        requires
            self.wf(),
        ensures
            match r {
                Some(i) => i < self.entries@.len() && self.entries@[i as int].0@ == name@,
                None => forall|i: int| 0 <= i < self.entries@.len() ==> (#[trigger] self.entries@[i]).0@ != name@,
            },
    {
        let mut i: usize = 0;
        while i < self.entries.len()
            invariant
                i <= self.entries@.len(),
                forall|j: int| 0 <= j < i ==> (#[trigger] self.entries@[j]).0@ != name@,
            decreases self.entries@.len() - i,
        {
            if self.entries[i].0 == *name {
                return Some(i);
            }
            i = i + 1;
        }
        None
    }

    /// Records `value` under `name`, replacing an earlier binding of it.
    pub fn insert(&mut self, name: String, value: Value)
        requires
            old(self).wf(),
        ensures
            final(self).wf(),
            final(self)@ == old(self)@.insert(name@, value@),
    {
        match self.position(&name) {
            Some(i) => {
                proof {
                    lemma_entries_update(self.entries@, i as int, (name, value));
                }
                self.entries.set(i, (name, value));
            },
            None => {
                let ghost s = self.entries@;
                self.entries.push((name, value));
                proof {
                    assert(self.entries@.drop_last() =~= s);
                }
            },
        }
    }

    /// The value bound under `name` exactly, with no `$` removed.
    pub fn lookup(&self, name: &str) -> (r: Option<&Value>)
        requires
            self.wf(),
        ensures
            match r {
                Some(v) => self@.contains_key(name@) && self@[name@] == v@,
                None => !self@.contains_key(name@),
            },
    {
        let name = name.to_owned();
        match self.position(&name) {
            Some(i) => {
                proof {
                    lemma_entries_lookup(self.entries@, i as int);
                }
                Some(&self.entries[i].1)
            },
            None => {
                proof {
                    lemma_entries_absent(self.entries@, name@);
                }
                None
            },
        }
    }

    /// The value bound under `name`, leading `$` signs removed.
    pub fn get(&self, name: &str) -> (r: Option<&Value>)
        requires
            self.wf(),
        ensures
            match r {
                Some(v) => self@.contains_key(strip_sigil(name@)) && self@[strip_sigil(name@)] == v@,
                None => !self@.contains_key(strip_sigil(name@)),
            },
    {
        self.lookup(strip_leading_sigils(name))
    }

    /// The integer bound under `name`: `None` where nothing is bound, `Err`
    /// where a value of another kind is.
    pub fn get_int(&self, name: &str) -> (r: Option<Result<&Number, ()>>)
        requires
            self.wf(),
        ensures
            match r {
                None => !self@.contains_key(strip_sigil(name@)),
                Some(Ok(n)) => self@.contains_key(strip_sigil(name@))
                    && self@[strip_sigil(name@)] == ValueView::Int(n@),
                Some(Err(())) => self@.contains_key(strip_sigil(name@))
                    && !(self@[strip_sigil(name@)] is Int),
            },
    {
        match self.get(name) {
            None => None,
            Some(Value::Int(n)) => Some(Ok(n)),
            Some(_) => Some(Err(())),
        }
    }

    /// The boolean bound under `name`: `None` where nothing is bound, `Err`
    /// where a value of another kind is.
    pub fn get_bool(&self, name: &str) -> (r: Option<Result<bool, ()>>)
        requires
            self.wf(),
        ensures
            match r {
                None => !self@.contains_key(strip_sigil(name@)),
                Some(Ok(b)) => self@.contains_key(strip_sigil(name@))
                    && self@[strip_sigil(name@)] == ValueView::Boolean(b),
                Some(Err(())) => self@.contains_key(strip_sigil(name@))
                    && !(self@[strip_sigil(name@)] is Boolean),
            },
    {
        match self.get(name) {
            None => None,
            Some(Value::Boolean(b)) => Some(Ok(*b)),
            Some(_) => Some(Err(())),
        }
    }

    /// Removes every binding.
    pub fn clear(&mut self)
        ensures
            final(self).wf(),
            final(self)@ == Map::<Seq<char>, ValueView>::empty(),
    {
        self.entries.clear();
    }
}

impl Default for Captures {
    fn default() -> (r: Captures)
        ensures
            r.wf(),
            r@ == Map::<Seq<char>, ValueView>::empty(),
    {
        Captures::new()
    }
}

/// `name` from its first character that is not `$`.
fn strip_leading_sigils(name: &str) -> (r: &str)
    ensures
        r@ == strip_sigil(name@),
{
    let len = name.unicode_len();
    let mut i: usize = 0;
    proof {
        assert(name@.subrange(0, len as int) =~= name@);
    }
    while i < len && name.get_char(i) == '$'
        invariant
            i <= len,
            len == name@.len(),
            strip_sigil(name@.subrange(i as int, len as int)) == strip_sigil(name@),
        decreases len - i,
    {
        proof {
            assert(name@.subrange(i as int, len as int).drop_first() =~= name@.subrange(i + 1, len as int));
        }
        i = i + 1;
    }
    name.substring_char(i, len)
}

} // verus!
