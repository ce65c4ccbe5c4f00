use vstd::prelude::*;

verus! {

/// The three transform uniforms that the vertex stage reads.
#[derive(Clone, Copy, Debug, PartialEq, Eq, Structural)]
pub enum Uniform {
    Model,
    View,
    Projection,
}

/// The name under which a uniform is declared in the vertex stage.
pub open spec fn uniform_name(u: Uniform) -> Seq<char> {
    match u {
        Uniform::Model => seq!['m'],
        Uniform::View => seq!['v'],
        Uniform::Projection => seq!['p'],
    }
}

impl Uniform {
    pub fn name(&self) -> (r: &'static str)
        ensures
            r@ == uniform_name(*self),
    {
        match self {
            Uniform::Model => {
                proof { reveal_strlit("m"); }
                "m"
            },
            Uniform::View => {
                proof { reveal_strlit("v"); }
                "v"
            },
            Uniform::Projection => {
                proof { reveal_strlit("p"); }
                "p"
            },
        }
    }
}

/// Whether two names are the same character sequence.
pub fn same_name(a: &str, b: &str) -> (r: bool)
    ensures
        r == (a@ == b@),
{
    let n = a.unicode_len();
    if n != b.unicode_len() {
        return false;
    }
    let mut i: usize = 0;
    while i < n
        invariant
            n == a@.len() == b@.len(),
            i <= n,
            forall|j: int| 0 <= j < i ==> a@[j] == b@[j],
        decreases n - i,
    {
        if a.get_char(i) != b.get_char(i) {
            return false;
        }
        i = i + 1;
    }
    assert(a@ =~= b@);
    true
}

/// The mapping described by a list of entries; a later entry for a name
/// overrides an earlier one.
pub open spec fn entries_map<H>(s: Seq<(String, H)>) -> Map<Seq<char>, H>
    decreases s.len(),
{
    if s.len() == 0 {
        Map::empty()
    } else {
        entries_map(s.drop_last()).insert(s.last().0@, s.last().1)
    }
}

/// No name appears in two entries.
pub open spec fn names_distinct<H>(s: Seq<(String, H)>) -> bool {
    forall|i: int, j: int| 0 <= i < j < s.len() ==> s[i].0@ != s[j].0@
}

proof fn lemma_entries_map_absent<H>(s: Seq<(String, H)>, k: Seq<char>)
    requires
        forall|i: int| 0 <= i < s.len() ==> s[i].0@ != k,
    ensures
        !entries_map(s).contains_key(k),
    decreases s.len(),
{
    if s.len() > 0 {
        lemma_entries_map_absent(s.drop_last(), k);
    }
}

proof fn lemma_entries_map_at<H>(s: Seq<(String, H)>, i: int)
    requires
        names_distinct(s),
        0 <= i < s.len(),
    ensures
        entries_map(s).contains_key(s[i].0@),
        entries_map(s)[s[i].0@] == s[i].1,
    decreases s.len(),
{
    if i < s.len() - 1 {
        lemma_entries_map_at(s.drop_last(), i);
    }
}

proof fn lemma_entries_map_update<H>(s: Seq<(String, H)>, i: int, e: (String, H))
    requires
        names_distinct(s),
        0 <= i < s.len(),
        e.0@ == s[i].0@,
    ensures
        entries_map(s.update(i, e)) == entries_map(s).insert(e.0@, e.1),
    decreases s.len(),
{
    let t = s.update(i, e);
    if i == s.len() - 1 {
        assert(t.drop_last() =~= s.drop_last());
        assert(entries_map(s).insert(e.0@, e.1) =~= entries_map(t));
    } else {
        lemma_entries_map_update(s.drop_last(), i, e);
        assert(t.drop_last() =~= s.drop_last().update(i, e));
        assert(entries_map(s).insert(e.0@, e.1) =~= entries_map(t));
    }
}

/// The handles of a linked program, looked up by uniform name.
pub struct UniformTable<H> {
    entries: Vec<(String, H)>,
}

impl<H> View for UniformTable<H> {
    type V = Map<Seq<char>, H>;

    /// The name-to-handle mapping that the table holds.
    closed spec fn view(&self) -> Map<Seq<char>, H> {
        entries_map(self.entries@)
    }
}

impl<H> UniformTable<H> {
    /// Each name is held once.
    pub closed spec fn wf(&self) -> bool {
        names_distinct(self.entries@)
    }

    pub fn new() -> (r: Self)
        ensures
            r.wf(),
            r@ == Map::<Seq<char>, H>::empty(),
    {
        UniformTable { entries: Vec::new() }
    }

    /// Index of the entry for `name`, if there is one.
    fn position(&self, name: &str) -> (r: Option<usize>)
        requires
            self.wf(),
        ensures
            r is None ==> forall|i: int|
                0 <= i < self.entries@.len() ==> self.entries@[i].0@ != name@,
            r matches Some(i) ==> i < self.entries@.len() && self.entries@[i as int].0@ == name@,
    {
        let mut i: usize = 0;
        while i < self.entries.len()
            invariant
                i <= self.entries@.len(),
                forall|j: int| 0 <= j < i ==> self.entries@[j].0@ != name@,
            decreases self.entries@.len() - i,
        {
            if same_name(self.entries[i].0.as_str(), name) {
                return Some(i);
            }
            i = i + 1;
        }
        None
    }

    /// Records `handle` under `name`, replacing any handle held for it.
    pub fn insert(&mut self, name: String, handle: H)
        requires
            old(self).wf(),
        ensures
            final(self).wf(),
            final(self)@ == old(self)@.insert(name@, handle),
    {
        match self.position(name.as_str()) {
            Some(i) => {
                proof {
                    lemma_entries_map_update(self.entries@, i as int, (name, handle));
                }
                self.entries.set(i, (name, handle));
            },
            None => {
                self.entries.push((name, handle));
                proof {
                    assert(self.entries@.drop_last() =~= old(self).entries@);
                }
            },
        }
    }

    /// The handle held for `name`, if any.
    pub fn get(&self, name: &str) -> (r: Option<&H>)
        requires
            self.wf(),
        ensures
            r is Some <==> self@.contains_key(name@),
            r matches Some(h) ==> *h == self@[name@],
    {
        match self.position(name) {
            Some(i) => {
                proof {
                    lemma_entries_map_at(self.entries@, i as int);
                }
                Some(&self.entries[i].1)
            },
            None => {
                proof {
                    lemma_entries_map_absent(self.entries@, name@);
                }
                None
            },
        }
    }

    /// Number of names held.
    pub fn len(&self) -> (r: usize)
        requires
            self.wf(),
        ensures
            r == self@.len(),
    {
        proof {
            lemma_entries_len(self.entries@);
        }
        self.entries.len()
    }
}

proof fn lemma_entries_len<H>(s: Seq<(String, H)>)
    requires
        names_distinct(s),
    ensures
        entries_map(s).dom().finite(),
        entries_map(s).len() == s.len(),
    decreases s.len(),
{
    if s.len() > 0 {
        let t = s.drop_last();
        lemma_entries_len(t);
        lemma_entries_map_absent(t, s.last().0@);
    }
}

} // verus!
