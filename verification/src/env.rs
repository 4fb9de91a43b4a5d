//! Command environment: a mapping of variable names to values.

use vstd::prelude::*;
use vstd::string::StringExecFns;

verus! {

/// Environment data for a [`Cmd`](crate::cmd::Cmd).
///
/// The contracts speak of the mapping it denotes (`as_map`); the
/// entry list underneath keeps one entry per name.
pub struct Env {
    entries: Vec<(String, String)>,
}

/// The mapping denoted by an entry list: later entries win.
pub open spec fn map_of(s: Seq<(String, String)>) -> Map<Seq<char>, Seq<char>>
    decreases s.len(),
{
    if s.len() == 0 {
        Map::empty()
    } else {
        map_of(s.drop_last()).insert(s.last().0@, s.last().1@)
    }
}

/// No two entries share a name.
pub open spec fn unique_keys(s: Seq<(String, String)>) -> bool {
    forall|i: int, j: int| #![trigger s[i], s[j]] 0 <= i < j < s.len() ==> s[i].0@ != s[j].0@
}

proof fn lemma_unique_keys_drop_last(s: Seq<(String, String)>)
    requires
        unique_keys(s),
        s.len() > 0,
    ensures
        unique_keys(s.drop_last()),
{
    assert forall|i: int, j: int| 0 <= i < j < s.drop_last().len() implies #[trigger] s.drop_last()[i].0@
        != #[trigger] s.drop_last()[j].0@ by {
        assert(s.drop_last()[i] == s[i]);
        assert(s.drop_last()[j] == s[j]);
    }
}

/// A name is in the denoted mapping exactly when some entry carries it.
proof fn lemma_map_of_contains(s: Seq<(String, String)>, k: Seq<char>)
    ensures
        map_of(s).contains_key(k) <==> exists|i: int| 0 <= i < s.len() && (#[trigger] s[i]).0@ == k,
    decreases s.len(),
{
    if s.len() > 0 {
        lemma_map_of_contains(s.drop_last(), k);
        if map_of(s).contains_key(k) {
            if k == s.last().0@ {
                assert(s[s.len() - 1].0@ == k);
            } else {
                let i = choose|i: int| 0 <= i < s.drop_last().len() && (#[trigger] s.drop_last()[i]).0@
                    == k;
                assert(s[i].0@ == k);
            }
        }
        if exists|i: int| 0 <= i < s.len() && (#[trigger] s[i]).0@ == k {
            let i = choose|i: int| 0 <= i < s.len() && (#[trigger] s[i]).0@ == k;
            if i < s.len() - 1 {
                assert(s.drop_last()[i].0@ == k);
            }
        }
    }
}

/// With unique names, the entry that carries a name gives its value.
proof fn lemma_map_of_index(s: Seq<(String, String)>, i: int)
    requires
        unique_keys(s),
        0 <= i < s.len(),
    ensures
        map_of(s).contains_key(s[i].0@),
        map_of(s)[s[i].0@] == s[i].1@,
    decreases s.len(),
{
    if i < s.len() - 1 {
        lemma_unique_keys_drop_last(s);
        lemma_map_of_index(s.drop_last(), i);
        assert(s.drop_last()[i] == s[i]);
        assert(s[i].0@ != s[s.len() - 1].0@);
    }
}

/// Appending a fresh entry inserts its pair into the mapping.
proof fn lemma_map_of_push(s: Seq<(String, String)>, e: (String, String))
    ensures
        map_of(s.push(e)) == map_of(s).insert(e.0@, e.1@),
{
    assert(s.push(e).drop_last() =~= s);
    assert(s.push(e).last() == e);
}

/// Replacing the value of the entry that carries a name updates the
/// mapping at that name.
proof fn lemma_map_of_update(s: Seq<(String, String)>, i: int, e: (String, String))
    requires
        unique_keys(s),
        0 <= i < s.len(),
        e.0@ == s[i].0@,
    ensures
        map_of(s.update(i, e)) == map_of(s).insert(e.0@, e.1@),
    decreases s.len(),
{
    let s2 = s.update(i, e);
    if i == s.len() - 1 {
        assert(s2.drop_last() =~= s.drop_last());
        assert(s2.last() == e);
        assert(map_of(s.drop_last()).insert(e.0@, e.1@) =~= map_of(s.drop_last()).insert(
            s.last().0@,
            s.last().1@,
        ).insert(e.0@, e.1@));
    } else {
        lemma_unique_keys_drop_last(s);
        assert(s.drop_last()[i] == s[i]);
        lemma_map_of_update(s.drop_last(), i, e);
        assert(s2.drop_last() =~= s.drop_last().update(i, e));
        assert(s2.last() == s.last());
        assert(e.0@ != s.last().0@);
        assert(map_of(s.drop_last()).insert(e.0@, e.1@).insert(s.last().0@, s.last().1@)
            =~= map_of(s.drop_last()).insert(s.last().0@, s.last().1@).insert(e.0@, e.1@));
    }
}

/// Finds the entry carrying a name, if any.
fn find_key(entries: &Vec<(String, String)>, k: &String) -> (r: Option<usize>)
    ensures
        match r {
            Some(i) => i < entries@.len() && entries@[i as int].0@ == k@,
            None => forall|j: int| 0 <= j < entries@.len() ==> (#[trigger] entries@[j]).0@ != k@,
        },
{
    let n = entries.len();
    let mut i: usize = 0;
    while i < n
        invariant
            i <= n,
            n == entries@.len(),
            forall|j: int| 0 <= j < i ==> (#[trigger] entries@[j]).0@ != k@,
        decreases n - i,
    {
        if entries[i].0 == *k {
            return Some(i);
        }
        i = i + 1;
    }
    None
}

fn clone_entries(entries: &Vec<(String, String)>) -> (out: Vec<(String, String)>)
    ensures
        out@ == entries@,
{
    let n = entries.len();
    let mut out: Vec<(String, String)> = Vec::new();
    let mut i: usize = 0;
    while i < n
        invariant
            i <= n,
            n == entries@.len(),
            out@ =~= entries@.subrange(0, i as int),
        decreases n - i,
    {
        out.push((entries[i].0.clone(), entries[i].1.clone()));
        i = i + 1;
    }
    proof {
        assert(entries@.subrange(0, n as int) =~= entries@);
    }
    out
}

impl Env {
    #[verifier::type_invariant]
    spec fn wf(&self) -> bool {
        unique_keys(self.entries@)
    }

    /// The mapping this environment denotes.
    pub closed spec fn as_map(&self) -> Map<Seq<char>, Seq<char>> {
        map_of(self.entries@)
    }

    /// Constructs a new empty container.
    pub fn empty() -> (r: Self)
        ensures
            r.as_map() == Map::<Seq<char>, Seq<char>>::empty(),
    {
        Env { entries: Vec::new() }
    }

    /// Constructs a new container holding the given entries, a later
    /// entry overriding an earlier one with the same name.
    pub fn new(data: Vec<(String, String)>) -> (r: Self)
        ensures
            r.as_map() == map_of(data@),
    {
        let n = data.len();
        let mut env = Env::empty();
        let mut i: usize = 0;
        while i < n
            invariant
                i <= n,
                n == data@.len(),
                env.as_map() == map_of(data@.subrange(0, i as int)),
            decreases n - i,
        {
            env = env.insert(data[i].0.clone(), data[i].1.clone());
            proof {
                let pre = data@.subrange(0, i as int);
                let cur = data@.subrange(0, i + 1);
                assert(cur.drop_last() =~= pre);
                assert(cur.last() == data@[i as int]);
            }
            i = i + 1;
        }
        proof {
            assert(data@.subrange(0, n as int) =~= data@);
        }
        env
    }

    /// Constructs a new container from a list of pairs; same as
    /// [`Env::new`](Env::new).
    pub fn from_vec(kvs: Vec<(String, String)>) -> (r: Self)
        ensures
            r.as_map() == map_of(kvs@),
    {
        Env::new(kvs)
    }

    /// Constructs a new container with one entry.
    pub fn one(k: String, v: String) -> (r: Self)
        ensures
            r.as_map() == Map::<Seq<char>, Seq<char>>::empty().insert(k@, v@),
    {
        Env::empty().insert(k, v)
    }

    /// Inserts one entry, overriding an existing value for the name.
    pub fn insert(self, k: String, v: String) -> (r: Self)
        ensures
            r.as_map() == self.as_map().insert(k@, v@),
    {
        proof {
            use_type_invariant(&self);
        }
        let ghost orig = self.entries@;
        let mut entries = self.entries;
        match find_key(&entries, &k) {
            Some(i) => {
                entries[i].1 = v;
                proof {
                    assert(entries@ == orig.update(i as int, (orig[i as int].0, entries@[i as int].1)));
                    lemma_map_of_update(orig, i as int, entries@[i as int]);
                    assert forall|x: int, y: int| 0 <= x < y < entries@.len() implies (
                    #[trigger] entries@[x]).0@ != (#[trigger] entries@[y]).0@ by {
                        assert(entries@[x].0@ == orig[x].0@);
                        assert(entries@[y].0@ == orig[y].0@);
                    }
                }
                Env { entries }
            },
            None => {
                let ghost pair = (k, v);
                entries.push((k, v));
                proof {
                    lemma_map_of_push(orig, pair);
                    assert forall|x: int, y: int| 0 <= x < y < entries@.len() implies (
                    #[trigger] entries@[x]).0@ != (#[trigger] entries@[y]).0@ by {
                        if y < orig.len() {
                            assert(entries@[x] == orig[x]);
                            assert(entries@[y] == orig[y]);
                        } else {
                            assert(entries@[x] == orig[x]);
                            assert(entries@[y] == pair);
                        }
                    }
                }
                Env { entries }
            },
        }
    }

    /// Inserts one entry into a copy, leaving the receiver untouched.
    pub fn insert_cloned(&self, k: String, v: String) -> (r: Self)
        ensures
            r.as_map() == self.as_map().insert(k@, v@),
    {
        proof {
            use_type_invariant(self);
        }
        let copy = Env { entries: clone_entries(&self.entries) };
        copy.insert(k, v)
    }

    /// Merges two containers: a name defined on both sides takes the
    /// argument's value, and every other entry is kept.
    pub fn extend(self, env: Self) -> (r: Self)
        ensures
            r.as_map() == self.as_map().union_prefer_right(env.as_map()),
    {
        proof {
            use_type_invariant(&env);
        }
        let ghost base = self.as_map();
        let ghost other = env.entries@;
        let entries = env.entries;
        let n = entries.len();
        let mut out = self;
        let mut i: usize = 0;
        while i < n
            invariant
                i <= n,
                n == other.len(),
                entries@ == other,
                out.as_map() == base.union_prefer_right(map_of(other.subrange(0, i as int))),
            decreases n - i,
        {
            out = out.insert(entries[i].0.clone(), entries[i].1.clone());
            proof {
                let pre = other.subrange(0, i as int);
                let cur = other.subrange(0, i + 1);
                assert(cur.drop_last() =~= pre);
                assert(cur.last() == other[i as int]);
                assert(base.union_prefer_right(map_of(pre)).insert(other[i as int].0@, other[i as int].1@)
                    =~= base.union_prefer_right(map_of(pre).insert(other[i as int].0@, other[i as int].1@)));
            }
            i = i + 1;
        }
        proof {
            assert(other.subrange(0, n as int) =~= other);
        }
        out
    }

    /// Merges two containers into a new one, leaving the receiver
    /// untouched; same last-write-wins rule as [`Env::extend`](Env::extend).
    pub fn extend_cloned(&self, env: Self) -> (r: Self)
        ensures
            r.as_map() == self.as_map().union_prefer_right(env.as_map()),
    {
        proof {
            use_type_invariant(self);
        }
        let copy = Env { entries: clone_entries(&self.entries) };
        copy.extend(env)
    }

    /// Retrieves the value for a name, if the container holds one.
    pub fn get<'a>(&'a self, k: &str) -> (r: Option<&'a String>)
        ensures
            match r {
                Some(v) => self.as_map().contains_key(k@) && v@ == self.as_map()[k@],
                None => !self.as_map().contains_key(k@),
            },
    {
        proof {
            use_type_invariant(self);
        }
        let key: String = k.to_owned();
        match find_key(&self.entries, &key) {
            Some(i) => {
                proof {
                    lemma_map_of_index(self.entries@, i as int);
                }
                Some(&self.entries[i].1)
            },
            None => {
                proof {
                    lemma_map_of_contains(self.entries@, k@);
                }
                None
            },
        }
    }

    /// Hands the entries out as plain pairs, one per name.
    pub fn to_vec(&self) -> (r: Vec<(String, String)>)
        ensures
            map_of(r@) == self.as_map(),
            unique_keys(r@),
    {
        proof {
            use_type_invariant(self);
        }
        clone_entries(&self.entries)
    }
}

/// Convenience struct for dealing with the `PATH` environment
/// variable. Reading the variable itself is the host's part; the
/// extended value is assembled here.
pub struct PATH;

impl PATH {
    /// Extends a `PATH` value with one more entry, separated by the
    /// Unix `':'` delimiter; without a current value the entry stands
    /// alone. The process environment itself is left untouched.
    pub fn extend(current: Option<String>, addition: &str) -> (r: String)
        ensures
            r@ == (match current {
                Some(p) => p@ + ":"@ + addition@,
                None => addition@,
            }),
    {
        match current {
            Some(p) => {
                let mut out = p;
                out.append(":");
                out.append(addition);
                out
            },
            None => addition.to_owned(),
        }
    }
}

/// Merging maps is last-write-wins: a name the right side defines
/// takes its value from there, every other name keeps the left
/// side's value, and a name is defined in the merge exactly when
/// either side defines it. This pins down what
/// [`Env::extend`](Env::extend) and
/// [`Env::extend_cloned`](Env::extend_cloned) return.
pub proof fn lemma_merge_last_write_wins(
    left: Map<Seq<char>, Seq<char>>,
    right: Map<Seq<char>, Seq<char>>,
    k: Seq<char>,
)
    ensures
        left.union_prefer_right(right).contains_key(k) <==> (left.contains_key(k)
            || right.contains_key(k)),
        right.contains_key(k) ==> left.union_prefer_right(right)[k] == right[k],
        left.contains_key(k) && !right.contains_key(k) ==> left.union_prefer_right(right)[k]
            == left[k],
{
}

} // verus!
