//! Payloads handed to external channel clients: a mapping from string
//! keys to structured values, with verified insert and lookup.

use vstd::prelude::*;

verus! {

/// A structured value ready for external serialization.
#[derive(Debug)]
pub enum Value {
    VNull,
    VBool(bool),
    VInt(i128),
    VText(String),
    VArr(Vec<Value>),
    VObj(Vec<(String, Value)>),
}

impl Value {
    pub fn as_int(&self) -> (r: Option<i128>)
        ensures
            match r {
                Some(v) => *self == Value::VInt(v),
                None => !(*self matches Value::VInt(_)),
            },
    {
        match self {
            Value::VInt(v) => Some(*v),
            _ => None,
        }
    }

    pub fn as_bool(&self) -> (r: Option<bool>)
        ensures
            match r {
                Some(v) => *self == Value::VBool(v),
                None => !(*self matches Value::VBool(_)),
            },
    {
        match self {
            Value::VBool(v) => Some(*v),
            _ => None,
        }
    }

    pub fn as_text(&self) -> (r: Option<&String>)
        ensures
            match r {
                Some(v) => *self == Value::VText(*v),
                None => !(*self matches Value::VText(_)),
            },
    {
        match self {
            Value::VText(v) => Some(v),
            _ => None,
        }
    }

    pub fn as_arr(&self) -> (r: Option<&Vec<Value>>)
        ensures
            match r {
                Some(v) => *self == Value::VArr(*v),
                None => !(*self matches Value::VArr(_)),
            },
    {
        match self {
            Value::VArr(v) => Some(v),
            _ => None,
        }
    }

    pub fn as_obj(&self) -> (r: Option<&Vec<(String, Value)>>)
        ensures
            match r {
                Some(v) => *self == Value::VObj(*v),
                None => !(*self matches Value::VObj(_)),
            },
    {
        match self {
            Value::VObj(v) => Some(v),
            _ => None,
        }
    }

    pub fn is_null(&self) -> (r: bool)
        ensures
            r == (*self == Value::VNull),
    {
        match self {
            Value::VNull => true,
            _ => false,
        }
    }
}

/// Front-first lookup of a key in an association list.
pub open spec fn assoc_lookup(es: Seq<(String, Value)>, k: Seq<char>) -> Option<Value>
    decreases es.len(),
{
    if es.len() == 0 {
        None
    } else if es[0].0@ == k {
        Some(es[0].1)
    } else {
        assoc_lookup(es.drop_first(), k)
    }
}

/// Keys are pairwise distinct.
pub open spec fn assoc_unique(es: Seq<(String, Value)>) -> bool {
    forall|i: int, j: int| 0 <= i < j < es.len() ==> (#[trigger] es[i]).0@ != (#[trigger] es[j]).0@
}

proof fn lemma_lookup_none(es: Seq<(String, Value)>, k: Seq<char>)
    ensures
        (assoc_lookup(es, k) is None) <==> (forall|i: int|
            0 <= i < es.len() ==> (#[trigger] es[i]).0@ != k),
    decreases es.len(),
{
    if es.len() > 0 {
        lemma_lookup_none(es.drop_first(), k);
        assert forall|i: int|
            0 <= i < es.len() && (assoc_lookup(es, k) is None) implies (#[trigger] es[i]).0@
            != k by {
            if i > 0 {
                assert(es.drop_first()[i - 1] == es[i]);
            }
        }
        if forall|i: int| 0 <= i < es.len() ==> (#[trigger] es[i]).0@ != k {
            assert forall|i: int|
                0 <= i < es.drop_first().len() implies (#[trigger] es.drop_first()[i]).0@
                != k by {
                assert(es.drop_first()[i] == es[i + 1]);
            }
        }
    }
}

proof fn lemma_lookup_push(es: Seq<(String, Value)>, x: (String, Value), k: Seq<char>)
    ensures
        assoc_lookup(es.push(x), k) == if assoc_lookup(es, k) is Some {
            assoc_lookup(es, k)
        } else if x.0@ == k {
            Some(x.1)
        } else {
            None
        },
    decreases es.len(),
{
    if es.len() == 0 {
        assert(es.push(x)[0] == x);
        assert(es.push(x).drop_first() =~= Seq::<(String, Value)>::empty());
        assert(assoc_lookup(es, k) is None);
        assert(assoc_lookup(es.push(x).drop_first(), k) is None);
    } else {
        assert(es.push(x)[0] == es[0]);
        assert(es.push(x).drop_first() =~= es.drop_first().push(x));
        lemma_lookup_push(es.drop_first(), x, k);
        assert(assoc_lookup(es, k) == if es[0].0@ == k {
            Some(es[0].1)
        } else {
            assoc_lookup(es.drop_first(), k)
        });
    }
}

proof fn lemma_lookup_update(es: Seq<(String, Value)>, i: int, x: (String, Value), k: Seq<char>)
    requires
        0 <= i < es.len(),
        es[i].0@ == x.0@,
        assoc_unique(es),
    ensures
        assoc_lookup(es.update(i, x), k) == if x.0@ == k {
            Some(x.1)
        } else {
            assoc_lookup(es, k)
        },
    decreases es.len(),
{
    if i == 0 {
        if x.0@ != k {
            assert(es.update(i, x).drop_first() =~= es.drop_first());
            if es[0].0@ == k {
                // the old head matched k, but its key equals x's key
                assert(false);
            }
        }
    } else {
        assert(es.update(i, x).drop_first() =~= es.drop_first().update(i - 1, x));
        assert forall|a: int, b: int| 0 <= a < b < es.drop_first().len() implies (
        #[trigger] es.drop_first()[a]).0@ != (#[trigger] es.drop_first()[b]).0@ by {
            assert(es.drop_first()[a] == es[a + 1] && es.drop_first()[b] == es[b + 1]);
        }
        assert(es.drop_first()[i - 1] == es[i]);
        lemma_lookup_update(es.drop_first(), i - 1, x, k);
        if es[0].0@ == x.0@ {
            assert(false);
        }
    }
}

/// A payload: string keys mapped to values, keys unique, insertion order
/// kept.
#[derive(Debug)]
pub struct Payload {
    entries: Vec<(String, Value)>,
}

impl Payload {
    /// Well-formed: no key occurs twice.
    pub closed spec fn wf(self) -> bool {
        assoc_unique(self.entries@)
    }

    /// The value stored under key `k`, if any.
    pub closed spec fn spec_get(self, k: Seq<char>) -> Option<Value> {
        assoc_lookup(self.entries@, k)
    }

    /// The entries in insertion order.
    pub closed spec fn spec_entries(self) -> Seq<(String, Value)> {
        self.entries@
    }

    /// An empty payload.
    pub fn new() -> (r: Payload)
        ensures
            r.wf(),
            forall|k: Seq<char>| r.spec_get(k) is None,
            r.spec_entries().len() == 0,
    {
        Payload { entries: Vec::new() }
    }

    /// Binds `key` to `value`, replacing any earlier binding of the same
    /// key in place.
    pub fn insert(&mut self, key: &str, value: Value)
        requires
            old(self).wf(),
        ensures
            final(self).wf(),
            forall|k: Seq<char>|
                #[trigger] final(self).spec_get(k) == if k == key@ {
                    Some(value)
                } else {
                    old(self).spec_get(k)
                },
    {
        let key_string: String = key.to_owned();
        let n = self.entries.len();
        let mut i: usize = 0;
        while i < n
            invariant
                *self == *old(self),
                n == self.entries@.len(),
                i <= n,
                key_string@ == key@,
                old(self).wf(),
                forall|j: int| 0 <= j < i ==> (#[trigger] self.entries@[j]).0@ != key@,
            decreases n - i,
        {
            let hit = self.entries[i].0 == key_string;
            if hit {
                let ghost old_es = self.entries@;
                let slot = vstd::std_specs::vec::vec_index_mut(&mut self.entries, i);
                *slot = (key_string, value);
                proof {
                    lemma_lookup_update(old_es, i as int, (key_string, value), key@);
                    assert forall|k: Seq<char>| true implies #[trigger] self.spec_get(k)
                        == if k == key@ {
                        Some(value)
                    } else {
                        old(self).spec_get(k)
                    } by {
                        lemma_lookup_update(old_es, i as int, (key_string, value), k);
                    }
                }
                return ;
            }
            i = i + 1;
        }
        proof {
            lemma_lookup_none(self.entries@, key@);
        }
        let ghost old_es = self.entries@;
        self.entries.push((key_string, value));
        proof {
            assert forall|k: Seq<char>| true implies #[trigger] self.spec_get(k) == if k
                == key@ {
                Some(value)
            } else {
                old(self).spec_get(k)
            } by {
                lemma_lookup_push(old_es, (key_string, value), k);
            }
            assert forall|a: int, b: int|
                0 <= a < b < self.entries@.len() implies (#[trigger] self.entries@[a]).0@ != (
            #[trigger] self.entries@[b]).0@ by {
                if b == self.entries@.len() - 1 {
                    assert(self.entries@[a] == old_es[a]);
                }
            }
        }
    }

    /// Looks `key` up.
    pub fn get(&self, key: &str) -> (r: Option<&Value>)
        ensures
            match r {
                Some(v) => self.spec_get(key@) == Some(*v),
                None => self.spec_get(key@) is None,
            },
    {
        let key_string: String = key.to_owned();
        let n = self.entries.len();
        let mut i: usize = 0;
        while i < n
            invariant
                n == self.entries@.len(),
                i <= n,
                key_string@ == key@,
                forall|j: int| 0 <= j < i ==> (#[trigger] self.entries@[j]).0@ != key@,
            decreases n - i,
        {
            let hit = self.entries[i].0 == key_string;
            if hit {
                proof {
                    lemma_lookup_found(self.entries@, i as int, key@);
                }
                return Some(&self.entries[i].1);
            }
            i = i + 1;
        }
        proof {
            lemma_lookup_none(self.entries@, key@);
        }
        None
    }

    /// Read-only access to the entries, for callers that serialize the
    /// payload.
    pub fn entries(&self) -> (r: &Vec<(String, Value)>)
        ensures
            r@ == self.spec_entries(),
    {
        &self.entries
    }
}

proof fn lemma_lookup_found(es: Seq<(String, Value)>, i: int, k: Seq<char>)
    requires
        0 <= i < es.len(),
        es[i].0@ == k,
        forall|j: int| 0 <= j < i ==> (#[trigger] es[j]).0@ != k,
    ensures
        assoc_lookup(es, k) == Some(es[i].1),
    decreases i,
{
    if i > 0 {
        assert(es.drop_first()[i - 1] == es[i]);
        assert forall|j: int| 0 <= j < i - 1 implies (#[trigger] es.drop_first()[j]).0@ != k by {
            assert(es.drop_first()[j] == es[j + 1]);
        }
        lemma_lookup_found(es.drop_first(), i - 1, k);
    }
}

} // verus!
