use vstd::prelude::*;
use vstd::string::*;

verus! {

/// Whether no two fields of the form `f` have the same name.
pub open spec fn keys_unique(f: Seq<(String, String)>) -> bool {
    forall|i: int, j: int|
        0 <= i < f.len() && 0 <= j < f.len() && i != j ==> (#[trigger] f[i]).0@ != (#[trigger] f[j]).0@
}

/// The fields of the form `f` as a map from field name to value (a later
/// field of the same name wins).
pub open spec fn form_map(f: Seq<(String, String)>) -> Map<Seq<char>, Seq<char>>
    decreases f.len(),
{
    if f.len() == 0 {
        Map::empty()
    } else {
        form_map(f.drop_last()).insert(f.last().0@, f.last().1@)
    }
}

/// The form `f` sends each field once, and sends exactly the fields of `m`.
pub open spec fn form_is(f: Seq<(String, String)>, m: Map<Seq<char>, Seq<char>>) -> bool {
    keys_unique(f) && form_map(f) == m
}

/// The fields of a request of the given kind before anything else is added.
pub open spec fn typed(kind: Seq<char>) -> Map<Seq<char>, Seq<char>> {
    Map::empty().insert("type"@, kind)
}

/// The fields `m` with the application's name and owner id, and the session
/// id when there is one.
pub open spec fn in_context(
    m: Map<Seq<char>, Seq<char>>,
    name: Seq<char>,
    ownerid: Seq<char>,
    sessionid: Option<Seq<char>>,
) -> Map<Seq<char>, Seq<char>> {
    let m2 = m.insert("name"@, name).insert("ownerid"@, ownerid);
    match sessionid {
        Some(sid) => m2.insert("sessionid"@, sid),
        None => m2,
    }
}

/// The view of an optional borrowed string.
pub open spec fn opt_ref_view(o: Option<&String>) -> Option<Seq<char>> {
    match o {
        Some(x) => Some(x@),
        None => None,
    }
}

/// Appending a field adds it to the map.
pub proof fn lemma_form_push(f: Seq<(String, String)>, p: (String, String))
    ensures
        form_map(f.push(p)) == form_map(f).insert(p.0@, p.1@),
{
    assert(f.push(p).drop_last() =~= f);
}

/// Replacing the field that carries a name sets that name in the map.
pub proof fn lemma_form_update(f: Seq<(String, String)>, i: int, p: (String, String))
    requires
        keys_unique(f),
        0 <= i < f.len(),
        f[i].0@ == p.0@,
    ensures
        form_map(f.update(i, p)) == form_map(f).insert(p.0@, p.1@),
    decreases f.len(),
{
    let g = f.update(i, p);
    let d = f.drop_last();
    if i == f.len() - 1 {
        assert(g.drop_last() =~= d);
        assert(form_map(g) =~= form_map(f).insert(p.0@, p.1@));
    } else {
        assert(g.drop_last() =~= d.update(i, p));
        assert(keys_unique(d)) by {
            assert forall|a: int, b: int|
                0 <= a < d.len() && 0 <= b < d.len() && a != b implies (#[trigger] d[a]).0@ != (
            #[trigger] d[b]).0@ by {
                assert(d[a] == f[a] && d[b] == f[b]);
            }
        }
        lemma_form_update(d, i, p);
        assert(f[f.len() - 1].0@ != f[i].0@);
        assert(g.last() == f.last());
        assert(form_map(g) =~= form_map(f).insert(p.0@, p.1@));
    }
}

/// A form under construction: named fields with text values, each name once.
pub struct PayloadBuilder {
    payload: Vec<(String, String)>,
}

impl View for PayloadBuilder {
    type V = Map<Seq<char>, Seq<char>>;

    closed spec fn view(&self) -> Map<Seq<char>, Seq<char>> {
        form_map(self.payload@)
    }
}

impl PayloadBuilder {
    #[verifier::type_invariant]
    closed spec fn inv(self) -> bool {
        keys_unique(self.payload@)
    }

    /// Sets the field `key` to `value`, replacing an earlier value of it.
    fn put(fields: Vec<(String, String)>, key: &str, value: &str) -> (r: Vec<(String, String)>)
        requires
            keys_unique(fields@),
        ensures
            form_is(r@, form_map(fields@).insert(key@, value@)),
    {
        let mut payload = fields;
        let k = String::from_str(key);
        let v = String::from_str(value);
        let n = payload.len();
        let mut i: usize = 0;
        let ghost orig = payload@;
        while i < n
            invariant
                payload@ == orig,
                orig == fields@,
                keys_unique(orig),
                v@ == value@,
                n == payload@.len(),
                i <= n,
                k@ == key@,
                forall|j: int| 0 <= j < i ==> (#[trigger] payload@[j]).0@ != key@,
            decreases n - i,
        {
            if payload[i].0 == k {
                let ghost old_p = payload@;
                proof {
                    lemma_form_update(old_p, i as int, (k, v));
                }
                payload.set(i, (k, v));
                assert(payload@ == old_p.update(i as int, (k, v)));
                assert(keys_unique(payload@)) by {
                    assert forall|a: int, b: int|
                        0 <= a < payload@.len() && 0 <= b < payload@.len() && a != b implies (
                    #[trigger] payload@[a]).0@ != (#[trigger] payload@[b]).0@ by {
                        assert(old_p[a].0@ != old_p[b].0@);
                    }
                }
                return payload;
            }
            i = i + 1;
        }
        let ghost old_p = payload@;
        proof {
            lemma_form_push(old_p, (k, v));
        }
        payload.push((k, v));
        assert(payload@ == old_p.push((k, v)));
        assert(keys_unique(payload@)) by {
            assert forall|a: int, b: int|
                0 <= a < payload@.len() && 0 <= b < payload@.len() && a != b implies (
            #[trigger] payload@[a]).0@ != (#[trigger] payload@[b]).0@ by {
                if a < old_p.len() && b < old_p.len() {
                    assert(old_p[a].0@ != old_p[b].0@);
                } else if a < old_p.len() {
                    assert(old_p[a].0@ != key@);
                } else {
                    assert(old_p[b].0@ != key@);
                }
            }
        }
        payload
    }

    /// A form whose only field is `type`, set to `type_val`.
    pub fn new(type_val: &str) -> (r: Self)
        ensures
            r@ == typed(type_val@),
    {
        let empty: Vec<(String, String)> = Vec::new();
        assert(form_map(empty@) == Map::<Seq<char>, Seq<char>>::empty());
        let payload = Self::put(empty, "type", type_val);
        PayloadBuilder { payload }
    }

    /// Adds the application's name and owner id, and the session id when
    /// there is one.
    pub fn with_context(self, name: &str, ownerid: &str, sessionid: Option<&String>) -> (r: Self)
        ensures
            r@ == in_context(self@, name@, ownerid@, opt_ref_view(sessionid)),
    {
        proof {
            use_type_invariant(&self);
        }
        let p = Self::put(self.payload, "name", name);
        let p = Self::put(p, "ownerid", ownerid);
        match sessionid {
            Some(sid) => {
                let p = Self::put(p, "sessionid", sid.as_str());
                PayloadBuilder { payload: p }
            },
            None => PayloadBuilder { payload: p },
        }
    }

    /// Sets the field `key` to `value`.
    pub fn with_value(self, key: &str, value: &str) -> (r: Self)
        ensures
            r@ == self@.insert(key@, value@),
    {
        proof {
            use_type_invariant(&self);
        }
        PayloadBuilder { payload: Self::put(self.payload, key, value) }
    }

    /// The finished form: each field once, in the order first set.
    pub fn compile(self) -> (r: Vec<(String, String)>)
        ensures
            form_is(r@, self@),
    {
        proof {
            use_type_invariant(&self);
        }
        self.payload
    }
}

} // verus!
