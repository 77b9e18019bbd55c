//! The RPC dispatch table: independent sub-APIs, each a list of named
//! procedures, merged into one table, with a clash of method names refused
//! when the table is built rather than on some later call.
use vstd::prelude::*;

verus! {

/// The names of a list of named procedures, in order.
pub open spec fn method_names<P>(methods: Seq<(String, P)>) -> Seq<Seq<char>> {
    methods.map_values(|entry: (String, P)| entry.0@)
}

/// `name` occurs at least twice in `names`.
pub open spec fn repeats(names: Seq<Seq<char>>, name: Seq<char>) -> bool {
    exists|i: int, j: int| 0 <= i < j < names.len() && names[i] == name && names[j] == name
}

/// Why a dispatch table could not be built.
pub enum CompositionError {
    /// Two methods were registered under this one name.
    MethodNameCollision { name: String },
}

/// A name that occurs twice in a list occurs twice in any longer one.
pub proof fn lemma_repeats_extend(a: Seq<Seq<char>>, b: Seq<Seq<char>>, name: Seq<char>)
    requires
        repeats(a, name),
    ensures
        repeats(a + b, name),
{
    let (i, j) = choose|i: int, j: int|
        0 <= i < j < a.len() && a[i] == name && a[j] == name;
    assert((a + b)[i] == name && (a + b)[j] == name);
}

/// A list in which some name repeats has duplicates.
pub proof fn lemma_repeats_duplicates(a: Seq<Seq<char>>, name: Seq<char>)
    requires
        repeats(a, name),
    ensures
        !a.no_duplicates(),
{
    let (i, j) = choose|i: int, j: int|
        0 <= i < j < a.len() && a[i] == name && a[j] == name;
    assert(a[i] == a[j]);
}

/// The names of two lists, one after the other, are those of the first
/// followed by those of the second.
pub proof fn lemma_method_names_concat<P>(a: Seq<(String, P)>, b: Seq<(String, P)>)
    ensures
        method_names(a + b) == method_names(a) + method_names(b),
{
    assert(method_names(a + b) =~= method_names(a) + method_names(b));
}

/// A dispatch table under construction: every registered method under its
/// name, in order of registration.
pub struct DispatchTable<P> {
    entries: Vec<(String, P)>,
}

impl<P> DispatchTable<P> {
    /// The registered methods, in order of registration.
    pub closed spec fn entries(&self) -> Seq<(String, P)> {
        self.entries@
    }

    /// The registered names, in order of registration.
    pub open spec fn registered(&self) -> Seq<Seq<char>> {
        method_names(self.entries())
    }

    /// The names the table routes calls for.
    pub open spec fn methods(&self) -> Set<Seq<char>> {
        self.registered().to_set()
    }

    /// No name is registered twice.
    pub open spec fn wf(&self) -> bool {
        self.registered().no_duplicates()
    }

    /// A table with no methods.
    pub fn new() -> (t: DispatchTable<P>)
        ensures
            t.wf(),
            t.entries() == Seq::<(String, P)>::empty(),
    {
        let t = DispatchTable { entries: Vec::new() };
        assert(t.registered() =~= Seq::<Seq<char>>::empty());
        t
    }

    /// Adds a sub-API's methods after those already registered. Refused,
    /// with the table left as it was, when one of its names is already
    /// registered or occurs twice in it.
    pub fn register(&mut self, module: Vec<(String, P)>) -> (r: Result<(), CompositionError>)
        requires
            old(self).wf(),
        ensures
            final(self).wf(),
            r is Ok <==> (old(self).registered() + method_names(module@)).no_duplicates(),
            r is Ok ==> final(self).entries() == old(self).entries() + module@,
            r is Err ==> final(self).entries() == old(self).entries(),
            r matches Err(CompositionError::MethodNameCollision { name }) ==> repeats(
                old(self).registered() + method_names(module@),
                name@,
            ),
    {
        let ghost before = self.registered();
        let ghost all = before + method_names(module@);
        let mut i: usize = 0;
        while i < module.len()
            invariant
                self.entries@ == old(self).entries@,
                before.no_duplicates(),
                self.registered() == before,
                before.len() == self.entries@.len(),
                all == before + method_names(module@),
                0 <= i <= module@.len(),
                forall|a: int, b: int| 0 <= a < b < before.len() + i ==> all[a] != all[b],
            decreases module@.len() - i,
        {
            let name = &module[i].0;
            assert(all[before.len() + i] == name@);
            let mut j: usize = 0;
            while j < self.entries.len()
                invariant
                    self.entries@ == old(self).entries@,
                    before.no_duplicates(),
                    i < module@.len(),
                    all[before.len() + i] == name@,
                    self.registered() == before,
                    before.len() == self.entries@.len(),
                    all == before + method_names(module@),
                    0 <= j <= self.entries@.len(),
                    forall|b: int| 0 <= b < j ==> before[b] != name@,
                decreases self.entries@.len() - j,
            {
                assert(before[j as int] == self.entries@[j as int].0@);
                if self.entries[j].0 == *name {
                    assert(all[j as int] == name@);
                    proof {
                        lemma_repeats_duplicates(all, name@);
                    }
                    return Err(CompositionError::MethodNameCollision { name: name.clone() });
                }
                j += 1;
            }
            let mut k: usize = 0;
            while k < i
                invariant
                    self.entries@ == old(self).entries@,
                    before.no_duplicates(),
                    self.registered() == before,
                    before.len() == self.entries@.len(),
                    all[before.len() + i] == name@,
                    all == before + method_names(module@),
                    0 <= k <= i < module@.len(),
                    forall|b: int| 0 <= b < k ==> method_names(module@)[b] != name@,
                decreases i - k,
            {
                assert(method_names(module@)[k as int] == module@[k as int].0@);
                if module[k].0 == *name {
                    proof {
                        let (x, y) = (before.len() + k, before.len() + i);
                        assert(all[x] == name@ && all[y] == name@);
                        lemma_repeats_duplicates(all, name@);
                    }
                    return Err(CompositionError::MethodNameCollision { name: name.clone() });
                }
                k += 1;
            }
            i += 1;
        }
        let ghost added = module@;
        let mut module = module;
        self.entries.append(&mut module);
        proof {
            lemma_method_names_concat(old(self).entries(), added);
        }
        Ok(())
    }

    /// The registered methods, each under its name.
    pub fn into_entries(self) -> (methods: Vec<(String, P)>)
        ensures
            methods@ == self.entries(),
    {
        self.entries
    }
}

} // verus!
