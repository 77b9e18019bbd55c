//! The node's two RPC recipes. A full node serves the account-nonce,
//! contract-call and fee-estimation sub-APIs; a light node, which has no
//! direct state access, serves the account-nonce sub-API alone.
use vstd::prelude::*;
use crate::dispatch::{
    lemma_method_names_concat, lemma_repeats_duplicates, lemma_repeats_extend, method_names,
    repeats, CompositionError, DispatchTable,
};

verus! {

/// The names a full node registers: the nonce methods, then the contract
/// methods, then the fee methods.
pub open spec fn full_names<P>(
    system: Seq<(String, P)>,
    contracts: Seq<(String, P)>,
    payment: Seq<(String, P)>,
) -> Seq<Seq<char>> {
    method_names(system) + method_names(contracts) + method_names(payment)
}

/// Registers `module` in `table`; on a collision, the name is shown to
/// repeat in the whole list `all`, of which the registered names followed by
/// the module's are the start.
fn register_part<P>(
    table: &mut DispatchTable<P>,
    module: Vec<(String, P)>,
    Ghost(all): Ghost<Seq<Seq<char>>>,
) -> (r: Result<(), CompositionError>)
    requires
        old(table).wf(),
        old(table).registered().len() + module@.len() <= all.len(),
        (old(table).registered() + method_names(module@)) =~= all.subrange(
            0,
            (old(table).registered().len() + module@.len()) as int,
        ),
    ensures
        final(table).wf(),
        r is Ok ==> final(table).entries() == old(table).entries() + module@,
        r matches Err(CompositionError::MethodNameCollision { name }) ==> repeats(all, name@),
{
    let ghost prefix = old(table).registered() + method_names(module@);
    let r = table.register(module);
    proof {
        if r is Err {
            let name = r->Err_0->name;
            lemma_repeats_extend(prefix, all.subrange(prefix.len() as int, all.len() as int), name@);
            assert(prefix + all.subrange(prefix.len() as int, all.len() as int) =~= all);
        }
    }
    r
}

/// Builds the dispatch table of a full node from its three sub-APIs. Fails,
/// naming the name, when two methods share a name.
pub fn create_full<P>(
    system: Vec<(String, P)>,
    contracts: Vec<(String, P)>,
    payment: Vec<(String, P)>,
) -> (r: Result<Vec<(String, P)>, CompositionError>)
    ensures
        r is Ok <==> full_names(system@, contracts@, payment@).no_duplicates(),
        r matches Ok(methods) ==> methods@ == system@ + contracts@ + payment@,
        r matches Err(CompositionError::MethodNameCollision { name }) ==> repeats(
            full_names(system@, contracts@, payment@),
            name@,
        ),
{
    let ghost (s, c, p) = (system@, contracts@, payment@);
    let ghost all = full_names(s, c, p);
    let mut table = DispatchTable::new();
    assert(table.registered() + method_names(s) =~= all.subrange(0, s.len() as int));
    if let Err(e) = register_part(&mut table, system, Ghost(all)) {
        proof {
            lemma_repeats_duplicates(all, e->name@);
        }
        return Err(e);
    }
    proof {
        lemma_method_names_concat(Seq::<(String, P)>::empty(), s);
        assert(Seq::<(String, P)>::empty() + s =~= s);
    }
    assert(table.registered() + method_names(c) =~= all.subrange(0, (s.len() + c.len()) as int));
    if let Err(e) = register_part(&mut table, contracts, Ghost(all)) {
        proof {
            lemma_repeats_duplicates(all, e->name@);
        }
        return Err(e);
    }
    proof {
        lemma_method_names_concat(s, c);
    }
    assert(table.registered() + method_names(p) =~= all.subrange(
        0,
        (s.len() + c.len() + p.len()) as int,
    ));
    if let Err(e) = register_part(&mut table, payment, Ghost(all)) {
        proof {
            lemma_repeats_duplicates(all, e->name@);
        }
        return Err(e);
    }
    proof {
        lemma_method_names_concat(s + c, p);
        assert(table.registered() =~= all);
    }
    Ok(table.into_entries())
}

/// Builds the dispatch table of a light node, which serves the account-nonce
/// sub-API alone. Fails, naming the name, when two of its methods share a
/// name.
pub fn create_light<P>(system: Vec<(String, P)>) -> (r: Result<
    Vec<(String, P)>,
    CompositionError,
>)
    ensures
        r is Ok <==> method_names(system@).no_duplicates(),
        r matches Ok(methods) ==> methods@ == system@,
        r matches Err(CompositionError::MethodNameCollision { name }) ==> repeats(
            method_names(system@),
            name@,
        ),
{
    let ghost s = system@;
    let mut table = DispatchTable::new();
    assert(table.registered() + method_names(s) =~= method_names(s));
    assert(Seq::<(String, P)>::empty() + s =~= s);
    match table.register(system) {
        Ok(()) => Ok(table.into_entries()),
        Err(e) => Err(e),
    }
}

/// A light node serves no full-node-only method. Whenever the full recipe
/// succeeds, the light recipe on the same account-nonce sub-API succeeds too,
/// and every name it serves is a nonce method: none is a contract-call or
/// fee-estimation method.
pub proof fn lemma_light_table_gated<P>(
    system: Seq<(String, P)>,
    contracts: Seq<(String, P)>,
    payment: Seq<(String, P)>,
)
    requires
        full_names(system, contracts, payment).no_duplicates(),
    ensures
        method_names(system).no_duplicates(),
        method_names(system).to_set().disjoint(method_names(contracts).to_set()),
        method_names(system).to_set().disjoint(method_names(payment).to_set()),
        method_names(system).to_set().intersect(
            method_names(contracts).to_set().union(method_names(payment).to_set()),
        ) == Set::<Seq<char>>::empty(),
{
    let (ms, mc, mp) = (method_names(system), method_names(contracts), method_names(payment));
    let all = full_names(system, contracts, payment);
    assert forall|i: int, j: int| 0 <= i < ms.len() && 0 <= j < ms.len() && i != j implies ms[i]
        != ms[j] by {
        assert(all[i] == ms[i] && all[j] == ms[j]);
    }
    assert forall|x: Seq<char>| ms.to_set().contains(x) implies !mc.to_set().contains(x) by {
        let i = choose|i: int| 0 <= i < ms.len() && ms[i] == x;
        if mc.contains(x) {
            let j = choose|j: int| 0 <= j < mc.len() && mc[j] == x;
            assert(all[i] == x && all[ms.len() + j] == x);
        }
    }
    assert forall|x: Seq<char>| ms.to_set().contains(x) implies !mp.to_set().contains(x) by {
        let i = choose|i: int| 0 <= i < ms.len() && ms[i] == x;
        if mp.contains(x) {
            let j = choose|j: int| 0 <= j < mp.len() && mp[j] == x;
            assert(all[i] == x && all[ms.len() + mc.len() + j] == x);
        }
    }
    assert(ms.to_set().intersect(mc.to_set().union(mp.to_set())) =~= Set::<Seq<char>>::empty());
}

/// What a light node serves depends on the names of its account-nonce
/// methods alone, not on the handles they were built from: two nonce
/// sub-APIs with the same names give tables that both succeed or both fail,
/// and that serve the same names.
pub proof fn lemma_light_table_names_only<P>(system1: Seq<(String, P)>, system2: Seq<(String, P)>)
    requires
        method_names(system1) == method_names(system2),
    ensures
        method_names(system1).no_duplicates() <==> method_names(system2).no_duplicates(),
        method_names(system1).to_set() == method_names(system2).to_set(),
{
}

/// A light node routes no call for a name that is not one of its
/// account-nonce methods: such a call finds no method.
pub proof fn lemma_light_table_lacks_other_names<P>(system: Seq<(String, P)>, name: Seq<char>)
    requires
        forall|i: int| 0 <= i < system.len() ==> system[i].0@ != name,
    ensures
        !method_names(system).to_set().contains(name),
{
    if method_names(system).contains(name) {
        let i = choose|i: int| 0 <= i < method_names(system).len() && method_names(system)[i] == name;
        assert(system[i].0@ == name);
    }
}

} // verus!
