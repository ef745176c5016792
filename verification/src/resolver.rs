//! The resolver: a pure, total lookup from a server identifier to the launch
//! specification registered for it, or to an `UnknownServer` error carrying
//! the identifier verbatim.

use vstd::prelude::*;

use crate::launch::LaunchSpec;
use crate::launch::LaunchSpecView;
use crate::launch::ResolutionError;
use crate::registry::lemma_registry_wf;
use crate::registry::registry;
use crate::registry::spec_registry;

verus! {

/// First-match lookup of `id` in a table of entries.
pub open spec fn lookup(
    entries: Seq<(Seq<char>, LaunchSpecView)>,
    id: Seq<char>,
) -> Option<LaunchSpecView>
    decreases entries.len(),
{
    if entries.len() == 0 {
        None
    } else if entries[0].0 == id {
        Some(entries[0].1)
    } else {
        lookup(entries.drop_first(), id)
    }
}

/// Whether `id` names a registered server.
pub open spec fn registered(id: Seq<char>) -> bool {
    lookup(spec_registry(), id) is Some
}

/// What resolution yields for `id`: the registered launch specification, or
/// the identifier itself as the unknown-server payload. A total function of
/// the identifier alone.
pub open spec fn spec_resolve(id: Seq<char>) -> Result<LaunchSpecView, Seq<char>> {
    match lookup(spec_registry(), id) {
        Some(launch) => Ok(launch),
        None => Err(id),
    }
}

/// The mathematical value of an exec resolution result.
pub open spec fn result_view(r: Result<LaunchSpec, ResolutionError>) -> Result<
    LaunchSpecView,
    Seq<char>,
> {
    match r {
        Ok(launch) => Ok(launch@),
        Err(e) => Err(e.spec_identifier()),
    }
}

proof fn lemma_lookup_first_match(
    entries: Seq<(Seq<char>, LaunchSpecView)>,
    id: Seq<char>,
    k: int,
)
    requires
        0 <= k < entries.len(),
        entries[k].0 == id,
        forall|j: int| 0 <= j < k ==> entries[j].0 != id,
    ensures
        lookup(entries, id) == Some(entries[k].1),
    decreases k,
{
    if k > 0 {
        assert(entries[0].0 != id);
        assert forall|j: int| 0 <= j < k - 1 implies entries.drop_first()[j].0 != id by {
            assert(entries.drop_first()[j] == entries[j + 1]);
        }
        lemma_lookup_first_match(entries.drop_first(), id, k - 1);
        assert(entries.drop_first()[k - 1] == entries[k]);
    }
}

proof fn lemma_lookup_none(entries: Seq<(Seq<char>, LaunchSpecView)>, id: Seq<char>)
    requires
        forall|j: int| 0 <= j < entries.len() ==> entries[j].0 != id,
    ensures
        lookup(entries, id) is None,
    decreases entries.len(),
{
    if entries.len() > 0 {
        assert forall|j: int|
            0 <= j < entries.drop_first().len() implies entries.drop_first()[j].0 != id by {
            assert(entries.drop_first()[j] == entries[j + 1]);
        }
        lemma_lookup_none(entries.drop_first(), id);
    }
}

/// Maps a server identifier to the launch specification registered for it.
///
/// Pure and total: no I/O, nothing is launched, and every identifier yields
/// either the registered launch specification or `UnknownServer` carrying
/// the identifier verbatim.
pub fn resolve(identifier: &str) -> (r: Result<LaunchSpec, ResolutionError>)
    ensures
        result_view(r) == spec_resolve(identifier@),
        r matches Ok(launch) ==> launch@.wf(),
{
    let id = identifier.to_owned();
    let mut entries = registry();
    let ghost table = spec_registry();
    let mut i: usize = 0;
    while i < entries.len()
        invariant
            i <= entries@.len(),
            entries@.len() == table.len(),
            forall|k: int| 0 <= k < entries@.len() ==> #[trigger] entries@[k]@ == table[k],
            table == spec_registry(),
            id@ == identifier@,
            forall|k: int| 0 <= k < i ==> table[k].0 != identifier@,
        decreases entries@.len() - i,
    {
        if entries[i].identifier == id {
            proof {
                assert(entries@[i as int]@ == table[i as int]);
            }
            let entry = entries.remove(i);
            proof {
                lemma_lookup_first_match(table, identifier@, i as int);
                lemma_registry_wf();
            }
            return Ok(entry.launch);
        }
        proof {
            assert(entries@[i as int]@.0 == table[i as int].0);
        }
        i = i + 1;
    }
    proof {
        lemma_lookup_none(table, identifier@);
    }
    Err(ResolutionError::UnknownServer(id))
}

/// Resolution succeeds exactly on the registered identifiers, and the
/// success value is the launch specification the registry holds for the
/// identifier.
pub proof fn lemma_resolution_succeeds_on_registered(id: Seq<char>)
    ensures
        registered(id) <==> spec_resolve(id) is Ok,
        registered(id) ==> spec_resolve(id) == Ok::<LaunchSpecView, Seq<char>>(
            lookup(spec_registry(), id).unwrap(),
        ),
{
}

/// Resolution of an unregistered identifier fails with `UnknownServer`, and
/// the error payload is the identifier verbatim: no truncation, no
/// transformation.
pub proof fn lemma_unknown_server_verbatim(id: Seq<char>)
    ensures
        !registered(id) ==> spec_resolve(id) == Err::<LaunchSpecView, Seq<char>>(id),
{
}

/// Resolution is deterministic: any two results that `resolve` may return
/// for the same identifier are structurally equal.
pub proof fn lemma_resolution_deterministic(
    id: Seq<char>,
    r1: Result<LaunchSpec, ResolutionError>,
    r2: Result<LaunchSpec, ResolutionError>,
)
    requires
        result_view(r1) == spec_resolve(id),
        result_view(r2) == spec_resolve(id),
    ensures
        result_view(r1) == result_view(r2),
{
}

/// Resolution is total: every identifier maps to exactly one of the two
/// outcomes — success with the registered launch specification, or
/// `UnknownServer` — never to both and never to neither.
pub proof fn lemma_resolution_total(id: Seq<char>)
    ensures
        spec_resolve(id) is Ok <==> registered(id),
        spec_resolve(id) is Err <==> !registered(id),
        registered(id) ==> spec_resolve(id) == Ok::<LaunchSpecView, Seq<char>>(
            lookup(spec_registry(), id).unwrap(),
        ),
        !registered(id) ==> spec_resolve(id) == Err::<LaunchSpecView, Seq<char>>(id),
{
}

} // verus!
