//! The registry: the fixed table of known server identifiers and the launch
//! specifications associated with them. Adding a server is a change to this
//! table, not to the resolver.

use vstd::prelude::*;

use crate::launch::LaunchSpec;
use crate::launch::LaunchSpecView;

verus! {

/// One row of the registry: a server identifier and the launch
/// specification returned for it.
pub struct RegistryEntry {
    pub identifier: String,
    pub launch: LaunchSpec,
}

impl View for RegistryEntry {
    type V = (Seq<char>, LaunchSpecView);

    open spec fn view(&self) -> (Seq<char>, LaunchSpecView) {
        (self.identifier@, self.launch@)
    }
}

/// The registered entries, as mathematical values. This is the reference
/// that the resolver's contract speaks of.
pub open spec fn spec_registry() -> Seq<(Seq<char>, LaunchSpecView)> {
    seq![
        (
            "notepadpp-mcp"@,
            LaunchSpecView {
                executable: "uv"@,
                arguments: seq!["run"@, "notepadpp_mcp.tools.server:run"@],
                environment: Seq::<(Seq<char>, Seq<char>)>::empty(),
            },
        ),
    ]
}

/// Every registered launch specification is well formed: its environment
/// overrides name no variable twice.
pub proof fn lemma_registry_wf()
    ensures
        forall|i: int|
            0 <= i < spec_registry().len() ==> (#[trigger] spec_registry()[i].1).wf(),
{
    assert forall|i: int| 0 <= i < spec_registry().len() implies (
    #[trigger] spec_registry()[i].1).wf() by {
        assert(spec_registry()[i].1.environment.len() == 0);
    }
}

/// Builds the registry table, fresh on each call.
pub fn registry() -> (entries: Vec<RegistryEntry>)
    ensures
        entries@.len() == spec_registry().len(),
        forall|i: int|
            0 <= i < entries@.len() ==> #[trigger] entries@[i]@ == spec_registry()[i],
{
    let mut arguments: Vec<String> = Vec::new();
    arguments.push("run".to_owned());
    arguments.push("notepadpp_mcp.tools.server:run".to_owned());
    let launch = LaunchSpec {
        executable: "uv".to_owned(),
        arguments,
        environment: Vec::new(),
    };
    let mut entries: Vec<RegistryEntry> = Vec::new();
    entries.push(RegistryEntry { identifier: "notepadpp-mcp".to_owned(), launch });
    proof {
        assert(entries@[0]@.1.arguments =~= spec_registry()[0].1.arguments);
        assert(entries@[0]@.1.environment =~= spec_registry()[0].1.environment);
        assert(entries@[0]@ =~~= spec_registry()[0]);
    }
    entries
}

} // verus!
