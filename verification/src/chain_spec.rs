//! Choosing the chain specification a node starts from.

use vstd::prelude::*;

use crate::runtime::RuntimeKind;
use crate::text::str_equals;

verus! {

/// Where a chain specification comes from.
#[derive(Clone, Debug, PartialEq, Eq)]
pub enum ChainSpecSource {
    /// The built-in development chain (`dev`).
    Development,
    /// The built-in local testnet (`local`, or no identifier at all).
    LocalTestnet,
    /// A JSON chain specification read from the given path.
    JsonFile(String),
}

/// The identifier of the development chain.
pub open spec fn dev_id() -> Seq<char> {
    "dev"@
}

/// The identifier of the local testnet.
pub open spec fn local_id() -> Seq<char> {
    "local"@
}

/// The empty identifier, which also selects the local testnet.
pub open spec fn empty_id() -> Seq<char> {
    ""@
}

/// The message given when the node was built without any runtime.
pub open spec fn no_runtime_message() -> Seq<char> {
    "No runtime is included in this build"@
}

/// What a chain identifier selects.
pub open spec fn source_matches(id: Seq<char>, s: ChainSpecSource) -> bool {
    if id == dev_id() {
        s == ChainSpecSource::Development
    } else if id == empty_id() || id == local_id() {
        s == ChainSpecSource::LocalTestnet
    } else {
        s matches ChainSpecSource::JsonFile(path) && path@ == id
    }
}

/// The three reserved identifiers differ from one another.
proof fn lemma_reserved_ids_distinct()
    ensures
        dev_id() != local_id(),
        dev_id() != empty_id(),
        local_id() != empty_id(),
{
    reveal_strlit("dev");
    reveal_strlit("local");
    reveal_strlit("");
    assert(dev_id().len() == 3);
    assert(local_id().len() == 5);
    assert(empty_id().len() == 0);
}

/// Maps a chain identifier to its source: `dev` is the development chain,
/// `local` or the empty identifier the local testnet, and anything else a
/// path to a JSON chain specification.
pub fn chain_spec_source(id: &str) -> (s: ChainSpecSource)
    ensures
        source_matches(id@, s),
        (s == ChainSpecSource::Development) <==> id@ == "dev"@,
        (s == ChainSpecSource::LocalTestnet) <==> (id@ == ""@ || id@ == "local"@),
        s matches ChainSpecSource::JsonFile(path) ==> path@ == id@,
{
    proof {
        lemma_reserved_ids_distinct();
    }
    if str_equals(id, "dev") {
        ChainSpecSource::Development
    } else if str_equals(id, "") || str_equals(id, "local") {
        ChainSpecSource::LocalTestnet
    } else {
        ChainSpecSource::JsonFile(String::from_str(id))
    }
}

/// Decides which runtime's chain specification to load for `id`. Fails with
/// the message "No runtime is included in this build" exactly when no
/// runtime was built in.
pub fn load_spec(runtime: Option<RuntimeKind>, id: &str) -> (r: Result<
    (RuntimeKind, ChainSpecSource),
    String,
>)
    ensures
        runtime is None <==> r is Err,
        r matches Err(msg) ==> msg@ == no_runtime_message(),
        r matches Ok((kind, source)) ==> runtime == Some(kind) && source_matches(id@, source),
        r matches Ok((kind, source)) ==> ((source == ChainSpecSource::Development) <==> id@
            == "dev"@),
        r matches Ok((kind, source)) ==> ((source == ChainSpecSource::LocalTestnet) <==> (id@
            == ""@ || id@ == "local"@)),
        r matches Ok((kind, source)) ==> (source matches ChainSpecSource::JsonFile(path)
            ==> path@ == id@),
{
    match runtime {
        Some(kind) => Ok((kind, chain_spec_source(id))),
        None => Err(String::from_str("No runtime is included in this build")),
    }
}

/// Only the exact identifier "dev" selects the development chain, and only
/// "local" or the empty identifier the local testnet; any other identifier is
/// read as the path of a JSON chain specification, kept as given.
pub proof fn lemma_chain_spec_source_by_id(id: Seq<char>, s: ChainSpecSource)
    requires
        source_matches(id, s),
    ensures
        (s == ChainSpecSource::Development) <==> id == "dev"@,
        (s == ChainSpecSource::LocalTestnet) <==> (id == ""@ || id == "local"@),
        (id != "dev"@ && id != ""@ && id != "local"@) ==> (s matches ChainSpecSource::JsonFile(
            path,
        ) && path@ == id),
{
    lemma_reserved_ids_distinct();
}

} // verus!
