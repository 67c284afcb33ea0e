//! The rule that decides which records are forwarded to the consumer.

use vstd::prelude::*;
use crate::level::Level;
use crate::text::starts_with;

verus! {

/// The namespace of this crate's own records.
pub const OWN_NAMESPACE: &'static str = "noxide";

/// The forwarding rule for a bridge whose own namespace is `namespace`: a
/// record whose target begins with the namespace is always forwarded, so that
/// the bridge's own diagnostics stay visible; any other record is forwarded
/// only at `Info` or a more severe level.
pub open spec fn admits(namespace: Seq<char>, target: Seq<char>, level: Level) -> bool {
    namespace.is_prefix_of(target) || level.at_least(Level::Info)
}

/// The filter policy of a bridge: the forwarding rule `admits` for one
/// namespace.
#[derive(Debug)]
pub struct FilterPolicy {
    namespace: String,
}

impl View for FilterPolicy {
    type V = Seq<char>;

    /// The namespace of the policy.
    closed spec fn view(&self) -> Seq<char> {
        self.namespace@
    }
}

impl Default for FilterPolicy {
    /// The policy of a bridge that owns this crate's namespace.
    fn default() -> (policy: FilterPolicy)
        ensures
            policy@ == OWN_NAMESPACE@,
    {
        FilterPolicy { namespace: OWN_NAMESPACE.to_owned() }
    }
}

impl FilterPolicy {
    /// The policy of a bridge that owns `namespace`.
    pub fn new(namespace: String) -> (policy: FilterPolicy)
        ensures
            policy@ == namespace@,
    {
        FilterPolicy { namespace }
    }

    /// The namespace of the policy.
    pub fn namespace(&self) -> (namespace: &str)
        ensures
            namespace@ == self@,
    {
        self.namespace.as_str()
    }

    /// Whether a record of the given target and level is forwarded.
    pub fn enabled(&self, target: &str, level: Level) -> (forwarded: bool)
        ensures
            forwarded == admits(self@, target@, level),
    {
        if starts_with(target, self.namespace.as_str()) {
            true
        } else {
            level.is_at_least(Level::Info)
        }
    }
}

} // verus!
