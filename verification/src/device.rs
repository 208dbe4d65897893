use vstd::prelude::*;

use crate::text::{contains, has_infix, has_prefix, lemma_prefix_by_chars, starts_with};

verus! {

/// Whether a file under `/dev/input` is an event node: its name starts with
/// `event`.
pub fn is_event_node(file_name: &str) -> (r: bool)
    ensures
        r == has_prefix(file_name@, "event"@),
{
    starts_with(file_name, "event")
}

/// The event nodes are exactly the files whose names begin with the five
/// letters `e`, `v`, `e`, `n`, `t`.
pub proof fn lemma_event_node_names(name: Seq<char>)
    ensures
        has_prefix(name, "event"@) == (name.len() >= 5 && name[0] == 'e' && name[1] == 'v'
            && name[2] == 'e' && name[3] == 'n' && name[4] == 't'),
{
    reveal_strlit("event");
    lemma_prefix_by_chars(name, "event"@);
}

/// Whether a device whose name is `dev_name` is the device sought under the
/// name `wanted`: the sought name occurs in the device's name.
pub fn names_device(dev_name: &str, wanted: &str) -> (r: bool)
    ensures
        r == has_infix(dev_name@, wanted@),
{
    contains(dev_name, wanted)
}

} // verus!
