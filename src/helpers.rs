//! Small readers of host values.
use vstd::prelude::*;

use crate::host::{Event, Reply, SubMsgResponse, SubMsgResult};

verus! {

/// The success payload of a reply, or the error text of a failed one.
pub fn unwrap_reply(reply: Reply) -> (r: Result<SubMsgResponse, String>)
    ensures
        match reply.result {
            SubMsgResult::Success(resp) => r == Ok::<SubMsgResponse, String>(resp),
            SubMsgResult::Failure(e) => r == Err::<SubMsgResponse, String>(e),
        },
{
    match reply.result {
        SubMsgResult::Success(resp) => Ok(resp),
        SubMsgResult::Failure(e) => Err(e),
    }
}

/// Whether some attribute of `event` has key `key`.
pub fn event_contains_attr(event: &Event, key: &str) -> (r: bool)
    ensures
        r == exists|i: int| 0 <= i < event.attributes@.len() && #[trigger] event.attributes@[i].key@ == key@,
{
    let k = key.to_string();
    let mut i: usize = 0;
    while i < event.attributes.len()
        invariant
            k@ == key@,
            i <= event.attributes@.len(),
            forall|j: int| 0 <= j < i ==> #[trigger] event.attributes@[j].key@ != key@,
        decreases event.attributes@.len() - i,
    {
        if event.attributes[i].key == k {
            return true;
        }
        i += 1;
    }
    false
}

} // verus!
