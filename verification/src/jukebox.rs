//! Arguments for remote control of the server's jukebox.
//!
//! Every jukebox command goes through one operation that takes an
//! action name, an optional index, and any number of song identifiers.

use vstd::prelude::*;

use crate::query::{IntoArg, Query};

verus! {

/// The arguments of one jukebox command: the action, the index when the
/// action takes one, and one `id` pair per song, in order.
pub fn jukebox_control_args(action: &str, index: Option<usize>, ids: &[String]) -> (q: Query)
    ensures
        q@ =~= seq![("action"@, Some(action@)), ("index"@, index.arg_view())] + Seq::new(
            ids@.len(),
            |i: int| ("id"@, ids@[i].arg_view()),
        ),
{
    let mut q = Query::with("action", action);
    q.arg("index", index);
    q.arg_list("id", ids);
    q.build()
}

} // verus!
