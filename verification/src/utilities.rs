//! Notices from the client that ask for no answer, and the roots that the
//! server names.
use crate::requests::CancelledNotification;
use vstd::prelude::*;

verus! {

/// A root directory that the server names to its client.
#[derive(Debug)]
pub struct Root {
    pub name: String,
    pub url: String,
}

/// The client asked the server to stop. Nothing is held that would have to
/// be let go.
pub fn graceful_shutdown() {
}

/// The client has finished its start-up. Nothing follows from it.
pub fn notifications_initialized() {
}

/// The client gave up on a request. The notice is taken and no work is
/// stopped on its account.
pub fn notifications_cancelled(_params: CancelledNotification) {
}

/// The roots that the server names: one, a project directory.
pub fn roots_list() -> (roots: Vec<Root>)
    ensures
        roots@.len() == 1,
        roots@[0].name@ == "my project"@,
        roots@[0].url@ == "file:///home/user/projects/my-project"@,
{
    let mut roots: Vec<Root> = Vec::new();
    roots.push(
        Root {
            name: "my project".to_owned(),
            url: "file:///home/user/projects/my-project".to_owned(),
        },
    );
    roots
}

} // verus!
