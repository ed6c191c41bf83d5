//! Handlers over the demo service types.
//!
//! Each takes the services it depends on as plain parameters; a caller (or a
//! wrapper composed over a resolver) performs one resolution per parameter
//! and passes the results in.

use vstd::prelude::*;
use vstd::string::StringExecFns;

use crate::models::AppConfig;
use crate::models::AppState;
use crate::models::S3Client;

verus! {

/// Overwrite the subject the state speaks of, leaving the greeting alone.
pub fn write_handler(_config: &AppConfig, state: &mut AppState)
    ensures
        final(state).subject@ == "penguins"@,
        final(state).greeting == old(state).greeting,
{
    state.subject = String::from_str("penguins");
}

/// The greeting line the state currently stands for.
pub fn read_handler(_config: &AppConfig, state: &AppState) -> (r: String)
    ensures
        r@ == state.greeting@ + " "@ + state.subject@ + "!"@,
{
    let mut message = state.greeting.clone();
    message.append(" ");
    message.append(state.subject.as_str());
    message.append("!");
    message
}

/// Exercise a freshly produced client.
pub fn s3_handler(_config: &AppConfig, client: S3Client) {
    client.list_objects();
    client.get_object();
}

} // verus!
