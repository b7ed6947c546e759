//! A client for the Zeebe workflow engine: request builders whose wire messages,
//! responses, the OAuth token cache and the job worker's decisions, each with a
//! contract proved by Verus.
use vstd::prelude::*;

pub mod client;
pub mod decision;
pub mod foreign;
pub mod incident;
pub mod job;
pub mod message;
pub mod oauth;
pub mod resource;
pub mod set_variables;
pub mod signal;
pub mod process_instance;
pub mod protocol;
pub mod text;
pub mod throw_error;
pub mod time;
pub mod topology;
pub mod worker;

verus! {

} // verus!
