//! Jobs: activated jobs and the requests that complete, fail or update them.
pub mod activated_job;
pub mod complete;
pub mod fail;
pub mod update_retries;
pub mod update_timeout;
