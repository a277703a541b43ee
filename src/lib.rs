//! A fixed-size worker pool: a job queue shared by a set of workers, with
//! orderly shutdown, plus the request routing of the small HTTP front end
//! that feeds it.

pub mod channel;
pub mod http;
pub mod pool;
pub mod worker;
