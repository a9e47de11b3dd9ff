//! Decision logic of a TCP echo server and of the load-generating client that
//! exercises it. The sockets, threads and the sample queue live outside this
//! library; each connection role hands its I/O outcomes to a step function here
//! and performs the action that comes back.

pub mod client;
pub mod echo;
pub mod rate;
pub mod stream;
