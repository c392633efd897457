//! Request-handling rules of the bearTracks scouting server: who is signed
//! in, which account may reach which API endpoint, and what a refused
//! request is answered.

pub mod access;
pub mod reply;
pub mod session;
pub mod user;
