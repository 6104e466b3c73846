//! Core of a door access-control daemon: an authorization loop that gates
//! presented identity keys against an allow list, drives a challenge-response
//! authentication exchange, and issues serialized unlock commands to the
//! door actuator, recovering from transient failures without terminating.

pub mod access_loop;
pub mod actuator;
pub mod allow_list;
pub mod auth;
