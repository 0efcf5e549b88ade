//! The listeners that bring queries to a server and take its answers back.

pub mod udp;
