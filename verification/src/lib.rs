//! Module-side implementation of the conversation boundary of a PAM-style
//! authentication framework: one message crosses to the host-supplied
//! callback, and the optional reply is carried back, with every failure on
//! the boundary classified into a fixed result vocabulary.

pub mod constants;
pub mod conv;
