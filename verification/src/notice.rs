//! Messages for the notification sink.
//!
//! The supervisor never talks to the screen itself: it hands values of
//! these types to its caller, which renders or logs them.

use vstd::prelude::*;

verus! {

/// How a message should be presented.
#[derive(Debug, Clone, Copy, PartialEq, Eq, Structural)]
pub enum NoticeLevel {
    Info,
    Success,
    Error,
}

/// One human-readable message for the notification sink.
#[derive(Debug, Clone)]
pub struct Notice {
    pub text: String,
    pub level: NoticeLevel,
}

} // verus!
