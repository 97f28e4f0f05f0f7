use vstd::prelude::*;

verus! {

/// Errors a chat request can be refused with.
#[derive(Debug, Clone, Copy, PartialEq, Eq, Structural)]
pub enum ChatError {
    /// A user without an active VIP membership used up the daily chat quota.
    ExceedTheChatPerDayLimit,
}

impl ChatError {
    /// The numeric error code reported to clients.
    pub fn error_code(&self) -> (code: &'static str)
        ensures
            code@ == "0040010001"@,
    {
        match self {
            ChatError::ExceedTheChatPerDayLimit => "0040010001",
        }
    }

    /// The human readable message reported to clients.
    pub fn error_message(&self) -> (message: &'static str)
        ensures
            message@ == "超出每天次数限制"@,
    {
        match self {
            ChatError::ExceedTheChatPerDayLimit => "超出每天次数限制",
        }
    }

    /// The symbolic, English error code reported to clients.
    pub fn error_code_en(&self) -> (code: &'static str)
        ensures
            code@ == "EXCEED_THE_CHAT_PER_DAY_LIMIT"@,
    {
        match self {
            ChatError::ExceedTheChatPerDayLimit => "EXCEED_THE_CHAT_PER_DAY_LIMIT",
        }
    }
}

} // verus!
