use vstd::prelude::*;

verus! {

/// What is known of an execution before it ends, for its statistics record.
#[derive(Debug)]
pub struct PartialLogRecord {
    pub promptname: String,
    pub group: Option<String>,
    pub variant: Option<String>,
    pub provider: String,
    pub model: String,
    pub cache_key: Option<i64>,
}

/// What is known of an execution when it ends.
#[derive(Debug)]
pub struct ExecutionLogData<'a> {
    pub prompt_tokens: u32,
    pub completion_tokens: u32,
    pub result: &'a str,
    pub success: bool,
    pub time_taken: u32,
}


/// What a chat that did not stream answered, as its statistics record it.
#[derive(Debug)]
pub struct ChatOutcome {
    pub success: bool,
    pub text: String,
    pub prompt_tokens: u32,
    pub completion_tokens: u32,
}

/// `r` is the outcome of the model's reply `reply`: on success its text
/// (empty where it gave none) and its token counts (zero where it reported no
/// usage); on failure the failure's message, with no tokens.
pub open spec fn reply_outcome(reply: Result<(Option<String>, Option<(u32, u32)>), String>, r: ChatOutcome) -> bool {
    match reply {
        Ok((text, usage)) => {
            &&& r.success
            &&& r.text@ == match text {
                Some(t) => t@,
                None => Seq::empty(),
            }
            &&& (r.prompt_tokens, r.completion_tokens) == match usage {
                Some(u) => u,
                None => (0u32, 0u32),
            }
        },
        Err(m) => !r.success && r.text@ == m@ && r.prompt_tokens == 0 && r.completion_tokens == 0,
    }
}

impl ChatOutcome {
    /// The outcome of the model's reply: on success its text (empty where
    /// it gave none) and its prompt and completion token counts (zero where
    /// it reported no usage); on failure the failure's message, with no
    /// tokens.
    pub fn from_reply(reply: Result<(Option<String>, Option<(u32, u32)>), String>) -> (r:
        ChatOutcome)
        ensures
            reply_outcome(reply, r),
    {
        match reply {
            Ok((text, usage)) => {
                let text = match text {
                    Some(t) => t,
                    None => String::new(),
                };
                let (prompt_tokens, completion_tokens) = match usage {
                    Some(u) => u,
                    None => (0, 0),
                };
                ChatOutcome { success: true, text, prompt_tokens, completion_tokens }
            },
            Err(m) => ChatOutcome { success: false, text: m, prompt_tokens: 0, completion_tokens: 0 },
        }
    }

    /// The record of the chat: its outcome, its whole text and the time it
    /// took.
    pub fn log_data(&self, time_taken: u32) -> (r: ExecutionLogData<'_>)
        ensures
            r.success == self.success,
            r.result@ == self.text@,
            r.prompt_tokens == self.prompt_tokens,
            r.completion_tokens == self.completion_tokens,
            r.time_taken == time_taken,
    {
        ExecutionLogData {
            prompt_tokens: self.prompt_tokens,
            completion_tokens: self.completion_tokens,
            result: self.text.as_str(),
            success: self.success,
            time_taken,
        }
    }
}

} // verus!
