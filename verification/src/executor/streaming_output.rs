use vstd::prelude::*;

use crate::executor::partiallog::{ExecutionLogData, PartialLogRecord};
use crate::text::push_str;

verus! {

/// What a stream of answer text delivers next.
#[derive(Debug)]
pub enum StreamEvent {
    Chunk(String),
    /// The stream failed, with the model's message.
    Failed(String),
    Ended,
}

/// What a streaming execution hands on for an event.
#[derive(Debug)]
pub enum StreamStep {
    Emit(String),
    /// The stream failed: record the failure, then report the message.
    Failed(String),
    /// The stream ended: record the success.
    Ended,
}

/// The state of an execution whose answer arrives as a stream of text.
pub struct StreamingOutputState {
    pub partial_log_record: PartialLogRecord,
    pub result_data: String,
}

impl StreamingOutputState {
    pub fn new(partial_log_record: PartialLogRecord) -> (r: Self)
        ensures
            r.partial_log_record == partial_log_record,
            r.result_data@ == Seq::<char>::empty(),
    {
        StreamingOutputState { partial_log_record, result_data: String::new() }
    }

    /// Takes the next event of the stream: a chunk is kept and handed on.
    pub fn on_event(&mut self, ev: StreamEvent) -> (r: StreamStep)
        ensures
            final(self).partial_log_record == old(self).partial_log_record,
            match ev {
                StreamEvent::Chunk(s) => final(self).result_data@ == old(self).result_data@ + s@
                    && (r matches StreamStep::Emit(t) && t@ == s@),
                StreamEvent::Failed(m) => final(self).result_data@ == old(self).result_data@
                    && (r matches StreamStep::Failed(t) && t@ == m@),
                StreamEvent::Ended => final(self).result_data@ == old(self).result_data@ && r
                    is Ended,
            },
    {
        match ev {
            StreamEvent::Chunk(s) => {
                push_str(&mut self.result_data, s.as_str());
                StreamStep::Emit(s)
            },
            StreamEvent::Failed(m) => StreamStep::Failed(m),
            StreamEvent::Ended => StreamStep::Ended,
        }
    }

    /// The record of the execution once the stream has failed or ended: no
    /// token counts, the text received so far, the outcome and the time
    /// taken (none for a failure).
    pub fn log_data(&self, success: bool, time_taken: u32) -> (r: ExecutionLogData<'_>)
        ensures
            r.prompt_tokens == 0 && r.completion_tokens == 0,
            r.result@ == self.result_data@,
            r.success == success,
            r.time_taken == (if success {
                time_taken
            } else {
                0
            }),
    {
        ExecutionLogData {
            prompt_tokens: 0,
            completion_tokens: 0,
            result: self.result_data.as_str(),
            success,
            time_taken: if success {
                time_taken
            } else {
                0
            },
        }
    }
}

} // verus!
