use vstd::prelude::*;

use crate::executor::partiallog::{ExecutionLogData, PartialLogRecord};
use crate::executor::streaming_code_extractor::{run, settled, StreamingCodeExtractor, StateView};
use crate::executor::OutputFormat;
use crate::text::{contains_seq, contains_str, push_str};

verus! {

/// One chunk of a structured stream: the content of each of its choices,
/// where it has one, and the token counts it reports, if any.
#[derive(Debug)]
pub struct StreamChunk {
    pub contents: Vec<Option<String>>,
    pub usage: Option<(u32, u32)>,
}

/// The contents of the choices that have one, one after the other.
pub open spec fn chunk_text(cs: Seq<Option<String>>) -> Seq<char>
    decreases cs.len(),
{
    if cs.len() == 0 {
        Seq::empty()
    } else {
        chunk_text(cs.drop_last()) + match cs.last() {
            Some(s) => s@,
            None => Seq::empty(),
        }
    }
}

fn join_contents(cs: &Vec<Option<String>>) -> (r: String)
    ensures
        r@ == chunk_text(cs@),
{
    let mut r = String::new();
    let mut i: usize = 0;
    while i < cs.len()
        invariant
            i <= cs@.len(),
            r@ == chunk_text(cs@.take(i as int)),
        decreases cs@.len() - i,
    {
        proof {
            assert(cs@.take(i + 1).drop_last() =~= cs@.take(i as int));
        }
        if let Some(s) = &cs[i] {
            push_str(&mut r, s.as_str());
        } else {
            assert(r@ =~= chunk_text(cs@.take(i as int)) + Seq::<char>::empty());
        }
        i = i + 1;
    }
    proof {
        assert(cs@.take(cs@.len() as int) =~= cs@);
    }
    r
}

/// The state of an execution whose answer arrives as a stream of
/// structured chunks.
pub struct StructuredStreamingOutputState {
    pub partial_log_record: PartialLogRecord,
    pub result_data: String,
    pub usage_prompt_tokens: u32,
    pub usage_completion_tokens: u32,
    pub output_format: OutputFormat,
    pub streaming_code_extractor: StreamingCodeExtractor,
    pub found_fenced_code: bool,
}

impl StructuredStreamingOutputState {
    pub fn new(partial_log_record: PartialLogRecord, output_format: OutputFormat) -> (r: Self)
        ensures
            r.partial_log_record == partial_log_record,
            r.result_data@ == Seq::<char>::empty(),
            r.usage_prompt_tokens == 0 && r.usage_completion_tokens == 0,
            r.output_format == output_format,
            r.streaming_code_extractor.state_view() == StateView::OutsideCode,
            !r.found_fenced_code,
    {
        StructuredStreamingOutputState {
            partial_log_record,
            result_data: String::new(),
            usage_prompt_tokens: 0,
            usage_completion_tokens: 0,
            output_format,
            streaming_code_extractor: StreamingCodeExtractor::new(),
            found_fenced_code: false,
        }
    }

    /// Takes a chunk: its text is kept, and its token counts where it
    /// reports them. Once the answer so far holds a fence, an answer in code
    /// format hands on only the code that the chunk reveals, and nothing
    /// (`None`: take the next chunk) while the extractor stands inside a
    /// fence; any other answer hands on the chunk's text.
    pub fn on_chunk(&mut self, chunk: StreamChunk) -> (r: Option<String>)
        ensures
            ({
                let mapped = chunk_text(chunk.contents@);
                let found = old(self).found_fenced_code || contains_seq(
                    old(self).result_data@ + mapped,
                    "```"@,
                );
                let ran = run(old(self).streaming_code_extractor.state_view(), mapped);
                &&& final(self).partial_log_record == old(self).partial_log_record
                &&& final(self).output_format == old(self).output_format
                &&& final(self).result_data@ == old(self).result_data@ + mapped
                &&& match chunk.usage {
                    Some(u) => final(self).usage_prompt_tokens == u.0
                        && final(self).usage_completion_tokens == u.1,
                    None => final(self).usage_prompt_tokens == old(self).usage_prompt_tokens
                        && final(self).usage_completion_tokens == old(
                        self,
                    ).usage_completion_tokens,
                }
                &&& final(self).found_fenced_code == found
                &&& if old(self).output_format == OutputFormat::Code && found {
                    &&& final(self).streaming_code_extractor.state_view() == ran.0
                    &&& final(self).streaming_code_extractor.blocks_view()
                        == old(self).streaming_code_extractor.blocks_view() + ran.2
                    &&& if settled(ran.0) {
                        r matches Some(t) && t@ == ran.1
                    } else {
                        r is None
                    }
                } else {
                    &&& final(self).streaming_code_extractor == old(self).streaming_code_extractor
                    &&& r matches Some(t) && t@ == mapped
                }
            }),
    {
        let mapped = join_contents(&chunk.contents);
        push_str(&mut self.result_data, mapped.as_str());
        if let Some(u) = chunk.usage {
            self.usage_prompt_tokens = u.0;
            self.usage_completion_tokens = u.1;
        }
        self.found_fenced_code = self.found_fenced_code || contains_str(
            self.result_data.as_str(),
            "```",
        );
        if self.output_format == OutputFormat::Code && self.found_fenced_code {
            let mut buffer = String::new();
            let settled_now = self.streaming_code_extractor.feed(mapped.as_str(), &mut buffer);
            assert(buffer@ =~= run(old(self).streaming_code_extractor.state_view(), mapped@).1);
            if settled_now {
                Some(buffer)
            } else {
                None
            }
        } else {
            Some(mapped)
        }
    }

    /// The record of the execution once the stream has failed (no token
    /// counts, no time) or ended (the counts last reported and the time
    /// taken), with the text received so far.
    pub fn log_data(&self, success: bool, time_taken: u32) -> (r: ExecutionLogData<'_>)
        ensures
            r.result@ == self.result_data@,
            r.success == success,
            success ==> r.prompt_tokens == self.usage_prompt_tokens && r.completion_tokens
                == self.usage_completion_tokens && r.time_taken == time_taken,
            !success ==> r.prompt_tokens == 0 && r.completion_tokens == 0 && r.time_taken == 0,
    {
        if success {
            ExecutionLogData {
                prompt_tokens: self.usage_prompt_tokens,
                completion_tokens: self.usage_completion_tokens,
                result: self.result_data.as_str(),
                success,
                time_taken,
            }
        } else {
            ExecutionLogData {
                prompt_tokens: 0,
                completion_tokens: 0,
                result: self.result_data.as_str(),
                success,
                time_taken: 0,
            }
        }
    }
}

} // verus!
