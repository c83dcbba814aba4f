//! The uniform result of a tool call: blocks of content and an error flag.
use vstd::prelude::*;

verus! {

/// One block of a result. Text is the only kind there is.
#[derive(Debug)]
pub enum CallToolResultContent {
    Text { text: String },
}

/// What a tool call hands back, whether it went well or not. A failure that
/// belongs to the tool's work (a refused path, an anchor that is not unique,
/// an error of the disk) is a result with `is_error` set, never a protocol
/// error.
#[derive(Debug)]
pub struct CallToolResult {
    pub content: Vec<CallToolResultContent>,
    pub is_error: bool,
}

/// A result as contracts read it.
pub ghost struct Outcome {
    pub texts: Seq<Seq<char>>,
    pub is_error: bool,
}

/// The text of one block.
pub open spec fn block_text(block: CallToolResultContent) -> Seq<char> {
    match block {
        CallToolResultContent::Text { text } => text@,
    }
}

impl View for CallToolResult {
    type V = Outcome;

    open spec fn view(&self) -> Outcome {
        Outcome {
            texts: Seq::new(self.content@.len(), |k: int| block_text(self.content@[k])),
            is_error: self.is_error,
        }
    }
}

/// The result of one text that reports success.
pub open spec fn success(text: Seq<char>) -> Outcome {
    Outcome { texts: seq![text], is_error: false }
}

/// The result of one text that reports a failure.
pub open spec fn failure(text: Seq<char>) -> Outcome {
    Outcome { texts: seq![text], is_error: true }
}

impl CallToolResult {
    /// A result of one block of text.
    pub fn text(text: String, is_error: bool) -> (r: CallToolResult)
        ensures
            r@ == (Outcome { texts: seq![text@], is_error }),
    {
        let mut content: Vec<CallToolResultContent> = Vec::new();
        content.push(CallToolResultContent::Text { text });
        let r = CallToolResult { content, is_error };
        assert(r@.texts == seq![text@]);
        r
    }

    /// A result that reports success.
    pub fn ok(text: String) -> (r: CallToolResult)
        ensures
            r@ == success(text@),
    {
        CallToolResult::text(text, false)
    }

    /// A result that reports a failure.
    pub fn error(text: String) -> (r: CallToolResult)
        ensures
            r@ == failure(text@),
    {
        CallToolResult::text(text, true)
    }
}

} // verus!
