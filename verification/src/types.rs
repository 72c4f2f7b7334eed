//! Plain data shapes of the backend conversation: chat messages, the
//! streamed response fragments, and the tool-call results the backend is
//! asked to produce.

use vstd::prelude::*;

verus! {

/// One chat message sent to the backend.
#[derive(Clone, Debug)]
pub struct Message {
    /// `system` or `user`.
    pub role: String,
    /// The message text.
    pub content: String,
}

impl Message {
    /// Builds a message.
    pub fn new(role: String, content: String) -> (m: Message)
        ensures
            m.role == role,
            m.content == content,
    {
        Message { role, content }
    }
}

/// The argument fragment of a streamed tool call.
#[derive(Clone, Debug)]
pub struct FunctionDelta {
    /// The next piece of the tool call's JSON argument text.
    pub arguments: Option<String>,
}

/// One streamed tool-call fragment.
#[derive(Clone, Debug)]
pub struct ToolCallDelta {
    /// The function part of the fragment, when present.
    pub function: Option<FunctionDelta>,
}

/// The delta part of one streamed choice.
#[derive(Clone, Debug)]
pub struct Delta {
    /// Tool-call fragments, when the response streams a tool call.
    pub tool_calls: Option<Vec<ToolCallDelta>>,
}

/// One choice of a streamed response event.
#[derive(Clone, Debug)]
pub struct StreamChoice {
    /// The incremental content of this event.
    pub delta: Delta,
}

/// One decoded server-sent event of the streaming response.
#[derive(Clone, Debug)]
pub struct StreamResponse {
    /// The choices of this event; the first one carries the stream.
    pub choices: Vec<StreamChoice>,
}

impl StreamResponse {
    /// The argument fragment carried by the first tool call of the first
    /// choice, when every level of the nesting is present.
    pub open spec fn spec_first_arguments(self) -> Option<String> {
        if self.choices@.len() == 0 {
            None
        } else {
            match self.choices@[0].delta.tool_calls {
                Some(tcs) => {
                    if tcs@.len() == 0 {
                        None
                    } else {
                        match tcs@[0].function {
                            Some(f) => f.arguments,
                            None => None,
                        }
                    }
                },
                None => None,
            }
        }
    }

    /// Digs the first tool call's argument fragment out of the event.
    pub fn first_tool_arguments(&self) -> (r: Option<&String>)
        ensures
            match r {
                Some(a) => self.spec_first_arguments() == Some(*a),
                None => self.spec_first_arguments() is None,
            },
    {
        if self.choices.len() == 0 {
            return None;
        }
        match &self.choices[0].delta.tool_calls {
            Some(tcs) => {
                if tcs.len() == 0 {
                    return None;
                }
                match &tcs[0].function {
                    Some(f) => match &f.arguments {
                        Some(a) => Some(a),
                        None => None,
                    },
                    None => None,
                }
            },
            None => None,
        }
    }

    /// Appends the event's argument fragment, if any, to the accumulated
    /// tool-call argument text.
    pub fn append_arguments(&self, acc: &mut String)
        ensures
            match self.spec_first_arguments() {
                Some(a) => final(acc)@ == old(acc)@ + a@,
                None => final(acc)@ == old(acc)@,
            },
    {
        match self.first_tool_arguments() {
            Some(a) => {
                acc.append(a.as_str());
            },
            None => {},
        }
    }
}

/// The whole-result payload of the translation tool call.
#[derive(Clone, Debug)]
pub struct TranslationResult {
    /// The translated text.
    pub translated_text: String,
}

/// The whole-result payload of the correction tool call.
#[derive(Clone, Debug)]
pub struct CorrectionResult {
    /// The corrected text.
    pub corrected_text: String,
}

/// The whole-result payload of the improvement tool call.
#[derive(Clone, Debug)]
pub struct ImprovementResult {
    /// The improved text.
    pub improved_text: String,
}

} // verus!
