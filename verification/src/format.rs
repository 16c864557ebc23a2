//! Wire formats and their identifiers.
use vstd::prelude::*;
use vstd::string::*;

verus! {

/// Wire format with a known identifier.
#[derive(Clone, Copy, Debug, Eq, PartialEq, Structural)]
pub enum WireFormat {
    /// OpenAI Chat Completions.
    OpenAiChat,
    /// Amazon Bedrock Converse.
    BedrockConverse,
}

impl WireFormat {
    /// Identifier of the format.
    pub open spec fn name(self) -> Seq<char> {
        match self {
            WireFormat::OpenAiChat => "openai_chat"@,
            WireFormat::BedrockConverse => "bedrock_converse"@,
        }
    }

    /// Identifier of the format.
    pub fn as_str(self) -> (name: &'static str)
        ensures
            name@ == self.name(),
    {
        match self {
            WireFormat::OpenAiChat => "openai_chat",
            WireFormat::BedrockConverse => "bedrock_converse",
        }
    }

    /// Identifier of the format, as a value that other formats share the type of.
    pub fn id(self) -> (id: FormatId)
        ensures
            id@ == self.name(),
    {
        FormatId(self.as_str().to_owned())
    }
}

/// Identifier of a wire format, known or not.
#[derive(Debug, Eq, PartialEq)]
pub struct FormatId(String);

impl View for FormatId {
    type V = Seq<char>;

    closed spec fn view(&self) -> Seq<char> {
        self.0@
    }
}

impl Clone for FormatId {
    /// Copies the identifier.
    fn clone(&self) -> (copy: Self)
        ensures
            copy == *self,
    {
        FormatId(self.0.clone())
    }
}

impl FormatId {
    /// Creates an identifier.
    pub fn new(name: String) -> (id: Self)
        ensures
            id@ == name@,
    {
        FormatId(name)
    }

    /// The identifier as text.
    pub fn as_str(&self) -> (name: &str)
        ensures
            name@ == self@,
    {
        self.0.as_str()
    }
}

} // verus!
