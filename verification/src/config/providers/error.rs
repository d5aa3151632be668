use vstd::prelude::*;

verus! {

/// A provider's settings lack something that an LLM client needs.
#[derive(Debug)]
pub enum ToLLMBuilderError {
    /// The provider and the setting that is required but not configured.
    RequiredConfiguration(&'static str, &'static str),
    ModelError(ToModelInfoError),
}

/// No model could be determined for a provider.
#[derive(Debug, Clone, PartialEq, Eq)]
pub enum ToModelInfoError {
    /// The setting that is required but not configured.
    RequiredConfiguration(&'static str),
}

impl ToModelInfoError {
    /// The error's message.
    pub fn message(&self) -> (r: String)
        ensures
            r@ == "'"@ + self.setting()@ + "' is required but not configured"@,
    {
        let mut r = crate::text::string_of("'");
        match self {
            ToModelInfoError::RequiredConfiguration(s) => crate::text::push_str(&mut r, s),
        }
        crate::text::push_str(&mut r, "' is required but not configured");
        r
    }

    pub open spec fn setting(&self) -> &'static str {
        match self {
            ToModelInfoError::RequiredConfiguration(s) => *s,
        }
    }
}

} // verus!
