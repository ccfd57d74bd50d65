//! Small configuration enums that model metadata refers to.
use vstd::prelude::*;

verus! {

/// How much reasoning summary the model reports.
#[derive(Debug, Clone, Copy, PartialEq, Eq, Structural, Hash)]
pub enum ReasoningSummary {
    Auto,
    Concise,
    Detailed,
    NoSummary,
}

/// Summaries are chosen automatically unless configured.
impl Default for ReasoningSummary {
    fn default() -> (r: ReasoningSummary)
        ensures
            r == ReasoningSummary::Auto,
    {
        ReasoningSummary::Auto
    }
}

/// How verbose the model's answers are.
#[derive(Debug, Clone, Copy, PartialEq, Eq, Structural, Hash)]
pub enum Verbosity {
    Low,
    Medium,
    High,
}

/// Whether and how the model may search the web.
#[derive(Debug, Clone, Copy, PartialEq, Eq, Structural, Hash)]
pub enum WebSearchMode {
    Disabled,
    Cached,
    Live,
}

/// A processing tier that a request can ask for.
#[derive(Debug, Clone, Copy, PartialEq, Eq, Structural, Hash)]
pub enum ServiceTier {
    Fast,
    Flex,
}

/// The value that a request sends for a tier.
pub open spec fn spec_request_value(t: ServiceTier) -> Seq<char> {
    match t {
        ServiceTier::Fast => "priority"@,
        ServiceTier::Flex => "flex"@,
    }
}

impl ServiceTier {
    /// The value that a request sends for the tier.
    pub fn request_value(self) -> (r: &'static str)
        ensures
            r@ == spec_request_value(self),
    {
        match self {
            ServiceTier::Fast => "priority",
            ServiceTier::Flex => "flex",
        }
    }
}

/// The tier a request or configuration value names: the request value of a
/// tier, or `fast` for the fast tier as the configuration file writes it.
pub open spec fn spec_tier_from_request_value(s: Seq<char>) -> Option<ServiceTier> {
    if s == "priority"@ || s == "fast"@ {
        Some(ServiceTier::Fast)
    } else if s == "flex"@ {
        Some(ServiceTier::Flex)
    } else {
        None
    }
}

impl ServiceTier {
    /// The tier a request or configuration value names, if any.
    pub fn from_request_value(s: &str) -> (r: Option<ServiceTier>)
        ensures
            r == spec_tier_from_request_value(s@),
    {
        if crate::text::str_eq(s, "priority") || crate::text::str_eq(s, "fast") {
            Some(ServiceTier::Fast)
        } else if crate::text::str_eq(s, "flex") {
            Some(ServiceTier::Flex)
        } else {
            None
        }
    }
}

/// The request value that stands for "no particular tier".
pub const SERVICE_TIER_DEFAULT_REQUEST_VALUE: &'static str = "default";

} // verus!
