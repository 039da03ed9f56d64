//! The stages of the pipeline and their fixed order.

use vstd::prelude::*;

verus! {

/// Number of stages in the pipeline.
pub const STAGE_COUNT: u8 = 18;

/// Position of the static resolution in the order.
pub const RESOLVE_AT: u8 = 10;

/// Position of the first post-transform in the order.
pub const FIRST_TRANSFORM_AT: u8 = 11;

/// One stage of the pipeline. The variants stand in the order in which the
/// stages run: the pre-filters, the static resolution, the post-transforms.
#[derive(Clone, Copy, Debug, PartialEq, Eq, Structural)]
pub enum Stage {
    /// Health-probe check.
    Health,
    /// Log emission of method, URI and remote-address annotation.
    Log,
    /// HTTP method allow-list check.
    MethodCheck,
    /// Metrics-endpoint check.
    Metrics,
    /// CORS preflight check.
    CorsPreflight,
    /// Basic-auth check.
    BasicAuth,
    /// Maintenance-mode check.
    Maintenance,
    /// Redirect-rule check.
    Redirects,
    /// Rewrite-rule check.
    Rewrites,
    /// Virtual-host resolution.
    VirtualHosts,
    /// Static resolution.
    Resolve,
    /// Fallback-page substitution.
    FallbackPage,
    /// CORS response-header injection.
    CorsHeaders,
    /// Compression `Vary` annotation.
    CompressionVary,
    /// Content-encoding compression.
    Compression,
    /// Cache-control header injection.
    CacheControl,
    /// Security-header injection.
    SecurityHeaders,
    /// Custom-header injection.
    CustomHeaders,
}

impl Stage {
    /// The stage's position in the order, from 0.
    pub open spec fn ordinal(self) -> int {
        match self {
            Stage::Health => 0,
            Stage::Log => 1,
            Stage::MethodCheck => 2,
            Stage::Metrics => 3,
            Stage::CorsPreflight => 4,
            Stage::BasicAuth => 5,
            Stage::Maintenance => 6,
            Stage::Redirects => 7,
            Stage::Rewrites => 8,
            Stage::VirtualHosts => 9,
            Stage::Resolve => 10,
            Stage::FallbackPage => 11,
            Stage::CorsHeaders => 12,
            Stage::CompressionVary => 13,
            Stage::Compression => 14,
            Stage::CacheControl => 15,
            Stage::SecurityHeaders => 16,
            Stage::CustomHeaders => 17,
        }
    }

    /// The stage at position `i`.
    pub open spec fn at(i: int) -> Stage {
        if i <= 0 {
            Stage::Health
        } else if i == 1 {
            Stage::Log
        } else if i == 2 {
            Stage::MethodCheck
        } else if i == 3 {
            Stage::Metrics
        } else if i == 4 {
            Stage::CorsPreflight
        } else if i == 5 {
            Stage::BasicAuth
        } else if i == 6 {
            Stage::Maintenance
        } else if i == 7 {
            Stage::Redirects
        } else if i == 8 {
            Stage::Rewrites
        } else if i == 9 {
            Stage::VirtualHosts
        } else if i == 10 {
            Stage::Resolve
        } else if i == 11 {
            Stage::FallbackPage
        } else if i == 12 {
            Stage::CorsHeaders
        } else if i == 13 {
            Stage::CompressionVary
        } else if i == 14 {
            Stage::Compression
        } else if i == 15 {
            Stage::CacheControl
        } else if i == 16 {
            Stage::SecurityHeaders
        } else {
            Stage::CustomHeaders
        }
    }

    /// A filter is a pre-filter that answers with a terminal response or
    /// with "continue".
    pub open spec fn spec_is_filter(self) -> bool {
        self == Stage::Health || self == Stage::Metrics || self == Stage::CorsPreflight
            || self == Stage::BasicAuth || self == Stage::Maintenance || self == Stage::Redirects
            || self == Stage::Rewrites
    }

    /// A transform is a stage that runs after the static resolution.
    pub open spec fn spec_is_transform(self) -> bool {
        self.ordinal() >= FIRST_TRANSFORM_AT
    }

    /// The stage's position in the order, from 0.
    pub fn index(self) -> (r: u8)
        ensures
            r == self.ordinal(),
            r < STAGE_COUNT,
            Stage::at(r as int) == self,
    {
        match self {
            Stage::Health => 0,
            Stage::Log => 1,
            Stage::MethodCheck => 2,
            Stage::Metrics => 3,
            Stage::CorsPreflight => 4,
            Stage::BasicAuth => 5,
            Stage::Maintenance => 6,
            Stage::Redirects => 7,
            Stage::Rewrites => 8,
            Stage::VirtualHosts => 9,
            Stage::Resolve => 10,
            Stage::FallbackPage => 11,
            Stage::CorsHeaders => 12,
            Stage::CompressionVary => 13,
            Stage::Compression => 14,
            Stage::CacheControl => 15,
            Stage::SecurityHeaders => 16,
            Stage::CustomHeaders => 17,
        }
    }

    /// The stage at position `i`, where there is one.
    pub fn from_index(i: u8) -> (r: Option<Stage>)
        ensures
            r.is_some() <==> i < STAGE_COUNT,
            r.is_some() ==> r.unwrap() == Stage::at(i as int) && r.unwrap().ordinal() == i,
    {
        if i == 0 {
            Some(Stage::Health)
        } else if i == 1 {
            Some(Stage::Log)
        } else if i == 2 {
            Some(Stage::MethodCheck)
        } else if i == 3 {
            Some(Stage::Metrics)
        } else if i == 4 {
            Some(Stage::CorsPreflight)
        } else if i == 5 {
            Some(Stage::BasicAuth)
        } else if i == 6 {
            Some(Stage::Maintenance)
        } else if i == 7 {
            Some(Stage::Redirects)
        } else if i == 8 {
            Some(Stage::Rewrites)
        } else if i == 9 {
            Some(Stage::VirtualHosts)
        } else if i == 10 {
            Some(Stage::Resolve)
        } else if i == 11 {
            Some(Stage::FallbackPage)
        } else if i == 12 {
            Some(Stage::CorsHeaders)
        } else if i == 13 {
            Some(Stage::CompressionVary)
        } else if i == 14 {
            Some(Stage::Compression)
        } else if i == 15 {
            Some(Stage::CacheControl)
        } else if i == 16 {
            Some(Stage::SecurityHeaders)
        } else if i == 17 {
            Some(Stage::CustomHeaders)
        } else {
            None
        }
    }

    #[verifier::when_used_as_spec(spec_is_filter)]
    pub fn is_filter(self) -> (r: bool)
        ensures
            r == self.spec_is_filter(),
    {
        match self {
            Stage::Health
            | Stage::Metrics
            | Stage::CorsPreflight
            | Stage::BasicAuth
            | Stage::Maintenance
            | Stage::Redirects
            | Stage::Rewrites => true,
            _ => false,
        }
    }

    #[verifier::when_used_as_spec(spec_is_transform)]
    pub fn is_transform(self) -> (r: bool)
        ensures
            r == self.spec_is_transform(),
    {
        self.index() >= FIRST_TRANSFORM_AT
    }
}

/// Every position under the stage count belongs to exactly one stage.
pub proof fn lemma_stage_positions(i: int)
    requires
        0 <= i < STAGE_COUNT,
    ensures
        Stage::at(i).ordinal() == i,
{
}

/// The optional stages that this build of the server carries. A stage that
/// is absent is never run.
#[derive(Clone, Copy, Debug, PartialEq, Eq, Structural)]
pub struct Capabilities {
    pub basic_auth: bool,
    pub fallback_page: bool,
    pub metrics: bool,
    pub compression: bool,
    pub directory_listing: bool,
}

impl Capabilities {
    /// Every optional stage present.
    pub fn all() -> (r: Capabilities)
        ensures
            r.basic_auth && r.fallback_page && r.metrics && r.compression && r.directory_listing,
    {
        Capabilities {
            basic_auth: true,
            fallback_page: true,
            metrics: true,
            compression: true,
            directory_listing: true,
        }
    }

    /// No optional stage present.
    pub fn none() -> (r: Capabilities)
        ensures
            !r.basic_auth && !r.fallback_page && !r.metrics && !r.compression
                && !r.directory_listing,
    {
        Capabilities {
            basic_auth: false,
            fallback_page: false,
            metrics: false,
            compression: false,
            directory_listing: false,
        }
    }
}

} // verus!
