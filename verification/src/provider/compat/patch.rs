//! Typed compatibility deviations declared by one policy layer.

use vstd::prelude::*;

use crate::domain::{ModelBodyWireFormat, PolicySource};
use crate::provider::protocol_contract::{
    CompatField, CompatProfile, FinishReasonCompat, MaxOutputTokensWireFormat, RequestCompat,
    ResponseCompat, ToolArgumentsCompat, UsageCompat,
};

verus! {

/// Compatibility deviations of one layer: each leaf it sets, and the layer's source.
#[derive(Clone, Copy, Debug, PartialEq, Eq, Structural)]
pub struct CompatPatch {
    /// The declaring layer.
    pub source: PolicySource,
    /// Request model field presence.
    pub model_body: Option<ModelBodyWireFormat>,
    /// Maximum output token field.
    pub max_output_tokens: Option<MaxOutputTokensWireFormat>,
    /// Finish-reason vocabulary.
    pub finish_reason: Option<FinishReasonCompat>,
    /// Streamed tool-argument representation.
    pub tool_arguments: Option<ToolArgumentsCompat>,
    /// Usage interpretation.
    pub usage: Option<UsageCompat>,
}

impl View for CompatPatch {
    type V = CompatPatch;

    open spec fn view(&self) -> CompatPatch {
        *self
    }
}

/// The patch sets no leaf.
pub open spec fn patch_is_empty(p: CompatPatch) -> bool {
    &&& p.model_body is None
    &&& p.max_output_tokens is None
    &&& p.finish_reason is None
    &&& p.tool_arguments is None
    &&& p.usage is None
}

/// `base` with every leaf the patch sets replaced and attributed to the patch's source.
pub open spec fn patched_request(base: RequestCompat, p: CompatPatch) -> RequestCompat {
    RequestCompat {
        model_body: match p.model_body {
            Some(v) => v,
            None => base.model_body,
        },
        max_output_tokens: match p.max_output_tokens {
            Some(v) => v,
            None => base.max_output_tokens,
        },
        ..base
    }
}

/// `base` with every response leaf the patch sets replaced.
pub open spec fn patched_response(base: ResponseCompat, p: CompatPatch) -> ResponseCompat {
    ResponseCompat {
        finish_reason: match p.finish_reason {
            Some(v) => v,
            None => base.finish_reason,
        },
        tool_arguments: match p.tool_arguments {
            Some(v) => v,
            None => base.tool_arguments,
        },
        usage: match p.usage {
            Some(v) => v,
            None => base.usage,
        },
        ..base
    }
}

/// The patch sets the leaf.
pub open spec fn patch_sets(p: CompatPatch, f: CompatField) -> bool {
    match f {
        CompatField::RequestModelBody => p.model_body is Some,
        CompatField::RequestMaxOutputTokens => p.max_output_tokens is Some,
        CompatField::ResponseFinishReason => p.finish_reason is Some,
        CompatField::ResponseToolArguments => p.tool_arguments is Some,
        CompatField::ResponseUsage => p.usage is Some,
        _ => false,
    }
}

impl CompatPatch {
    /// Creates an empty patch declared by `source`.
    pub fn from_source(source: PolicySource) -> (r: Self)
        ensures
            r.source == source,
            patch_is_empty(r),
    {
        CompatPatch {
            source,
            model_body: None,
            max_output_tokens: None,
            finish_reason: None,
            tool_arguments: None,
            usage: None,
        }
    }

    /// Returns whether the patch sets no leaf.
    pub fn is_empty(&self) -> (r: bool)
        ensures
            r == patch_is_empty(*self),
    {
        self.model_body.is_none() && self.max_output_tokens.is_none()
            && self.finish_reason.is_none() && self.tool_arguments.is_none()
            && self.usage.is_none()
    }

    /// Sets whether the request body carries the wire model.
    pub fn with_model_body(self, value: ModelBodyWireFormat) -> (r: Self)
        ensures
            r == (CompatPatch { model_body: Some(value), ..self }),
    {
        CompatPatch { model_body: Some(value), ..self }
    }

    /// Sets the maximum output token field.
    pub fn with_max_output_tokens(self, value: MaxOutputTokensWireFormat) -> (r: Self)
        ensures
            r == (CompatPatch { max_output_tokens: Some(value), ..self }),
    {
        CompatPatch { max_output_tokens: Some(value), ..self }
    }

    /// Sets the finish-reason vocabulary.
    pub fn with_finish_reason(self, value: FinishReasonCompat) -> (r: Self)
        ensures
            r == (CompatPatch { finish_reason: Some(value), ..self }),
    {
        CompatPatch { finish_reason: Some(value), ..self }
    }

    /// Sets the streamed tool-argument representation.
    pub fn with_tool_arguments(self, value: ToolArgumentsCompat) -> (r: Self)
        ensures
            r == (CompatPatch { tool_arguments: Some(value), ..self }),
    {
        CompatPatch { tool_arguments: Some(value), ..self }
    }

    /// Sets the usage interpretation.
    pub fn with_usage(self, value: UsageCompat) -> (r: Self)
        ensures
            r == (CompatPatch { usage: Some(value), ..self }),
    {
        CompatPatch { usage: Some(value), ..self }
    }

    /// Applies the patch to a resolved profile: every leaf it sets takes its value and is
    /// attributed to its source; every other leaf stays as it was.
    pub fn apply_to(&self, profile: CompatProfile) -> (r: CompatProfile)
        ensures
            r.spec_request() == patched_request(profile.spec_request(), *self),
            r.spec_response() == patched_response(profile.spec_response(), *self),
            r.spec_history() == profile.spec_history(),
            forall|f: CompatField|
                r.spec_source(f) == if patch_sets(*self, f) {
                    self.source
                } else {
                    profile.spec_source(f)
                },
    {
        let mut out = profile;
        if let Some(v) = self.model_body {
            out = out.with_model_body(v, self.source);
        }
        if let Some(v) = self.max_output_tokens {
            out = out.with_max_output_tokens(v, self.source);
        }
        if let Some(v) = self.finish_reason {
            out = out.with_finish_reason(v, self.source);
        }
        if let Some(v) = self.tool_arguments {
            out = out.with_tool_arguments(v, self.source);
        }
        if let Some(v) = self.usage {
            out = out.with_usage(v, self.source);
        }
        out
    }
}

} // verus!
