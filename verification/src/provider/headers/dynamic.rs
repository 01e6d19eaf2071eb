//! Restricted dynamic header policies: value-free request facts, an allowlist of ordinary
//! extension headers, and budgets on what a callback may return.

use vstd::prelude::*;

use crate::domain::{ModelId, ProtocolId, ProviderId};
use crate::error::{header_policy, is_header_policy, HeaderPolicyFailure, LlmError};
use crate::provider::catalog::ids::ProductId;
use vstd::utf8::encode_utf8;

use super::pipeline::{
    is_protected_header, operation_name, operation_views, protected_header, texts,
    HeaderOperation, HeaderOperationView,
};

verus! {

/// Value-free response format exposed to dynamic header policies.
#[derive(Clone, Copy, Debug, PartialEq, Eq, Structural)]
pub enum DynamicResponseFormat {
    /// Plain text response.
    Text,
    /// JSON object response.
    JsonObject,
    /// JSON schema response.
    JsonSchema,
}

/// Value-free context available to a dynamic header callback.
pub struct DynamicHeaderContext {
    provider_id: ProviderId,
    product_id: ProductId,
    model_id: ModelId,
    protocol_id: ProtocolId,
    local_request_id: String,
    attempt_number: u32,
    contains_tools: bool,
    contains_images: bool,
    reasoning_enabled: bool,
    response_format: DynamicResponseFormat,
}

/// Mathematical form of a [`DynamicHeaderContext`].
pub struct DynamicContextView {
    pub provider_id: Seq<char>,
    pub product_id: Seq<char>,
    pub model_id: Seq<char>,
    pub protocol_id: Seq<char>,
    pub local_request_id: Seq<char>,
    pub attempt_number: u32,
    pub contains_tools: bool,
    pub contains_images: bool,
    pub reasoning_enabled: bool,
    pub response_format: DynamicResponseFormat,
}

impl View for DynamicHeaderContext {
    type V = DynamicContextView;

    closed spec fn view(&self) -> DynamicContextView {
        DynamicContextView {
            provider_id: self.provider_id@,
            product_id: self.product_id@,
            model_id: self.model_id@,
            protocol_id: self.protocol_id@,
            local_request_id: self.local_request_id@,
            attempt_number: self.attempt_number,
            contains_tools: self.contains_tools,
            contains_images: self.contains_images,
            reasoning_enabled: self.reasoning_enabled,
            response_format: self.response_format,
        }
    }
}

impl DynamicHeaderContext {
    /// Creates a callback context from value-free request facts.
    pub fn for_attempt(
        provider_id: ProviderId,
        product_id: ProductId,
        model_id: ModelId,
        protocol_id: ProtocolId,
        local_request_id: String,
        attempt_number: u32,
        contains_tools: bool,
        contains_images: bool,
        reasoning_enabled: bool,
        response_format: DynamicResponseFormat,
    ) -> (r: Self)
        ensures
            r@ == (DynamicContextView {
                provider_id: provider_id@,
                product_id: product_id@,
                model_id: model_id@,
                protocol_id: protocol_id@,
                local_request_id: local_request_id@,
                attempt_number,
                contains_tools,
                contains_images,
                reasoning_enabled,
                response_format,
            }),
    {
        DynamicHeaderContext {
            provider_id,
            product_id,
            model_id,
            protocol_id,
            local_request_id,
            attempt_number,
            contains_tools,
            contains_images,
            reasoning_enabled,
            response_format,
        }
    }

    /// Returns provider identifier.
    pub fn provider_id(&self) -> (r: &ProviderId)
        ensures
            r@ == self@.provider_id,
    {
        &self.provider_id
    }

    /// Returns product identifier.
    pub fn product_id(&self) -> (r: &ProductId)
        ensures
            r@ == self@.product_id,
    {
        &self.product_id
    }

    /// Returns domain model identifier.
    pub fn model_id(&self) -> (r: &ModelId)
        ensures
            r@ == self@.model_id,
    {
        &self.model_id
    }

    /// Returns protocol identifier.
    pub fn protocol_id(&self) -> (r: &ProtocolId)
        ensures
            r@ == self@.protocol_id,
    {
        &self.protocol_id
    }

    /// Returns local request correlation identifier.
    pub fn local_request_id(&self) -> (r: &str)
        ensures
            r@ == self@.local_request_id,
    {
        self.local_request_id.as_str()
    }

    /// Returns retry attempt number.
    pub fn attempt_number(&self) -> (r: u32)
        ensures
            r == self@.attempt_number,
    {
        self.attempt_number
    }

    /// Returns whether the request contains tools.
    pub fn contains_tools(&self) -> (r: bool)
        ensures
            r == self@.contains_tools,
    {
        self.contains_tools
    }

    /// Returns whether the request contains images.
    pub fn contains_images(&self) -> (r: bool)
        ensures
            r == self@.contains_images,
    {
        self.contains_images
    }

    /// Returns whether reasoning is enabled.
    pub fn reasoning_enabled(&self) -> (r: bool)
        ensures
            r == self@.reasoning_enabled,
    {
        self.reasoning_enabled
    }

    /// Returns response format classification.
    pub fn response_format(&self) -> (r: DynamicResponseFormat)
        ensures
            r == self@.response_format,
    {
        self.response_format
    }
}

/// Mathematical form of a [`DynamicHeaderPolicy`].
pub struct DynamicPolicyView {
    pub allowed_headers: Seq<Seq<char>>,
    pub timeout_nanos: u128,
    pub max_operations: usize,
    pub max_bytes: usize,
}

/// The default callback timeout: one second.
pub const DEFAULT_TIMEOUT_NANOS: u128 = 1_000_000_000;

/// The default operation budget.
pub const DEFAULT_MAX_OPERATIONS: usize = 16;

/// The default aggregate byte budget.
pub const DEFAULT_MAX_BYTES: usize = 4096;

/// Why an allowlist is refused, or `None` when it names one to 32 headers, none protected.
pub open spec fn allowlist_rejection(names: Seq<Seq<char>>) -> Option<HeaderPolicyFailure> {
    if names.len() == 0 || names.len() > 32 {
        Some(HeaderPolicyFailure::InvalidOperation)
    } else if exists|i: int| 0 <= i < names.len() && is_protected_header(#[trigger] names[i]) {
        Some(HeaderPolicyFailure::InvalidOperation)
    } else {
        None
    }
}

/// Budgets a policy accepts: one to 64 operations and one byte to 64 KiB.
pub open spec fn budget_acceptable(max_operations: usize, max_bytes: usize) -> bool {
    1 <= max_operations <= 64 && 1 <= max_bytes <= 64 * 1024
}

/// Whether a dynamic operation stays within the policy: an allowlisted, unprotected header,
/// and no sensitive value.
pub open spec fn dynamic_operation_permitted(
    policy: DynamicPolicyView,
    op: HeaderOperationView,
) -> bool {
    match op {
        HeaderOperationView::Assign(name, _, sensitive) => policy.allowed_headers.contains(name)
            && !sensitive && !is_protected_header(name),
        HeaderOperationView::Remove(name) => policy.allowed_headers.contains(name)
            && !is_protected_header(name),
    }
}

/// The bytes an operation counts against the budget: its name's, plus its value's.
pub open spec fn operation_bytes(op: HeaderOperationView) -> nat {
    match op {
        HeaderOperationView::Assign(name, value, _) => encode_utf8(name).len() + value.len(),
        HeaderOperationView::Remove(name) => encode_utf8(name).len(),
    }
}

/// The bytes all operations count against the budget.
pub open spec fn total_bytes(ops: Seq<HeaderOperationView>) -> nat
    decreases ops.len(),
{
    if ops.len() == 0 {
        0
    } else {
        total_bytes(ops.drop_last()) + operation_bytes(ops.last())
    }
}

/// Why a callback's operations are refused, or `None` when they are accepted: too many
/// operations, then an operation outside the policy, then too many bytes.
pub open spec fn dynamic_rejection(
    policy: DynamicPolicyView,
    ops: Seq<HeaderOperationView>,
) -> Option<HeaderPolicyFailure> {
    if ops.len() > policy.max_operations {
        Some(HeaderPolicyFailure::BudgetExceeded)
    } else if exists|i: int| 0 <= i < ops.len() && !dynamic_operation_permitted(policy, #[trigger] ops[i]) {
        Some(HeaderPolicyFailure::InvalidOperation)
    } else if total_bytes(ops) > policy.max_bytes {
        Some(HeaderPolicyFailure::BudgetExceeded)
    } else {
        None
    }
}

/// Dynamic header policy with explicit allowlist and resource budgets.
pub struct DynamicHeaderPolicy {
    allowed_headers: Vec<String>,
    timeout_nanos: u128,
    max_operations: usize,
    max_bytes: usize,
}

impl View for DynamicHeaderPolicy {
    type V = DynamicPolicyView;

    closed spec fn view(&self) -> DynamicPolicyView {
        DynamicPolicyView {
            allowed_headers: texts(self.allowed_headers@),
            timeout_nanos: self.timeout_nanos,
            max_operations: self.max_operations,
            max_bytes: self.max_bytes,
        }
    }
}

fn allowlisted(names: &Vec<String>, name: &str) -> (r: bool)
    ensures
        r == texts(names@).contains(name@),
{
    let mut i: usize = 0;
    while i < names.len()
        invariant
            i <= names@.len(),
            forall|k: int| 0 <= k < i ==> #[trigger] names@[k]@ != name@,
        decreases names@.len() - i,
    {
        if crate::text::str_eq(names[i].as_str(), name) {
            proof {
                assert(texts(names@)[i as int] == name@);
            }
            return true;
        }
        i = i + 1;
    }
    proof {
        if texts(names@).contains(name@) {
            let k = choose|k: int| 0 <= k < texts(names@).len() && texts(names@)[k] == name@;
            assert(names@[k]@ == name@);
        }
    }
    false
}

impl DynamicHeaderPolicy {
    #[verifier::type_invariant]
    spec fn well_formed(self) -> bool {
        &&& allowlist_rejection(texts(self.allowed_headers@)) is None
        &&& self.timeout_nanos > 0
        &&& budget_acceptable(self.max_operations, self.max_bytes)
    }

    /// Creates a policy for a finite set of ordinary extension headers, with a one-second
    /// timeout, 16 operations and 4096 bytes.
    pub fn new(allowed_headers: Vec<String>) -> (r: Result<Self, LlmError>)
        ensures
            match allowlist_rejection(texts(allowed_headers@)) {
                None => r matches Ok(p) && p@ == (DynamicPolicyView {
                    allowed_headers: texts(allowed_headers@),
                    timeout_nanos: DEFAULT_TIMEOUT_NANOS,
                    max_operations: DEFAULT_MAX_OPERATIONS,
                    max_bytes: DEFAULT_MAX_BYTES,
                }),
                Some(failure) => r matches Err(e) && is_header_policy(e, failure),
            },
    {
        if allowed_headers.len() == 0 || allowed_headers.len() > 32 {
            return Err(header_policy(HeaderPolicyFailure::InvalidOperation));
        }
        let mut i: usize = 0;
        while i < allowed_headers.len()
            invariant
                i <= allowed_headers@.len(),
                forall|k: int| 0 <= k < i ==> !is_protected_header(#[trigger] allowed_headers@[k]@),
            decreases allowed_headers@.len() - i,
        {
            if protected_header(allowed_headers[i].as_str()) {
                proof {
                    assert(texts(allowed_headers@)[i as int] == allowed_headers@[i as int]@);
                }
                return Err(header_policy(HeaderPolicyFailure::InvalidOperation));
            }
            i = i + 1;
        }
        proof {
            assert forall|k: int| 0 <= k < texts(allowed_headers@).len() implies !is_protected_header(
                #[trigger] texts(allowed_headers@)[k],
            ) by {
                assert(texts(allowed_headers@)[k] == allowed_headers@[k]@);
            }
        }
        Ok(
            DynamicHeaderPolicy {
                allowed_headers,
                timeout_nanos: DEFAULT_TIMEOUT_NANOS,
                max_operations: DEFAULT_MAX_OPERATIONS,
                max_bytes: DEFAULT_MAX_BYTES,
            },
        )
    }

    /// Returns the finite value-free header-name allowlist.
    pub fn allowed_headers(&self) -> (r: &[String])
        ensures
            texts(r@) == self@.allowed_headers,
    {
        self.allowed_headers.as_slice()
    }

    /// Returns the callback timeout in nanoseconds; it is never zero.
    pub fn timeout_nanos(&self) -> (r: u128)
        ensures
            r == self@.timeout_nanos,
            r > 0,
    {
        proof {
            use_type_invariant(self);
        }
        self.timeout_nanos
    }

    /// Returns the operation budget.
    pub fn max_operations(&self) -> (r: usize)
        ensures
            r == self@.max_operations,
    {
        self.max_operations
    }

    /// Returns the aggregate byte budget.
    pub fn max_bytes(&self) -> (r: usize)
        ensures
            r == self@.max_bytes,
    {
        self.max_bytes
    }

    /// Sets the callback timeout, in nanoseconds. Zero is rejected.
    pub fn with_timeout(self, timeout_nanos: u128) -> (r: Result<Self, LlmError>)
        ensures
            timeout_nanos == 0 ==> (r matches Err(e) && is_header_policy(
                e,
                HeaderPolicyFailure::Timeout,
            )),
            timeout_nanos > 0 ==> (r matches Ok(p) && p@ == (DynamicPolicyView {
                timeout_nanos,
                ..self@
            })),
    {
        proof {
            use_type_invariant(&self);
        }
        if timeout_nanos == 0 {
            return Err(header_policy(HeaderPolicyFailure::Timeout));
        }
        let DynamicHeaderPolicy { allowed_headers, max_operations, max_bytes, .. } = self;
        Ok(DynamicHeaderPolicy { allowed_headers, timeout_nanos, max_operations, max_bytes })
    }

    /// Sets operation and aggregate byte budgets.
    pub fn with_budget(self, max_operations: usize, max_bytes: usize) -> (r: Result<
        Self,
        LlmError,
    >)
        ensures
            !budget_acceptable(max_operations, max_bytes) ==> (r matches Err(e) && is_header_policy(
                e,
                HeaderPolicyFailure::BudgetExceeded,
            )),
            budget_acceptable(max_operations, max_bytes) ==> (r matches Ok(p) && p@ == (
            DynamicPolicyView { max_operations, max_bytes, ..self@ })),
    {
        proof {
            use_type_invariant(&self);
        }
        if max_operations == 0 || max_operations > 64 || max_bytes == 0 || max_bytes > 64 * 1024 {
            return Err(header_policy(HeaderPolicyFailure::BudgetExceeded));
        }
        let DynamicHeaderPolicy { allowed_headers, timeout_nanos, .. } = self;
        Ok(DynamicHeaderPolicy { allowed_headers, timeout_nanos, max_operations, max_bytes })
    }

    /// Accepts the operations a callback returned for one attempt, or refuses them.
    pub fn check_operations(&self, operations: Vec<HeaderOperation>) -> (r: Result<
        Vec<HeaderOperation>,
        LlmError,
    >)
        ensures
            match dynamic_rejection(self@, operation_views(operations@)) {
                None => r matches Ok(ops) && operation_views(ops@) == operation_views(operations@),
                Some(failure) => r matches Err(e) && is_header_policy(e, failure),
            },
    {
        proof {
            use_type_invariant(self);
        }
        let ghost ops = operation_views(operations@);
        if operations.len() > self.max_operations {
            return Err(header_policy(HeaderPolicyFailure::BudgetExceeded));
        }
        let mut bytes: usize = 0;
        let mut i: usize = 0;
        while i < operations.len()
            invariant
                i <= operations@.len(),
                ops == operation_views(operations@),
                ops.len() <= self@.max_operations,
                budget_acceptable(self.max_operations, self.max_bytes),
                self@.allowed_headers == texts(self.allowed_headers@),
                forall|k: int| 0 <= k < i ==> dynamic_operation_permitted(self@, #[trigger] ops[k]),
                bytes as int == if total_bytes(ops.take(i as int)) > usize::MAX {
                    usize::MAX as int
                } else {
                    total_bytes(ops.take(i as int)) as int
                },
            decreases operations@.len() - i,
        {
            let op = &operations[i];
            proof {
                assert(ops[i as int] == op@);
                assert(ops.take(i + 1).drop_last() =~= ops.take(i as int));
                assert(ops.take(i + 1).last() == op@);
            }
            match op {
                HeaderOperation::Assign { name, value } => {
                    if !allowlisted(&self.allowed_headers, name.as_str()) || value.is_sensitive()
                        || protected_header(name.as_str()) {
                        proof {
                            assert(!dynamic_operation_permitted(self@, ops[i as int]));
                        }
                        return Err(header_policy(HeaderPolicyFailure::InvalidOperation));
                    }
                    let size = name.as_str().as_bytes().len().saturating_add(value.value().len());
                    bytes = bytes.saturating_add(size);
                },
                HeaderOperation::Remove { name } => {
                    if !allowlisted(&self.allowed_headers, name.as_str()) || protected_header(
                        name.as_str(),
                    ) {
                        proof {
                            assert(!dynamic_operation_permitted(self@, ops[i as int]));
                        }
                        return Err(header_policy(HeaderPolicyFailure::InvalidOperation));
                    }
                    bytes = bytes.saturating_add(name.as_str().as_bytes().len());
                },
            }
            i = i + 1;
        }
        proof {
            assert(ops.take(operations@.len() as int) =~= ops);
        }
        if bytes > self.max_bytes {
            return Err(header_policy(HeaderPolicyFailure::BudgetExceeded));
        }
        Ok(operations)
    }
}

/// Operations a dynamic policy accepts only name allowlisted, unprotected headers, never
/// carry a sensitive value, and fit both budgets.
pub proof fn lemma_accepted_operations_are_bounded(
    policy: DynamicPolicyView,
    ops: Seq<HeaderOperationView>,
)
    requires
        dynamic_rejection(policy, ops) is None,
    ensures
        ops.len() <= policy.max_operations,
        total_bytes(ops) <= policy.max_bytes,
        forall|i: int|
            0 <= i < ops.len() ==> {
                &&& policy.allowed_headers.contains(#[trigger] operation_name(ops[i]))
                &&& !is_protected_header(operation_name(ops[i]))
                &&& !(ops[i] matches HeaderOperationView::Assign(_, _, true))
            },
{
    assert forall|i: int| 0 <= i < ops.len() implies {
        &&& policy.allowed_headers.contains(#[trigger] operation_name(ops[i]))
        &&& !is_protected_header(operation_name(ops[i]))
        &&& !(ops[i] matches HeaderOperationView::Assign(_, _, true))
    } by {
        assert(dynamic_operation_permitted(policy, ops[i]));
    }
}

} // verus!
