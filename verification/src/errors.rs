//! Error taxonomy and the error-classification engine.
//!
//! A connector reports failures in one of several payload shapes: a list of
//! structured sub-errors, a flat error/description pair, or nothing beyond an
//! HTTP status. Classification normalizes any of them into one
//! [`NormalizedError`] carrying a machine code, a human message and a
//! retryability hint, preferring the most specific message available and
//! defaulting to non-retryable for unrecognized codes.

use vstd::prelude::*;
use crate::numeric::{i64_to_string, lemma_dec_nonempty, spec_int_dec};

verus! {

/// One structured sub-error of a connector error payload.
#[derive(Clone, Debug, PartialEq, Eq)]
pub struct SubError {
    pub code: String,
    pub message: String,
    pub path: Option<String>,
    pub field: Option<String>,
    pub arguments: Option<Vec<String>>,
}

/// A connector error payload as deserialized from the wire; every field may
/// be absent.
#[derive(Clone, Debug, PartialEq, Eq)]
pub struct ErrorResponse {
    pub timestamp: Option<String>,
    pub errors: Option<Vec<SubError>>,
    pub status: Option<i8>,
    pub error: Option<String>,
    pub error_description: Option<String>,
    pub message: Option<String>,
    pub path: Option<String>,
}

/// The canonical form every connector error is reduced to.
#[derive(Clone, Debug, PartialEq, Eq)]
pub struct NormalizedError {
    pub code: String,
    pub message: String,
    pub retryable: bool,
}

/// The typed failure channel of a connector adapter.
#[derive(Clone, Debug, PartialEq, Eq)]
pub enum ConnectorError {
    /// The supplied credential shape is not one the connector accepts.
    FailedToObtainAuthType,
    /// A canonical field the connector requires is absent.
    MissingRequiredField { field_name: String },
    /// The requested capability is not offered by this connector at all.
    NotSupported { message: String, connector: String, payment_experience: String },
    /// A parsed, classified error reported by the remote processor.
    ResponseError { error: NormalizedError },
    /// The response payload did not match the expected shape.
    ResponseDeserializationFailed,
}

/// The uniform taxonomy the router applies its retry, reconciliation and
/// reporting policy over.
#[derive(Clone, Copy, Debug, PartialEq, Eq, Structural)]
pub enum ErrorClass {
    AuthConfigurationError,
    ValidationError,
    UnsupportedCapabilityError,
    ConnectorResponseError,
    ParseError,
}

/// The taxonomy class of each error variant.
pub open spec fn spec_class_of(e: ConnectorError) -> ErrorClass {
    match e {
        ConnectorError::FailedToObtainAuthType => ErrorClass::AuthConfigurationError,
        ConnectorError::MissingRequiredField { .. } => ErrorClass::ValidationError,
        ConnectorError::NotSupported { .. } => ErrorClass::UnsupportedCapabilityError,
        ConnectorError::ResponseError { .. } => ErrorClass::ConnectorResponseError,
        ConnectorError::ResponseDeserializationFailed => ErrorClass::ParseError,
    }
}

/// Whether the identical call may be retried: only a classified connector
/// response carries a retry hint; every other class is fail-closed.
pub open spec fn spec_retry_hint(e: ConnectorError) -> bool {
    e matches ConnectorError::ResponseError { error } && error.retryable
}

impl ConnectorError {
    /// The taxonomy class of this error.
    pub fn class(&self) -> (c: ErrorClass)
        ensures
            c == spec_class_of(*self),
    {
        match self {
            ConnectorError::FailedToObtainAuthType => ErrorClass::AuthConfigurationError,
            ConnectorError::MissingRequiredField { .. } => ErrorClass::ValidationError,
            ConnectorError::NotSupported { .. } => ErrorClass::UnsupportedCapabilityError,
            ConnectorError::ResponseError { .. } => ErrorClass::ConnectorResponseError,
            ConnectorError::ResponseDeserializationFailed => ErrorClass::ParseError,
        }
    }

    /// Whether the router may retry the identical call.
    pub fn retry_hint(&self) -> (r: bool)
        ensures
            r == spec_retry_hint(*self),
    {
        match self {
            ConnectorError::ResponseError { error } => error.retryable,
            _ => false,
        }
    }
}

/// The statically configured code-to-retryability table of one connector.
/// Read-only after initialization; a code not listed is non-retryable.
#[derive(Clone, Debug, PartialEq, Eq)]
pub struct RetryTable {
    pub entries: Vec<(String, bool)>,
}

/// Whether a code is retryable under a table: the first matching entry
/// decides; an unlisted code is not retryable.
pub open spec fn spec_retryable_lookup(entries: Seq<(String, bool)>, code: Seq<char>) -> bool
    decreases entries.len(),
{
    if entries.len() == 0 {
        false
    } else if entries[0].0@ == code {
        entries[0].1
    } else {
        spec_retryable_lookup(entries.drop_first(), code)
    }
}

impl RetryTable {
    /// Look a code up; unknown codes are non-retryable.
    pub fn retryable_for(&self, code: &String) -> (r: bool)
        ensures
            r == spec_retryable_lookup(self.entries@, code@),
    {
        let mut i: usize = 0;
        proof {
            assert(self.entries@.skip(0) =~= self.entries@);
        }
        while i < self.entries.len()
            invariant
                0 <= i <= self.entries@.len(),
                spec_retryable_lookup(self.entries@, code@) == spec_retryable_lookup(
                    self.entries@.skip(i as int),
                    code@,
                ),
            decreases self.entries@.len() - i,
        {
            let e = &self.entries[i];
            if e.0 == *code {
                return e.1;
            }
            proof {
                assert(self.entries@.skip(i as int).drop_first() =~= self.entries@.skip(
                    i as int + 1,
                ));
            }
            i += 1;
        }
        proof {
            assert(self.entries@.skip(i as int) =~= Seq::<(String, bool)>::empty());
        }
        false
    }
}

/// The messages of a sub-error list, in their original order.
pub open spec fn spec_sub_messages(subs: Seq<SubError>) -> Seq<Seq<char>> {
    subs.map_values(|e: SubError| e.message@)
}

/// Parts joined with a separator, preserving their order.
pub open spec fn spec_join(parts: Seq<Seq<char>>, sep: Seq<char>) -> Seq<char>
    decreases parts.len(),
{
    if parts.len() == 0 {
        Seq::empty()
    } else if parts.len() == 1 {
        parts[0]
    } else {
        spec_join(parts.drop_last(), sep) + sep + parts.last()
    }
}

/// The payload carries a non-empty structured sub-error list.
pub open spec fn spec_has_sub_errors(r: ErrorResponse) -> bool {
    r.errors matches Some(subs) && subs@.len() > 0
}

/// The sub-error list of a payload, empty when absent.
pub open spec fn spec_sub_errors(r: ErrorResponse) -> Seq<SubError> {
    match r.errors {
        Some(subs) => subs@,
        None => Seq::empty(),
    }
}

/// The message synthesized when the payload carries no structured
/// information at all.
pub open spec fn spec_synth_message(status: Option<i8>) -> Seq<char> {
    match status {
        Some(s) => "connector returned HTTP status "@ + spec_int_dec(s as int),
        None => "connector returned an error with no details"@,
    }
}

/// The flat fallback chain: description, then message, then error code, then
/// a synthesized message.
pub open spec fn spec_flat_message(r: ErrorResponse) -> Seq<char> {
    match r.error_description {
        Some(d) => d@,
        None => match r.message {
            Some(m) => m@,
            None => match r.error {
                Some(e) => e@,
                None => spec_synth_message(r.status),
            },
        },
    }
}

/// The human message classification produces: the sub-error messages joined
/// in order when any are present, else the flat chain.
pub open spec fn spec_message_of(r: ErrorResponse) -> Seq<char> {
    if spec_has_sub_errors(r) {
        spec_join(spec_sub_messages(spec_sub_errors(r)), ", "@)
    } else {
        spec_flat_message(r)
    }
}

/// The machine code classification produces: the first sub-error's code when
/// any is present, else the flat error code, else a fixed placeholder.
pub open spec fn spec_code_of(r: ErrorResponse) -> Seq<char> {
    if spec_has_sub_errors(r) {
        spec_sub_errors(r)[0].code@
    } else {
        match r.error {
            Some(e) => e@,
            None => "unknown"@,
        }
    }
}

/// Join the messages of a sub-error list with a comma separator.
fn join_sub_messages(subs: &Vec<SubError>) -> (s: String)
    ensures
        s@ == spec_join(spec_sub_messages(subs@), ", "@),
{
    let ghost parts: Seq<Seq<char>> = spec_sub_messages(subs@);
    let mut s = String::new();
    let mut i: usize = 0;
    while i < subs.len()
        invariant
            0 <= i <= subs@.len(),
            parts == spec_sub_messages(subs@),
            parts.len() == subs@.len(),
            s@ == spec_join(parts.take(i as int), ", "@),
        decreases subs@.len() - i,
    {
        if i > 0 {
            s.append(", ");
        }
        s.append(subs[i].message.as_str());
        proof {
            assert(parts.take(i as int + 1).drop_last() =~= parts.take(i as int));
            assert(parts.take(i as int + 1).last() == subs@[i as int].message@);
        }
        i += 1;
    }
    proof {
        assert(parts.take(subs@.len() as int) =~= parts);
    }
    s
}

/// Synthesize a message from nothing but the raw HTTP status.
fn synthesized_message(status: &Option<i8>) -> (m: String)
    ensures
        m@ == spec_synth_message(*status),
{
    match status {
        Some(s) => {
            let mut m = String::from_str("connector returned HTTP status ");
            let num = i64_to_string(*s as i64);
            m.append(num.as_str());
            m
        },
        None => String::from_str("connector returned an error with no details"),
    }
}

/// The flat fallback chain, executable side.
fn flat_message_of(resp: &ErrorResponse) -> (m: String)
    ensures
        m@ == spec_flat_message(*resp),
{
    match &resp.error_description {
        Some(d) => d.clone(),
        None => match &resp.message {
            Some(msg) => msg.clone(),
            None => match &resp.error {
                Some(e) => e.clone(),
                None => synthesized_message(&resp.status),
            },
        },
    }
}

/// The human message for a payload.
pub fn message_of(resp: &ErrorResponse) -> (m: String)
    ensures
        m@ == spec_message_of(*resp),
{
    if let Some(subs) = &resp.errors {
        if subs.len() > 0 {
            return join_sub_messages(subs);
        }
    }
    flat_message_of(resp)
}

/// The machine code for a payload.
pub fn code_of(resp: &ErrorResponse) -> (c: String)
    ensures
        c@ == spec_code_of(*resp),
{
    if let Some(subs) = &resp.errors {
        if subs.len() > 0 {
            let first = &subs[0];
            return first.code.clone();
        }
    }
    match &resp.error {
        Some(e) => e.clone(),
        None => String::from_str("unknown"),
    }
}

/// Classify a connector error payload into the canonical error form:
/// the most specific message available, the most specific code, and the
/// table's retryability verdict for that code (non-retryable when unknown).
pub fn classify(resp: &ErrorResponse, table: &RetryTable) -> (n: NormalizedError)
    ensures
        n.message@ == spec_message_of(*resp),
        n.code@ == spec_code_of(*resp),
        n.retryable == spec_retryable_lookup(table.entries@, spec_code_of(*resp)),
{
    let code = code_of(resp);
    let message = message_of(resp);
    let retryable = table.retryable_for(&code);
    NormalizedError { code, message, retryable }
}

/// Classify a payload and surface it on the canonical error channel.
pub fn classify_as_error(resp: &ErrorResponse, table: &RetryTable) -> (e: ConnectorError)
    ensures
        e matches ConnectorError::ResponseError { error } && {
            &&& error.message@ == spec_message_of(*resp)
            &&& error.code@ == spec_code_of(*resp)
            &&& error.retryable == spec_retryable_lookup(table.entries@, spec_code_of(*resp))
        },
        spec_class_of(e) == ErrorClass::ConnectorResponseError,
{
    ConnectorError::ResponseError { error: classify(resp, table) }
}

/// The offset in a joined text at which part `k` starts: every earlier part
/// and one separator for each of them come before it.
pub open spec fn spec_join_offset(parts: Seq<Seq<char>>, sep: Seq<char>, k: int) -> int
    recommends
        0 <= k < parts.len(),
    decreases k,
{
    if k <= 0 {
        0
    } else {
        spec_join_offset(parts, sep, k - 1) + parts[k - 1].len() + sep.len()
    }
}

/// The offset of a part does not depend on the parts after it.
proof fn lemma_join_offset_drop_last(parts: Seq<Seq<char>>, sep: Seq<char>, k: int)
    requires
        parts.len() >= 1,
        0 <= k <= parts.len() - 1,
    ensures
        spec_join_offset(parts.drop_last(), sep, k) == spec_join_offset(parts, sep, k),
    decreases k,
{
    if k > 0 {
        lemma_join_offset_drop_last(parts, sep, k - 1);
        assert(parts.drop_last()[k - 1] == parts[k - 1]);
    }
}

/// The joined text ends exactly where the last part ends.
proof fn lemma_join_len(parts: Seq<Seq<char>>, sep: Seq<char>)
    requires
        parts.len() >= 1,
    ensures
        spec_join(parts, sep).len() == spec_join_offset(parts, sep, parts.len() - 1)
            + parts.last().len(),
    decreases parts.len(),
{
    if parts.len() > 1 {
        lemma_join_len(parts.drop_last(), sep);
        lemma_join_offset_drop_last(parts, sep, parts.len() - 2);
        assert(parts.drop_last().last() == parts[parts.len() - 2]);
    }
}

/// Law: a joined text contains every part in its original order: part `k`
/// occupies exactly the subrange that starts at its offset.
pub proof fn lemma_join_contains_parts_in_order(parts: Seq<Seq<char>>, sep: Seq<char>, k: int)
    requires
        0 <= k < parts.len(),
    ensures
        ({
            let joined = spec_join(parts, sep);
            let off = spec_join_offset(parts, sep, k);
            &&& 0 <= off
            &&& off + parts[k].len() <= joined.len()
            &&& joined.subrange(off, off + parts[k].len()) == parts[k]
        }),
    decreases parts.len(),
{
    let joined = spec_join(parts, sep);
    let off = spec_join_offset(parts, sep, k);
    if parts.len() == 1 {
        assert(joined.subrange(0, parts[0].len() as int) =~= parts[0]);
    } else {
        let a = spec_join(parts.drop_last(), sep);
        lemma_join_len(parts.drop_last(), sep);
        lemma_join_offset_drop_last(parts, sep, parts.len() - 2);
        if k < parts.len() - 1 {
            lemma_join_contains_parts_in_order(parts.drop_last(), sep, k);
            lemma_join_offset_drop_last(parts, sep, k);
            assert(parts.drop_last()[k] == parts[k]);
            assert(joined.subrange(off, off + parts[k].len()) =~= a.subrange(
                off,
                off + parts[k].len(),
            ));
        } else {
            assert(parts.drop_last().last() == parts[parts.len() - 2]);
            assert(off == a.len() + sep.len());
            assert(joined.subrange(off, off + parts[k].len()) =~= parts[k]);
        }
    }
}

/// Law: with a non-empty sub-error list, the classified message contains
/// every sub-error's message, in the list's original order: the `k`-th
/// message occupies the subrange of the joined message at its offset.
pub proof fn lemma_message_contains_sub_messages(r: ErrorResponse, k: int)
    requires
        spec_has_sub_errors(r),
        0 <= k < spec_sub_errors(r).len(),
    ensures
        ({
            let parts = spec_sub_messages(spec_sub_errors(r));
            let off = spec_join_offset(parts, ", "@, k);
            &&& 0 <= off
            &&& off + parts[k].len() <= spec_message_of(r).len()
            &&& spec_message_of(r).subrange(off, off + parts[k].len()) == spec_sub_errors(
                r,
            )[k].message@
        }),
{
    lemma_join_contains_parts_in_order(spec_sub_messages(spec_sub_errors(r)), ", "@, k);
}

/// Law: classification prefers the most specific message. A non-empty
/// sub-error list is joined in its original order; otherwise a present flat
/// description is used verbatim; with no structured information at all the
/// synthesized message is non-empty.
pub proof fn lemma_message_priority(r: ErrorResponse)
    ensures
        spec_has_sub_errors(r) ==> spec_message_of(r) == spec_join(
            spec_sub_messages(spec_sub_errors(r)),
            ", "@,
        ),
        !spec_has_sub_errors(r) ==> (r.error_description matches Some(d) ==> spec_message_of(r)
            == d@),
        !spec_has_sub_errors(r) && r.error_description is None && r.message is None && r.error
            is None ==> spec_message_of(r).len() > 0,
{
    if !spec_has_sub_errors(r) && r.error_description is None && r.message is None && r.error
        is None {
        reveal_strlit("connector returned HTTP status ");
        reveal_strlit("connector returned an error with no details");
        match r.status {
            Some(s) => {
                if (s as int) < 0 {
                    lemma_dec_nonempty((-(s as int)) as nat);
                } else {
                    lemma_dec_nonempty(s as nat);
                }
            },
            None => {},
        }
    }
}

} // verus!
