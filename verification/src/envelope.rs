//! The generic error envelope and the classification interface that
//! generated taxonomies implement.
//!
//! The envelope owns the four fields {status, message, code, tag}. Its
//! wire form deliberately omits the status: the status travels beside
//! the body in the transport response instead.

use vstd::prelude::*;

use crate::text::dec_digits;
use crate::text::json_escaped;
use crate::text::push_json_escaped;
use crate::text::push_u16_dec;

verus! {

/// The classification interface of a generated error taxonomy: status
/// classification, machine-readable tag, and numeric code, each keyed by
/// variant. Generated code implements it; nothing here does.
pub trait BackendError {
    fn to_status_code(&self) -> u16;

    fn to_error_tag(&self) -> String;

    fn to_error_code(&self) -> u16;
}

/// The generic serializable error envelope. The status is stored
/// separately because the wire form excludes it.
#[derive(Debug, Clone)]
pub struct BaxeError {
    pub status_code: u16,
    pub message: String,
    pub code: u16,
    pub error_tag: String,
}

/// Mathematical model of a `BaxeError`.
pub ghost struct SpecBaxeError {
    pub status_code: u16,
    pub message: Seq<char>,
    pub code: u16,
    pub error_tag: Seq<char>,
}

impl View for BaxeError {
    type V = SpecBaxeError;

    open spec fn view(&self) -> SpecBaxeError {
        SpecBaxeError {
            status_code: self.status_code,
            message: self.message@,
            code: self.code,
            error_tag: self.error_tag@,
        }
    }
}

/// The envelope's wire form: message, code and tag only. The status is
/// no argument of this function, so no serialized envelope can carry it.
pub open spec fn spec_serialized(message: Seq<char>, code: u16, error_tag: Seq<char>) -> Seq<char> {
    "{\"message\":\""@ + json_escaped(message) + "\",\"code\":"@ + dec_digits(code as nat)
        + ",\"error_tag\":\""@ + json_escaped(error_tag) + "\"}"@
}

impl BaxeError {
    /// Builds the envelope from the four classification values, in
    /// status, tag, code, message order.
    pub fn new(status_code: u16, error_tag: String, code: u16, message: String) -> (r: BaxeError)
        ensures
            r@.status_code == status_code,
            r@.error_tag == error_tag@,
            r@.code == code,
            r@.message == message@,
    {
        BaxeError { status_code, message, code, error_tag }
    }

    /// The envelope's display text: its message, nothing else.
    pub fn to_string(&self) -> (r: String)
        ensures
            r@ == self@.message,
    {
        self.message.clone()
    }

    /// The envelope's wire form, which omits the status field.
    pub fn serialized(&self) -> (r: String)
        ensures
            r@ == spec_serialized(self@.message, self@.code, self@.error_tag),
    {
        let mut out = String::new();
        out.append("{\"message\":\"");
        push_json_escaped(&mut out, self.message.as_str());
        out.append("\",\"code\":");
        push_u16_dec(&mut out, self.code);
        out.append(",\"error_tag\":\"");
        push_json_escaped(&mut out, self.error_tag.as_str());
        out.append("\"}");
        proof {
            assert(out@ =~= spec_serialized(self@.message, self@.code, self@.error_tag));
        }
        out
    }

    /// The transport response for this envelope: its status paired with
    /// its serialized wire form.
    pub fn into_response(self) -> (r: (u16, String))
        ensures
            r.0 == self@.status_code,
            r.1@ == spec_serialized(self@.message, self@.code, self@.error_tag),
    {
        let body = self.serialized();
        (self.status_code, body)
    }
}

/// The wire form carries no status: two envelopes that agree on message,
/// code and tag serialize identically, whatever their statuses are.
pub proof fn lemma_serialized_omits_status(e1: SpecBaxeError, e2: SpecBaxeError)
    requires
        e1.message == e2.message,
        e1.code == e2.code,
        e1.error_tag == e2.error_tag,
    ensures
        spec_serialized(e1.message, e1.code, e1.error_tag) == spec_serialized(
            e2.message,
            e2.code,
            e2.error_tag,
        ),
{
}

} // verus!
