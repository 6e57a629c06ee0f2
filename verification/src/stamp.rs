//! What the visible signature says: the fields the order asks for, filled
//! from the certificate behind it, never from what the window says.
use vstd::prelude::*;

use crate::certificates::StampedHolder;

verus! {

/// Which fields the person asked the box to say.
#[derive(Clone, Copy, Debug, Default, PartialEq, Eq, Structural)]
pub struct VisibleFieldsOrder {
    pub signer_name: bool,
    pub issuer: bool,
    pub signed_at: bool,
    pub reason: bool,
}

/// The fields the box says, each one only when asked for and not empty.
#[derive(Clone, Debug, Default)]
pub struct VisibleTextFields {
    pub signer_name: Option<String>,
    pub issuer: Option<String>,
    pub signed_at: Option<String>,
    pub reason: Option<String>,
    pub pseudonym: bool,
}

/// A field of the box: the text, when it is asked for and there is some.
pub open spec fn field_said(asked: bool, text: Seq<char>, said: Option<String>) -> bool {
    match said {
        Some(s) => asked && text.len() > 0 && s@ == text,
        None => !asked || text.len() == 0,
    }
}

fn field(asked: bool, text: &str) -> (said: Option<String>)
    ensures
        field_said(asked, text@, said),
{
    if asked && crate::text::chars_of(text).len() > 0 {
        Some(text.to_owned())
    } else {
        None
    }
}

/// The fields of the box out of the order and of the certificate's holder:
/// the name and the issuer are read from the certificate, the date and the
/// reason come from the order; an empty name, issuer or reason is left out,
/// and the date is said whenever it is asked for.
pub fn visible_text_fields(
    fields: &VisibleFieldsOrder,
    holder: &StampedHolder,
    signed_at: &str,
    reason: &str,
) -> (v: VisibleTextFields)
    ensures
        field_said(fields.signer_name, holder.common_name@, v.signer_name),
        field_said(fields.issuer, holder.issuer@, v.issuer),
        match v.signed_at {
            Some(s) => fields.signed_at && s@ == signed_at@,
            None => !fields.signed_at,
        },
        field_said(fields.reason, reason@, v.reason),
        v.pseudonym == holder.pseudonym,
{
    VisibleTextFields {
        signer_name: field(fields.signer_name, holder.common_name.as_str()),
        issuer: field(fields.issuer, holder.issuer.as_str()),
        signed_at: if fields.signed_at {
            Some(signed_at.to_owned())
        } else {
            None
        },
        reason: field(fields.reason, reason),
        pseudonym: holder.pseudonym,
    }
}

/// The reason handed to the bridge: an empty one is not sent, since it
/// would stamp a label with nothing behind it.
pub fn sign_reason_of(reason: &str) -> (r: Option<String>)
    ensures
        match r {
            Some(s) => reason@.len() > 0 && s@ == reason@,
            None => reason@.len() == 0,
        },
{
    if crate::text::chars_of(reason).len() > 0 {
        Some(reason.to_owned())
    } else {
        None
    }
}

} // verus!
