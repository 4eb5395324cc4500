//! Declarations and wrappers for the two compact string types that carry
//! text through the supervisor: `compact_str::CompactString` for log lines
//! and `smartstring`'s `String` alias for core identifiers.
//!
//! Both types are opaque to the verifier; `compact_chars` and `smart_chars`
//! name the text each value holds, and every wrapper's contract speaks of
//! the stored text through those names.

use vstd::prelude::*;

verus! {

#[verifier::external_type_specification]
#[verifier::external_body]
pub struct ExCompactString(compact_str::CompactString);

/// The characters a `CompactString` holds.
pub uninterp spec fn compact_chars(s: compact_str::CompactString) -> Seq<char>;

/// Relies on compact_str's `From<&str>` (via `CompactString::new`): the new
/// value stores exactly the text of `s`.
#[verifier::external_body]
pub fn compact_from_str(s: &str) -> (r: compact_str::CompactString)
    ensures
        compact_chars(r) == s@,
{
    compact_str::CompactString::from(s)
}

/// Relies on compact_str's `Clone`: the copy stores the same text.
#[verifier::external_body]
pub fn compact_clone(s: &compact_str::CompactString) -> (r: compact_str::CompactString)
    ensures
        compact_chars(r) == compact_chars(*s),
{
    s.clone()
}

/// Text stored in smartstring's `String` alias, as core identifiers arrive
/// from the host application.  The generic bound on `SmartString` keeps its
/// type from being declared to the verifier directly, so the value is held
/// in this opaque struct instead; `smart_chars` names the stored text.
#[verifier::external_body]
pub struct SmartText {
    inner: smartstring::alias::String,
}

/// The characters a `SmartText` holds.
pub uninterp spec fn smart_chars(s: SmartText) -> Seq<char>;

/// Relies on smartstring's `From<&str>`: the new value stores exactly the
/// text of `s`.
#[verifier::external_body]
pub fn smart_from_str(s: &str) -> (r: SmartText)
    ensures
        smart_chars(r) == s@,
{
    SmartText { inner: smartstring::alias::String::from(s) }
}

/// Relies on `SmartString::as_str` (through `Deref`): a slice of the stored
/// text.
#[verifier::external_body]
pub fn smart_as_str(s: &SmartText) -> (r: &str)
    ensures
        r@ == smart_chars(*s),
{
    s.inner.as_str()
}

/// Relies on smartstring's `Clone`: the copy stores the same text.
#[verifier::external_body]
pub fn smart_clone(s: &SmartText) -> (r: SmartText)
    ensures
        smart_chars(r) == smart_chars(*s),
{
    SmartText { inner: s.inner.clone() }
}

} // verus!
