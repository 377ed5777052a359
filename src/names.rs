//! Deterministic naming rules for the generated types and variants.
use vstd::prelude::*;
use vstd::utf8::is_ascii_chars;
use convert_case::{Case, Casing};

verus! {

/// What `convert_case` makes of a name when it converts it to Pascal case.
pub uninterp spec fn pascal_of(s: Seq<char>) -> Seq<char>;

/// Whether the name is made of ASCII characters only.
pub open spec fn ascii_name(s: Seq<char>) -> bool {
    is_ascii_chars(s)
}

/// Relies on convert_case's `Casing::to_case` with `Case::Pascal`: it splits
/// the name into words and capitalizes each, and its result depends on the
/// characters of the name alone. It cuts the name at byte offsets computed
/// from character positions, which panics inside a multi-byte character; on
/// ASCII names the two coincide.
#[verifier::external_body]
fn to_pascal(s: &str) -> (r: String)
    requires
        ascii_name(s@),
    ensures
        r@ == pascal_of(s@),
{
    s.to_case(Case::Pascal)
}

/// `Async<Name>Message`.
pub open spec fn message_type_name_of(interface: Seq<char>) -> Seq<char> {
    "Async"@ + interface + "Message"@
}

/// `Async<Name>Handle`.
pub open spec fn handle_type_name_of(interface: Seq<char>) -> Seq<char> {
    "Async"@ + interface + "Handle"@
}

/// The name of the message type generated for the interface `interface`.
pub fn message_type_name(interface: &str) -> (r: String)
    ensures
        r@ == message_type_name_of(interface@),
{
    let mut r = String::new();
    r.append("Async");
    r.append(interface);
    r.append("Message");
    r
}

/// The name of the handle type generated for the interface `interface`.
pub fn handle_type_name(interface: &str) -> (r: String)
    ensures
        r@ == handle_type_name_of(interface@),
{
    let mut r = String::new();
    r.append("Async");
    r.append(interface);
    r.append("Handle");
    r
}

/// The message variant name of the operation `operation`: its name in
/// Pascal case.
pub fn variant_name(operation: &str) -> (r: String)
    requires
        ascii_name(operation@),
    ensures
        r@ == pascal_of(operation@),
{
    to_pascal(operation)
}

} // verus!
