//! The message type: a tagged union with one variant per wrapped operation.
use vstd::prelude::*;
use crate::model::params_view;
use crate::operations::{WrappedOperation, WrappedView, wrapped_view};
use crate::text::{join, join_with, params_text, render_params, strings_view};

verus! {

/// `Variant { return_value: tokio::sync::oneshot::Sender<R>, a: A, b: B }`:
/// the reply slot first, then the parameters in their order.
pub open spec fn variant_text(w: WrappedView) -> Seq<char> {
    w.variant + " { return_value: tokio::sync::oneshot::Sender<"@ + w.result + ">, "@
        + params_text(w.params) + " }"@
}

/// The definition of the message type `name` with one variant per entry of
/// `ws`, in their order.
pub open spec fn message_type_text(name: Seq<char>, ws: Seq<WrappedView>) -> Seq<char> {
    "#[derive(Debug)]\nenum "@ + name + " {\n    "@ + join(
        ws.map_values(|w: WrappedView| variant_text(w)),
        ",\n    "@,
    ) + "\n}\n"@
}

/// Renders the message variant of one wrapped operation.
pub fn emit_variant(w: &WrappedOperation) -> (r: String)
    ensures
        r@ == variant_text(w@),
{
    let mut r = w.variant.clone();
    r.append(" { return_value: tokio::sync::oneshot::Sender<");
    r.append(w.result.as_str());
    r.append(">, ");
    let ps = render_params(&w.params);
    r.append(ps.as_str());
    r.append(" }");
    r
}

/// Renders the message type `name` for the wrapped operations `ws`.
pub fn emit_message_type(name: &str, ws: &Vec<WrappedOperation>) -> (r: String)
    ensures
        r@ == message_type_text(name@, wrapped_view(ws@)),
{
    let mut parts: Vec<String> = Vec::new();
    let mut i: usize = 0;
    while i < ws.len()
        invariant
            i <= ws.len(),
            strings_view(parts@) =~= wrapped_view(ws@.take(i as int)).map_values(
                |w: WrappedView| variant_text(w),
            ),
        decreases ws.len() - i,
    {
        let s = emit_variant(&ws[i]);
        let ghost before = parts@;
        parts.push(s);
        proof {
            assert(strings_view(before.push(s)) =~= strings_view(before).push(s@));
            assert(wrapped_view(ws@.take(i + 1)) =~= wrapped_view(ws@.take(i as int)).push(
                ws@[i as int]@,
            ));
        }
        i += 1;
    }
    assert(ws@.take(i as int) =~= ws@);
    let body = join_with(&parts, ",\n    ");
    let mut r = String::new();
    r.append("#[derive(Debug)]\nenum ");
    r.append(name);
    r.append(" {\n    ");
    r.append(body.as_str());
    r.append("\n}\n");
    assert(r@ =~= message_type_text(name@, wrapped_view(ws@)));
    r
}

} // verus!
