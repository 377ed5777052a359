//! The handle type: its structure, the conversion capability, `spawn` with
//! its dispatch loop, and one asynchronous method per wrapped operation.
use vstd::prelude::*;
use crate::model::ParamView;
use crate::operations::{WrappedOperation, WrappedView, wrapped_view};
use crate::text::{join, join_with, names_text, params_text, render_names, render_params, strings_view};

verus! {

/// The handle structure, the conversion capability and the handle's
/// `new`, up to the dispatcher's `match` on the received message.
pub open spec fn handle_head_text(interface: Seq<char>, handle: Seq<char>, message: Seq<char>) -> Seq<char> {
    "#[derive(Debug, Clone)]\nstruct "@ + handle + " {\n    handle: tokio::sync::mpsc::Sender<"@ + message
        + ">,\n}\n\ntrait ToAsyncHandle {\n    fn to_async_handle(self, depth: usize) -> "@ + handle
        + ";\n}\n\nimpl<T> ToAsyncHandle for T\nwhere\n    T: "@ + interface
        + " + Sync + Send + 'static\n{\n    fn to_async_handle(self: T, depth: usize) -> "@ + handle
        + " {\n        "@ + handle + "::spawn(self, depth)\n    }\n}\n\nimpl "@ + handle
        + " {\n    pub fn new(handle: tokio::sync::mpsc::Sender<"@ + message
        + ">) -> Self {\n        Self { handle }\n    }\n\n    pub fn spawn<T>(mut sync: T, depth: usize) -> Self\n    where\n        T: "@
        + interface
        + " + Sync + Send + 'static\n    {\n        let (tx, mut rx) = tokio::sync::mpsc::channel(depth);\n        tokio::spawn(async move {\n            while let Some(msg) = rx.recv().await {\n                match msg {\n"@
}

/// What closes the dispatch loop and `spawn`.
pub open spec fn dispatch_tail_text() -> Seq<char> {
    "                }\n            }\n        });\n        Self { handle: tx }\n    }\n"@
}

/// One arm of the dispatch loop: it calls the operation on the owned
/// implementation and writes the result into the reply slot; a reply slot
/// whose reader is gone is left alone.
pub open spec fn dispatch_arm_text(message: Seq<char>, w: WrappedView) -> Seq<char> {
    "                    "@ + message + "::"@ + w.variant + " { return_value, "@ + names_text(w.params)
        + " } => {\n                        let result = sync."@ + w.method + "("@ + names_text(
        w.params,
    ) + ");\n                        let _ = return_value.send(result);\n                    }\n"@
}

/// The signature of a handle method: asynchronous, with the operation's
/// parameters after `&self` and the operation's result type.
pub open spec fn method_signature_text(name: Seq<char>, params: Seq<ParamView>, result: Seq<char>) -> Seq<char> {
    "\n    async fn "@ + name + "(&self, "@ + params_text(params) + ") -> "@ + result
}

/// The body of a handle method: a fresh reply slot, a send on the mailbox and
/// a wait on the reply.
pub open spec fn method_body_text(message: Seq<char>, w: WrappedView) -> Seq<char> {
    " {\n        let (return_value, response) = tokio::sync::oneshot::channel();\n        self.handle.send("@
        + message + "::"@ + w.variant + " { return_value, "@ + names_text(w.params)
        + " }).await.expect(\"Error when sending message to the sync code\");\n        response.await.expect(\"Error receiving the response\")\n    }\n"@
}

/// The asynchronous handle method of one wrapped operation.
pub open spec fn handle_method_text(message: Seq<char>, w: WrappedView) -> Seq<char> {
    method_signature_text(w.method, w.params, w.result) + method_body_text(message, w)
}

/// Everything generated for the handle of `interface`, with one dispatch
/// arm and one method per entry of `ws`, in their order.
pub open spec fn handle_text(
    interface: Seq<char>,
    handle: Seq<char>,
    message: Seq<char>,
    ws: Seq<WrappedView>,
) -> Seq<char> {
    handle_head_text(interface, handle, message) + join(
        ws.map_values(|w: WrappedView| dispatch_arm_text(message, w)),
        Seq::empty(),
    ) + dispatch_tail_text() + join(
        ws.map_values(|w: WrappedView| handle_method_text(message, w)),
        Seq::empty(),
    ) + "}\n"@
}

/// Renders the dispatch arm of one wrapped operation.
pub fn emit_dispatch_arm(message: &str, w: &WrappedOperation) -> (r: String)
    ensures
        r@ == dispatch_arm_text(message@, w@),
{
    let names = render_names(&w.params);
    let mut r = String::new();
    r.append("                    ");
    r.append(message);
    r.append("::");
    r.append(w.variant.as_str());
    r.append(" { return_value, ");
    r.append(names.as_str());
    r.append(" } => {\n                        let result = sync.");
    r.append(w.method.as_str());
    r.append("(");
    r.append(names.as_str());
    r.append(");\n                        let _ = return_value.send(result);\n                    }\n");
    assert(r@ =~= dispatch_arm_text(message@, w@));
    r
}

/// Renders the asynchronous handle method of one wrapped operation.
pub fn emit_handle_method(message: &str, w: &WrappedOperation) -> (r: String)
    ensures
        r@ == handle_method_text(message@, w@),
{
    let params = render_params(&w.params);
    let names = render_names(&w.params);
    let mut r = String::new();
    r.append("\n    async fn ");
    r.append(w.method.as_str());
    r.append("(&self, ");
    r.append(params.as_str());
    r.append(") -> ");
    r.append(w.result.as_str());
    r.append(" {\n        let (return_value, response) = tokio::sync::oneshot::channel();\n        self.handle.send(");
    r.append(message);
    r.append("::");
    r.append(w.variant.as_str());
    r.append(" { return_value, ");
    r.append(names.as_str());
    r.append(" }).await.expect(\"Error when sending message to the sync code\");\n        response.await.expect(\"Error receiving the response\")\n    }\n");
    assert(r@ =~= handle_method_text(message@, w@));
    r
}

fn emit_dispatch_arms(message: &str, ws: &Vec<WrappedOperation>) -> (r: String)
    ensures
        r@ == join(
            wrapped_view(ws@).map_values(|w: WrappedView| dispatch_arm_text(message@, w)),
            Seq::empty(),
        ),
{
    let mut parts: Vec<String> = Vec::new();
    let mut i: usize = 0;
    while i < ws.len()
        invariant
            i <= ws.len(),
            strings_view(parts@) =~= wrapped_view(ws@.take(i as int)).map_values(
                |w: WrappedView| dispatch_arm_text(message@, w),
            ),
        decreases ws.len() - i,
    {
        let s = emit_dispatch_arm(message, &ws[i]);
        let ghost before = parts@;
        parts.push(s);
        proof {
            assert(strings_view(before.push(s)) =~= strings_view(before).push(s@));
            assert(wrapped_view(ws@.take(i + 1)) =~= wrapped_view(ws@.take(i as int)).push(
                ws@[i as int]@,
            ));
        }
        i += 1;
    }
    assert(ws@.take(i as int) =~= ws@);
    let r = join_with(&parts, "");
    proof {
        reveal_strlit("");
    }
    assert(""@ =~= Seq::<char>::empty());
    r
}

fn emit_handle_methods(message: &str, ws: &Vec<WrappedOperation>) -> (r: String)
    ensures
        r@ == join(
            wrapped_view(ws@).map_values(|w: WrappedView| handle_method_text(message@, w)),
            Seq::empty(),
        ),
{
    let mut parts: Vec<String> = Vec::new();
    let mut i: usize = 0;
    while i < ws.len()
        invariant
            i <= ws.len(),
            strings_view(parts@) =~= wrapped_view(ws@.take(i as int)).map_values(
                |w: WrappedView| handle_method_text(message@, w),
            ),
        decreases ws.len() - i,
    {
        let s = emit_handle_method(message, &ws[i]);
        let ghost before = parts@;
        parts.push(s);
        proof {
            assert(strings_view(before.push(s)) =~= strings_view(before).push(s@));
            assert(wrapped_view(ws@.take(i + 1)) =~= wrapped_view(ws@.take(i as int)).push(
                ws@[i as int]@,
            ));
        }
        i += 1;
    }
    assert(ws@.take(i as int) =~= ws@);
    let r = join_with(&parts, "");
    proof {
        reveal_strlit("");
    }
    assert(""@ =~= Seq::<char>::empty());
    r
}

/// Renders everything generated for the handle of the interface
/// `interface`, named `handle`, over the message type `message`.
pub fn emit_handle(interface: &str, handle: &str, message: &str, ws: &Vec<WrappedOperation>) -> (r: String)
    ensures
        r@ == handle_text(interface@, handle@, message@, wrapped_view(ws@)),
{
    let arms = emit_dispatch_arms(message, ws);
    let methods = emit_handle_methods(message, ws);
    let mut r = String::new();
    r.append("#[derive(Debug, Clone)]\nstruct ");
    r.append(handle);
    r.append(" {\n    handle: tokio::sync::mpsc::Sender<");
    r.append(message);
    r.append(">,\n}\n\ntrait ToAsyncHandle {\n    fn to_async_handle(self, depth: usize) -> ");
    r.append(handle);
    r.append(";\n}\n\nimpl<T> ToAsyncHandle for T\nwhere\n    T: ");
    r.append(interface);
    r.append(" + Sync + Send + 'static\n{\n    fn to_async_handle(self: T, depth: usize) -> ");
    r.append(handle);
    r.append(" {\n        ");
    r.append(handle);
    r.append("::spawn(self, depth)\n    }\n}\n\nimpl ");
    r.append(handle);
    r.append(" {\n    pub fn new(handle: tokio::sync::mpsc::Sender<");
    r.append(message);
    r.append(">) -> Self {\n        Self { handle }\n    }\n\n    pub fn spawn<T>(mut sync: T, depth: usize) -> Self\n    where\n        T: ");
    r.append(interface);
    r.append(" + Sync + Send + 'static\n    {\n        let (tx, mut rx) = tokio::sync::mpsc::channel(depth);\n        tokio::spawn(async move {\n            while let Some(msg) = rx.recv().await {\n                match msg {\n");
    assert(r@ =~= handle_head_text(interface@, handle@, message@));
    r.append(arms.as_str());
    r.append("                }\n            }\n        });\n        Self { handle: tx }\n    }\n");
    r.append(methods.as_str());
    r.append("}\n");
    assert(r@ =~= handle_text(interface@, handle@, message@, wrapped_view(ws@)));
    r
}

} // verus!
