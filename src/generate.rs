//! Assembly of the generated source unit, and what holds of it.
use vstd::prelude::*;
use crate::handle::{emit_handle, handle_method_text, handle_text, method_signature_text};
use crate::message::{emit_message_type, message_type_text, variant_text};
use crate::model::{Interface, InterfaceView, Operation, OperationView};
use crate::names::{ascii_name, handle_type_name, handle_type_name_of, message_type_name, message_type_name_of, pascal_of};
use crate::operations::{
    WrappedView, instance_operations, names_supported, operations_view, result_type_of, wrap_of, wrapped_of, wrapped_operations,
};

verus! {

/// The generated source unit: the interface's declaration unchanged, then the
/// handle type with everything that belongs to it, then the message type.
pub open spec fn generated_text(i: InterfaceView) -> Seq<char> {
    let ws = wrapped_of(i.operations);
    let message = message_type_name_of(i.name);
    i.declaration + "\n\n"@ + handle_text(i.name, handle_type_name_of(i.name), message, ws) + "\n"@
        + message_type_text(message, ws)
}

/// Why an interface cannot be generated for.
#[derive(Debug, PartialEq, Eq)]
pub enum GenerateError {
    /// The operation at this index has an instance receiver and a name with
    /// characters outside ASCII.
    NonAsciiOperationName { operation: usize },
}

/// The index of the first operation with an instance receiver whose name is
/// not ASCII, if there is one.
pub fn first_unsupported_name(ops: &Vec<Operation>) -> (r: Option<usize>)
    ensures
        r is None <==> names_supported(operations_view(ops@)),
        r matches Some(k) ==> k < ops.len() && ops@[k as int].has_receiver && !ascii_name(
            ops@[k as int].name@,
        ),
{
    let mut i: usize = 0;
    while i < ops.len()
        invariant
            i <= ops.len(),
            forall|k: int| 0 <= k < i && #[trigger] ops@[k].has_receiver ==> ascii_name(ops@[k].name@),
        decreases ops.len() - i,
    {
        if ops[i].has_receiver && !ops[i].name.as_str().is_ascii() {
            let name = ops[i].name.as_str();
            assert(name@ == ops@[i as int].name@);
            assert(operations_view(ops@)[i as int] == ops@[i as int]@);
            assert(operations_view(ops@)[i as int].has_receiver);
            assert(!ascii_name(operations_view(ops@)[i as int].name));
            return Some(i);
        }
        i += 1;
    }
    assert forall|k: int| 0 <= k < ops.len() && #[trigger] operations_view(ops@)[k].has_receiver implies ascii_name(
        operations_view(ops@)[k].name,
    ) by {
        assert(operations_view(ops@)[k] == ops@[k]@);
    }
    None
}

/// Generates the asynchronous handle and the message type for `interface`,
/// after its unchanged declaration.
pub fn client_handle_core(interface: &Interface) -> (r: String)
    requires
        names_supported(interface@.operations),
    ensures
        r@ == generated_text(interface@),
{
    let ws = wrapped_operations(&interface.operations);
    let message = message_type_name(interface.name.as_str());
    let handle = handle_type_name(interface.name.as_str());
    let handle_part = emit_handle(interface.name.as_str(), handle.as_str(), message.as_str(), &ws);
    let message_part = emit_message_type(message.as_str(), &ws);
    let mut r = interface.declaration.clone();
    r.append("\n\n");
    r.append(handle_part.as_str());
    r.append("\n");
    r.append(message_part.as_str());
    r
}

/// Generates for `interface` where every operation with an instance
/// receiver has an ASCII name, and says which operation is in the way
/// otherwise.
pub fn generate(interface: &Interface) -> (r: Result<String, GenerateError>)
    ensures
        r is Ok <==> names_supported(interface@.operations),
        r matches Ok(t) ==> t@ == generated_text(interface@),
        r matches Err(GenerateError::NonAsciiOperationName { operation }) ==> operation
            < interface.operations.len() && interface.operations@[operation as int].has_receiver
            && !ascii_name(interface.operations@[operation as int].name@),
{
    match first_unsupported_name(&interface.operations) {
        Some(k) => Err(GenerateError::NonAsciiOperationName { operation: k }),
        None => Ok(client_handle_core(interface)),
    }
}

/// The message type has exactly one variant per operation with an instance
/// receiver, in declaration order: every variant comes from such an
/// operation, every such operation has one, and each variant's text starts
/// with the Pascal case of the operation's name.
pub proof fn lemma_one_variant_per_instance_operation(i: InterfaceView)
    ensures
        ({
            let ops = instance_operations(i.operations);
            let vs = wrapped_of(i.operations).map_values(|w: WrappedView| variant_text(w));
            &&& vs.len() == ops.len()
            &&& forall|j: int|
                0 <= j < ops.len() ==> #[trigger] ops[j].has_receiver && i.operations.contains(ops[j])
            &&& forall|k: int|
                0 <= k < i.operations.len() && #[trigger] i.operations[k].has_receiver
                    ==> ops.contains(i.operations[k])
            &&& forall|j: int|
                0 <= j < vs.len() ==> (#[trigger] vs[j]).subrange(0, pascal_of(ops[j].name).len() as int)
                    == pascal_of(ops[j].name)
        }),
{
    let pred = |o: OperationView| o.has_receiver;
    let ops = instance_operations(i.operations);
    let vs = wrapped_of(i.operations).map_values(|w: WrappedView| variant_text(w));
    assert forall|j: int| 0 <= j < ops.len() implies #[trigger] ops[j].has_receiver
        && i.operations.contains(ops[j]) by {
        i.operations.lemma_filter_pred(pred, j);
        assert(i.operations.filter(pred).contains(ops[j]));
        i.operations.lemma_filter_contains_rev(pred, ops[j]);
    }
    assert forall|k: int| 0 <= k < i.operations.len() && #[trigger] i.operations[k].has_receiver
        implies ops.contains(i.operations[k]) by {
        i.operations.lemma_filter_contains(pred, k);
    }
    assert forall|j: int| 0 <= j < vs.len() implies (#[trigger] vs[j]).subrange(
        0,
        pascal_of(ops[j].name).len() as int,
    ) == pascal_of(ops[j].name) by {
        let w = wrapped_of(i.operations)[j];
        assert(vs[j] == variant_text(w));
        assert(variant_text(w).subrange(0, w.variant.len() as int) =~= w.variant);
    }
}

/// The handle method of an operation takes exactly the operation's
/// parameters, in their order, and resolves to its result type (unit where
/// it declares none): its text starts with that signature.
pub proof fn lemma_handle_method_signature(i: InterfaceView, j: int)
    requires
        0 <= j < instance_operations(i.operations).len(),
    ensures
        ({
            let op = instance_operations(i.operations)[j];
            let w = wrapped_of(i.operations)[j];
            let signature = method_signature_text(op.name, op.params, result_type_of(op.result));
            handle_method_text(message_type_name_of(i.name), w).subrange(0, signature.len() as int)
                == signature
        }),
{
    let op = instance_operations(i.operations)[j];
    let w = wrapped_of(i.operations)[j];
    let signature = method_signature_text(op.name, op.params, result_type_of(op.result));
    assert(handle_method_text(message_type_name_of(i.name), w).subrange(0, signature.len() as int)
        =~= signature);
}

/// Operations without an instance receiver stay in the output only as part
/// of the unchanged declaration: every variant and every handle method comes
/// from an operation with an instance receiver.
pub proof fn lemma_free_operations_not_wrapped(i: InterfaceView)
    ensures
        generated_text(i).subrange(0, i.declaration.len() as int) == i.declaration,
        forall|j: int|
            0 <= j < wrapped_of(i.operations).len() ==> {
                let op = #[trigger] instance_operations(i.operations)[j];
                &&& op.has_receiver
                &&& i.operations.contains(op)
                &&& wrapped_of(i.operations)[j] == wrap_of(op)
            },
{
    assert(generated_text(i).subrange(0, i.declaration.len() as int) =~= i.declaration);
    let pred = |o: OperationView| o.has_receiver;
    assert forall|j: int| 0 <= j < wrapped_of(i.operations).len() implies {
        let op = #[trigger] instance_operations(i.operations)[j];
        &&& op.has_receiver
        &&& i.operations.contains(op)
        &&& wrapped_of(i.operations)[j] == wrap_of(op)
    } by {
        let op = instance_operations(i.operations)[j];
        i.operations.lemma_filter_pred(pred, j);
        assert(i.operations.filter(pred).contains(op));
        i.operations.lemma_filter_contains_rev(pred, op);
    }
}

/// Generating twice from the same interface description gives the same text.
pub proof fn lemma_generation_deterministic(a: InterfaceView, b: InterfaceView)
    requires
        a == b,
    ensures
        generated_text(a) == generated_text(b),
{
}

} // verus!
