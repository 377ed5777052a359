//! The operations that get wrapped, with the names derived for them.
use vstd::prelude::*;
use crate::model::{Operation, OperationView, Param, ParamView, params_view};
use crate::names::{ascii_name, pascal_of, variant_name};

verus! {

/// An operation with an instance receiver, as the emitters use it: the
/// handle method's name, the message variant's name, the parameters and the
/// result type (written out, `()` where the operation declares none).
pub struct WrappedOperation {
    pub method: String,
    pub variant: String,
    pub params: Vec<Param>,
    pub result: String,
}

pub struct WrappedView {
    pub method: Seq<char>,
    pub variant: Seq<char>,
    pub params: Seq<ParamView>,
    pub result: Seq<char>,
}

impl View for WrappedOperation {
    type V = WrappedView;

    open spec fn view(&self) -> WrappedView {
        WrappedView {
            method: self.method@,
            variant: self.variant@,
            params: params_view(self.params@),
            result: self.result@,
        }
    }
}

pub open spec fn wrapped_view(ws: Seq<WrappedOperation>) -> Seq<WrappedView> {
    ws.map_values(|w: WrappedOperation| w@)
}

pub open spec fn operations_view(ops: Seq<Operation>) -> Seq<OperationView> {
    ops.map_values(|o: Operation| o@)
}

/// The result type of an operation as written in generated code.
pub open spec fn result_type_of(result: Option<Seq<char>>) -> Seq<char> {
    match result {
        Some(t) => t,
        None => "()"@,
    }
}

/// The operations that have an instance receiver, in declaration order.
pub open spec fn instance_operations(ops: Seq<OperationView>) -> Seq<OperationView> {
    ops.filter(|o: OperationView| o.has_receiver)
}

pub open spec fn wrap_of(o: OperationView) -> WrappedView {
    WrappedView {
        method: o.name,
        variant: pascal_of(o.name),
        params: o.params,
        result: result_type_of(o.result),
    }
}

/// Whether every operation with an instance receiver has an ASCII name,
/// which the Pascal-case conversion of its name needs.
pub open spec fn names_supported(ops: Seq<OperationView>) -> bool {
    forall|k: int| 0 <= k < ops.len() && #[trigger] ops[k].has_receiver ==> ascii_name(ops[k].name)
}

/// What gets wrapped of a list of operations: one entry per instance
/// operation, in declaration order.
pub open spec fn wrapped_of(ops: Seq<OperationView>) -> Seq<WrappedView> {
    instance_operations(ops).map_values(|o: OperationView| wrap_of(o))
}

fn copy_param(p: &Param) -> (r: Param)
    ensures
        r@ == p@,
{
    Param { name: p.name.clone(), ty: p.ty.clone() }
}

fn copy_params(ps: &Vec<Param>) -> (r: Vec<Param>)
    ensures
        params_view(r@) == params_view(ps@),
{
    let mut r: Vec<Param> = Vec::new();
    let mut i: usize = 0;
    while i < ps.len()
        invariant
            i <= ps.len(),
            params_view(r@) =~= params_view(ps@.take(i as int)),
        decreases ps.len() - i,
    {
        let p = copy_param(&ps[i]);
        let ghost before = r@;
        r.push(p);
        proof {
            assert(ps@.take(i + 1) =~= ps@.take(i as int).push(ps@[i as int]));
            assert(params_view(before.push(p)) =~= params_view(before).push(p@));
            assert(params_view(ps@.take(i as int).push(ps@[i as int])) =~= params_view(
                ps@.take(i as int),
            ).push(ps@[i as int]@));
        }
        i += 1;
    }
    assert(ps@.take(i as int) =~= ps@);
    r
}

fn result_type(result: &Option<String>) -> (r: String)
    ensures
        r@ == result_type_of(match result {
            Some(t) => Some(t@),
            None => None,
        }),
{
    match result {
        Some(t) => t.clone(),
        None => "()".to_owned(),
    }
}

/// The wrapped form of one operation.
pub fn wrap(o: &Operation) -> (r: WrappedOperation)
    requires
        ascii_name(o.name@),
    ensures
        r@ == wrap_of(o@),
{
    WrappedOperation {
        method: o.name.clone(),
        variant: variant_name(o.name.as_str()),
        params: copy_params(&o.params),
        result: result_type(&o.result),
    }
}

/// The operations of `ops` that have an instance receiver, each wrapped, in
/// declaration order; the others are left out.
pub fn wrapped_operations(ops: &Vec<Operation>) -> (r: Vec<WrappedOperation>)
    requires
        names_supported(operations_view(ops@)),
    ensures
        wrapped_view(r@) == wrapped_of(operations_view(ops@)),
{
    let ghost all = operations_view(ops@);
    let mut r: Vec<WrappedOperation> = Vec::new();
    let mut i: usize = 0;
    while i < ops.len()
        invariant
            i <= ops.len(),
            all == operations_view(ops@),
            names_supported(all),
            wrapped_view(r@) =~= wrapped_of(all.take(i as int)),
        decreases ops.len() - i,
    {
        proof {
            reveal(Seq::filter);
            assert(all.take(i + 1).drop_last() =~= all.take(i as int));
            assert(all.take(i + 1).last() == ops@[i as int]@);
        }
        let ghost before = r@;
        let ghost kept = instance_operations(all.take(i as int));
        if ops[i].has_receiver {
            assert(all[i as int].has_receiver);
            assert(all[i as int].name == ops@[i as int].name@);
            let w = wrap(&ops[i]);
            r.push(w);
            proof {
                assert(instance_operations(all.take(i + 1)) == kept.push(ops@[i as int]@));
                assert(wrapped_view(before.push(w)) =~= wrapped_view(before).push(w@));
                assert(kept.push(ops@[i as int]@).map_values(|o: OperationView| wrap_of(o))
                    =~= kept.map_values(|o: OperationView| wrap_of(o)).push(wrap_of(ops@[i as int]@)));
            }
        } else {
            assert(instance_operations(all.take(i + 1)) == kept);
        }
        i += 1;
    }
    assert(all.take(i as int) =~= all);
    r
}

} // verus!
