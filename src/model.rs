use vstd::prelude::*;

verus! {

/// One typed parameter of an operation: its pattern text and its type text.
pub struct Param {
    pub name: String,
    pub ty: String,
}

pub struct ParamView {
    pub name: Seq<char>,
    pub ty: Seq<char>,
}

impl View for Param {
    type V = ParamView;

    open spec fn view(&self) -> ParamView {
        ParamView { name: self.name@, ty: self.ty@ }
    }
}

/// One operation of an interface, in the shape the generator reads it.
pub struct Operation {
    pub name: String,
    /// Whether the operation acts on an instance (`&self` or `&mut self`).
    pub has_receiver: bool,
    /// The typed parameters, receiver excluded, in declaration order.
    pub params: Vec<Param>,
    /// The declared result type; `None` stands for the unit type.
    pub result: Option<String>,
}

pub struct OperationView {
    pub name: Seq<char>,
    pub has_receiver: bool,
    pub params: Seq<ParamView>,
    pub result: Option<Seq<char>>,
}

pub open spec fn params_view(ps: Seq<Param>) -> Seq<ParamView> {
    ps.map_values(|p: Param| p@)
}

impl View for Operation {
    type V = OperationView;

    open spec fn view(&self) -> OperationView {
        OperationView {
            name: self.name@,
            has_receiver: self.has_receiver,
            params: params_view(self.params@),
            result: match self.result {
                Some(r) => Some(r@),
                None => None,
            },
        }
    }
}

/// A whole interface: its name, its declaration as source text, and its
/// operations in declaration order.
pub struct Interface {
    pub name: String,
    pub declaration: String,
    pub operations: Vec<Operation>,
}

pub struct InterfaceView {
    pub name: Seq<char>,
    pub declaration: Seq<char>,
    pub operations: Seq<OperationView>,
}

impl View for Interface {
    type V = InterfaceView;

    open spec fn view(&self) -> InterfaceView {
        InterfaceView {
            name: self.name@,
            declaration: self.declaration@,
            operations: self.operations@.map_values(|o: Operation| o@),
        }
    }
}

impl Param {
    pub fn new(name: &str, ty: &str) -> (r: Param)
        ensures
            r@ == (ParamView { name: name@, ty: ty@ }),
    {
        Param { name: name.to_owned(), ty: ty.to_owned() }
    }
}

} // verus!
