//! Programmable transactions: ordered lists of instructions for the ledger.
//!
//! An instruction either brings a value in (the shared clock, an object, a pure value in
//! its binary encoding) or calls a function of a package. A call names its arguments by
//! the positions of earlier instructions, so a transaction can be read and carried out
//! from front to back.

use crate::types::copy_bytes;
use crate::types::object::ObjectID;
use crate::types::object::ObjectRef;
use crate::types::type_tag::TypeTag;
use vstd::prelude::*;
use vstd::string::StringExecFns;

verus! {

/// The value that an instruction of a transaction yields, named by the position of that
/// instruction.
#[derive(Debug, Clone, Copy, PartialEq, Eq, Structural)]
pub struct Argument {
    pub position: usize,
}

/// A call of a function of a package.
#[derive(Debug, Clone, PartialEq, Eq)]
pub struct MoveCall {
    /// The package that holds the function.
    pub package: ObjectID,
    /// The module of the package.
    pub module: String,
    /// The function of the module.
    pub function: String,
    /// The types that the function is called at.
    pub type_arguments: Vec<TypeTag>,
    /// The values that the function is called on.
    pub arguments: Vec<Argument>,
}

/// One instruction of a programmable transaction.
#[derive(Debug, Clone, PartialEq, Eq)]
pub enum Instruction {
    /// Brings in a read-only reference to the ledger's shared clock.
    Clock,
    /// Brings in an owned or immutable object.
    Object(ObjectRef),
    /// Brings in a pure value, given in its binary encoding.
    Pure(Vec<u8>),
    /// Calls a function.
    Call(MoveCall),
}

/// An ordered list of instructions, carried out as one transaction.
#[derive(Debug, Clone, PartialEq, Eq)]
pub struct ProgrammableTransaction {
    pub instructions: Vec<Instruction>,
}

/// What an `ObjectRef` holds.
pub struct ObjectRefView {
    pub object_id: Seq<u8>,
    pub version: u64,
    pub digest: Seq<u8>,
}

/// What a `MoveCall` holds.
pub struct MoveCallView {
    pub package: Seq<u8>,
    pub module: Seq<char>,
    pub function: Seq<char>,
    pub type_arguments: Seq<Seq<char>>,
    pub arguments: Seq<nat>,
}

/// What an `Instruction` holds.
pub enum InstructionView {
    Clock,
    Object(ObjectRefView),
    Pure(Seq<u8>),
    Call(MoveCallView),
}

impl View for ObjectRef {
    type V = ObjectRefView;

    open spec fn view(&self) -> ObjectRefView {
        ObjectRefView { object_id: self.object_id@, version: self.version, digest: self.digest@ }
    }
}

/// The texts of a list of type tags.
pub open spec fn tag_texts(tags: Seq<TypeTag>) -> Seq<Seq<char>> {
    Seq::new(tags.len(), |i: int| tags[i]@)
}

/// The positions that a list of arguments names.
pub open spec fn positions(arguments: Seq<Argument>) -> Seq<nat> {
    Seq::new(arguments.len(), |i: int| arguments[i].position as nat)
}

impl View for MoveCall {
    type V = MoveCallView;

    open spec fn view(&self) -> MoveCallView {
        MoveCallView {
            package: self.package@,
            module: self.module@,
            function: self.function@,
            type_arguments: tag_texts(self.type_arguments@),
            arguments: positions(self.arguments@),
        }
    }
}

impl View for Instruction {
    type V = InstructionView;

    open spec fn view(&self) -> InstructionView {
        match self {
            Instruction::Clock => InstructionView::Clock,
            Instruction::Object(object) => InstructionView::Object(object@),
            Instruction::Pure(bytes) => InstructionView::Pure(bytes@),
            Instruction::Call(call) => InstructionView::Call(call@),
        }
    }
}

/// The view of a call of `function` in `module` of `package`.
pub open spec fn call_view(
    package: Seq<u8>,
    module: Seq<char>,
    function: Seq<char>,
    type_arguments: Seq<Seq<char>>,
    arguments: Seq<nat>,
) -> InstructionView {
    InstructionView::Call(MoveCallView { package, module, function, type_arguments, arguments })
}

/// What a list of instructions holds.
pub open spec fn instruction_views(instructions: Seq<Instruction>) -> Seq<InstructionView> {
    Seq::new(instructions.len(), |i: int| instructions[i]@)
}

impl View for ProgrammableTransaction {
    type V = Seq<InstructionView>;

    open spec fn view(&self) -> Seq<InstructionView> {
        instruction_views(self.instructions@)
    }
}

/// Whether every call of a list of instructions takes its arguments from earlier
/// instructions only.
pub open spec fn well_addressed(instructions: Seq<InstructionView>) -> bool {
    forall|i: int, k: int|
        0 <= i < instructions.len() && instructions[i] is Call && 0 <= k
            < instructions[i]->Call_0.arguments.len()
            ==> #[trigger] instructions[i]->Call_0.arguments[k] < i
}

impl MoveCall {
    /// A copy of the call.
    pub fn duplicate(&self) -> (copy: Self)
        ensures
            copy@ == self@,
    {
        let mut type_arguments: Vec<TypeTag> = Vec::new();
        let mut i: usize = 0;
        while i < self.type_arguments.len()
            invariant
                i <= self.type_arguments.len(),
                type_arguments.len() == i,
                forall|k: int| 0 <= k < i ==> type_arguments@[k]@ == self.type_arguments@[k]@,
            decreases self.type_arguments.len() - i,
        {
            type_arguments.push(self.type_arguments[i].duplicate());
            i = i + 1;
        }
        let mut arguments: Vec<Argument> = Vec::new();
        let mut j: usize = 0;
        while j < self.arguments.len()
            invariant
                j <= self.arguments.len(),
                arguments.len() == j,
                forall|k: int| 0 <= k < j ==> arguments@[k] == self.arguments@[k],
            decreases self.arguments.len() - j,
        {
            arguments.push(self.arguments[j]);
            j = j + 1;
        }
        assert(tag_texts(type_arguments@) =~= tag_texts(self.type_arguments@));
        assert(positions(arguments@) =~= positions(self.arguments@));
        MoveCall {
            package: self.package,
            module: self.module.clone(),
            function: self.function.clone(),
            type_arguments,
            arguments,
        }
    }
}

impl Instruction {
    /// A copy of the instruction.
    pub fn duplicate(&self) -> (copy: Self)
        ensures
            copy@ == self@,
    {
        match self {
            Instruction::Clock => Instruction::Clock,
            Instruction::Object(object) => Instruction::Object(*object),
            Instruction::Pure(bytes) => Instruction::Pure(copy_bytes(bytes)),
            Instruction::Call(call) => Instruction::Call(call.duplicate()),
        }
    }
}

impl ProgrammableTransaction {
    /// A copy of the transaction.
    pub fn duplicate(&self) -> (copy: Self)
        ensures
            copy@ == self@,
    {
        let mut instructions: Vec<Instruction> = Vec::new();
        let mut i: usize = 0;
        while i < self.instructions.len()
            invariant
                i <= self.instructions.len(),
                instructions.len() == i,
                forall|k: int| 0 <= k < i ==> instructions@[k]@ == self.instructions@[k]@,
            decreases self.instructions.len() - i,
        {
            instructions.push(self.instructions[i].duplicate());
            i = i + 1;
        }
        let copy = ProgrammableTransaction { instructions };
        assert(copy@ =~= self@);
        copy
    }
}

/// Collects the instructions of a programmable transaction one by one.
pub struct ProgrammableTransactionBuilder {
    instructions: Vec<Instruction>,
}

impl View for ProgrammableTransactionBuilder {
    type V = Seq<InstructionView>;

    closed spec fn view(&self) -> Seq<InstructionView> {
        instruction_views(self.instructions@)
    }
}

impl ProgrammableTransactionBuilder {
    /// A builder that holds no instruction yet.
    pub fn new() -> (builder: Self)
        ensures
            builder@ == Seq::<InstructionView>::empty(),
    {
        let builder = ProgrammableTransactionBuilder { instructions: Vec::new() };
        assert(builder@ =~= Seq::<InstructionView>::empty());
        builder
    }

    fn append(&mut self, instruction: Instruction) -> (argument: Argument)
        ensures
            final(self)@ == old(self)@.push(instruction@),
            argument.position == old(self)@.len(),
    {
        let position: usize = self.instructions.len();
        self.instructions.push(instruction);
        assert(self@ =~= old(self)@.push(instruction@));
        Argument { position }
    }

    /// Adds a read-only reference to the ledger's shared clock.
    pub fn clock(&mut self) -> (argument: Argument)
        ensures
            final(self)@ == old(self)@.push(InstructionView::Clock),
            argument.position == old(self)@.len(),
    {
        self.append(Instruction::Clock)
    }

    /// Adds an owned or immutable object.
    pub fn obj(&mut self, object: ObjectRef) -> (argument: Argument)
        ensures
            final(self)@ == old(self)@.push(InstructionView::Object(object@)),
            argument.position == old(self)@.len(),
    {
        self.append(Instruction::Object(object))
    }

    /// Adds a pure value, given in its binary encoding.
    pub fn pure_bytes(&mut self, bytes: Vec<u8>) -> (argument: Argument)
        ensures
            final(self)@ == old(self)@.push(InstructionView::Pure(bytes@)),
            argument.position == old(self)@.len(),
    {
        self.append(Instruction::Pure(bytes))
    }

    /// Adds a call of `function` in `module` of `package`.
    pub fn programmable_move_call(
        &mut self,
        package: ObjectID,
        module: &str,
        function: &str,
        type_arguments: Vec<TypeTag>,
        arguments: Vec<Argument>,
    ) -> (argument: Argument)
        ensures
            final(self)@ == old(self)@.push(
                call_view(
                    package@,
                    module@,
                    function@,
                    tag_texts(type_arguments@),
                    positions(arguments@),
                ),
            ),
            argument.position == old(self)@.len(),
    {
        self.append(
            Instruction::Call(
                MoveCall {
                    package,
                    module: String::from_str(module),
                    function: String::from_str(function),
                    type_arguments,
                    arguments,
                },
            ),
        )
    }

    /// The transaction made of the instructions added so far.
    pub fn finish(self) -> (transaction: ProgrammableTransaction)
        ensures
            transaction@ == self@,
    {
        ProgrammableTransaction { instructions: self.instructions }
    }
}

} // verus!
