//! Storage allocation: every pseudo register gets a stack slot, and the
//! function starts by reserving the frame that holds the slots.
//!
//! The slots go to the names in the order of their first use in the
//! function, reading each instruction's operands from left to right; see
//! [`crate::stack_allocator`] for the offsets.

use vstd::prelude::*;
use crate::asm_pass::AsmPass;
use crate::assembly;
use crate::assembly::{Instruction, InstructionView, Operand, OperandView, Program};
use crate::sequence::{
    expand,
    lemma_expand_concat,
    lemma_expand_contains,
    lemma_expand_push,
};
use crate::stack_allocator::{
    first_uses,
    lemma_first_uses_concat,
    lemma_first_uses_extends,
    lemma_slot_is_kept_through,
    offset_of,
    StackAllocator,
};

verus! {

/// The name of the operand if it is a pseudo register, as a sequence of
/// one name; the empty sequence if it is not.
pub open spec fn operand_names(operand: OperandView) -> Seq<Seq<char>> {
    match operand {
        OperandView::Pseudo(name) => seq![name],
        _ => Seq::empty(),
    }
}

/// The names of the pseudo registers among the operands of an instruction,
/// from left to right.
pub open spec fn instruction_names(instruction: InstructionView) -> Seq<Seq<char>> {
    match instruction {
        InstructionView::Mov { src, dest } => operand_names(src) + operand_names(dest),
        InstructionView::Unary(_, operand) => operand_names(operand),
        InstructionView::Binary(_, src, dest) => operand_names(src) + operand_names(dest),
        InstructionView::Idiv(operand) => operand_names(operand),
        _ => Seq::empty(),
    }
}

/// [`instruction_names`] as a function value.
pub open spec fn naming() -> spec_fn(InstructionView) -> Seq<Seq<char>> {
    |instruction: InstructionView| instruction_names(instruction)
}

/// The names of the pseudo registers among the operands of a sequence of
/// instructions, in the order in which the operands occur. A name occurs
/// here as often as it is used.
pub open spec fn pseudo_names(instructions: Seq<InstructionView>) -> Seq<Seq<char>> {
    expand(instructions, naming())
}

/// The operand with its slot in place of a pseudo register, where `slots`
/// holds the names in the order of their slots.
pub open spec fn place_operand(operand: OperandView, slots: Seq<Seq<char>>) -> OperandView {
    match operand {
        OperandView::Pseudo(name) => OperandView::Stack(offset_of(slots, name) as i64),
        other => other,
    }
}

/// The instruction with every pseudo register among its operands replaced
/// by its slot.
pub open spec fn place_instruction(
    instruction: InstructionView,
    slots: Seq<Seq<char>>,
) -> InstructionView {
    match instruction {
        InstructionView::Mov { src, dest } => InstructionView::Mov {
            src: place_operand(src, slots),
            dest: place_operand(dest, slots),
        },
        InstructionView::Unary(operator, operand) => InstructionView::Unary(
            operator,
            place_operand(operand, slots),
        ),
        InstructionView::Binary(operator, src, dest) => InstructionView::Binary(
            operator,
            place_operand(src, slots),
            place_operand(dest, slots),
        ),
        InstructionView::Idiv(operand) => InstructionView::Idiv(place_operand(operand, slots)),
        other => other,
    }
}

/// The names that have slots once `function` has been laid out by an
/// allocator that had seen the names `seen`.
pub open spec fn slots_of(function: assembly::FunctionView, seen: Seq<Seq<char>>) -> Seq<
    Seq<char>,
> {
    first_uses(seen, pseudo_names(function.instructions))
}

/// What the pass makes of a function when its allocator has seen the names
/// `seen`: an instruction that reserves four bytes for every name that has
/// a slot, then the instructions of the function with every pseudo register
/// replaced by its slot.
pub open spec fn place_function(
    function: assembly::FunctionView,
    seen: Seq<Seq<char>>,
) -> assembly::FunctionView {
    let slots = slots_of(function, seen);
    assembly::FunctionView {
        name: function.name,
        instructions: seq![InstructionView::AllocateStack((4 * slots.len()) as i64)]
            + Seq::new(
            function.instructions.len(),
            |i: int| place_instruction(function.instructions[i], slots),
        ),
    }
}

/// Whether every name in `names` is one of `slots`.
pub open spec fn all_have_slots(names: Seq<Seq<char>>, slots: Seq<Seq<char>>) -> bool {
    forall|i: int| 0 <= i < names.len() ==> slots.contains(#[trigger] names[i])
}

/// An operand whose pseudo register has a slot is placed in the same way
/// after more names have been asked for.
pub proof fn lemma_place_operand_is_kept(
    operand: OperandView,
    slots: Seq<Seq<char>>,
    asked: Seq<Seq<char>>,
)
    requires
        slots.no_duplicates(),
        all_have_slots(operand_names(operand), slots),
    ensures
        place_operand(operand, first_uses(slots, asked)) == place_operand(operand, slots),
{
    match operand {
        OperandView::Pseudo(name) => {
            assert(operand_names(operand)[0] == name);
            lemma_slot_is_kept_through(slots, name, asked);
        },
        _ => {},
    }
}

/// An instruction whose pseudo registers all have slots is placed in the
/// same way after more names have been asked for.
pub proof fn lemma_place_instruction_is_kept(
    instruction: InstructionView,
    slots: Seq<Seq<char>>,
    asked: Seq<Seq<char>>,
)
    requires
        slots.no_duplicates(),
        all_have_slots(instruction_names(instruction), slots),
    ensures
        place_instruction(instruction, first_uses(slots, asked)) == place_instruction(
            instruction,
            slots,
        ),
{
    match instruction {
        InstructionView::Mov { src, dest } => {
            lemma_names_of_pair(src, dest, slots);
            lemma_place_operand_is_kept(src, slots, asked);
            lemma_place_operand_is_kept(dest, slots, asked);
        },
        InstructionView::Unary(_, operand) => {
            lemma_place_operand_is_kept(operand, slots, asked);
        },
        InstructionView::Binary(_, src, dest) => {
            lemma_names_of_pair(src, dest, slots);
            lemma_place_operand_is_kept(src, slots, asked);
            lemma_place_operand_is_kept(dest, slots, asked);
        },
        InstructionView::Idiv(operand) => {
            lemma_place_operand_is_kept(operand, slots, asked);
        },
        _ => {},
    }
}

/// Where the names of two operands together have slots, the names of each
/// have.
proof fn lemma_names_of_pair(src: OperandView, dest: OperandView, slots: Seq<Seq<char>>)
    requires
        all_have_slots(operand_names(src) + operand_names(dest), slots),
    ensures
        all_have_slots(operand_names(src), slots),
        all_have_slots(operand_names(dest), slots),
{
    let both = operand_names(src) + operand_names(dest);
    assert forall|i: int| 0 <= i < operand_names(src).len() implies slots.contains(
        #[trigger] operand_names(src)[i],
    ) by {
        assert(both[i] == operand_names(src)[i]);
    }
    assert forall|i: int| 0 <= i < operand_names(dest).len() implies slots.contains(
        #[trigger] operand_names(dest)[i],
    ) by {
        assert(both[operand_names(src).len() + i] == operand_names(dest)[i]);
    }
}

/// Once a function has been laid out, none of its operands is a pseudo
/// register.
pub proof fn lemma_placed_is_free_of_pseudo(function: assembly::FunctionView, seen: Seq<Seq<char>>)
    ensures
        assembly::is_free_of_pseudo(place_function(function, seen).instructions),
{
}

/// The slots of a function go to the distinct names of its pseudo
/// registers, one each: there are as many slots as there are such names.
pub proof fn lemma_one_slot_for_each_name(function: assembly::FunctionView)
    ensures
        slots_of(function, Seq::empty()).no_duplicates(),
        slots_of(function, Seq::empty()).to_set() == pseudo_names(function.instructions).to_set(),
        slots_of(function, Seq::empty()).len() == pseudo_names(
            function.instructions,
        ).to_set().len(),
{
    let names = pseudo_names(function.instructions);
    let slots = slots_of(function, Seq::empty());
    lemma_first_uses_extends(Seq::empty(), names);
    slots.unique_seq_to_set();
}

/// Every pseudo register of a function has a slot once the function has
/// been laid out.
pub proof fn lemma_every_name_has_a_slot(
    function: assembly::FunctionView,
    seen: Seq<Seq<char>>,
    i: int,
)
    requires
        seen.no_duplicates(),
        0 <= i < function.instructions.len(),
    ensures
        all_have_slots(instruction_names(function.instructions[i]), slots_of(function, seen)),
{
    let names = pseudo_names(function.instructions);
    let slots = slots_of(function, seen);
    let own = instruction_names(function.instructions[i]);
    lemma_first_uses_extends(seen, names);
    assert forall|j: int| 0 <= j < own.len() implies slots.contains(#[trigger] own[j]) by {
        lemma_expand_contains(function.instructions, naming(), i, j);
    }
}

/// Once a function that named no stack slot and reserved no frame has been
/// laid out by a fresh allocator, it starts by reserving four bytes for
/// each distinct name of a pseudo register and reserves nothing else, and
/// every stack slot that it names lies in that frame.
pub proof fn lemma_frame_holds_every_slot(function: assembly::FunctionView)
    requires
        assembly::is_unplaced(function.instructions),
        4 * slots_of(function, Seq::empty()).len() <= i64::MAX,
    ensures
        assembly::reserves_once(
            place_function(function, Seq::empty()).instructions,
            4 * pseudo_names(function.instructions).to_set().len(),
        ),
        assembly::slots_within(
            place_function(function, Seq::empty()).instructions,
            4 * pseudo_names(function.instructions).to_set().len(),
        ),
{
    let seen = Seq::<Seq<char>>::empty();
    let slots = slots_of(function, seen);
    let placed = place_function(function, seen).instructions;
    let size = 4 * slots.len();
    lemma_one_slot_for_each_name(function);
    assert forall|i: int| 0 <= i < placed.len() implies (#[trigger] placed[i]).slots_within(
        size,
    ) by {
        if i >= 1 {
            let before = function.instructions[i - 1];
            lemma_every_name_has_a_slot(function, seen, i - 1);
            lemma_placed_instruction_in_frame(before, slots);
        }
    }
}

/// An instruction that named no stack slot names only slots of the frame
/// once its pseudo registers, which all have slots, are replaced by them.
proof fn lemma_placed_instruction_in_frame(instruction: InstructionView, slots: Seq<Seq<char>>)
    requires
        instruction.is_unplaced(),
        all_have_slots(instruction_names(instruction), slots),
        4 * slots.len() <= i64::MAX,
    ensures
        place_instruction(instruction, slots).slots_within(4 * slots.len()),
{
    let placed = place_instruction(instruction, slots);
    assert forall|k: int| 0 <= k < placed.operands().len() implies (
    #[trigger] placed.operands()[k] matches OperandView::Stack(offset) ==> -4 * slots.len()
        <= offset <= -4) by {
        let before = instruction.operands()[k];
        match before {
            OperandView::Pseudo(name) => {
                match instruction {
                    InstructionView::Mov { src, dest } => {
                        lemma_names_of_pair(src, dest, slots);
                    },
                    InstructionView::Binary(_, src, dest) => {
                        lemma_names_of_pair(src, dest, slots);
                    },
                    _ => {},
                }
                assert(operand_names(before)[0] == name);
            },
            _ => {},
        }
    }
}

/// This pass looks for all the pseudo register references in the assembly
/// tree and replaces them with a stack offset.
pub struct AsmPassPseudoRegister {
    stack_allocator: StackAllocator,
}

impl AsmPassPseudoRegister {
    /// The names that the pass has given slots, in the order of the slots.
    pub closed spec fn seen(&self) -> Seq<Seq<char>> {
        self.stack_allocator@
    }

    /// The invariant of the pass: that of its allocator.
    pub closed spec fn well_formed(&self) -> bool {
        self.stack_allocator.well_formed()
    }

    pub fn new() -> (pass: Self)
        ensures
            pass.well_formed(),
            pass.seen() == Seq::<Seq<char>>::empty(),
    {
        Self { stack_allocator: StackAllocator::new() }
    }

    fn handle_function(&mut self, function: assembly::Function) -> (placed: assembly::Function)
        requires
            old(self).well_formed(),
            4 * slots_of(function@, old(self).seen()).len() <= i64::MAX,
        ensures
            final(self).well_formed(),
            final(self).seen() == slots_of(function@, old(self).seen()),
            placed@ == place_function(function@, old(self).seen()),
    {
        let (name, ins) = function.decompose();
        let ghost source = assembly::instruction_views(ins@);
        let ghost seen = self.seen();
        let mut instructions: Vec<Instruction> = Vec::new();
        proof {
            self.stack_allocator.lemma_names_distinct();
        }
        for instruction in iter: ins
            invariant
                assembly::instruction_views(iter.seq()) == source,
                seen.no_duplicates(),
                4 * first_uses(seen, pseudo_names(source)).len() <= i64::MAX,
                self.well_formed(),
                self.seen() == first_uses(seen, pseudo_names(source.take(iter.index() as int))),
                instructions@.len() == iter.index(),
                forall|k: int|
                    0 <= k < iter.index() ==> all_have_slots(
                        instruction_names(#[trigger] source[k]),
                        self.seen(),
                    ),
                forall|k: int|
                    0 <= k < iter.index() ==> (#[trigger] instructions@[k])@ == place_instruction(
                        source[k],
                        self.seen(),
                    ),
        {
            let ghost index = iter.index() as int;
            let ghost slots = self.seen();
            let ghost asked = instruction_names(instruction@);
            proof {
                let done = source.take(index);
                let rest = source.skip(index + 1);
                assert(source.take(index + 1) =~= done.push(instruction@));
                assert(source =~= done.push(instruction@) + rest);
                lemma_expand_push(done, naming(), instruction@);
                lemma_expand_concat(done.push(instruction@), rest, naming());
                lemma_first_uses_concat(seen, pseudo_names(done), asked);
                lemma_first_uses_concat(
                    seen,
                    pseudo_names(done.push(instruction@)),
                    pseudo_names(rest),
                );
                lemma_first_uses_extends(seen, pseudo_names(done));
                lemma_first_uses_extends(slots, asked);
                lemma_first_uses_extends(first_uses(slots, asked), pseudo_names(rest));
            }
            let placed = self.handle_instruction(instruction);
            instructions.push(placed);
            proof {
                assert forall|k: int| 0 <= k < index + 1 implies all_have_slots(
                    instruction_names(#[trigger] source[k]),
                    self.seen(),
                ) by {}
                assert forall|k: int| 0 <= k < index + 1 implies (#[trigger] instructions@[k])@
                    == place_instruction(source[k], self.seen()) by {
                    if k < index {
                        lemma_place_instruction_is_kept(source[k], slots, asked);
                    }
                }
            }
        }
        proof {
            assert(source.take(source.len() as int) =~= source);
        }
        let ghost placed = assembly::instruction_views(instructions@);
        let reserve = Instruction::AllocateStack(self.stack_allocator.stack_size());
        instructions.insert(0, reserve);
        proof {
            assert(assembly::instruction_views(instructions@) =~= seq![reserve@] + placed);
            assert(placed =~= Seq::new(
                source.len(),
                |i: int| place_instruction(source[i], self.seen()),
            ));
        }
        assembly::Function::new(name, instructions)
    }

    fn handle_instruction(&mut self, instruction: Instruction) -> (placed: Instruction)
        requires
            old(self).well_formed(),
            -4 * first_uses(old(self).seen(), instruction_names(instruction@)).len() >= i64::MIN,
        ensures
            final(self).well_formed(),
            final(self).seen() == first_uses(old(self).seen(), instruction_names(instruction@)),
            placed@ == place_instruction(instruction@, final(self).seen()),
    {
        proof {
            self.stack_allocator.lemma_names_distinct();
        }
        match instruction {
            Instruction::Mov { src, dest } => {
                let ghost first = operand_names(src@);
                let ghost second = operand_names(dest@);
                proof {
                    lemma_first_uses_concat(self.seen(), first, second);
                    lemma_first_uses_extends(self.seen(), first);
                    lemma_first_uses_extends(first_uses(self.seen(), first), second);
                }
                let src = self.handle_operand(src);
                let dest = self.handle_operand(dest);
                Instruction::Mov { src, dest }
            },
            Instruction::Unary(operator, operand) => {
                Instruction::Unary(operator, self.handle_operand(operand))
            },
            Instruction::Binary(operator, src, dest) => {
                let ghost first = operand_names(src@);
                let ghost second = operand_names(dest@);
                proof {
                    lemma_first_uses_concat(self.seen(), first, second);
                    lemma_first_uses_extends(self.seen(), first);
                    lemma_first_uses_extends(first_uses(self.seen(), first), second);
                }
                let src = self.handle_operand(src);
                let dest = self.handle_operand(dest);
                Instruction::Binary(operator, src, dest)
            },
            Instruction::Idiv(operand) => Instruction::Idiv(self.handle_operand(operand)),
            instruction => instruction,
        }
    }

    fn handle_operand(&mut self, operand: Operand) -> (placed: Operand)
        requires
            old(self).well_formed(),
            -4 * first_uses(old(self).seen(), operand_names(operand@)).len() >= i64::MIN,
        ensures
            final(self).well_formed(),
            final(self).seen() == first_uses(old(self).seen(), operand_names(operand@)),
            placed@ == place_operand(operand@, final(self).seen()),
    {
        match operand {
            Operand::Pseudo(pseudo_register) => {
                proof {
                    let asked = operand_names(operand@);
                    assert(first_uses(self.seen(), asked.drop_last()) == self.seen());
                }
                Operand::Stack(self.stack_allocator.get_stack_offset(pseudo_register.as_str()))
            },
            operand => operand,
        }
    }
}

impl AsmPass for AsmPassPseudoRegister {
    /// The pass can run where its allocator is sound and the frame, four
    /// bytes for every name with a slot, has a size that fits the machine's
    /// signed word.
    open spec fn accepts(&self, program: assembly::ProgramView) -> bool {
        &&& self.well_formed()
        &&& 4 * slots_of(program.function, self.seen()).len() <= i64::MAX
    }

    open spec fn rewritten(&self, program: assembly::ProgramView) -> assembly::ProgramView {
        assembly::ProgramView { function: place_function(program.function, self.seen()) }
    }

    fn run(&mut self, program: Program) -> (result: Program)
        ensures
            final(self).well_formed(),
            final(self).seen() == slots_of(program@.function, old(self).seen()),
    {
        let function = self.handle_function(program.into_function());
        Program::from_function(function)
    }
}

} // verus!
