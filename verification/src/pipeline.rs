//! The whole compiler: from a syntax tree to the text of its assembly.
//!
//! The stages run in a fixed order. The tree is lowered into three-address
//! form, instructions are selected, storage is laid out, moves are made
//! encodable, then the other instructions. Each stage is a function of its
//! input alone, and so is the text: [`text_of`] is the model.

use vstd::prelude::*;
use vstd::string::*;
use crate::asm_pass::binary_operation::{
    fix_function,
    lemma_fix_function_is_encodable,
    lemma_fix_function_keeps_free_of_pseudo,
    lemma_fix_function_keeps_reservation,
    lemma_fix_function_keeps_slots_within,
};
use crate::asm_pass::invalid_mov_rewrite::{
    lemma_split_moves_keeps_free_of_pseudo,
    lemma_split_moves_keeps_reservation,
    lemma_split_moves_keeps_slots_within,
    lemma_split_moves_leaves_no_memory_move,
    split_moves,
};
use crate::asm_pass::pseudo_register::{
    instruction_names,
    lemma_frame_holds_every_slot,
    lemma_one_slot_for_each_name,
    lemma_placed_is_free_of_pseudo,
    naming,
    place_function,
    pseudo_names,
    slots_of,
};
use crate::asm_pass::{AsmPass, AsmPassPseudoRegister, BinaryOperation, InvalidMovRewrite};
use crate::assembly;
use crate::ast;
use crate::codegen::{codegen, select_function, select_instruction, select_instructions, selection};
use crate::codewriter::CodeWriter;
use crate::emitter::{emit, program_text};
use crate::sequence::{
    is_among,
    lemma_distinct_items_are_few,
    lemma_expand_all,
    lemma_expand_contains,
    lemma_expand_origin,
};
use crate::stack_allocator::lemma_first_uses_extends;
use crate::tacky;
use crate::tacky::TackEmitter;

verus! {

/// What the passes make of an assembly function, in their order: storage
/// is laid out with a fresh allocator, moves between stack slots are split,
/// and the other instructions that the machine cannot encode are
/// rewritten.
pub open spec fn legalized_function(function: assembly::FunctionView) -> assembly::FunctionView {
    fix_function(split_moves(place_function(function, Seq::empty())))
}

/// What the passes make of an assembly program.
pub open spec fn legalized(program: assembly::ProgramView) -> assembly::ProgramView {
    assembly::ProgramView { function: legalized_function(program.function) }
}

/// The assembly program for a syntax tree, with temporaries numbered from
/// zero.
pub open spec fn assembly_of(program: ast::ProgramView) -> assembly::ProgramView {
    legalized(crate::codegen::select_program(tacky::lower_program(program, 0)))
}

/// The text of the assembly program for a syntax tree.
pub open spec fn text_of(program: ast::ProgramView) -> Seq<char> {
    program_text(0, assembly_of(program))
}

/// Whether the numbers of the temporaries of a program and the size of its
/// frame, four bytes for each operator, fit the machine's words.
pub open spec fn fits(program: ast::ProgramView) -> bool {
    &&& program.function.body.operator_count() <= usize::MAX
    &&& 4 * program.function.body.operator_count() <= i64::MAX
}

/// The text of a program depends on the program alone: two programs that
/// are the same tree, with the same name for the function, have the same
/// text. As [`compile`] returns this text, compiling a program twice gives
/// the same text twice.
pub proof fn lemma_text_is_determined(first: ast::Program, second: ast::Program)
    requires
        first@ == second@,
    ensures
        text_of(first@) == text_of(second@),
{
}

/// After the passes, no operand is a pseudo register.
pub proof fn lemma_legalized_is_free_of_pseudo(program: assembly::ProgramView)
    ensures
        assembly::is_free_of_pseudo(legalized(program).function.instructions),
{
    let placed = place_function(program.function, Seq::empty());
    lemma_placed_is_free_of_pseudo(program.function, Seq::empty());
    lemma_split_moves_keeps_free_of_pseudo(placed);
    lemma_fix_function_keeps_free_of_pseudo(split_moves(placed));
}

/// After the passes, every instruction has a form that the machine can
/// encode: no move, addition or subtraction has two stack operands, no
/// multiplication writes to the stack, and no division divides by an
/// immediate.
pub proof fn lemma_legalized_is_encodable(program: assembly::ProgramView)
    ensures
        assembly::is_encodable(legalized(program).function.instructions),
{
    let placed = place_function(program.function, Seq::empty());
    lemma_split_moves_leaves_no_memory_move(placed);
    lemma_fix_function_is_encodable(split_moves(placed));
}

/// After the passes, a program that named no stack slot and reserved no
/// frame before them starts by reserving four bytes for each distinct name
/// of a pseudo register that it held, reserves nothing else, and names no
/// stack slot outside that frame.
pub proof fn lemma_legalized_frame_holds_every_slot(program: assembly::ProgramView)
    requires
        assembly::is_unplaced(program.function.instructions),
        4 * pseudo_names(program.function.instructions).to_set().len() <= i64::MAX,
    ensures
        assembly::reserves_once(
            legalized(program).function.instructions,
            4 * pseudo_names(program.function.instructions).to_set().len(),
        ),
        assembly::slots_within(
            legalized(program).function.instructions,
            4 * pseudo_names(program.function.instructions).to_set().len(),
        ),
{
    let size = 4 * pseudo_names(program.function.instructions).to_set().len();
    let placed = place_function(program.function, Seq::empty());
    lemma_one_slot_for_each_name(program.function);
    lemma_frame_holds_every_slot(program.function);
    lemma_split_moves_keeps_reservation(placed, size);
    lemma_split_moves_keeps_slots_within(placed, size);
    lemma_fix_function_keeps_reservation(split_moves(placed), size);
    lemma_fix_function_keeps_slots_within(split_moves(placed), size);
}

/// Instruction selection names no stack slot and reserves no frame.
pub proof fn lemma_selected_is_unplaced(instructions: Seq<tacky::InstructionView>)
    ensures
        assembly::is_unplaced(select_instructions(instructions)),
{
    let holds = |instruction: assembly::InstructionView| instruction.is_unplaced();
    lemma_expand_all(instructions, selection(), holds);
}

/// Instruction selection names neither of the scratch registers, which
/// are left to the passes that make instructions encodable.
pub proof fn lemma_selected_is_free_of_scratch(instructions: Seq<tacky::InstructionView>)
    ensures
        assembly::is_free_of_scratch(select_instructions(instructions)),
{
    let holds = |instruction: assembly::InstructionView| instruction.is_free_of_scratch();
    lemma_expand_all(instructions, selection(), holds);
}

/// The pseudo registers of the selected instructions are the variables of
/// the instructions they were selected for: where those are temporaries
/// with numbers below `count`, so are the pseudo registers.
pub proof fn lemma_selected_names_are_temporaries(
    instructions: Seq<tacky::InstructionView>,
    count: nat,
)
    requires
        tacky::names_temporaries_between(instructions, 0, count),
    ensures
        forall|i: int|
            0 <= i < pseudo_names(select_instructions(instructions)).len() ==> is_among(
                #[trigger] pseudo_names(select_instructions(instructions))[i],
                tacky::temporary_naming(),
                count,
            ),
{
    let selected = select_instructions(instructions);
    let names = pseudo_names(selected);
    assert forall|i: int| 0 <= i < names.len() implies is_among(
        #[trigger] names[i],
        tacky::temporary_naming(),
        count,
    ) by {
        let at = lemma_expand_origin(selected, naming(), i);
        let from = lemma_expand_origin(instructions, selection(), at.0);
        let source = instructions[from.0];
        lemma_selected_name_is_a_variable(source, from.1, at.1);
    }
}

/// Every pseudo register of an instruction that was selected for
/// `source` has the name of a variable that `source` names.
proof fn lemma_selected_name_is_a_variable(source: tacky::InstructionView, j: int, k: int)
    requires
        0 <= j < select_instruction(source).len(),
        0 <= k < instruction_names(select_instruction(source)[j]).len(),
    ensures
        exists|place: int|
            0 <= place < source.values().len() && source.values()[place] == (
            tacky::ValueView::Var {
                identifier: instruction_names(select_instruction(source)[j])[k],
            }),
{
    let name = instruction_names(select_instruction(source)[j])[k];
    let wanted = tacky::ValueView::Var { identifier: name };
    assert(source.values()[0] == wanted || source.values()[source.values().len() - 1] == wanted
        || source.values()[source.values().len() - 2] == wanted);
}

/// A program that fits has a frame that fits: it needs no more slots than
/// it has operators.
pub proof fn lemma_slots_are_few(program: ast::ProgramView)
    ensures
        slots_of(
            select_function(tacky::lower_function(program.function, 0)),
            Seq::empty(),
        ).len() <= program.function.body.operator_count(),
{
    let count = program.function.body.operator_count();
    let lowered = tacky::lower_function(program.function, 0);
    let selected = select_function(lowered);
    let slots = slots_of(selected, Seq::empty());
    let names = pseudo_names(selected.instructions);
    tacky::lemma_lowered_statement_values(program.function.body, 0);
    lemma_selected_names_are_temporaries(lowered.instructions, count);
    lemma_first_uses_extends(Seq::empty(), names);
    assert forall|i: int| 0 <= i < slots.len() implies is_among(
        #[trigger] slots[i],
        tacky::temporary_naming(),
        count,
    ) by {
        assert(slots.contains(slots[i]));
    }
    lemma_distinct_items_are_few(slots, tacky::temporary_naming(), count);
}

/// The destination of every instruction of the intermediate form that has
/// one is a pseudo register of the selected instructions.
pub proof fn lemma_destination_is_selected(instructions: Seq<tacky::InstructionView>, i: int)
    requires
        0 <= i < instructions.len(),
        tacky::destination(instructions[i]) matches Some(tacky::ValueView::Var { .. }),
    ensures
        pseudo_names(select_instructions(instructions)).contains(
            tacky::destination(instructions[i])->Some_0->identifier,
        ),
{
    let source = instructions[i];
    let run = select_instruction(source);
    let selected = select_instructions(instructions);
    let last = run.len() - 1;
    let at = if run[0] matches assembly::InstructionView::Mov {
        dest: assembly::OperandView::Pseudo(_),
        ..
    } {
        0
    } else {
        last
    };
    let names = instruction_names(run[at]);
    lemma_expand_contains(instructions, selection(), i, at);
    let place = selected.index_of(run[at]);
    lemma_expand_contains(selected, naming(), place, names.len() - 1);
}

/// A compiled function has one slot for each operator of its body: the
/// slots go to the temporaries, and every operator has its own.
pub proof fn lemma_one_slot_for_each_operator(program: ast::ProgramView)
    ensures
        slots_of(
            select_function(tacky::lower_function(program.function, 0)),
            Seq::empty(),
        ).len() == program.function.body.operator_count(),
{
    let count = program.function.body.operator_count();
    let lowered = tacky::lower_function(program.function, 0);
    let selected = select_function(lowered);
    let slots = slots_of(selected, Seq::empty());
    let temporaries = Seq::new(count, |k: int| tacky::temporary_name(k as nat));
    lemma_slots_are_few(program);
    lemma_one_slot_for_each_name(selected);
    assert forall|i: int, j: int| 0 <= i < j < temporaries.len() implies temporaries[i]
        != temporaries[j] by {
        if temporaries[i] == temporaries[j] {
            tacky::lemma_temporary_name_injective(i as nat, j as nat);
        }
    }
    temporaries.unique_seq_to_set();
    assert forall|name: Seq<char>| temporaries.to_set().contains(name) implies slots.to_set().contains(
        name,
    ) by {
        let k = temporaries.index_of(name);
        match program.function.body {
            ast::Statement::Return(expression) => {
                tacky::lemma_lowered_destinations(expression, 0);
            },
        }
        lemma_destination_is_selected(lowered.instructions, k);
    }
    vstd::set_lib::lemma_len_subset(temporaries.to_set(), slots.to_set());
}

/// Whether `program` fits the machine's words, so that it can be compiled.
pub fn program_fits(program: &ast::Program) -> (fitting: bool)
    ensures
        fitting == fits(program@),
{
    let most: u64 = 0x1fff_ffff_ffff_ffff;
    let budget: usize = if usize::MAX as u64 <= most {
        usize::MAX
    } else {
        most as usize
    };
    match program.function().body() {
        ast::Statement::Return(expression) => expression.operators_within(budget).is_some(),
    }
}

/// Runs the passes on `program`, each on the result of the one before:
/// storage allocation, the rewriting of moves, the rewriting of the other
/// instructions. The frame, four bytes for each distinct name of a pseudo
/// register, must fit the machine's signed word.
pub fn legalize(program: assembly::Program) -> (result: assembly::Program)
    requires
        4 * slots_of(program@.function, Seq::empty()).len() <= i64::MAX,
    ensures
        result@ == legalized(program@),
        assembly::is_free_of_pseudo(result@.function.instructions),
        assembly::is_encodable(result@.function.instructions),
{
    proof {
        lemma_legalized_is_free_of_pseudo(program@);
        lemma_legalized_is_encodable(program@);
    }
    let mut storage = AsmPassPseudoRegister::new();
    let mut moves = InvalidMovRewrite::new();
    let mut operands = BinaryOperation::new();
    let placed = storage.run(program);
    let split = moves.run(placed);
    operands.run(split)
}

/// Compiles `program` to assembly that the machine can encode: no pseudo
/// register is left in it, and its frame has four bytes for each operator
/// of the program and holds every stack slot that it names.
pub fn assemble(program: &ast::Program) -> (result: assembly::Program)
    requires
        fits(program@),
    ensures
        result@ == assembly_of(program@),
        assembly::is_free_of_pseudo(result@.function.instructions),
        assembly::is_encodable(result@.function.instructions),
        assembly::reserves_once(
            result@.function.instructions,
            4 * program@.function.body.operator_count(),
        ),
        assembly::slots_within(
            result@.function.instructions,
            4 * program@.function.body.operator_count(),
        ),
{
    proof {
        let selected = crate::codegen::select_program(tacky::lower_program(program@, 0));
        lemma_one_slot_for_each_operator(program@);
        lemma_one_slot_for_each_name(selected.function);
        lemma_selected_is_unplaced(tacky::lower_function(program@.function, 0).instructions);
        lemma_legalized_frame_holds_every_slot(selected);
    }
    let mut emitter = TackEmitter::new();
    let lowered = emitter.emit_program(program);
    legalize(codegen(&lowered))
}

/// Compiles `program` to the text of its assembly. The text depends on the
/// program alone: compiling the same program again gives the same text.
pub fn compile(program: &ast::Program) -> (text: String)
    requires
        fits(program@),
    ensures
        text@ == text_of(program@),
{
    let instructions = assemble(program);
    let mut writer = CodeWriter::new();
    emit(&mut writer, &instructions);
    writer.into()
}

} // verus!
