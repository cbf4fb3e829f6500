//! Stack slots for pseudo registers.
//!
//! The model of an allocator is the sequence of the names it has seen, each
//! once, in the order in which they were first asked for. The name at place
//! `i` has the slot at offset `-4 * (i + 1)`, so the slots are `-4`, `-8`,
//! `-12` and so on, no two names share one, and a name keeps its slot for
//! good.

use vstd::prelude::*;
use vstd::hash_map::StringHashMap;
use vstd::string::*;

verus! {

/// The offset of the slot of the name at place `index` in first-use order.
pub open spec fn offset_at(index: int) -> int {
    -4 * (index + 1)
}

/// The offset of the slot of `name`, which must be one of `names`.
pub open spec fn offset_of(names: Seq<Seq<char>>, name: Seq<char>) -> int {
    offset_at(names.index_of(name))
}

/// The names seen once `name` has been asked for after `names`: `name`
/// comes last if it is new, and nothing changes if it is not.
pub open spec fn note(names: Seq<Seq<char>>, name: Seq<char>) -> Seq<Seq<char>> {
    if names.contains(name) {
        names
    } else {
        names.push(name)
    }
}

/// Asking for a name keeps the names distinct and leaves every name that
/// was seen before at its place.
pub proof fn lemma_note_extends(names: Seq<Seq<char>>, name: Seq<char>)
    requires
        names.no_duplicates(),
    ensures
        note(names, name).no_duplicates(),
        note(names, name).contains(name),
        names.len() <= note(names, name).len() <= names.len() + 1,
        forall|i: int| 0 <= i < names.len() ==> note(names, name)[i] == names[i],
{
    if !names.contains(name) {
        assert(names.push(name)[names.len() as int] == name);
    }
}

/// The names seen once the names of `asked` have been asked for, in order,
/// after `names`.
pub open spec fn first_uses(names: Seq<Seq<char>>, asked: Seq<Seq<char>>) -> Seq<Seq<char>>
    decreases asked.len(),
{
    if asked.len() == 0 {
        names
    } else {
        note(first_uses(names, asked.drop_last()), asked.last())
    }
}

/// Asking for one run of names and then for another is asking for the two
/// runs joined.
pub proof fn lemma_first_uses_concat(
    names: Seq<Seq<char>>,
    front: Seq<Seq<char>>,
    back: Seq<Seq<char>>,
)
    ensures
        first_uses(names, front + back) == first_uses(first_uses(names, front), back),
    decreases back.len(),
{
    if back.len() > 0 {
        assert((front + back).drop_last() =~= front + back.drop_last());
        lemma_first_uses_concat(names, front, back.drop_last());
    }
}

/// Asking for a run of names keeps the names distinct, leaves every name
/// that was seen before at its place, and sees every name of the run. No
/// name is seen that was neither seen before nor asked for.
pub proof fn lemma_first_uses_extends(names: Seq<Seq<char>>, asked: Seq<Seq<char>>)
    requires
        names.no_duplicates(),
    ensures
        first_uses(names, asked).no_duplicates(),
        names.len() <= first_uses(names, asked).len() <= names.len() + asked.len(),
        forall|i: int| 0 <= i < names.len() ==> first_uses(names, asked)[i] == names[i],
        forall|i: int| 0 <= i < asked.len() ==> first_uses(names, asked).contains(asked[i]),
        forall|name: Seq<char>| #[trigger]
            first_uses(names, asked).contains(name) ==> names.contains(name) || asked.contains(
                name,
            ),
    decreases asked.len(),
{
    if asked.len() > 0 {
        let front = asked.drop_last();
        let before = first_uses(names, front);
        let after = first_uses(names, asked);
        lemma_first_uses_extends(names, front);
        lemma_note_extends(before, asked.last());
        assert forall|i: int| 0 <= i < asked.len() implies after.contains(asked[i]) by {
            if i < front.len() {
                assert(front[i] == asked[i]);
                assert(after[before.index_of(asked[i])] == asked[i]);
            }
        }
        assert forall|name: Seq<char>| #[trigger] after.contains(name) implies names.contains(name)
            || asked.contains(name) by {
            let at = after.index_of(name);
            if at < before.len() {
                assert(before.contains(name));
            }
        }
    }
}

/// A name that was seen keeps its slot when a run of names is asked for.
pub proof fn lemma_slot_is_kept_through(
    names: Seq<Seq<char>>,
    seen: Seq<char>,
    asked: Seq<Seq<char>>,
)
    requires
        names.no_duplicates(),
        names.contains(seen),
    ensures
        offset_of(first_uses(names, asked), seen) == offset_of(names, seen),
{
    lemma_first_uses_extends(names, asked);
}

/// The slots go to the names in their order: the first name has the slot
/// at `-4`, the second that at `-8`, and so on.
pub proof fn lemma_slot_of_place(names: Seq<Seq<char>>, index: int)
    requires
        names.no_duplicates(),
        0 <= index < names.len(),
    ensures
        offset_of(names, names[index]) == -4 * (index + 1),
{
}

/// A name that was seen keeps its slot when another name is asked for.
pub proof fn lemma_slot_is_kept(names: Seq<Seq<char>>, seen: Seq<char>, asked: Seq<char>)
    requires
        names.no_duplicates(),
        names.contains(seen),
    ensures
        offset_of(note(names, asked), seen) == offset_of(names, seen),
{
    lemma_note_extends(names, asked);
}

/// Two different names never share a slot.
pub proof fn lemma_slots_are_disjoint(names: Seq<Seq<char>>, first: Seq<char>, second: Seq<char>)
    requires
        names.contains(first),
        names.contains(second),
        first != second,
    ensures
        offset_of(names, first) != offset_of(names, second),
        offset_of(names, first) - offset_of(names, second) >= 4 || offset_of(names, second)
            - offset_of(names, first) >= 4,
{
}

/// Every slot lies in the frame: at or below `-4`, and not below `-4` times
/// the number of names.
pub proof fn lemma_slot_in_frame(names: Seq<Seq<char>>, name: Seq<char>)
    requires
        names.contains(name),
    ensures
        -4 * names.len() <= offset_of(names, name) <= -4,
        offset_of(names, name) % 4 == 0,
{
}

/// Assigns stack slots to pseudo registers by name.
pub struct StackAllocator {
    // Map between a pseudo register name and a stack offset.
    mapping: StringHashMap<i64>,
    max_offset: i64,
    names: Ghost<Seq<Seq<char>>>,
}

impl View for StackAllocator {
    type V = Seq<Seq<char>>;

    closed spec fn view(&self) -> Seq<Seq<char>> {
        self.names@
    }
}

impl StackAllocator {
    /// The invariant of the allocator: the names it has seen are distinct,
    /// the map holds exactly these names, each with the offset of its place,
    /// and the cursor is at the lowest slot handed out.
    pub closed spec fn well_formed(&self) -> bool {
        &&& self.names@.no_duplicates()
        &&& forall|name: Seq<char>|
            self.mapping@.contains_key(name) <==> self.names@.contains(name)
        &&& forall|i: int|
            0 <= i < self.names@.len() ==> self.mapping@[#[trigger] self.names@[i]] == offset_at(i)
        &&& self.max_offset == -4 * self.names@.len()
    }

    /// In a well-formed allocator the names are distinct, and there are not
    /// more of them than there are slots above the lowest offset of the
    /// machine.
    pub proof fn lemma_names_distinct(&self)
        requires
            self.well_formed(),
        ensures
            self@.no_duplicates(),
            -4 * self@.len() >= i64::MIN,
    {
    }

    pub fn new() -> (allocator: StackAllocator)
        ensures
            allocator.well_formed(),
            allocator@ == Seq::<Seq<char>>::empty(),
    {
        StackAllocator { max_offset: 0, mapping: StringHashMap::new(), names: Ghost(Seq::empty()) }
    }

    /// The offset of the slot of `pseudo_register`. A name that is asked
    /// for the first time gets the next slot below those handed out.
    pub fn get_stack_offset(&mut self, pseudo_register: &str) -> (offset: i64)
        requires
            old(self).well_formed(),
            -4 * note(old(self)@, pseudo_register@).len() >= i64::MIN,
        ensures
            final(self).well_formed(),
            final(self)@ == note(old(self)@, pseudo_register@),
            offset == offset_of(final(self)@, pseudo_register@),
            old(self)@.contains(pseudo_register@) ==> offset == offset_of(
                old(self)@,
                pseudo_register@,
            ),
            !old(self)@.contains(pseudo_register@) ==> offset == -4 * (old(self)@.len() + 1),
    {
        if let Some(offset) = self.mapping.get(pseudo_register) {
            *offset
        } else {
            let ghost before = self.names@;
            self.max_offset -= 4;
            self.mapping.insert(pseudo_register.to_owned(), self.max_offset);
            proof {
                self.names@ = before.push(pseudo_register@);
                lemma_note_extends(before, pseudo_register@);
                let after = self.names@;
                assert forall|name: Seq<char>|
                    self.mapping@.contains_key(name) <==> after.contains(name) by {
                    if before.contains(name) {
                        assert(after[before.index_of(name)] == name);
                    }
                }
            }
            self.max_offset
        }
    }

    /// The size in bytes of the frame that holds every slot handed out.
    pub fn stack_size(&self) -> (size: i64)
        requires
            self.well_formed(),
            4 * self@.len() <= i64::MAX,
        ensures
            size == 4 * self@.len(),
    {
        -self.max_offset
    }
}

} // verus!
