//! The state of a set of buttons: which are held down, and which have gone down or
//! come up since the transient state was last cleared.

use std::collections::HashSet;
use std::hash::Hash;
use vstd::prelude::*;
use vstd::std_specs::hash::obeys_key_model;

verus! {

/// The state of the buttons of one device.
///
/// All that is stated of it holds for button types whose hashing and equality are
/// those of a key of a hash table: equal buttons hash alike, and only identical
/// buttons are equal.
#[derive(Debug)]
pub struct Input<T: Copy + Eq + Hash> {
    /// Every button that is being pressed.
    pressed: HashSet<T>,
    /// Every button that has just been pressed.
    just_pressed: HashSet<T>,
    /// Every button that has just been released.
    just_released: HashSet<T>,
}

impl<T: Copy + Eq + Hash> Default for Input<T> {
    fn default() -> (input: Self)
        ensures
            input.pressed_set() == Set::<T>::empty(),
            input.just_pressed_set() == Set::<T>::empty(),
            input.just_released_set() == Set::<T>::empty(),
    {
        Input { pressed: HashSet::new(), just_pressed: HashSet::new(), just_released: HashSet::new() }
    }
}

impl<T: Copy + Eq + Hash> Clone for Input<T> {
    fn clone(&self) -> (copy: Self)
        ensures
            obeys_key_model::<T>() ==> copy.pressed_set() == self.pressed_set()
                && copy.just_pressed_set() == self.just_pressed_set()
                && copy.just_released_set() == self.just_released_set(),
    {
        Input {
            pressed: duplicate(&self.pressed),
            just_pressed: duplicate(&self.just_pressed),
            just_released: duplicate(&self.just_released),
        }
    }
}

impl<T: Copy + Eq + Hash> Input<T> {
    /// The buttons that are being pressed.
    pub closed spec fn pressed_set(&self) -> Set<T> {
        self.pressed@
    }

    /// The buttons that have just been pressed.
    pub closed spec fn just_pressed_set(&self) -> Set<T> {
        self.just_pressed@
    }

    /// The buttons that have just been released.
    pub closed spec fn just_released_set(&self) -> Set<T> {
        self.just_released@
    }

    /// Registers a press of `input`. A button that was not being pressed has just
    /// been pressed.
    pub fn press(&mut self, input: T)
        requires
            obeys_key_model::<T>(),
        ensures
            final(self).pressed_set() == old(self).pressed_set().insert(input),
            final(self).just_pressed_set() == if old(self).pressed_set().contains(input) {
                old(self).just_pressed_set()
            } else {
                old(self).just_pressed_set().insert(input)
            },
            final(self).just_released_set() == old(self).just_released_set(),
    {
        if self.pressed.insert(input) {
            self.just_pressed.insert(input);
        }
    }

    /// Whether `input` is being pressed.
    pub fn pressed(&self, input: T) -> (held: bool)
        requires
            obeys_key_model::<T>(),
        ensures
            held == self.pressed_set().contains(input),
    {
        self.pressed.contains(&input)
    }

    /// Registers a release of `input`. A button that was being pressed has just been
    /// released.
    pub fn release(&mut self, input: T)
        requires
            obeys_key_model::<T>(),
        ensures
            final(self).pressed_set() == old(self).pressed_set().remove(input),
            final(self).just_released_set() == if old(self).pressed_set().contains(input) {
                old(self).just_released_set().insert(input)
            } else {
                old(self).just_released_set()
            },
            final(self).just_pressed_set() == old(self).just_pressed_set(),
    {
        if self.pressed.remove(&input) {
            self.just_released.insert(input);
        }
    }

    /// Registers a release of every button that is being pressed.
    pub fn release_all(&mut self)
        requires
            obeys_key_model::<T>(),
        ensures
            final(self).pressed_set() == Set::<T>::empty(),
            final(self).just_released_set() == old(self).just_released_set().union(
                old(self).pressed_set(),
            ),
            final(self).just_pressed_set() == old(self).just_pressed_set(),
    {
        let ghost released = self.just_released@;
        for input in it: self.pressed.iter()
            invariant
                obeys_key_model::<T>(),
                self.pressed == old(self).pressed,
                self.just_pressed == old(self).just_pressed,
                it.seq().unref().to_set() == self.pressed@,
                forall|k: T| released.contains(k) ==> self.just_released@.contains(k),
                forall|j: int|
                    0 <= j < it.index() ==> self.just_released@.contains(
                        #[trigger] it.seq().unref()[j],
                    ),
                forall|k: T|
                    self.just_released@.contains(k) ==> released.contains(k)
                        || self.pressed@.contains(k),
                it.index() == it.seq().len() ==> forall|k: T|
                    self.pressed@.contains(k) ==> self.just_released@.contains(k),
        {
            proof {
                assert(it.seq().unref()[it.index()] == *input);
                assert(it.seq().unref().contains(it.seq().unref()[it.index()]));
                assert(it.seq().unref().to_set().contains(*input));
            }
            self.just_released.insert(*input);
            proof {
                assert forall|k: T|
                    it.index() + 1 == it.seq().len() && self.pressed@.contains(
                        k,
                    ) implies self.just_released@.contains(k) by {
                    assert(it.seq().unref().to_set().contains(k));
                    let j = choose|j: int|
                        0 <= j < it.seq().unref().len() && it.seq().unref()[j] == k;
                    assert(self.just_released@.contains(it.seq().unref()[j]));
                }
            }
        }
        assert(self.just_released@ =~= released.union(self.pressed@));
        self.pressed.clear();
    }

    /// Whether `input` has just been pressed.
    pub fn just_pressed(&self, input: T) -> (fresh: bool)
        requires
            obeys_key_model::<T>(),
        ensures
            fresh == self.just_pressed_set().contains(input),
    {
        self.just_pressed.contains(&input)
    }

    /// Whether one of `inputs` is being pressed.
    pub fn any_pressed(&self, inputs: &[T]) -> (any: bool)
        requires
            obeys_key_model::<T>(),
        ensures
            any == holds_any(self.pressed_set(), inputs@),
    {
        contains_any(&self.pressed, inputs)
    }

    /// Whether one of `inputs` has just been pressed.
    pub fn any_just_pressed(&self, inputs: &[T]) -> (any: bool)
        requires
            obeys_key_model::<T>(),
        ensures
            any == holds_any(self.just_pressed_set(), inputs@),
    {
        contains_any(&self.just_pressed, inputs)
    }

    /// Forgets that `input` has just been pressed, and says whether it had been.
    pub fn clear_just_pressed(&mut self, input: T) -> (fresh: bool)
        requires
            obeys_key_model::<T>(),
        ensures
            fresh == old(self).just_pressed_set().contains(input),
            final(self).just_pressed_set() == old(self).just_pressed_set().remove(input),
            final(self).pressed_set() == old(self).pressed_set(),
            final(self).just_released_set() == old(self).just_released_set(),
    {
        self.just_pressed.remove(&input)
    }

    /// Whether `input` has just been released.
    pub fn just_released(&self, input: T) -> (fresh: bool)
        requires
            obeys_key_model::<T>(),
        ensures
            fresh == self.just_released_set().contains(input),
    {
        self.just_released.contains(&input)
    }

    /// Whether one of `inputs` has just been released.
    pub fn any_just_released(&self, inputs: &[T]) -> (any: bool)
        requires
            obeys_key_model::<T>(),
        ensures
            any == holds_any(self.just_released_set(), inputs@),
    {
        contains_any(&self.just_released, inputs)
    }

    /// Forgets that `input` has just been released, and says whether it had been.
    pub fn clear_just_released(&mut self, input: T) -> (fresh: bool)
        requires
            obeys_key_model::<T>(),
        ensures
            fresh == old(self).just_released_set().contains(input),
            final(self).just_released_set() == old(self).just_released_set().remove(input),
            final(self).pressed_set() == old(self).pressed_set(),
            final(self).just_pressed_set() == old(self).just_pressed_set(),
    {
        self.just_released.remove(&input)
    }

    /// Forgets all that is known of `input`.
    pub fn reset(&mut self, input: T)
        requires
            obeys_key_model::<T>(),
        ensures
            final(self).pressed_set() == old(self).pressed_set().remove(input),
            final(self).just_pressed_set() == old(self).just_pressed_set().remove(input),
            final(self).just_released_set() == old(self).just_released_set().remove(input),
    {
        self.pressed.remove(&input);
        self.just_pressed.remove(&input);
        self.just_released.remove(&input);
    }

    /// Forgets all that is known of every button.
    pub fn reset_all(&mut self)
        ensures
            final(self).pressed_set() == Set::<T>::empty(),
            final(self).just_pressed_set() == Set::<T>::empty(),
            final(self).just_released_set() == Set::<T>::empty(),
    {
        self.pressed.clear();
        self.just_pressed.clear();
        self.just_released.clear();
    }

    /// Forgets which buttons have just been pressed or released: a step of the
    /// simulation has seen them. The buttons that are being pressed stay so.
    pub fn clear(&mut self)
        ensures
            final(self).pressed_set() == old(self).pressed_set(),
            final(self).just_pressed_set() == Set::<T>::empty(),
            final(self).just_released_set() == Set::<T>::empty(),
    {
        self.just_pressed.clear();
        self.just_released.clear();
    }

    /// Every button that is being pressed, once each, in no particular order.
    pub fn get_pressed(&self) -> (inputs: Vec<T>)
        requires
            obeys_key_model::<T>(),
        ensures
            inputs@.to_set() == self.pressed_set(),
            inputs@.no_duplicates(),
    {
        members(&self.pressed)
    }

    /// Every button that has just been pressed, once each, in no particular order.
    pub fn get_just_pressed(&self) -> (inputs: Vec<T>)
        requires
            obeys_key_model::<T>(),
        ensures
            inputs@.to_set() == self.just_pressed_set(),
            inputs@.no_duplicates(),
    {
        members(&self.just_pressed)
    }

    /// Every button that has just been released, once each, in no particular order.
    pub fn get_just_released(&self) -> (inputs: Vec<T>)
        requires
            obeys_key_model::<T>(),
        ensures
            inputs@.to_set() == self.just_released_set(),
            inputs@.no_duplicates(),
    {
        members(&self.just_released)
    }
}

/// `Clone::clone` of std's `HashSet` returns a duplicate of the set. For buttons whose
/// clones are identical to them, as the model of a key asks, the duplicate holds the
/// buttons that the set holds.
#[verifier::external_body]
fn duplicate<T: Copy + Eq + Hash>(set: &HashSet<T>) -> (copy: HashSet<T>)
    ensures
        obeys_key_model::<T>() ==> copy@ == set@,
{
    set.clone()
}

/// Whether `set` holds one of `inputs`.
pub open spec fn holds_any<T>(set: Set<T>, inputs: Seq<T>) -> bool {
    exists|i: int| 0 <= i < inputs.len() && set.contains(#[trigger] inputs[i])
}

fn contains_any<T: Copy + Eq + Hash>(set: &HashSet<T>, inputs: &[T]) -> (any: bool)
    requires
        obeys_key_model::<T>(),
    ensures
        any == holds_any(set@, inputs@),
{
    let mut i: usize = 0;
    while i < inputs.len()
        invariant
            obeys_key_model::<T>(),
            i <= inputs@.len(),
            forall|j: int| 0 <= j < i ==> !set@.contains(#[trigger] inputs@[j]),
        decreases inputs@.len() - i,
    {
        if set.contains(&inputs[i]) {
            return true;
        }
        i = i + 1;
    }
    false
}

fn members<T: Copy + Eq + Hash>(set: &HashSet<T>) -> (inputs: Vec<T>)
    requires
        obeys_key_model::<T>(),
    ensures
        inputs@.to_set() == set@,
        inputs@.no_duplicates(),
{
    let mut inputs: Vec<T> = Vec::new();
    for input in it: set.iter()
        invariant
            it.seq().unref().to_set() == set@,
            it.seq().no_duplicates(),
            inputs@ == it.seq().unref().take(it.index()),
            it.index() == it.seq().len() ==> inputs@.to_set() == set@,
            inputs@.no_duplicates(),
    {
        proof {
            assert(it.seq().unref().take(it.index() + 1) == it.seq().unref().take(it.index()).push(
                *input,
            ));
            assert forall|j: int| 0 <= j < inputs@.len() implies inputs@[j] != *input by {
                assert(it.seq()[j] != it.seq()[it.index()]);
            }
            assert(it.index() + 1 == it.seq().len() ==> it.seq().unref().take(it.index() + 1)
                == it.seq().unref());
        }
        inputs.push(*input);
    }
    inputs
}

} // verus!
