//! An ordered list of connected gamepads, each represented by its
//! identifier. The DOM wrapper around this list lives with the embedder;
//! the container logic itself is here.

use vstd::prelude::*;

verus! {

/// Recursively describes what one pass of [`GamepadList::add_if_not_exists`]
/// leaves in the list: each candidate identifier is appended if and only if
/// it is absent at the moment it is considered, so a duplicate inside the
/// candidate slice is added only once.
pub open spec fn spec_add_all(list: Seq<u64>, gamepads: Seq<u64>) -> Seq<u64>
    decreases gamepads.len(),
{
    if gamepads.len() == 0 {
        list
    } else {
        let first = gamepads[0];
        let with_first = if list.contains(first) {
            list
        } else {
            list.push(first)
        };
        spec_add_all(with_first, gamepads.skip(1))
    }
}

/// The list of gamepads currently exposed to the page, in connection order.
#[derive(Debug)]
pub struct GamepadList {
    list: Vec<u64>,
}

impl GamepadList {
    /// The identifiers held by the list, in order.
    pub closed spec fn ids(self) -> Seq<u64> {
        self.list@
    }

    /// Builds a list holding exactly the given identifiers, in order.
    pub fn new(list: Vec<u64>) -> (result: GamepadList)
        ensures
            result.ids() == list@,
    {
        GamepadList { list }
    }

    /// Appends each gamepad whose identifier is not already present.
    /// Identifiers already in the list keep their position; nothing is ever
    /// removed.
    pub fn add_if_not_exists(&mut self, gamepads: &[u64])
        ensures
            final(self).ids() == spec_add_all(old(self).ids(), gamepads@),
            forall|k: int|
                0 <= k < gamepads@.len() ==> #[trigger] final(self).ids().contains(gamepads@[k]),
            forall|k: int|
                0 <= k < old(self).ids().len() ==> final(self).ids()[k] == old(self).ids()[k],
            old(self).ids().len() <= final(self).ids().len(),
    {
        let ghost orig = self.list@;
        proof {
            assert(gamepads@.skip(0) =~= gamepads@);
        }
        let mut i: usize = 0;
        while i < gamepads.len()
            invariant
                0 <= i <= gamepads@.len(),
                spec_add_all(orig, gamepads@) == spec_add_all(self.list@, gamepads@.skip(i as int)),
                forall|k: int| 0 <= k < i ==> #[trigger] self.list@.contains(gamepads@[k]),
                forall|k: int| 0 <= k < orig.len() ==> self.list@[k] == orig[k],
                orig.len() <= self.list@.len(),
            decreases gamepads@.len() - i,
        {
            let id = gamepads[i];
            let ghost before = self.list@;
            if !self.contains_id(id) {
                self.list.push(id);
            }
            proof {
                assert(gamepads@.skip(i as int)[0] == gamepads@[i as int]);
                assert(gamepads@.skip(i as int).skip(1) =~= gamepads@.skip(i + 1));
                assert forall|k: int| 0 <= k < i + 1 implies #[trigger] self.list@.contains(
                    gamepads@[k],
                ) by {
                    if k < i {
                        assert(before.contains(gamepads@[k]));
                        let w = choose|w: int|
                            0 <= w < before.len() && before[w] == gamepads@[k];
                        assert(before[w] == gamepads@[k]);
                        assert(self.list@[w] == gamepads@[k]);
                    } else if before.contains(id) {
                        let w = choose|w: int| 0 <= w < before.len() && before[w] == id;
                        assert(self.list@[w] == id);
                    } else {
                        assert(self.list@[before.len() as int] == id);
                    }
                }
            }
            i = i + 1;
        }
        proof {
            assert(gamepads@.skip(gamepads@.len() as int) =~= Seq::<u64>::empty());
        }
    }

    /// Removes the gamepad at the given position.
    pub fn remove_gamepad(&mut self, index: usize)
        requires
            index < old(self).ids().len(),
        ensures
            final(self).ids() == old(self).ids().remove(index as int),
    {
        self.list.remove(index);
    }

    /// How many gamepads the list holds.
    pub fn length(&self) -> (n: u32)
        requires
            self.ids().len() <= u32::MAX,
        ensures
            n == self.ids().len(),
    {
        self.list.len() as u32
    }

    /// The identifier at the given position, if any.
    pub fn item(&self, index: u32) -> (result: Option<u64>)
        ensures
            match result {
                Some(id) => index < self.ids().len() && id == self.ids()[index as int],
                None => index >= self.ids().len(),
            },
    {
        if (index as usize) < self.list.len() {
            Some(self.list[index as usize])
        } else {
            None
        }
    }

    /// Whether some held gamepad carries the given identifier.
    fn contains_id(&self, id: u64) -> (present: bool)
        ensures
            present == self.ids().contains(id),
    {
        let mut j: usize = 0;
        while j < self.list.len()
            invariant
                0 <= j <= self.list@.len(),
                forall|k: int| 0 <= k < j ==> self.list@[k] != id,
            decreases self.list@.len() - j,
        {
            if self.list[j] == id {
                assert(self.ids().contains(id));
                return true;
            }
            j = j + 1;
        }
        assert(!self.ids().contains(id)) by {
            if self.ids().contains(id) {
                let witness = choose|k: int|
                    0 <= k < self.ids().len() && self.ids()[k] == id;
                assert(self.ids()[witness] == id);
            }
        }
        false
    }
}

} // verus!
