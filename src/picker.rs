use vstd::prelude::*;

verus! {

/// A key that the area picker reacts to.
#[derive(Debug, Clone, Copy, PartialEq, Eq, Structural)]
pub enum Key {
    Left,
    Right,
    Up,
    Down,
    Enter,
    Other,
}

/// The index after moving a selection one step up or down a list of `max_len` entries,
/// wrapping around at both ends.
pub open spec fn moved(up: bool, selected: nat, max_len: nat) -> nat {
    if up {
        if selected > 0 {
            (selected - 1) as nat
        } else {
            (max_len - 1) as nat
        }
    } else {
        if selected + 1 < max_len {
            selected + 1
        } else {
            0
        }
    }
}

/// Moves a selection one step up (`up`) or down a list of `max_len` entries, wrapping around.
/// A selection past the end moves down to the first entry, or up by one.
pub fn list_vertical(up: bool, selected: usize, max_len: usize) -> (r: usize)
    requires
        max_len > 0,
    ensures
        r == moved(up, selected as nat, max_len as nat),
        selected < max_len ==> r < max_len,
{
    if up {
        if selected > 0 {
            selected - 1
        } else {
            max_len - 1
        }
    } else {
        if selected < max_len - 1 {
            selected + 1
        } else {
            0
        }
    }
}

/// Where the area picker stands: the parent area under the cursor, and, while the cursor
/// is in the right-hand list, the area under it there.
#[derive(Debug, Clone, Copy, PartialEq, Eq, Structural)]
pub struct Picker {
    pub parent: usize,
    pub child: Option<usize>,
}

impl Picker {
    /// The cursor points into lists whose lengths are `lengths`.
    pub open spec fn valid(&self, lengths: Seq<usize>) -> bool {
        &&& self.parent < lengths.len()
        &&& match self.child {
            Some(c) => c < lengths[self.parent as int],
            None => true,
        }
    }

    /// The cursor on the first parent area, in the left-hand list.
    pub fn new() -> (r: Picker)
        ensures
            r.parent == 0,
            r.child is None,
    {
        Picker { parent: 0, child: None }
    }

    /// Reacts to a key. Left and Right switch between the lists (Right only into a
    /// non-empty one, starting at its first area), Up and Down move within the current
    /// list, wrapping around, and Enter in the right-hand list picks the area under the
    /// cursor as (parent index, area index).
    pub fn on_key(&mut self, key: Key, lengths: &Vec<usize>) -> (r: Option<(usize, usize)>)
        requires
            old(self).valid(lengths@),
        ensures
            final(self).valid(lengths@),
            match key {
                Key::Left => r is None && final(self).parent == old(self).parent
                    && final(self).child is None,
                Key::Right => r is None && final(self).parent == old(self).parent && (
                final(self).child == if old(self).child is None && lengths@[old(
                    self,
                ).parent as int] > 0 {
                    Some(0usize)
                } else {
                    old(self).child
                }),
                Key::Up | Key::Down => r is None && match old(self).child {
                    None => final(self).child is None && final(self).parent == moved(
                        key == Key::Up,
                        old(self).parent as nat,
                        lengths@.len(),
                    ),
                    Some(c) => final(self).parent == old(self).parent && final(self).child
                        == Some(
                        moved(
                            key == Key::Up,
                            c as nat,
                            lengths@[old(self).parent as int] as nat,
                        ) as usize,
                    ),
                },
                Key::Enter => *final(self) == *old(self) && r == match old(self).child {
                    Some(c) => Some((old(self).parent, c)),
                    None => None,
                },
                Key::Other => r is None && *final(self) == *old(self),
            },
    {
        match key {
            Key::Left => {
                self.child = None;
                None
            },
            Key::Right => {
                if self.child.is_none() && lengths[self.parent] > 0 {
                    self.child = Some(0);
                }
                None
            },
            Key::Up | Key::Down => {
                let up = key == Key::Up;
                match self.child {
                    None => {
                        self.parent = list_vertical(up, self.parent, lengths.len());
                    },
                    Some(c) => {
                        self.child = Some(list_vertical(up, c, lengths[self.parent]));
                    },
                }
                None
            },
            Key::Enter => match self.child {
                Some(c) => Some((self.parent, c)),
                None => None,
            },
            Key::Other => None,
        }
    }
}

} // verus!
