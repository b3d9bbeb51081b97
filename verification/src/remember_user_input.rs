use crate::text::same_text;
use vstd::prelude::*;

verus! {

/// What the user typed in before and gets offered again: for each target the
/// local port last chosen for it.
pub struct UserInputs {
    targets: Vec<String>,
    ports: Vec<u16>,
}

/// Why remembered input could not be read or written.
#[derive(Debug)]
pub struct UserInputError {
    pub message: String,
}

impl UserInputs {
    closed spec fn keys(&self) -> Seq<Seq<char>> {
        self.targets@.map_values(|s: String| s@)
    }

    /// Every target has one port and no target occurs twice.
    pub closed spec fn wf(&self) -> bool {
        &&& self.targets@.len() == self.ports@.len()
        &&& self.keys().no_duplicates()
    }

    /// The remembered ports, by target id.
    pub closed spec fn view(&self) -> Map<Seq<char>, u16> {
        Map::new(
            |id: Seq<char>| self.keys().contains(id),
            |id: Seq<char>| self.ports@[self.keys().index_of(id)],
        )
    }

    /// Nothing remembered.
    pub fn new() -> (r: Self)
        ensures
            r.wf(),
            r@ == Map::<Seq<char>, u16>::empty(),
    {
        let r = UserInputs { targets: Vec::new(), ports: Vec::new() };
        assert(r.keys() =~= Seq::<Seq<char>>::empty());
        assert(r@ =~= Map::<Seq<char>, u16>::empty());
        r
    }

    fn position(&self, target_id: &str) -> (r: Option<usize>)
        requires
            self.wf(),
        ensures
            match r {
                Some(i) => i < self.keys().len() && self.keys()[i as int] == target_id@
                    && self.keys().index_of(target_id@) == i,
                None => !self.keys().contains(target_id@),
            },
    {
        let mut i: usize = 0;
        while i < self.targets.len()
            invariant
                self.wf(),
                i <= self.targets@.len(),
                forall|j: int| 0 <= j < i ==> self.keys()[j] != target_id@,
            decreases self.targets@.len() - i,
        {
            if same_text(self.targets[i].as_str(), target_id) {
                proof {
                    assert(self.keys()[i as int] == target_id@);
                    assert(self.keys().contains(target_id@));
                    self.keys().index_of_first_ensures(target_id@);
                }
                return Some(i);
            }
            i += 1;
        }
        None
    }

    /// How many targets have a remembered port.
    pub fn len(&self) -> (n: usize)
        requires
            self.wf(),
        ensures
            n == self@.dom().len(),
    {
        proof {
            assert(self.keys().to_set() =~= self@.dom());
            self.keys().unique_seq_to_set();
        }
        self.targets.len()
    }

    /// The port remembered for a target, if any.
    pub fn local_port(&self, target_id: &str) -> (port: Option<u16>)
        requires
            self.wf(),
        ensures
            port == if self@.contains_key(target_id@) {
                Some(self@[target_id@])
            } else {
                None::<u16>
            },
    {
        match self.position(target_id) {
            Some(i) => Some(self.ports[i]),
            None => None,
        }
    }

    /// Remembers `port` for `target`, in place of what was remembered for it
    /// before.
    pub fn remember(&mut self, target: String, port: u16)
        requires
            old(self).wf(),
        ensures
            final(self).wf(),
            final(self)@ == old(self)@.insert(target@, port),
    {
        match self.position(target.as_str()) {
            Some(i) => {
                self.ports.set(i, port);
                proof {
                    assert(self.keys() == old(self).keys());
                    assert forall|k: Seq<char>| #[trigger] self@.contains_key(k) implies self@[k]
                        == old(self)@.insert(target@, port)[k] by {
                        self.keys().index_of_first_ensures(k);
                    }
                    assert(self@ =~= old(self)@.insert(target@, port));
                }
            },
            None => {
                let ghost id = target@;
                self.targets.push(target);
                self.ports.push(port);
                proof {
                    let before = old(self).keys();
                    assert(self.keys() =~= before.push(id));
                    assert forall|a: int, b: int|
                        0 <= a < self.keys().len() && 0 <= b < self.keys().len() && a
                            != b implies self.keys()[a] != self.keys()[b] by {
                        if a < before.len() && b < before.len() {
                            assert(before[a] != before[b]);
                        } else if a < before.len() {
                            assert(before.contains(before[a]));
                        } else {
                            assert(before.contains(before[b]));
                        }
                    }
                    assert forall|k: Seq<char>| #[trigger]
                        self@.contains_key(k) == old(self)@.insert(id, port).contains_key(k) by {
                        if self.keys().contains(k) {
                            let j = self.keys().index_of(k);
                            self.keys().index_of_first_ensures(k);
                            if j < before.len() {
                                assert(before[j] == k);
                            }
                        }
                        if before.contains(k) {
                            let j = before.index_of(k);
                            before.index_of_first_ensures(k);
                            assert(self.keys()[j] == k);
                        }
                        if k == id {
                            assert(self.keys()[self.keys().len() - 1] == k);
                        }
                    }
                    assert forall|k: Seq<char>| #[trigger] self@.contains_key(k) implies self@[k]
                        == old(self)@.insert(id, port)[k] by {
                        let j = self.keys().index_of(k);
                        self.keys().index_of_first_ensures(k);
                        if k != id {
                            assert(before[j] == k);
                            assert(before.contains(k));
                            before.index_of_first_ensures(k);
                            let j0 = before.index_of(k);
                            assert(self.keys()[j0] == k);
                        }
                    }
                    assert(self@ =~= old(self)@.insert(id, port));
                }
            },
        }
    }

    /// What is remembered, as pairs of target id and port, for writing it out.
    pub fn entries(&self) -> (pairs: Vec<(String, u16)>)
        requires
            self.wf(),
        ensures
            pairs@.len() == self@.dom().len(),
            forall|i: int|
                0 <= i < pairs@.len() ==> self@.contains_key((#[trigger] pairs@[i]).0@)
                    && self@[pairs@[i].0@] == pairs@[i].1,
            forall|id: Seq<char>|
                self@.contains_key(id) ==> exists|i: int|
                    0 <= i < pairs@.len() && (#[trigger] pairs@[i]).0@ == id,
    {
        proof {
            assert(self.keys().to_set() =~= self@.dom());
            self.keys().unique_seq_to_set();
        }
        let mut pairs: Vec<(String, u16)> = Vec::new();
        let mut i: usize = 0;
        while i < self.targets.len()
            invariant
                self.wf(),
                i <= self.targets@.len(),
                pairs@.len() == i,
                forall|j: int|
                    0 <= j < i ==> (#[trigger] pairs@[j]).0@ == self.keys()[j] && pairs@[j].1
                        == self.ports@[j],
            decreases self.targets@.len() - i,
        {
            pairs.push((self.targets[i].clone(), self.ports[i]));
            i += 1;
        }
        proof {
            assert forall|j: int| 0 <= j < pairs@.len() implies self@.contains_key(
                (#[trigger] pairs@[j]).0@,
            ) && self@[pairs@[j].0@] == pairs@[j].1 by {
                assert(self.keys().contains(self.keys()[j]));
                self.keys().index_of_first_ensures(self.keys()[j]);
            }
            assert forall|id: Seq<char>| self@.contains_key(id) implies exists|j: int|
                0 <= j < pairs@.len() && (#[trigger] pairs@[j]).0@ == id by {
                let j = self.keys().index_of(id);
                self.keys().index_of_first_ensures(id);
                assert(pairs@[j].0@ == id);
            }
        }
        pairs
    }
}

/// The map that a list of pairs stands for, a later pair for a target taking
/// the place of an earlier one.
pub open spec fn map_of_pairs(pairs: Seq<(String, u16)>) -> Map<Seq<char>, u16>
    decreases pairs.len(),
{
    if pairs.len() == 0 {
        Map::empty()
    } else {
        map_of_pairs(pairs.drop_last()).insert(pairs.last().0@, pairs.last().1)
    }
}

impl UserInputs {
    /// Builds the remembered input from pairs of target id and port, as read
    /// from a file. Where a target occurs more than once, its last pair
    /// counts.
    pub fn from_entries(pairs: Vec<(String, u16)>) -> (r: Self)
        ensures
            r.wf(),
            r@ == map_of_pairs(pairs@),
    {
        let mut r = UserInputs::new();
        let mut i: usize = 0;
        while i < pairs.len()
            invariant
                r.wf(),
                i <= pairs@.len(),
                r@ == map_of_pairs(pairs@.take(i as int)),
            decreases pairs@.len() - i,
        {
            r.remember(pairs[i].0.clone(), pairs[i].1);
            proof {
                assert(pairs@.take(i + 1).drop_last() =~= pairs@.take(i as int));
            }
            i += 1;
        }
        assert(pairs@.take(pairs@.len() as int) =~= pairs@);
        r
    }
}

/// What was found where remembered input is kept.
pub enum StoredInputs {
    /// There is no file.
    Missing,
    /// The file is empty.
    Empty,
    /// The file held these inputs.
    Found(UserInputs),
}

/// The remembered input that a stored file stands for: nothing where the
/// file is missing or empty, else what it held.
pub fn read_user_inputs(stored: StoredInputs) -> (inputs: UserInputs)
    requires
        stored matches StoredInputs::Found(found) ==> found.wf(),
    ensures
        inputs.wf(),
        inputs@ == match stored {
            StoredInputs::Found(found) => found@,
            _ => Map::<Seq<char>, u16>::empty(),
        },
{
    match stored {
        StoredInputs::Found(found) => found,
        _ => UserInputs::new(),
    }
}

/// A place that remembers what the user typed in.
pub trait RememberUserInput {
    fn store_local_port(&mut self, target: String, port: u16) -> Result<(), UserInputError>;

    fn get_local_port(&self, target_id: &String) -> Result<Option<u16>, UserInputError>;
}

/// Without a place nothing is remembered, and that is no failure. With one,
/// the place is asked, and what it answers and what becomes of it are handed
/// on as they are.
impl<P> RememberUserInput for Option<P> where P: RememberUserInput {
    fn store_local_port(&mut self, target: String, port: u16) -> (r: Result<(), UserInputError>)
        ensures
            match *old(self) {
                None => r == Ok::<(), UserInputError>(()) && *final(self) is None,
                Some(inner) => exists|place: &mut P|
                    {
                        &&& *place == inner
                        &&& *final(self) == Some(*final(place))
                        &&& #[trigger] call_ensures(P::store_local_port, (place, target, port), r)
                    },
            },
    {
        match self {
            Some(inner_self) => inner_self.store_local_port(target, port),
            None => Ok(()),
        }
    }

    fn get_local_port(&self, target_id: &String) -> (r: Result<Option<u16>, UserInputError>)
        ensures
            match *self {
                None => r == Ok::<Option<u16>, UserInputError>(None),
                Some(inner) => call_ensures(P::get_local_port, (&inner, target_id), r),
            },
    {
        match self {
            Some(inner_self) => inner_self.get_local_port(target_id),
            None => Ok(None),
        }
    }
}

/// Where the remembered input is kept on disk.
#[derive(Clone, Copy)]
pub struct UserInputsPath<P>(pub P);

impl<P> UserInputsPath<P> {
    pub fn from(value: P) -> (r: Self)
        ensures
            r.0 == value,
    {
        UserInputsPath(value)
    }
}

} // verus!
