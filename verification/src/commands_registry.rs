//! The registry of named commands read from the configuration's
//! `scripts` table: a name-to-command mapping with unique names,
//! where adding under an existing name overwrites it.
use vstd::prelude::*;
use vstd::string::StringExecFns;

use crate::command::Command;
use crate::dep_map::lemma_map_of_contains;
use crate::dep_map::lemma_map_of_get;
use crate::dep_map::lemma_map_of_remove;
use crate::dep_map::lemma_map_of_update;
use crate::dep_map::map_of;

verus! {

/// The named commands, viewed as a map from command name to command
/// template.
pub struct CommandsRegistry {
    entries: Vec<(String, Command)>,
}

impl View for CommandsRegistry {
    type V = Map<Seq<char>, Seq<char>>;

    closed spec fn view(&self) -> Map<Seq<char>, Seq<char>> {
        map_of(self.order())
    }
}

impl CommandsRegistry {
    /// The (name, template) pairs in registration order.
    pub closed spec fn order(&self) -> Seq<(Seq<char>, Seq<char>)> {
        self.entries@.map(|i: int, p: (String, Command)| (p.0@, p.1.template@))
    }

    /// Name uniqueness: every command name appears at most once.
    pub open spec fn wf(&self) -> bool {
        forall|i: int, j: int| 0 <= i < j < self.order().len() ==> self.order()[i].0
            != self.order()[j].0
    }

    pub fn new() -> (r: CommandsRegistry)
        ensures
            r.wf(),
            r@ == Map::<Seq<char>, Seq<char>>::empty(),
    {
        let r = CommandsRegistry { entries: Vec::new() };
        proof {
            assert(r.order() =~= Seq::<(Seq<char>, Seq<char>)>::empty());
        }
        r
    }

    /// Registers a command under a name, overwriting whatever the
    /// name held before.
    pub fn add(&mut self, name: &str, command: Command)
        requires
            old(self).wf(),
        ensures
            final(self).wf(),
            final(self)@ == old(self)@.insert(name@, command.template@),
    {
        let owned = name.to_owned();
        let n = self.entries.len();
        let mut i: usize = 0;
        while i < n
            invariant
                n == self.entries@.len(),
                0 <= i <= n,
                *self == *old(self),
                old(self).wf(),
                owned@ == name@,
                forall|j: int| 0 <= j < i ==> self.order()[j].0 != name@,
            decreases n - i,
        {
            if self.entries[i].0 == owned {
                proof {
                    assert(self.order()[i as int].0 == name@);
                    lemma_map_of_update(self.order(), i as int, command.template@);
                }
                self.entries[i] = (owned, command);
                proof {
                    let s0 = old(self).order();
                    assert(self.order() =~= s0.update(i as int, (s0[i as int].0, command.template@)));
                    assert(self@ =~= old(self)@.insert(name@, command.template@));
                }
                return ;
            }
            i += 1;
        }
        self.entries.push((owned, command));
        proof {
            let s0 = old(self).order();
            assert(self.order() =~= s0.push((name@, command.template@)));
            assert(self.order().drop_last() =~= s0);
            assert(self@ =~= old(self)@.insert(name@, command.template@));
        }
    }

    /// Unregisters a name; a name that is not registered is left as
    /// it is.
    pub fn remove(&mut self, name: &str)
        requires
            old(self).wf(),
        ensures
            final(self).wf(),
            final(self)@ == old(self)@.remove(name@),
    {
        let owned = name.to_owned();
        let n = self.entries.len();
        let mut i: usize = 0;
        while i < n
            invariant
                n == self.entries@.len(),
                0 <= i <= n,
                *self == *old(self),
                old(self).wf(),
                owned@ == name@,
                forall|j: int| 0 <= j < i ==> self.order()[j].0 != name@,
            decreases n - i,
        {
            if self.entries[i].0 == owned {
                proof {
                    assert(self.order()[i as int].0 == name@);
                    lemma_map_of_remove(self.order(), i as int);
                }
                self.entries.remove(i);
                proof {
                    let s0 = old(self).order();
                    assert(self.order() =~= s0.remove(i as int));
                    assert(forall|p: int, q: int|
                        0 <= p < q < self.order().len() ==> self.order()[p].0
                            != self.order()[q].0);
                    assert(self@ =~= old(self)@.remove(name@));
                }
                return ;
            }
            i += 1;
        }
        proof {
            lemma_map_of_contains(self.order(), name@);
            assert(!old(self)@.contains_key(name@));
            assert(old(self)@.remove(name@) =~= old(self)@);
        }
    }

    /// Looks a command up by name: the registered command exactly
    /// when the name is known, and the not-found error naming the
    /// command otherwise.
    pub fn get(&self, name: &str) -> (r: Result<&Command, String>)
        requires
            self.wf(),
        ensures
            r is Ok <==> self@.contains_key(name@),
            r matches Ok(c) ==> c.template@ == self@[name@],
            r matches Err(e) ==> e@ == "Command '"@ + name@ + "' not found."@,
    {
        let owned = name.to_owned();
        let n = self.entries.len();
        let mut i: usize = 0;
        while i < n
            invariant
                n == self.entries@.len(),
                0 <= i <= n,
                self.wf(),
                owned@ == name@,
                forall|j: int| 0 <= j < i ==> self.order()[j].0 != name@,
            decreases n - i,
        {
            if self.entries[i].0 == owned {
                proof {
                    assert(self.order()[i as int].0 == name@);
                    lemma_map_of_get(self.order(), i as int);
                }
                return Ok(&self.entries[i].1);
            }
            i += 1;
        }
        proof {
            lemma_map_of_contains(self.order(), name@);
        }
        let mut msg = "Command '".to_owned();
        msg.append(name);
        msg.append("' not found.");
        Err(msg)
    }
}

} // verus!
