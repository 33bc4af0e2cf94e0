//! The tasks that a script defines, by name.

use vstd::prelude::*;
use vstd::string::*;
use crate::error::NuMakeError;
use crate::text::{clone_strings, same_text, views};

verus! {

/// The names of the tasks, each at the slot that holds its function.
#[derive(Clone, Debug)]
pub struct TaskManager {
    tasks: Vec<String>,
}

impl TaskManager {
    /// The names of the tasks, by slot.
    pub closed spec fn names(&self) -> Seq<Seq<char>> {
        views(self.tasks@)
    }

    /// No two slots hold the same name.
    pub closed spec fn wf(&self) -> bool {
        views(self.tasks@).no_duplicates()
    }

    /// The slot of `name` among `names`: the slot that holds it, or the
    /// slot after the last where none does.
    pub open spec fn slot_of(names: Seq<Seq<char>>, name: Seq<char>) -> int {
        if names.contains(name) {
            choose|i: int| 0 <= i < names.len() && names[i] == name
        } else {
            names.len() as int
        }
    }

    /// A manager without tasks.
    pub fn new() -> (m: TaskManager)
        ensures
            m.wf(),
            m.names().len() == 0,
    {
        TaskManager { tasks: Vec::new() }
    }

    /// The slot that holds `name`, if one does.
    #[verifier::loop_isolation(false)]
    fn find(&self, name: &str) -> (r: Option<usize>)
        requires
            self.wf(),
        ensures
            match r {
                Some(i) => self.names().contains(name@) && i == Self::slot_of(self.names(), name@)
                    && i < self.names().len(),
                None => !self.names().contains(name@),
            },
    {
        let mut i: usize = 0;
        while i < self.tasks.len()
            invariant
                i <= self.tasks.len(),
                forall|j: int| 0 <= j < i ==> views(self.tasks@)[j] != name@,
            decreases self.tasks.len() - i,
        {
            if same_text(self.tasks[i].as_str(), name) {
                proof {
                    assert(views(self.tasks@)[i as int] == name@);
                    let c = Self::slot_of(self.names(), name@);
                    assert(views(self.tasks@)[c] == name@);
                    assert(c == i);
                }
                return Some(i);
            }
            i += 1;
        }
        None
    }

    /// Defines the task `name` and gives the slot for its function: the
    /// slot of the task of that name where there is one, whose function
    /// is replaced, else a new slot after the last.
    pub fn create(&mut self, name: &str) -> (slot: usize)
        requires
            old(self).wf(),
        ensures
            final(self).wf(),
            slot == Self::slot_of(old(self).names(), name@),
            final(self).names() == if old(self).names().contains(name@) {
                old(self).names()
            } else {
                old(self).names().push(name@)
            },
    {
        match self.find(name) {
            Some(i) => i,
            None => {
                let ghost before = views(self.tasks@);
                self.tasks.push(String::from_str(name));
                proof {
                    assert(views(self.tasks@) =~= before.push(name@));
                    assert forall|a: int, b: int|
                        0 <= a < before.len() + 1 && 0 <= b < before.len() + 1 && a
                            != b implies before.push(name@)[a] != before.push(name@)[b] by {
                        if a < before.len() && b < before.len() {
                        } else if a < before.len() {
                            assert(before.contains(before[a]));
                        } else {
                            assert(before.contains(before[b]));
                        }
                    }
                }
                self.tasks.len() - 1
            },
        }
    }

    /// The slot of the function to run for the task `name`; a name that
    /// was never defined is an error.
    pub fn run(&self, name: &str) -> (r: Result<usize, NuMakeError>)
        requires
            self.wf(),
        ensures
            match r {
                Ok(slot) => self.names().contains(name@) && slot == Self::slot_of(
                    self.names(),
                    name@,
                ) && slot < self.names().len(),
                Err(e) => e == NuMakeError::TaskNotFound && !self.names().contains(name@),
            },
    {
        match self.find(name) {
            Some(i) => Ok(i),
            None => Err(NuMakeError::TaskNotFound),
        }
    }

    /// The names of the tasks, by slot.
    pub fn get_tasks(&self) -> (names: Vec<String>)
        ensures
            views(names@) == self.names(),
    {
        clone_strings(&self.tasks)
    }
}

} // verus!
