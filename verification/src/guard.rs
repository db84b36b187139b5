//! The mark of the thread that a fixture belongs to.

use vstd::prelude::*;

verus! {

/// Names the thread whose global state goes away together with the fixture.
#[derive(Debug)]
pub struct TestGuard {
    thread_name: String,
}

impl View for TestGuard {
    type V = Seq<char>;

    closed spec fn view(&self) -> Seq<char> {
        self.thread_name@
    }
}

impl TestGuard {
    /// A guard for the thread of this name.
    pub fn new(thread_name: String) -> (guard: TestGuard)
        ensures
            guard@ == thread_name@,
    {
        TestGuard { thread_name }
    }

    /// The name of the thread.
    pub fn thread_name(&self) -> (name: &str)
        ensures
            name@ == self@,
    {
        self.thread_name.as_str()
    }
}

} // verus!
