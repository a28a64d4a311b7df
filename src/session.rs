use vstd::prelude::*;

use crate::error::{status_result, Error};

verus! {

/// The input names bound so far, after `name` was bound with engine answer
/// `status`. A name bound twice is listed once: the later buffer replaces the
/// earlier one under the same name.
pub open spec fn after_bind(names: Seq<Seq<char>>, name: Seq<char>, status: int) -> Seq<
    Seq<char>,
> {
    if status != 0 || names.contains(name) {
        names
    } else {
        names.push(name)
    }
}

/// The bookkeeping side of an inference session: which graph inputs have had
/// a buffer bound to them, in the order they were first bound.
pub struct SessionInputs {
    names: Vec<String>,
}

impl View for SessionInputs {
    type V = Seq<Seq<char>>;

    closed spec fn view(&self) -> Seq<Seq<char>> {
        self.names@.map_values(|s: String| s@)
    }
}

impl SessionInputs {
    /// A session with nothing bound.
    pub fn new() -> (r: SessionInputs)
        ensures
            r@ == Seq::<Seq<char>>::empty(),
    {
        let r = SessionInputs { names: Vec::new() };
        assert(r@ =~= Seq::<Seq<char>>::empty());
        r
    }

    pub fn len(&self) -> (r: usize)
        ensures
            r == self@.len(),
    {
        self.names.len()
    }

    /// Whether a buffer is bound under `name`.
    pub fn is_bound(&self, name: &str) -> (r: bool)
        ensures
            r == self@.contains(name@),
    {
        let wanted = name.to_owned();
        let mut i: usize = 0;
        while i < self.names.len()
            invariant
                i <= self.names@.len(),
                wanted@ == name@,
                forall|j: int| 0 <= j < i ==> self@[j] != name@,
            decreases self.names@.len() - i,
        {
            if self.names[i] == wanted {
                assert(self@[i as int] == name@);
                return true;
            }
            i = i + 1;
        }
        false
    }

    /// Records the engine's answer to binding a buffer under `name`. A refused
    /// binding changes nothing that was bound before.
    pub fn record_input(&mut self, name: &str, status: i32) -> (r: Result<(), Error>)
        ensures
            final(self)@ == after_bind(old(self)@, name@, status as int),
            r is Ok <==> status == 0,
            r is Err ==> r == Err::<(), Error>(Error::Bind),
    {
        if status != 0 {
            return Err(Error::Bind);
        }
        if !self.is_bound(name) {
            let owned = name.to_owned();
            self.names.push(owned);
            assert(self@ =~= old(self)@.push(name@));
        }
        Ok(())
    }

    /// Records the engine's answer to the session's one extraction. The bound
    /// inputs are left as they were, whatever the answer.
    pub fn record_extract(&self, status: i32) -> (r: Result<(), Error>)
        ensures
            r is Ok <==> status == 0,
            r is Err ==> r == Err::<(), Error>(Error::Extract),
    {
        status_result(status, Error::Extract)
    }
}

} // verus!
