//! Matrix identifiers.
use vstd::prelude::*;
use vstd::string::*;

verus! {

/// A Matrix user id, such as `@alice:example.com`: a sigil, the localpart, a colon, the server.
#[derive(Debug)]
pub struct UserId {
    id: String,
}

/// Whether the text has a colon behind its first character.
pub open spec fn has_localpart(id: Seq<char>) -> bool {
    exists|i: int| 1 <= i < id.len() && id[i] == ':'
}

/// Whether the first colon behind the first character stands at `at`.
pub open spec fn first_colon(id: Seq<char>, at: int) -> bool {
    &&& 1 <= at < id.len()
    &&& id[at] == ':'
    &&& forall|i: int| 1 <= i < at ==> id[i] != ':'
}

/// What stands between the sigil and the first colon.
pub open spec fn localpart_of(id: Seq<char>) -> Seq<char> {
    id.subrange(1, choose|at: int| first_colon(id, at))
}

/// There is but one first colon.
pub proof fn first_colon_is_unique(id: Seq<char>, a: int, b: int)
    requires
        first_colon(id, a),
        first_colon(id, b),
    ensures
        a == b,
{
}

impl View for UserId {
    type V = Seq<char>;

    closed spec fn view(&self) -> Seq<char> {
        self.id@
    }
}

impl UserId {
    #[verifier::type_invariant]
    spec fn well_formed(self) -> bool {
        has_localpart(self.id@)
    }

    /// Takes a text for a user id where it has a localpart.
    pub fn new(id: String) -> (r: Option<UserId>)
        ensures
            r is Some <==> has_localpart(id@),
            r matches Some(u) ==> u@ == id@,
    {
        let n: usize = id.as_str().unicode_len();
        let mut i: usize = 1;
        while i < n
            invariant
                n == id@.len(),
                1 <= i,
                forall|j: int| 1 <= j < i ==> id@[j] != ':',
            decreases n - i,
        {
            if id.as_str().get_char(i) == ':' {
                assert(id@[i as int] == ':');
                return Some(UserId { id });
            }
            i += 1;
        }
        None
    }

    /// The whole id.
    pub fn as_str(&self) -> (r: &str)
        ensures
            r@ == self@,
    {
        self.id.as_str()
    }

    /// What stands between the sigil and the first colon.
    pub fn localpart(&self) -> (r: &str)
        ensures
            r@ == localpart_of(self@),
    {
        proof {
            use_type_invariant(self);
        }
        let s = self.id.as_str();
        let ghost bound = choose|i: int| 1 <= i < s@.len() && s@[i] == ':';
        let n: usize = s.unicode_len();
        let mut i: usize = 1;
        while s.get_char(i) != ':'
            invariant
                s@ == self.id@,
                n == s@.len(),
                1 <= i <= bound,
                1 <= bound < s@.len(),
                s@[bound] == ':',
                forall|j: int| 1 <= j < i ==> s@[j] != ':',
            decreases bound - i,
        {
            assert(i < bound);
            i += 1;
        }
        proof {
            assert(first_colon(s@, i as int));
            first_colon_is_unique(s@, i as int, choose|at: int| first_colon(s@, at));
        }
        s.substring_char(1, i)
    }
}

impl Clone for UserId {
    fn clone(&self) -> (r: Self)
        ensures
            r@ == self@,
    {
        proof {
            use_type_invariant(self);
        }
        UserId { id: self.id.clone() }
    }
}

} // verus!
