//! Commits as the history walk hands them over.

use crate::text::chars_of;
use vstd::prelude::*;

verus! {

/// Whether `c` is a digit of a lowercase hexadecimal numeral.
pub open spec fn is_hex(c: char) -> bool {
    ('0' <= c && c <= '9') || ('a' <= c && c <= 'f')
}

/// Whether `id` can name a commit: lowercase hexadecimal, and long enough to
/// be shortened.
pub open spec fn is_object_name(id: Seq<char>) -> bool {
    &&& id.len() >= 7
    &&& forall|i: int| 0 <= i < id.len() ==> is_hex(#[trigger] id[i])
}

/// The short form of an identifier: its first seven digits. It serves to name
/// things and is not unique.
pub open spec fn short_spec(id: Seq<char>) -> Seq<char> {
    id.take(7)
}

/// One commit: its identifier, and the time it carries, in seconds since
/// 1970-01-01T00:00:00Z.
#[derive(Debug, PartialEq, Eq)]
pub struct Commit {
    id: String,
    seconds: i64,
}

/// A commit as plain values.
pub struct CommitView {
    pub id: Seq<char>,
    pub seconds: i64,
}

impl View for Commit {
    type V = CommitView;

    closed spec fn view(&self) -> CommitView {
        CommitView { id: self.id@, seconds: self.seconds }
    }
}

impl Commit {
    #[verifier::type_invariant]
    spec fn well_formed(self) -> bool {
        is_object_name(self.id@)
    }

    /// A commit with this identifier and time, where `id` can name one.
    pub fn new(id: String, seconds: i64) -> (r: Option<Commit>)
        ensures
            r is Some <==> is_object_name(id@),
            r matches Some(commit) ==> commit@ == (CommitView { id: id@, seconds }),
    {
        let digits = chars_of(id.as_str());
        if digits.len() < 7 {
            return None;
        }
        let mut i: usize = 0;
        while i < digits.len()
            invariant
                i <= digits@.len(),
                digits@ == id@,
                forall|k: int| 0 <= k < i ==> is_hex(#[trigger] id@[k]),
            decreases digits@.len() - i,
        {
            let c = digits[i];
            if !((c >= '0' && c <= '9') || (c >= 'a' && c <= 'f')) {
                assert(!is_hex(id@[i as int]));
                return None;
            }
            i += 1;
        }
        Some(Commit { id, seconds })
    }

    /// The full identifier.
    pub fn id(&self) -> (r: &str)
        ensures
            r@ == self@.id,
            is_object_name(r@),
    {
        proof {
            use_type_invariant(self);
        }
        self.id.as_str()
    }

    /// The time of the commit, in seconds since the epoch.
    pub fn seconds(&self) -> (r: i64)
        ensures
            r == self@.seconds,
    {
        self.seconds
    }

    /// The first seven digits of the identifier.
    pub fn short_id(&self) -> (r: String)
        ensures
            r@ == short_spec(self@.id),
    {
        proof {
            use_type_invariant(self);
        }
        String::from_str(self.id.as_str().substring_char(0, 7))
    }

}

impl Clone for Commit {
    fn clone(&self) -> (r: Commit)
        ensures
            r@ == self@,
    {
        proof {
            use_type_invariant(self);
        }
        Commit { id: self.id.clone(), seconds: self.seconds }
    }
}

} // verus!
