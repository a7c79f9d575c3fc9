//! Application settings: the difficulty of the phrase dataset and its
//! round trip through the textual form used by the persistent store.

use vstd::prelude::*;
use vstd::string::StrSliceExecFns;

verus! {

/// Difficulty of the phrase dataset a game draws from.
#[derive(Clone, Copy, Debug, PartialEq, Eq, Structural)]
pub enum DatasetDifficulty {
    Base,
    Intermediate,
    Advanced,
}

/// The difficulty a stored name denotes; any unknown name falls back to
/// the base difficulty.
pub open spec fn difficulty_of_str(s: Seq<char>) -> DatasetDifficulty {
    if s == "intermediate"@ {
        DatasetDifficulty::Intermediate
    } else if s == "advanced"@ {
        DatasetDifficulty::Advanced
    } else {
        DatasetDifficulty::Base
    }
}

impl DatasetDifficulty {
    /// The stored name of this difficulty.
    pub fn to_str(&self) -> (r: &'static str)
        ensures
            self is Base ==> r@ == "base"@,
            self is Intermediate ==> r@ == "intermediate"@,
            self is Advanced ==> r@ == "advanced"@,
    {
        match self {
            DatasetDifficulty::Base => "base",
            DatasetDifficulty::Intermediate => "intermediate",
            DatasetDifficulty::Advanced => "advanced",
        }
    }

    /// Parse a stored name back into a difficulty; an unknown name falls
    /// back to the base difficulty rather than failing.
    pub fn from_str(s: &str) -> (r: DatasetDifficulty)
        ensures
            r == difficulty_of_str(s@),
    {
        if str_eq(s, "intermediate") {
            DatasetDifficulty::Intermediate
        } else if str_eq(s, "advanced") {
            DatasetDifficulty::Advanced
        } else {
            DatasetDifficulty::Base
        }
    }
}

/// The user's persisted preferences.
#[derive(Clone, Copy, Debug, PartialEq, Eq, Structural)]
pub struct AppSettings {
    pub difficulty: DatasetDifficulty,
}

impl Default for AppSettings {
    /// The base difficulty is the default.
    fn default() -> (s: AppSettings)
        ensures
            s.difficulty is Base,
    {
        AppSettings { difficulty: DatasetDifficulty::Base }
    }
}

/// Character-for-character string equality.
fn str_eq(a: &str, b: &str) -> (r: bool)
    ensures
        r == (a@ == b@),
{
    let len_a = a.unicode_len();
    let len_b = b.unicode_len();
    if len_a != len_b {
        proof {
            assert(a@.len() != b@.len());
        }
        return false;
    }
    let mut i: usize = 0;
    while i < len_a
        invariant
            i <= len_a,
            len_a == a@.len(),
            len_b == b@.len(),
            len_a == len_b,
            forall|j: int| 0 <= j < i ==> a@[j] == b@[j],
        decreases len_a - i,
    {
        if a.get_char(i) != b.get_char(i) {
            proof {
                assert(a@[i as int] != b@[i as int]);
            }
            return false;
        }
        i = i + 1;
    }
    proof {
        assert(a@ =~= b@);
    }
    true
}

} // verus!
