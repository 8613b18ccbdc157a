//! The request data of one report: the student, the subject and the two
//! game links, with the validation that must pass before any game is
//! fetched.

use vstd::prelude::*;
use vstd::string::StrSliceExecFns;
use vstd::string::StringExecFns;

use crate::lichess::spec_normalized_url;
use crate::lichess::game_url_to_export_url;

verus! {

/// The student a report is written for.
pub struct StudentData {
    pub name: String,
    pub group: String,
    pub id: String,
}

/// The subject and tournament identity of the report.
pub struct SubjectData {
    pub teacher: String,
    pub tournament: String,
}

/// The two games of the report: the opponent's name and one game URL per
/// colour played by the student.
pub struct GameData {
    pub opponent: String,
    pub white_url: String,
    pub black_url: String,
}

/// One report request.
pub struct Data {
    pub student: StudentData,
    pub subject: SubjectData,
    pub game: GameData,
}

/// How many spaces a sequence holds.
pub open spec fn spec_space_count(s: Seq<char>) -> int
    decreases s.len(),
{
    if s.len() == 0 {
        0
    } else {
        spec_space_count(s.drop_last()) + if s.last() == ' ' {
            1int
        } else {
            0int
        }
    }
}

/// Index of the last space of a sequence, or -1 when it has none.
pub open spec fn spec_last_space(s: Seq<char>) -> int
    decreases s.len(),
{
    if s.len() == 0 {
        -1
    } else if s.last() == ' ' {
        s.len() - 1
    } else {
        spec_last_space(s.drop_last())
    }
}

/// The shortened display form of a full name: a name of three or more
/// space-separated parts loses its last part (everything from the last
/// space on), a shorter name stays whole.
pub open spec fn spec_short_name(s: Seq<char>) -> Seq<char> {
    if spec_space_count(s) >= 2 {
        s.subrange(0, spec_last_space(s))
    } else {
        s
    }
}

/// An index holding a space with none after it is the last space index.
proof fn lemma_last_space_unique(s: Seq<char>, i: int)
    requires
        0 <= i < s.len(),
        s[i] == ' ',
        forall|k: int| i < k < s.len() ==> s[k] != ' ',
    ensures
        spec_last_space(s) == i,
    decreases s.len(),
{
    if s.last() == ' ' {
        assert(i == s.len() - 1);
    } else {
        let head = s.drop_last();
        assert(i < s.len() - 1);
        assert(forall|k: int| 0 <= k < head.len() ==> head[k] == s[k]);
        lemma_last_space_unique(head, i);
    }
}

impl StudentData {
    /// The name as shown beside the games: when the full name has three or
    /// more space-separated parts, the last part is dropped.
    pub fn short_name(&self) -> (r: String)
        ensures
            r@ == spec_short_name(self.name@),
    {
        let name = self.name.as_str();
        let n = name.unicode_len();
        let mut i: usize = 0;
        let mut spaces: usize = 0;
        let mut last: usize = 0;
        while i < n
            invariant
                i <= n,
                n == name@.len(),
                name@ == self.name@,
                spaces <= i,
                spaces == spec_space_count(name@.subrange(0, i as int)),
                spaces > 0 ==> last < i && name@[last as int] == ' ' && (forall|k: int|
                    last < k < i ==> name@[k] != ' '),
                spaces == 0 ==> forall|k: int| 0 <= k < i ==> name@[k] != ' ',
            decreases n - i,
        {
            let c = name.get_char(i);
            if c == ' ' {
                spaces = spaces + 1;
                last = i;
            }
            proof {
                assert(name@.subrange(0, i as int + 1).drop_last() =~= name@.subrange(0, i as int));
                assert(name@.subrange(0, i as int + 1).last() == name@[i as int]);
            }
            i = i + 1;
        }
        proof {
            assert(name@.subrange(0, n as int) =~= name@);
        }
        if spaces >= 2 {
            proof {
                lemma_last_space_unique(name@, last as int);
            }
            String::from_str(name.substring_char(0, last))
        } else {
            self.name.clone()
        }
    }
}

/// Why a report request is rejected before any game is fetched.
#[derive(Clone, Copy, Debug, PartialEq, Eq, Structural)]
pub enum ValidationError {
    /// The white-side game URL cannot be turned into an export URL.
    InvalidWhiteUrl,
    /// The black-side game URL cannot be turned into an export URL.
    InvalidBlackUrl,
}

impl ValidationError {
    /// The message shown to the caller.
    pub fn message(&self) -> (r: String)
        ensures
            *self == ValidationError::InvalidWhiteUrl ==> r@
                == "Неверный формат ссылки на игру белыми"@,
            *self == ValidationError::InvalidBlackUrl ==> r@
                == "Неверный формат ссылки на игру черными"@,
    {
        match self {
            ValidationError::InvalidWhiteUrl => String::from_str(
                "Неверный формат ссылки на игру белыми",
            ),
            ValidationError::InvalidBlackUrl => String::from_str(
                "Неверный формат ссылки на игру черными",
            ),
        }
    }
}

impl GameData {
    /// Checks that both game URLs normalize to an export URL, testing the
    /// white-side URL first.
    fn validate(&self) -> (r: Result<(), ValidationError>)
        ensures
            match r {
                Ok(()) => spec_normalized_url(self.white_url@) is Some && spec_normalized_url(
                    self.black_url@,
                ) is Some,
                Err(e) => (e == ValidationError::InvalidWhiteUrl && spec_normalized_url(
                    self.white_url@,
                ) is None) || (e == ValidationError::InvalidBlackUrl && spec_normalized_url(
                    self.white_url@,
                ) is Some && spec_normalized_url(self.black_url@) is None),
            },
    {
        if game_url_to_export_url(self.white_url.as_str()).is_none() {
            return Err(ValidationError::InvalidWhiteUrl);
        }
        if game_url_to_export_url(self.black_url.as_str()).is_none() {
            return Err(ValidationError::InvalidBlackUrl);
        }
        Ok(())
    }
}

impl Data {
    /// Checks the request before any game is fetched: both game URLs must
    /// normalize to an export URL.
    pub fn validate(&self) -> (r: Result<(), ValidationError>)
        ensures
            match r {
                Ok(()) => spec_normalized_url(self.game.white_url@) is Some && spec_normalized_url(
                    self.game.black_url@,
                ) is Some,
                Err(e) => (e == ValidationError::InvalidWhiteUrl && spec_normalized_url(
                    self.game.white_url@,
                ) is None) || (e == ValidationError::InvalidBlackUrl && spec_normalized_url(
                    self.game.white_url@,
                ) is Some && spec_normalized_url(self.game.black_url@) is None),
            },
    {
        self.game.validate()
    }
}

} // verus!
