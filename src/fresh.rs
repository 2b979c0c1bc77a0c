//! Values that only the outside world can supply: fresh identifiers and the
//! current time.
use vstd::prelude::*;

verus! {

/// A character of Crockford's base-32 alphabet, upper case.
pub open spec fn is_base32_char(c: char) -> bool {
    ('0' <= c <= '9') || ('A' <= c <= 'Z' && c != 'I' && c != 'L' && c != 'O' && c != 'U')
}

/// The text form of a sortable unique identifier: 26 base-32 characters.
pub open spec fn is_sortable_id(s: Seq<char>) -> bool {
    s.len() == 26 && forall|i: int| 0 <= i < s.len() ==> is_base32_char(#[trigger] s[i])
}

/// Relies on `ulid::Ulid::new` (time and randomness) and `Ulid::to_string`,
/// which encodes the 128 bits as 26 characters of Crockford's alphabet.
#[verifier::external_body]
fn mint_ulid() -> (r: String)
    ensures
        is_sortable_id(r@),
{
    ulid::Ulid::new().to_string()
}

/// Relies on `chrono::Utc::now` and `DateTime::to_rfc3339_opts` with
/// `SecondsFormat::Millis` and `use_z`: the seconds end in `.` and three
/// digits of milliseconds, and the offset of a UTC time is written as a final
/// `Z`. `Utc::now` panics only on a system clock set before 1970.
#[verifier::external_body]
fn utc_now_millis() -> (r: String)
    ensures
        r@.len() >= 5,
        r@[r@.len() - 5] == '.',
        forall|i: int| r@.len() - 4 <= i < r@.len() - 1 ==> '0' <= #[trigger] r@[i] <= '9',
        r@.last() == 'Z',
{
    chrono::Utc::now().to_rfc3339_opts(chrono::SecondsFormat::Millis, true)
}

/// A fresh sortable unique identifier.
pub fn new_id() -> (r: String)
    ensures
        is_sortable_id(r@),
{
    mint_ulid()
}

/// The values that one stage invocation draws from outside: two fresh
/// identifiers (for the job and for the stage's artifact) and a timestamp.
#[derive(Debug)]
pub struct Fresh {
    pub job_id: String,
    pub artifact_id: String,
    pub now: String,
}

impl Fresh {
    pub open spec fn wf(self) -> bool {
        &&& is_sortable_id(self.job_id@)
        &&& is_sortable_id(self.artifact_id@)
        &&& self.now@.len() >= 5
        &&& self.now@[self.now@.len() - 5] == '.'
        &&& forall|i: int| self.now@.len() - 4 <= i < self.now@.len() - 1 ==> '0' <= #[trigger] self.now@[i] <= '9'
        &&& self.now@.last() == 'Z'
    }

    /// Draws the values now.
    pub fn draw() -> (r: Fresh)
        ensures
            r.wf(),
    {
        Fresh { job_id: mint_ulid(), artifact_id: mint_ulid(), now: utc_now_millis() }
    }
}

} // verus!
