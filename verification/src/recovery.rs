//! Which recordings left without a history row are recovered into History.

use vstd::prelude::*;

verus! {

/// `c` with ASCII upper-case letters lowered, as `char::to_ascii_lowercase` does.
pub open spec fn ascii_lower(c: char) -> char {
    if 'A' <= c <= 'Z' {
        ((c as u32) + 32) as char
    } else {
        c
    }
}

/// Whether two strings are equal up to ASCII case, as `str::eq_ignore_ascii_case` tests.
pub open spec fn spec_eq_ignore_ascii_case(a: Seq<char>, b: Seq<char>) -> bool {
    &&& a.len() == b.len()
    &&& forall|i: int| 0 <= i < a.len() ==> ascii_lower(#[trigger] a[i]) == ascii_lower(b[i])
}

fn to_ascii_lower(c: char) -> (r: char)
    ensures
        r == ascii_lower(c),
{
    if 'A' <= c && c <= 'Z' {
        ((c as u32 + 32) as u8) as char
    } else {
        c
    }
}

/// Whether two strings are equal up to ASCII case.
pub fn eq_ignore_ascii_case(a: &str, b: &str) -> (r: bool)
    ensures
        r == spec_eq_ignore_ascii_case(a@, b@),
{
    let n = a.unicode_len();
    if n != b.unicode_len() {
        return false;
    }
    let mut i: usize = 0;
    while i < n
        invariant
            n == a@.len(),
            n == b@.len(),
            i <= n,
            forall|j: int| 0 <= j < i ==> ascii_lower(#[trigger] a@[j]) == ascii_lower(b@[j]),
        decreases n - i,
    {
        if to_ascii_lower(a.get_char(i)) != to_ascii_lower(b.get_char(i)) {
            return false;
        }
        i = i + 1;
    }
    true
}

/// Whether a file with this extension is a WAV recording.
pub open spec fn spec_is_wav_extension(extension: Option<Seq<char>>) -> bool {
    match extension {
        Some(ext) => spec_eq_ignore_ascii_case(ext, "wav"@),
        None => false,
    }
}

/// Whether a file with this extension is a WAV recording (`wav` in any case).
pub fn is_wav_extension(extension: Option<&str>) -> (r: bool)
    ensures
        r == spec_is_wav_extension(
            match extension {
                Some(e) => Some(e@),
                None => None,
            },
        ),
{
    match extension {
        Some(ext) => eq_ignore_ascii_case(ext, "wav"),
        None => false,
    }
}

/// Whether a recording of this age (in nanoseconds, `None` when its age
/// cannot be told) is at least `minimum_age_nanos` old. A zero minimum admits
/// every recording.
pub open spec fn spec_is_old_enough(age_nanos: Option<u128>, minimum_age_nanos: u128) -> bool {
    minimum_age_nanos == 0 || match age_nanos {
        Some(age) => age >= minimum_age_nanos,
        None => false,
    }
}

/// Whether a recording is old enough to be taken for an orphan rather than a
/// transcription still in flight.
pub fn is_old_enough(age_nanos: Option<u128>, minimum_age_nanos: u128) -> (r: bool)
    ensures
        r == spec_is_old_enough(age_nanos, minimum_age_nanos),
{
    if minimum_age_nanos == 0 {
        return true;
    }
    match age_nanos {
        Some(age) => age >= minimum_age_nanos,
        None => false,
    }
}

/// Whether `name` is one of `known`.
pub fn contains_name(known: &[String], name: &str) -> (r: bool)
    ensures
        r == exists|i: int| 0 <= i < known@.len() && (#[trigger] known@[i])@ == name@,
{
    let mut i: usize = 0;
    while i < known.len()
        invariant
            i <= known@.len(),
            forall|j: int| 0 <= j < i ==> (#[trigger] known@[j])@ != name@,
        decreases known@.len() - i,
    {
        if crate::text::str_eq(known[i].as_str(), name) {
            return true;
        }
        i = i + 1;
    }
    false
}

/// Whether a directory entry is a recording to recover, once its samples are
/// known not to be empty: a WAV file, old enough, with a UTF-8 name that no
/// history row holds.
pub open spec fn spec_is_orphan_candidate(
    extension: Option<Seq<char>>,
    old_enough: bool,
    file_name: Option<Seq<char>>,
    known: Seq<String>,
) -> bool {
    &&& spec_is_wav_extension(extension)
    &&& old_enough
    &&& file_name is Some
    &&& !exists|i: int| 0 <= i < known.len() && (#[trigger] known[i])@ == file_name->0
}

/// Whether a directory entry is a candidate orphan recording.
pub fn is_orphan_candidate(
    extension: Option<&str>,
    old_enough: bool,
    file_name: Option<&str>,
    known: &[String],
) -> (r: bool)
    ensures
        r == spec_is_orphan_candidate(
            match extension {
                Some(e) => Some(e@),
                None => None,
            },
            old_enough,
            match file_name {
                Some(f) => Some(f@),
                None => None,
            },
            known@,
        ),
{
    if !is_wav_extension(extension) || !old_enough {
        return false;
    }
    match file_name {
        Some(name) => !contains_name(known, name),
        None => false,
    }
}

/// Starting a pass when one is (or is not) running: whether it starts, and
/// whether a pass runs afterwards.
pub open spec fn spec_gate_begin(running: bool) -> (bool, bool) {
    (!running, true)
}

/// Whether a recovery pass is running; at most one runs at a time.
pub struct RecoveryGate {
    running: bool,
}

impl View for RecoveryGate {
    type V = bool;

    closed spec fn view(&self) -> bool {
        self.running
    }
}

impl RecoveryGate {
    /// A gate with no pass running.
    pub fn new() -> (r: Self)
        ensures
            !r@,
    {
        RecoveryGate { running: false }
    }

    /// Starts a pass unless one is running; says whether it started.
    pub fn try_begin(&mut self) -> (started: bool)
        ensures
            (started, final(self)@) == spec_gate_begin(old(self)@),
    {
        if self.running {
            false
        } else {
            self.running = true;
            true
        }
    }

    /// Ends the running pass.
    pub fn finish(&mut self)
        ensures
            !final(self)@,
    {
        self.running = false;
    }
}

/// At most one recovery pass runs at a time: a pass that begins blocks the
/// next attempt to begin, and a finished pass lets the next one begin.
pub proof fn law_one_recovery_at_a_time(running: bool)
    ensures
        !spec_gate_begin(spec_gate_begin(running).1).0,
        spec_gate_begin(false).0,
{
}

} // verus!
