//! Desktop-session checks and the notice shown after a cancellation.

use vstd::prelude::*;
use crate::text::str_eq;

verus! {

/// `str::to_lowercase`: the string lowered by the Unicode `Lowercase` mapping.
pub uninterp spec fn unicode_lowercase(s: Seq<char>) -> Seq<char>;

/// `str::to_uppercase`: the string raised by the Unicode `Uppercase` mapping.
pub uninterp spec fn unicode_uppercase(s: Seq<char>) -> Seq<char>;

/// Calls `str::to_lowercase`. Claims only that the result is the named
/// function of the argument.
#[verifier::external_body]
fn to_lowercase(s: &str) -> (r: String)
    ensures
        r@ == unicode_lowercase(s@),
{
    s.to_lowercase()
}

/// Calls `str::to_uppercase`. Claims only that the result is the named
/// function of the argument.
#[verifier::external_body]
fn to_uppercase(s: &str) -> (r: String)
    ensures
        r@ == unicode_uppercase(s@),
{
    s.to_uppercase()
}

/// Whether `needle` occurs in `haystack`.
pub open spec fn contains_seq(haystack: Seq<char>, needle: Seq<char>) -> bool {
    exists|i: int|
        0 <= i && i + needle.len() <= haystack.len() && #[trigger] haystack.subrange(
            i,
            i + needle.len(),
        ) == needle
}

/// Whether `needle` occurs in `haystack`, as `str::contains` tests it.
pub fn contains_str(haystack: &str, needle: &str) -> (r: bool)
    ensures
        r == contains_seq(haystack@, needle@),
{
    let h = crate::text::chars_of(haystack);
    let n = crate::text::chars_of(needle);
    if n.len() > h.len() {
        return false;
    }
    let hl = h.len();
    let last = hl - n.len();
    let mut i: usize = 0;
    while i <= last
        invariant
            h@ == haystack@,
            n@ == needle@,
            hl == h@.len(),
            n@.len() <= h@.len(),
            last == h@.len() - n@.len(),
            i <= last + 1,
            forall|k: int| 0 <= k < i ==> #[trigger] h@.subrange(k, k + n@.len()) != n@,
        decreases last + 1 - i,
    {
        let mut j: usize = 0;
        let mut matched = true;
        while j < n.len()
            invariant
                i <= last,
                hl == h@.len(),
                last == h@.len() - n@.len(),
                n@.len() <= h@.len(),
                j <= n@.len(),
                matched ==> forall|m: int| 0 <= m < j ==> h@[i + m] == n@[m],
                !matched ==> h@.subrange(i as int, i + n@.len()) != n@,
            decreases n@.len() - j,
        {
            if matched && h[i + j] != n[j] {
                assert(h@.subrange(i as int, i + n@.len())[j as int] == h@[i + j]);
                matched = false;
            }
            j = j + 1;
        }
        if matched {
            assert(h@.subrange(i as int, i + n@.len()) =~= n@);
            return true;
        }
        if i == last {
            assert forall|k: int|
                0 <= k && k + needle@.len() <= haystack@.len() implies #[trigger] haystack@.subrange(
                k,
                k + needle@.len(),
            ) != needle@ by {
                assert(k <= last);
            }
            return false;
        }
        i = i + 1;
    }
    assert forall|k: int|
        0 <= k && k + needle@.len() <= haystack@.len() implies #[trigger] haystack@.subrange(
        k,
        k + needle@.len(),
    ) != needle@ by {
        assert(k < i);
    }
    false
}

/// Whether the session is Wayland: `WAYLAND_DISPLAY` is set, or
/// `XDG_SESSION_TYPE` lowers to `wayland`.
pub open spec fn spec_is_wayland(wayland_display_set: bool, session_type: Option<Seq<char>>) -> bool {
    wayland_display_set || match session_type {
        Some(t) => unicode_lowercase(t) == "wayland"@,
        None => false,
    }
}

/// Check if using the Wayland display server protocol, given whether
/// `WAYLAND_DISPLAY` is set and the value of `XDG_SESSION_TYPE`.
pub fn is_wayland(wayland_display_set: bool, session_type: Option<&str>) -> (r: bool)
    ensures
        r == spec_is_wayland(
            wayland_display_set,
            match session_type {
                Some(t) => Some(t@),
                None => None,
            },
        ),
{
    if wayland_display_set {
        return true;
    }
    match session_type {
        Some(t) => {
            let lowered = to_lowercase(t);
            str_eq(lowered.as_str(), "wayland")
        },
        None => false,
    }
}

/// Whether the desktop is KDE Plasma: `XDG_CURRENT_DESKTOP` raised holds
/// `KDE`, or `KDE_SESSION_VERSION` is set.
pub open spec fn spec_is_kde_plasma(current_desktop: Option<Seq<char>>, kde_session_set: bool) -> bool {
    kde_session_set || match current_desktop {
        Some(d) => contains_seq(unicode_uppercase(d), "KDE"@),
        None => false,
    }
}

/// Check if running on KDE Plasma, given the value of `XDG_CURRENT_DESKTOP`
/// and whether `KDE_SESSION_VERSION` is set.
pub fn is_kde_plasma(current_desktop: Option<&str>, kde_session_set: bool) -> (r: bool)
    ensures
        r == spec_is_kde_plasma(
            match current_desktop {
                Some(d) => Some(d@),
                None => None,
            },
            kde_session_set,
        ),
{
    let in_desktop = match current_desktop {
        Some(d) => {
            let raised = to_uppercase(d);
            contains_str(raised.as_str(), "KDE")
        },
        None => false,
    };
    in_desktop || kde_session_set
}

/// Check if running on KDE Plasma with Wayland.
pub fn is_kde_wayland(
    wayland_display_set: bool,
    session_type: Option<&str>,
    current_desktop: Option<&str>,
    kde_session_set: bool,
) -> (r: bool)
    ensures
        r == (spec_is_wayland(
            wayland_display_set,
            match session_type {
                Some(t) => Some(t@),
                None => None,
            },
        ) && spec_is_kde_plasma(
            match current_desktop {
                Some(d) => Some(d@),
                None => None,
            },
            kde_session_set,
        )),
{
    is_wayland(wayland_display_set, session_type) && is_kde_plasma(current_desktop, kde_session_set)
}

/// The notice shown once a cancelled recording has been recovered into History.
pub open spec fn spec_recovery_notice(recovered: usize) -> Option<Seq<char>> {
    if recovered > 0 {
        Some("Transcription cancelled. The recording was saved in History and can be retried."@)
    } else {
        None
    }
}

/// Recovering at least one cancelled recording always tells the user where it
/// went; recovering none shows nothing.
pub proof fn law_recovery_is_always_announced(recovered: usize)
    ensures
        recovered > 0 ==> spec_recovery_notice(recovered) == Some(
            "Transcription cancelled. The recording was saved in History and can be retried."@,
        ),
        recovered == 0 ==> spec_recovery_notice(recovered) is None,
{
}

/// The notice to show after recovering `recovered` cancelled recordings, if any.
pub fn recovery_notice(recovered: usize) -> (r: Option<String>)
    ensures
        match r {
            Some(m) => spec_recovery_notice(recovered) == Some(m@),
            None => spec_recovery_notice(recovered) is None,
        },
{
    if recovered > 0 {
        Some(
            "Transcription cancelled. The recording was saved in History and can be retried.".to_owned(),
        )
    } else {
        None
    }
}

} // verus!
