//! Character-level validators that gate what reaches the application
//! pipeline: hostname, username and full-name checks, plus the deriver that
//! proposes a default username from a full name.

use vstd::prelude::*;

verus! {

// ---------------------------------------------------------------------------
// Character classes
// ---------------------------------------------------------------------------

/// ASCII decimal digit.
pub open spec fn is_ascii_digit_char(c: char) -> bool {
    '0' <= c && c <= '9'
}

/// ASCII lowercase letter.
pub open spec fn is_ascii_lower_char(c: char) -> bool {
    'a' <= c && c <= 'z'
}

/// ASCII uppercase letter.
pub open spec fn is_ascii_upper_char(c: char) -> bool {
    'A' <= c && c <= 'Z'
}

/// ASCII letter of either case.
pub open spec fn is_ascii_alpha_char(c: char) -> bool {
    is_ascii_lower_char(c) || is_ascii_upper_char(c)
}

/// The characters a hostname may contain: ASCII alphanumerics, `-` and `.`.
pub open spec fn is_hostname_char(c: char) -> bool {
    is_ascii_alpha_char(c) || is_ascii_digit_char(c) || c == '-' || c == '.'
}

/// The characters a username may contain: ASCII lowercase letters and digits.
pub open spec fn is_username_char(c: char) -> bool {
    is_ascii_lower_char(c) || is_ascii_digit_char(c)
}

/// An ASCII uppercase letter mapped to its lowercase form; every other
/// character is left as it is.
pub open spec fn spec_lower(c: char) -> char {
    if is_ascii_upper_char(c) {
        ((c as u32) + 32) as char
    } else {
        c
    }
}

fn lower_char(c: char) -> (r: char)
    ensures
        r == spec_lower(c),
{
    if 'A' <= c && c <= 'Z' {
        assert(65 <= c as u32 <= 90);
        ((c as u8) + 32) as char
    } else {
        c
    }
}

// ---------------------------------------------------------------------------
// Full-name validator
// ---------------------------------------------------------------------------

/// Why a candidate full name was rejected.
#[derive(Clone, Copy, Debug, PartialEq, Eq)]
pub enum FullnameError {
    /// The name contains the `:` field separator of the account database.
    ContainsColon,
}

/// A full name is acceptable exactly when it contains no `:`; the name is
/// later written into a colon-delimited account-database record, so the
/// separator must never appear in user-supplied data.
pub open spec fn spec_vaildation_fullname(s: Seq<char>) -> Result<(), FullnameError> {
    if exists|i: int| 0 <= i < s.len() && s[i] == ':' {
        Err(FullnameError::ContainsColon)
    } else {
        Ok(())
    }
}

/// Accepts a candidate full name unless it contains the reserved `:`
/// field separator.
pub fn vaildation_fullname(input: &str) -> (r: Result<(), FullnameError>)
    ensures
        r == spec_vaildation_fullname(input@),
{
    let n = input.unicode_len();
    for i in 0..n
        invariant
            n == input@.len(),
            forall|j: int| 0 <= j < i ==> input@[j] != ':',
    {
        if input.get_char(i) == ':' {
            return Err(FullnameError::ContainsColon);
        }
    }
    Ok(())
}

// ---------------------------------------------------------------------------
// Hostname validator
// ---------------------------------------------------------------------------

/// Why a candidate hostname was rejected. The variants are listed in the
/// precedence order in which the rules are checked; the first violated rule
/// wins.
#[derive(Clone, Copy, Debug, PartialEq, Eq)]
pub enum HostnameError {
    /// More than 64 characters.
    TooLong,
    /// Starts with `-` or `.` (the offending character).
    IllegalStart(char),
    /// Ends with `-` or `.` (the offending character).
    IllegalEnd(char),
    /// Contains two consecutive `.` somewhere.
    DoubleDot,
    /// Contains a character outside `[A-Za-z0-9.-]` (the first such
    /// character in scan order).
    IllegalChar(char),
}

/// Two consecutive `.` occur somewhere in the string.
pub open spec fn has_double_dot(s: Seq<char>) -> bool {
    exists|i: int| 0 <= i && i + 1 < s.len() && #[trigger] s[i] == '.' && s[i + 1] == '.'
}

/// The first character, in scan order, that a hostname may not contain;
/// `None` when every character is legal.
pub open spec fn first_non_hostname_char(s: Seq<char>) -> Option<char>
    decreases s.len(),
{
    if s.len() == 0 {
        None
    } else if !is_hostname_char(s[0]) {
        Some(s[0])
    } else {
        first_non_hostname_char(s.drop_first())
    }
}

/// Scanning for an illegal hostname character skips any prefix of legal
/// characters.
proof fn lemma_first_non_hostname_char_skip(s: Seq<char>, i: int)
    requires
        0 <= i <= s.len(),
        forall|j: int| 0 <= j < i ==> is_hostname_char(s[j]),
    ensures
        first_non_hostname_char(s) == first_non_hostname_char(s.skip(i)),
    decreases i,
{
    if i == 0 {
        assert(s.skip(0) =~= s);
    } else {
        lemma_first_non_hostname_char_skip(s, i - 1);
        let t = s.skip(i - 1);
        assert(t[0] == s[i - 1]);
        assert(t.drop_first() =~= s.skip(i));
    }
}

/// What the hostname validator returns: the length bound first, then the
/// first and last characters, then the double-dot rule anywhere, then the
/// first character outside the legal set.
pub open spec fn spec_validate_hostname(s: Seq<char>) -> Result<(), HostnameError> {
    if s.len() > 64 {
        Err(HostnameError::TooLong)
    } else if s.len() > 0 && (s[0] == '-' || s[0] == '.') {
        Err(HostnameError::IllegalStart(s[0]))
    } else if s.len() > 0 && (s[s.len() - 1] == '-' || s[s.len() - 1] == '.') {
        Err(HostnameError::IllegalEnd(s[s.len() - 1]))
    } else if has_double_dot(s) {
        Err(HostnameError::DoubleDot)
    } else {
        match first_non_hostname_char(s) {
            Some(c) => Err(HostnameError::IllegalChar(c)),
            None => Ok(()),
        }
    }
}

/// Classifies a candidate hostname: at most 64 characters, only ASCII
/// alphanumerics with `-` and `.`, no leading or trailing `-`/`.`, and no
/// two consecutive `.`. Total over every string, the empty one included.
pub fn validate_hostname(input: &str) -> (r: Result<(), HostnameError>)
    ensures
        r == spec_validate_hostname(input@),
{
    let n = input.unicode_len();
    if n > 64 {
        return Err(HostnameError::TooLong);
    }
    if n > 0 {
        let first = input.get_char(0);
        if first == '-' || first == '.' {
            return Err(HostnameError::IllegalStart(first));
        }
        let last = input.get_char(n - 1);
        if last == '-' || last == '.' {
            return Err(HostnameError::IllegalEnd(last));
        }
    }
    let mut i: usize = 1;
    while i < n
        invariant
            n == input@.len(),
            n <= 64,
            n > 0 ==> input@[0] != '-' && input@[0] != '.',
            n > 0 ==> input@[n - 1] != '-' && input@[n - 1] != '.',
            1 <= i,
            forall|j: int| 0 <= j && j + 1 < i ==> !(#[trigger] input@[j] == '.' && input@[j + 1]
                == '.'),
        decreases n - i,
    {
        if input.get_char(i - 1) == '.' && input.get_char(i) == '.' {
            assert(has_double_dot(input@)) by {
                assert(input@[i - 1] == '.' && input@[i - 1 + 1] == '.');
            }
            return Err(HostnameError::DoubleDot);
        }
        i = i + 1;
    }
    assert(!has_double_dot(input@));
    for i in 0..n
        invariant
            n == input@.len(),
            !has_double_dot(input@),
            spec_validate_hostname(input@) == (match first_non_hostname_char(input@) {
                Some(c) => Err::<(), HostnameError>(HostnameError::IllegalChar(c)),
                None => Ok::<(), HostnameError>(()),
            }),
            forall|j: int| 0 <= j < i ==> is_hostname_char(#[trigger] input@[j]),
    {
        let c = input.get_char(i);
        let legal = (c >= 'a' && c <= 'z') || (c >= 'A' && c <= 'Z') || (c >= '0' && c <= '9') || c
            == '-' || c == '.';
        if !legal {
            proof {
                lemma_first_non_hostname_char_skip(input@, i as int);
                assert(input@.skip(i as int)[0] == input@[i as int]);
            }
            return Err(HostnameError::IllegalChar(c));
        }
    }
    proof {
        lemma_first_non_hostname_char_skip(input@, n as int);
        assert(input@.skip(n as int) =~= Seq::<char>::empty());
    }
    Ok(())
}

/// Every string of at most 64 characters drawn from `[A-Za-z0-9.-]` that
/// neither starts nor ends with `-` or `.` and contains no two consecutive
/// `.` is a valid hostname.
pub proof fn lemma_hostname_all_valid(s: Seq<char>)
    requires
        s.len() <= 64,
        forall|i: int| 0 <= i < s.len() ==> is_hostname_char(#[trigger] s[i]),
        s.len() > 0 ==> s[0] != '-' && s[0] != '.',
        s.len() > 0 ==> s[s.len() - 1] != '-' && s[s.len() - 1] != '.',
        !has_double_dot(s),
    ensures
        spec_validate_hostname(s) == Ok::<(), HostnameError>(()),
{
    lemma_first_non_hostname_char_skip(s, s.len() as int);
    assert(s.skip(s.len() as int) =~= Seq::<char>::empty());
}

// ---------------------------------------------------------------------------
// Username validator
// ---------------------------------------------------------------------------

/// Why a candidate username was rejected.
#[derive(Clone, Copy, Debug, PartialEq, Eq)]
pub enum UsernameError {
    /// The name is one of the reserved system account names.
    ReservedName,
    /// The name starts with an ASCII digit.
    StartsWithDigit,
    /// The name contains a character that is not an ASCII lowercase letter
    /// or digit (the first such character in scan order).
    IllegalChar(char),
}

/// The reserved system account names, loaded once at process start and
/// read-only afterwards; usernames that appear here are rejected.
pub struct Blocklist {
    names: Vec<String>,
}

impl View for Blocklist {
    type V = Seq<Seq<char>>;

    closed spec fn view(&self) -> Seq<Seq<char>> {
        self.names@.map_values(|n: String| n@)
    }
}

impl Blocklist {
    /// Wraps a list of reserved names as loaded from static data.
    pub fn new(names: Vec<String>) -> (r: Blocklist)
        ensures
            r@ == names@.map_values(|n: String| n@),
    {
        Blocklist { names }
    }

    /// Membership query, also used on its own for the live per-keystroke
    /// check during text entry.
    pub fn is_blocked(&self, name: &str) -> (r: bool)
        ensures
            r == self@.contains(name@),
    {
        let candidate = name.to_owned();
        let n = self.names.len();
        for i in 0..n
            invariant
                n == self.names@.len(),
                candidate@ == name@,
                forall|j: int| 0 <= j < i ==> self.names@[j]@ != name@,
        {
            if candidate == self.names[i] {
                assert(self@[i as int] == name@);
                return true;
            }
        }
        assert forall|j: int| 0 <= j < self@.len() implies self@[j] != name@ by {
            assert(self@[j] == self.names@[j]@);
        }
        false
    }
}

/// The first character, in scan order, that a username may not contain;
/// `None` when every character is legal.
pub open spec fn first_non_username_char(s: Seq<char>) -> Option<char>
    decreases s.len(),
{
    if s.len() == 0 {
        None
    } else if !is_username_char(s[0]) {
        Some(s[0])
    } else {
        first_non_username_char(s.drop_first())
    }
}

/// Scanning for an illegal username character skips any prefix of legal
/// characters.
proof fn lemma_first_non_username_char_skip(s: Seq<char>, i: int)
    requires
        0 <= i <= s.len(),
        forall|j: int| 0 <= j < i ==> is_username_char(s[j]),
    ensures
        first_non_username_char(s) == first_non_username_char(s.skip(i)),
    decreases i,
{
    if i == 0 {
        assert(s.skip(0) =~= s);
    } else {
        lemma_first_non_username_char_skip(s, i - 1);
        let t = s.skip(i - 1);
        assert(t[0] == s[i - 1]);
        assert(t.drop_first() =~= s.skip(i));
    }
}

/// What the username validator returns: reserved names are rejected first,
/// then a leading ASCII digit, then the first character that is not an
/// ASCII lowercase letter or digit.
pub open spec fn spec_validate_username(blocklist: Seq<Seq<char>>, s: Seq<char>) -> Result<
    (),
    UsernameError,
> {
    if blocklist.contains(s) {
        Err(UsernameError::ReservedName)
    } else if s.len() > 0 && is_ascii_digit_char(s[0]) {
        Err(UsernameError::StartsWithDigit)
    } else {
        match first_non_username_char(s) {
            Some(c) => Err(UsernameError::IllegalChar(c)),
            None => Ok(()),
        }
    }
}

/// Classifies a candidate username against the reserved-name list: not
/// reserved, not starting with a digit, and only ASCII lowercase letters
/// and digits.
pub fn validate_username(blocklist: &Blocklist, input: &str) -> (r: Result<(), UsernameError>)
    ensures
        r == spec_validate_username(blocklist@, input@),
{
    if blocklist.is_blocked(input) {
        return Err(UsernameError::ReservedName);
    }
    let n = input.unicode_len();
    if n > 0 {
        let first = input.get_char(0);
        if first >= '0' && first <= '9' {
            return Err(UsernameError::StartsWithDigit);
        }
    }
    for i in 0..n
        invariant
            n == input@.len(),
            !blocklist@.contains(input@),
            n > 0 ==> !is_ascii_digit_char(input@[0]),
            forall|j: int| 0 <= j < i ==> is_username_char(#[trigger] input@[j]),
    {
        let c = input.get_char(i);
        let legal = (c >= 'a' && c <= 'z') || (c >= '0' && c <= '9');
        if !legal {
            proof {
                lemma_first_non_username_char_skip(input@, i as int);
                assert(input@.skip(i as int)[0] == input@[i as int]);
            }
            return Err(UsernameError::IllegalChar(c));
        }
    }
    proof {
        lemma_first_non_username_char_skip(input@, n as int);
        assert(input@.skip(n as int) =~= Seq::<char>::empty());
    }
    Ok(())
}

/// Every string of ASCII lowercase letters and digits that does not start
/// with a digit and is not reserved is a valid username.
pub proof fn lemma_username_all_valid(blocklist: Seq<Seq<char>>, s: Seq<char>)
    requires
        !blocklist.contains(s),
        forall|i: int| 0 <= i < s.len() ==> is_username_char(#[trigger] s[i]),
        s.len() > 0 ==> !is_ascii_digit_char(s[0]),
    ensures
        spec_validate_username(blocklist, s) == Ok::<(), UsernameError>(()),
{
    lemma_first_non_username_char_skip(s, s.len() as int);
    assert(s.skip(s.len() as int) =~= Seq::<char>::empty());
}

// ---------------------------------------------------------------------------
// Default-username deriver
// ---------------------------------------------------------------------------

/// The username proposed from a full name: scan the characters; drop
/// digits while nothing has been emitted yet, drop everything that is not
/// an ASCII letter or digit, and emit the rest lowercased. `emitted` says
/// whether some character has already been kept.
pub open spec fn spec_default_username(s: Seq<char>, emitted: bool) -> Seq<char>
    decreases s.len(),
{
    if s.len() == 0 {
        Seq::empty()
    } else {
        let c = s[0];
        let rest = s.drop_first();
        if is_ascii_digit_char(c) && !emitted {
            spec_default_username(rest, emitted)
        } else if !is_ascii_alpha_char(c) && !is_ascii_digit_char(c) {
            spec_default_username(rest, emitted)
        } else {
            seq![spec_lower(c)] + spec_default_username(rest, true)
        }
    }
}

/// Relies on `String::push`: appends one character at the end of the
/// string.
#[verifier::external_body]
fn push_char(s: &mut String, c: char)
    ensures
        final(s)@ == old(s)@.push(c),
{
    s.push(c)
}

/// Derives a default username from a full name: leading digits are
/// dropped, every other ASCII letter or digit is kept lowercased, and all
/// remaining characters are dropped. Used only to pre-fill the username
/// prompt.
pub fn get_default_username(fullname: &str) -> (r: String)
    ensures
        r@ == spec_default_username(fullname@, false),
{
    let mut out = String::new();
    let mut emitted = false;
    let n = fullname.unicode_len();
    proof {
        assert(fullname@.skip(0) =~= fullname@);
        assert(out@ + spec_default_username(fullname@, false) =~= spec_default_username(
            fullname@,
            false,
        ));
    }
    for i in 0..n
        invariant
            n == fullname@.len(),
            spec_default_username(fullname@, false) == out@ + spec_default_username(
                fullname@.skip(i as int),
                emitted,
            ),
    {
        let c = fullname.get_char(i);
        proof {
            assert(fullname@.skip(i as int)[0] == fullname@[i as int]);
            assert(fullname@.skip(i as int).drop_first() =~= fullname@.skip(i as int + 1));
        }
        let is_digit = c >= '0' && c <= '9';
        let is_alpha = (c >= 'a' && c <= 'z') || (c >= 'A' && c <= 'Z');
        if (is_digit && !emitted) || (!is_alpha && !is_digit) {
            // dropped; the remainder carries the same flag
        } else {
            let lowered = lower_char(c);
            push_char(&mut out, lowered);
            emitted = true;
            proof {
                assert(out@ =~= out@.subrange(0, out@.len() - 1) + seq![spec_lower(
                    fullname@[i as int],
                )]);
                assert((out@.subrange(0, out@.len() - 1) + seq![spec_lower(fullname@[i as int])])
                    + spec_default_username(fullname@.skip(i as int + 1), true) =~= out@.subrange(
                    0,
                    out@.len() - 1,
                ) + (seq![spec_lower(fullname@[i as int])] + spec_default_username(
                    fullname@.skip(i as int + 1),
                    true,
                )));
            }
        }
    }
    proof {
        assert(fullname@.skip(n as int) =~= Seq::<char>::empty());
        assert(out@ + Seq::<char>::empty() =~= out@);
    }
    out
}

} // verus!
