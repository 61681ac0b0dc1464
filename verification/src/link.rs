//! Recognising a message permalink in command text and turning it into the
//! canonical message timestamp `<10 digits>.<6 digits>`.

use vstd::prelude::*;
use vstd::string::*;

verus! {

/// The first match of the regular expression `pattern` in `text`, as the
/// texts of its two capture groups named `first` and `second`.
///
/// `None` when the pattern does not compile, when nothing in `text` matches,
/// or when one of the two groups took no part in the match.
pub uninterp spec fn regex_named_pair(
    pattern: Seq<char>,
    text: Seq<char>,
    first: Seq<char>,
    second: Seq<char>,
) -> Option<(Seq<char>, Seq<char>)>;

/// Calls `regex::Regex::new` on `pattern` and `Regex::captures` on `text`,
/// and hands out what `Captures::name` gives for `first` and `second`.
///
/// Trusted: the result is what the regex engine computes from these four
/// strings, which `regex_named_pair` names. Nothing is claimed about which
/// text matches.
#[verifier::external_body]
fn first_named_pair(pattern: &str, text: &str, first: &str, second: &str) -> (r: Option<
    (String, String),
>)
    ensures
        match r {
            Some((a, b)) => regex_named_pair(pattern@, text@, first@, second@) == Some((a@, b@)),
            None => regex_named_pair(pattern@, text@, first@, second@).is_none(),
        },
{
    match regex::Regex::new(pattern) {
        Ok(re) => match re.captures(text) {
            Some(caps) => match (caps.name(first), caps.name(second)) {
                (Some(a), Some(b)) => Some((a.as_str().to_string(), b.as_str().to_string())),
                _ => None,
            },
            None => None,
        },
        Err(_) => None,
    }
}

/// The permalink pattern: a link into a workspace's message archive whose last
/// path segment is `p` followed by sixteen digits, the first ten captured as
/// `s` (seconds) and the last six as `us` (microseconds).
pub open spec fn permalink_pattern() -> Seq<char> {
    "https://\\w+\\.slack\\.com/archives/\\w+/p(?P<s>\\d{10})(?P<us>\\d{6})"@
}

/// `c` is one of the ten ASCII decimal digits.
pub open spec fn is_digit(c: char) -> bool {
    '0' <= c && c <= '9'
}

/// `s` consists of exactly `n` ASCII decimal digits.
pub open spec fn is_digits(s: Seq<char>, n: nat) -> bool {
    &&& s.len() == n
    &&& forall|i: int| 0 <= i < s.len() ==> is_digit(#[trigger] s[i])
}

/// `s` has the canonical timestamp shape: ten digits, a dot, six digits.
pub open spec fn is_timestamp(s: Seq<char>) -> bool {
    &&& s.len() == 17
    &&& is_digits(s.subrange(0, 10), 10)
    &&& s[10] == '.'
    &&& is_digits(s.subrange(11, 17), 6)
}

/// The timestamp that a pair of captured digit groups stands for, if both
/// have the right shape.
pub open spec fn timestamp_of(captures: Option<(Seq<char>, Seq<char>)>) -> Option<Seq<char>> {
    match captures {
        Some((s, us)) => if is_digits(s, 10) && is_digits(us, 6) {
            Some(s + seq!['.'] + us)
        } else {
            None
        },
        None => None,
    }
}

/// The canonical timestamp of the first permalink in `text`, if there is one.
pub open spec fn permalink_timestamp(text: Seq<char>) -> Option<Seq<char>> {
    timestamp_of(regex_named_pair(permalink_pattern(), text, "s"@, "us"@))
}

/// A pair of strings seen as a pair of character sequences.
pub open spec fn pair_view(captures: Option<(String, String)>) -> Option<(Seq<char>, Seq<char>)> {
    match captures {
        Some((s, us)) => Some((s@, us@)),
        None => None,
    }
}

/// Every timestamp that `timestamp_of` yields has the canonical shape.
pub proof fn lemma_timestamp_of_is_timestamp(captures: Option<(Seq<char>, Seq<char>)>)
    ensures
        timestamp_of(captures) matches Some(t) ==> is_timestamp(t),
{
    if let Some((s, us)) = captures {
        if is_digits(s, 10) && is_digits(us, 6) {
            let t = s + seq!['.'] + us;
            assert(t.subrange(0, 10) =~= s);
            assert(t.subrange(11, 17) =~= us);
        }
    }
}

/// Whether `s` consists of exactly `n` ASCII decimal digits.
pub fn all_digits(s: &str, n: usize) -> (r: bool)
    ensures
        r == is_digits(s@, n as nat),
{
    let len: usize = s.unicode_len();
    if len != n {
        return false;
    }
    let mut i: usize = 0;
    while i < len
        invariant
            len == s@.len(),
            i <= len,
            forall|j: int| 0 <= j < i ==> is_digit(#[trigger] s@[j]),
        decreases len - i,
    {
        let c: char = s.get_char(i);
        if !('0' <= c && c <= '9') {
            return false;
        }
        i += 1;
    }
    true
}

/// Joins the captured seconds and microseconds into `<seconds>.<microseconds>`,
/// or gives `None` unless they are ten and six ASCII digits.
pub fn timestamp_from_captures(captures: Option<(String, String)>) -> (r: Option<String>)
    ensures
        match r {
            Some(t) => timestamp_of(pair_view(captures)) == Some(t@) && is_timestamp(t@),
            None => timestamp_of(pair_view(captures)).is_none(),
        },
{
    match captures {
        Some((s, us)) => {
            if all_digits(s.as_str(), 10) && all_digits(us.as_str(), 6) {
                let mut t: String = s;
                t.append(".");
                t.append(us.as_str());
                proof {
                    reveal_strlit(".");
                    assert("."@ =~= seq!['.']);
                    lemma_timestamp_of_is_timestamp(pair_view(captures));
                }
                Some(t)
            } else {
                None
            }
        },
        None => None,
    }
}

/// Why no timestamp could be taken from a command text.
#[derive(Debug, Clone, Copy, PartialEq, Eq, Structural)]
pub enum LinkError {
    /// The text holds no message permalink.
    MalformedLink,
}

/// Finds the first message permalink in `text` and returns its canonical
/// timestamp; fails with `MalformedLink` when the text holds no permalink.
pub fn extract_timestamp(text: &str) -> (r: Result<String, LinkError>)
    ensures
        match r {
            Ok(t) => permalink_timestamp(text@) == Some(t@) && is_timestamp(t@),
            Err(e) => permalink_timestamp(text@).is_none() && e == LinkError::MalformedLink,
        },
{
    let captures = first_named_pair(
        "https://\\w+\\.slack\\.com/archives/\\w+/p(?P<s>\\d{10})(?P<us>\\d{6})",
        text,
        "s",
        "us",
    );
    match timestamp_from_captures(captures) {
        Some(t) => Ok(t),
        None => Err(LinkError::MalformedLink),
    }
}

} // verus!
