//! Composition rules that a password must meet before it is hashed.
use vstd::prelude::*;
use vstd::string::StrSliceExecFns;
use vstd::utf8::encode_utf8;

verus! {

/// Smallest accepted size of a password, in bytes.
pub const MIN_LENGTH: usize = 8;

/// Size of a password, in bytes, from which on it is rejected.
pub const MAX_LENGTH: usize = 128;

/// What `char::is_uppercase` answers for a character (the Unicode `Uppercase` property).
pub uninterp spec fn uppercase_property(c: char) -> bool;

/// What `char::is_lowercase` answers for a character (the Unicode `Lowercase` property).
pub uninterp spec fn lowercase_property(c: char) -> bool;

/// Relies on `char::is_uppercase`: it answers from the character alone.
#[verifier::external_body]
pub(crate) fn char_is_uppercase(c: char) -> (r: bool)
    ensures
        r == uppercase_property(c),
{
    c.is_uppercase()
}

/// Relies on `char::is_lowercase`: it answers from the character alone.
#[verifier::external_body]
fn char_is_lowercase(c: char) -> (r: bool)
    ensures
        r == lowercase_property(c),
{
    c.is_lowercase()
}

pub open spec fn is_ascii_digit(c: char) -> bool {
    '0' <= c && c <= '9'
}

/// The special characters of the policy: `!@#$%^&*()-+`.
pub open spec fn is_special(c: char) -> bool {
    c == '!' || c == '@' || c == '#' || c == '$' || c == '%' || c == '^' || c == '&' || c == '*'
        || c == '(' || c == ')' || c == '-' || c == '+'
}


pub open spec fn has_uppercase(s: Seq<char>) -> bool {
    exists|i: int| 0 <= i < s.len() && uppercase_property(#[trigger] s[i])
}

pub open spec fn has_lowercase(s: Seq<char>) -> bool {
    exists|i: int| 0 <= i < s.len() && lowercase_property(#[trigger] s[i])
}

pub open spec fn has_digit(s: Seq<char>) -> bool {
    exists|i: int| 0 <= i < s.len() && is_ascii_digit(#[trigger] s[i])
}

pub open spec fn has_special(s: Seq<char>) -> bool {
    exists|i: int| 0 <= i < s.len() && is_special(#[trigger] s[i])
}

/// The size of a text in bytes, once encoded as UTF-8.
pub open spec fn byte_size(s: Seq<char>) -> int {
    encode_utf8(s).len() as int
}

/// The size of a password in bytes is within `[MIN_LENGTH, MAX_LENGTH)`.
pub open spec fn size_in_range(password: Seq<char>) -> bool {
    MIN_LENGTH <= byte_size(password) < MAX_LENGTH
}

/// A password meets the policy when its byte size is in range and it holds an
/// uppercase letter, a lowercase letter, an ASCII digit and a special character.
pub open spec fn meets_policy(password: Seq<char>) -> bool {
    &&& size_in_range(password)
    &&& has_uppercase(password)
    &&& has_lowercase(password)
    &&& has_digit(password)
    &&& has_special(password)
}

/// Each character takes one to four bytes.
proof fn lemma_byte_size_bounds(s: Seq<char>)
    ensures
        s.len() <= byte_size(s) <= 4 * s.len(),
    decreases s.len(),
{
    if s.len() > 0 {
        lemma_byte_size_bounds(s.drop_first());
    }
}

fn is_special_char(c: char) -> (r: bool)
    ensures
        r == is_special(c),
{
    c == '!' || c == '@' || c == '#' || c == '$' || c == '%' || c == '^' || c == '&' || c == '*'
        || c == '(' || c == ')' || c == '-' || c == '+'
}

/// Checks a candidate password against the policy. The size is measured in
/// bytes; the scan stops as soon as every class has been seen.
pub fn validate_password_policy(password: &str) -> (r: bool)
    ensures
        r == meets_policy(password@),
{
    let n = password.unicode_len();
    proof {
        lemma_byte_size_bounds(password@);
    }
    if n >= MAX_LENGTH {
        return false;
    }
    let size = password.len();
    if !(MIN_LENGTH <= size && size < MAX_LENGTH) {
        return false;
    }
    let mut has_up = false;
    let mut has_low = false;
    let mut has_dig = false;
    let mut has_spec = false;
    let mut i: usize = 0;
    while i < n
        invariant
            n == password@.len(),
            i <= n,
            size_in_range(password@),
            has_up == has_uppercase(password@.subrange(0, i as int)),
            has_low == has_lowercase(password@.subrange(0, i as int)),
            has_dig == has_digit(password@.subrange(0, i as int)),
            has_spec == has_special(password@.subrange(0, i as int)),
        decreases n - i,
    {
        let c = password.get_char(i);
        let ghost before = password@.subrange(0, i as int);
        let ghost after = password@.subrange(0, i as int + 1);
        proof {
            assert(after == before.push(c));
            assert(after[i as int] == c);
            assert forall|j: int| 0 <= j < i implies after[j] == before[j] by {}
        }
        if !has_up && char_is_uppercase(c) {
            has_up = true;
        }
        if !has_low && char_is_lowercase(c) {
            has_low = true;
        }
        if !has_dig && '0' <= c && c <= '9' {
            has_dig = true;
        }
        if !has_spec && is_special_char(c) {
            has_spec = true;
        }
        proof {
            if has_up && !has_uppercase(before) {
                assert(uppercase_property(after[i as int]));
            }
            if has_low && !has_lowercase(before) {
                assert(lowercase_property(after[i as int]));
            }
            if has_dig && !has_digit(before) {
                assert(is_ascii_digit(after[i as int]));
            }
            if has_spec && !has_special(before) {
                assert(is_special(after[i as int]));
            }
        }
        i = i + 1;
        if has_up && has_low && has_dig && has_spec {
            proof {
                lemma_prefix_classes(password@, i as int);
            }
            return true;
        }
    }
    proof {
        assert(password@.subrange(0, n as int) == password@);
    }
    has_up && has_low && has_dig && has_spec
}

/// A class found in a prefix is found in the whole sequence.
proof fn lemma_prefix_classes(s: Seq<char>, k: int)
    requires
        0 <= k <= s.len(),
    ensures
        has_uppercase(s.subrange(0, k)) ==> has_uppercase(s),
        has_lowercase(s.subrange(0, k)) ==> has_lowercase(s),
        has_digit(s.subrange(0, k)) ==> has_digit(s),
        has_special(s.subrange(0, k)) ==> has_special(s),
{
    let p = s.subrange(0, k);
    if has_uppercase(p) {
        let j = choose|j: int| 0 <= j < p.len() && uppercase_property(#[trigger] p[j]);
        assert(s[j] == p[j]);
    }
    if has_lowercase(p) {
        let j = choose|j: int| 0 <= j < p.len() && lowercase_property(#[trigger] p[j]);
        assert(s[j] == p[j]);
    }
    if has_digit(p) {
        let j = choose|j: int| 0 <= j < p.len() && is_ascii_digit(#[trigger] p[j]);
        assert(s[j] == p[j]);
    }
    if has_special(p) {
        let j = choose|j: int| 0 <= j < p.len() && is_special(#[trigger] p[j]);
        assert(s[j] == p[j]);
    }
}

/// A password of accepted size that holds an uppercase letter, a lowercase
/// letter, an ASCII digit and a special character meets the policy; one that
/// lacks any one of these classes does not, whatever else it holds.
pub proof fn lemma_policy_needs_every_class(password: Seq<char>)
    requires
        size_in_range(password),
    ensures
        has_uppercase(password) && has_lowercase(password) && has_digit(password) && has_special(
            password,
        ) ==> meets_policy(password),
        !has_uppercase(password) ==> !meets_policy(password),
        !has_lowercase(password) ==> !meets_policy(password),
        !has_digit(password) ==> !meets_policy(password),
        !has_special(password) ==> !meets_policy(password),
{
}

/// A password shorter than `MIN_LENGTH` bytes, or of `MAX_LENGTH` bytes or
/// more, never meets the policy, whatever characters it holds.
pub proof fn lemma_policy_rejects_size_out_of_range(password: Seq<char>)
    requires
        byte_size(password) < MIN_LENGTH || byte_size(password) >= MAX_LENGTH,
    ensures
        !meets_policy(password),
{
}

} // verus!
