//! Edit buffers, year parsing and formatting, and the small text rules the
//! profile screens use.
use vstd::prelude::*;

verus! {

/// An ASCII decimal digit.
pub open spec fn is_digit(c: char) -> bool {
    '0' <= c && c <= '9'
}

pub open spec fn all_digits(s: Seq<char>) -> bool {
    forall|i: int| 0 <= i < s.len() ==> is_digit(#[trigger] s[i])
}

/// The value of a run of decimal digits, most significant first.
pub open spec fn digits_value(s: Seq<char>) -> int
    decreases s.len(),
{
    if s.len() == 0 {
        0
    } else {
        10 * digits_value(s.drop_last()) + (s.last() as int - '0' as int)
    }
}

/// The integer that `s` writes in decimal: an optional sign, then at least one
/// digit, and nothing else.
pub open spec fn decimal_value(s: Seq<char>) -> Option<int> {
    if s.len() > 0 && (s[0] == '-' || s[0] == '+') {
        if s.len() > 1 && all_digits(s.skip(1)) {
            if s[0] == '-' {
                Some(-digits_value(s.skip(1)))
            } else {
                Some(digits_value(s.skip(1)))
            }
        } else {
            None
        }
    } else if s.len() > 0 && all_digits(s) {
        Some(digits_value(s))
    } else {
        None
    }
}

/// What reading `s` as an `i64` gives: its decimal value where that fits.
pub open spec fn parsed_i64(s: Seq<char>) -> Option<i64> {
    match decimal_value(s) {
        Some(v) => if i64::MIN <= v <= i64::MAX {
            Some(v as i64)
        } else {
            None
        },
        None => None,
    }
}

/// Relies on `str::parse::<i64>`: an optional `+` or `-` followed by decimal
/// digits, whose value fits in an `i64`, parses to that value; anything else
/// is an error.
#[verifier::external_body]
fn parse_i64(s: &str) -> (r: Option<i64>)
    ensures
        r == parsed_i64(s@),
{
    s.parse::<i64>().ok()
}

pub open spec fn digit_char(d: nat) -> char
    recommends
        d < 10,
{
    ((d + '0' as nat) as u32) as char
}

/// The decimal digits of `n`, without leading zeros.
pub open spec fn nat_text(n: nat) -> Seq<char>
    decreases n,
{
    if n < 10 {
        seq![digit_char(n)]
    } else {
        nat_text(n / 10) + seq![digit_char(n % 10)]
    }
}

/// The decimal text of `v`, with a leading `-` when it is negative.
pub open spec fn int_text(v: int) -> Seq<char> {
    if v < 0 {
        seq!['-'] + nat_text((-v) as nat)
    } else {
        nat_text(v as nat)
    }
}

/// Relies on `i64`'s `Display`, through `to_string`: decimal digits without
/// leading zeros, preceded by `-` for a negative value.
#[verifier::external_body]
fn i64_text(v: i64) -> (r: String)
    ensures
        r@ == int_text(v as int),
{
    v.to_string()
}

/// Relies on `String::push`: appends one character.
#[verifier::external_body]
pub(crate) fn push_char(s: &mut String, c: char)
    ensures
        final(s)@ == old(s)@.push(c),
{
    s.push(c)
}

/// What taking the last character off a buffer leaves.
pub open spec fn without_last(s: Seq<char>) -> Seq<char> {
    if s.len() == 0 {
        s
    } else {
        s.drop_last()
    }
}

/// Relies on `String::pop`: removes the last character, if there is one.
#[verifier::external_body]
pub(crate) fn pop_char(s: &mut String)
    ensures
        final(s)@ == without_last(old(s)@),
{
    s.pop();
}

/// A year as an edit buffer shows it: its decimal text, or nothing if unset.
pub open spec fn year_text(v: Option<i64>) -> Seq<char> {
    match v {
        Some(y) => int_text(y as int),
        None => Seq::empty(),
    }
}

/// The buffer that editing a year starts from.
pub fn year_buffer(v: Option<i64>) -> (r: String)
    ensures
        r@ == year_text(v),
{
    match v {
        Some(y) => i64_text(y),
        None => String::new(),
    }
}

/// The year an edit buffer commits: unset when empty or when it does not read
/// as an integer.
pub open spec fn committed_year(buf: Seq<char>) -> Option<i64> {
    if buf.len() == 0 {
        None
    } else {
        parsed_i64(buf)
    }
}

pub fn parse_year(buf: &String) -> (r: Option<i64>)
    ensures
        r == committed_year(buf@),
{
    let t = buf.as_str();
    if t.is_empty() {
        None
    } else {
        parse_i64(t)
    }
}

/// A year buffer takes digits, and a `-` only as its first character.
pub open spec fn year_accepts(buf: Seq<char>, c: char) -> bool {
    is_digit(c) || (c == '-' && buf.len() == 0)
}

pub fn year_accepts_char(buf: &String, c: char) -> (r: bool)
    ensures
        r == year_accepts(buf@, c),
{
    ('0' <= c && c <= '9') || (c == '-' && buf.as_str().is_empty())
}

pub open spec fn horizontal() -> Seq<char> {
    seq!['h', 'o', 'r', 'i', 'z', 'o', 'n', 't', 'a', 'l']
}

pub open spec fn vertical() -> Seq<char> {
    seq!['v', 'e', 'r', 't', 'i', 'c', 'a', 'l']
}

/// An orientation as toggling leaves it: horizontal becomes vertical, and
/// anything else becomes horizontal.
pub open spec fn flipped_orientation(o: Seq<char>) -> Seq<char> {
    if o == horizontal() {
        vertical()
    } else {
        horizontal()
    }
}

pub fn flip_orientation(o: &String) -> (r: String)
    ensures
        r@ == flipped_orientation(o@),
{
    proof {
        reveal_strlit("horizontal");
        reveal_strlit("vertical");
    }
    let h = String::from_str("horizontal");
    assert(h@ =~= horizontal());
    if o.eq(&h) {
        let v = String::from_str("vertical");
        assert(v@ =~= vertical());
        v
    } else {
        h
    }
}

/// Toggling an orientation twice gives it back, for either of its two values.
pub proof fn lemma_orientation_flip_twice(o: Seq<char>)
    requires
        o == horizontal() || o == vertical(),
    ensures
        flipped_orientation(flipped_orientation(o)) == o,
{
    assert(horizontal() != vertical()) by {
        assert(horizontal().len() != vertical().len());
    }
}

/// The upper-case form of a character, as Unicode's case mapping gives it.
pub uninterp spec fn upper_of(c: char) -> Seq<char>;

/// Relies on `char::to_uppercase`, collected into a `String`: the result
/// depends on the character alone, and an ASCII lower-case letter maps to its
/// upper-case letter.
#[verifier::external_body]
fn char_upper(c: char) -> (r: String)
    ensures
        r@ == upper_of(c),
        'a' <= c <= 'z' ==> r@ == seq![((c as u32) - 32) as char],
{
    c.to_uppercase().collect::<String>()
}

/// `s` with its first character in upper case.
pub open spec fn capitalized(s: Seq<char>) -> Seq<char> {
    if s.len() == 0 {
        s
    } else {
        upper_of(s[0]) + s.skip(1)
    }
}

/// The name offered for a new display profile: its orientation word
/// capitalized, a space, and its aspect ratio.
pub open spec fn suggested_name(orientation: Seq<char>, aspect_ratio: Seq<char>) -> Seq<char> {
    capitalized(orientation) + seq![' '] + aspect_ratio
}

/// The suggested name put together from the upper-case form of the
/// orientation's first character, the orientation, and the aspect ratio.
pub open spec fn joined_name(capital: Seq<char>, orientation: Seq<char>, aspect_ratio: Seq<char>) -> Seq<char> {
    (if orientation.len() == 0 {
        orientation
    } else {
        capital + orientation.skip(1)
    }) + seq![' '] + aspect_ratio
}

/// Puts a suggested name together; `capital` stands in for the orientation's
/// first character and is not read when the orientation is empty.
pub fn join_default_name(capital: &String, orientation: &String, aspect_ratio: &String) -> (r: String)
    ensures
        r@ == joined_name(capital@, orientation@, aspect_ratio@),
{
    let t = orientation.as_str();
    let n = t.unicode_len();
    let mut r = if n == 0 {
        String::new()
    } else {
        let mut first = capital.clone();
        first.append(t.substring_char(1, n));
        first
    };
    proof {
        reveal_strlit(" ");
    }
    r.append(" ");
    r.append(aspect_ratio.as_str());
    assert(r@ =~= joined_name(capital@, orientation@, aspect_ratio@));
    r
}

pub fn display_default_name(orientation: &String, aspect_ratio: &String) -> (r: String)
    ensures
        r@ == suggested_name(orientation@, aspect_ratio@),
{
    let t = orientation.as_str();
    let capital = if t.unicode_len() == 0 {
        String::new()
    } else {
        char_upper(t.get_char(0))
    };
    let r = join_default_name(&capital, orientation, aspect_ratio);
    assert(r@ =~= suggested_name(orientation@, aspect_ratio@));
    r
}

} // verus!
