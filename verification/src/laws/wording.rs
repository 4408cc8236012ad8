//! Laws of single calls on texts, user ids and readings: what comes back, said of the arguments as
//! they were given.
use vstd::prelude::*;

use crate::clock::later_reading;
use crate::ids::{first_colon, first_colon_is_unique, UserId};
use crate::laws::evaluation::{named, named_is_among_the_texts};
use crate::text::{
    contains_text, copy_list, copy_opt, decimal, decimal_digits, digit_char, join, list_has,
    occurs_at, pad_right, repeat_char, same_text, texts, trim, trim_end, trim_start, white_space,
};

verus! {

/// A text contains another where it is made of something, the other, and something more.
pub proof fn contained_texts_are_parts(s: &str, pat: &str, r: bool)
    requires
        call_ensures(contains_text, (s, pat), r),
    ensures
        r == exists|a: Seq<char>, b: Seq<char>| s@ == #[trigger] (a + pat@ + b),
{
    if r {
        let at = choose|at: int| occurs_at(s@, pat@, at);
        let a = s@.take(at);
        let b = s@.skip(at + pat@.len());
        assert(a + pat@ + b =~= s@);
    }
    if exists|a: Seq<char>, b: Seq<char>| s@ == #[trigger] (a + pat@ + b) {
        let (a, b) = choose|a: Seq<char>, b: Seq<char>| s@ == #[trigger] (a + pat@ + b);
        let at = a.len() as int;
        assert(s@.subrange(at, at + pat@.len()) =~= pat@);
        assert(occurs_at(s@, pat@, at));
    }
}

/// Whether a text is white space throughout.
pub open spec fn blank(s: Seq<char>) -> bool {
    forall|i: int| 0 <= i < s.len() ==> white_space(#[trigger] s[i])
}

/// What is trimmed at the start is white space, and what is left does not start with any.
proof fn start_is_trimmed(s: Seq<char>) -> (front: Seq<char>)
    ensures
        s == front + trim_start(s),
        blank(front),
        trim_start(s).len() > 0 ==> !white_space(trim_start(s)[0]),
    decreases s.len(),
{
    if s.len() > 0 && white_space(s[0]) {
        let rest = start_is_trimmed(s.skip(1));
        let front = seq![s[0]] + rest;
        assert(s =~= seq![s[0]] + s.skip(1));
        assert(front + trim_start(s) =~= s);
        front
    } else {
        assert(Seq::<char>::empty() + s =~= s);
        Seq::empty()
    }
}

/// What is trimmed at the end is white space, and what is left does not end with any.
proof fn end_is_trimmed(s: Seq<char>) -> (back: Seq<char>)
    ensures
        s == trim_end(s) + back,
        blank(back),
        trim_end(s).len() > 0 ==> !white_space(trim_end(s).last()),
    decreases s.len(),
{
    if s.len() > 0 && white_space(s.last()) {
        let rest = end_is_trimmed(s.drop_last());
        let back = rest.push(s.last());
        assert(s =~= s.drop_last().push(s.last()));
        assert(trim_end(s) + back =~= s);
        back
    } else {
        assert(s + Seq::<char>::empty() =~= s);
        Seq::empty()
    }
}

/// A trimmed text is the text without the white space around it, and neither starts nor ends with
/// any.
pub proof fn trimmed_texts_have_no_space_around(s: &str, r: String)
    requires
        call_ensures(trim, (s,), r),
    ensures
        exists|front: Seq<char>, back: Seq<char>|
            s@ == #[trigger] (front + r@ + back) && blank(front) && blank(back),
        r@.len() > 0 ==> !white_space(r@[0]) && !white_space(r@.last()),
{
    let front = start_is_trimmed(s@);
    let rest = trim_start(s@);
    let back = end_is_trimmed(rest);
    assert(s@ =~= front + r@ + back);
    if r@.len() > 0 {
        assert(rest[0] == r@[0]);
    }
}

/// Blanks and line breaks are white space; letters and digits are not.
pub proof fn letters_are_no_space(c: char)
    ensures
        white_space(' ') && white_space('\n') && white_space('\r') && white_space('\t'),
        ('0' <= c <= '9') || ('A' <= c <= 'Z') || ('a' <= c <= 'z') ==> !white_space(c),
{
}

/// A padded text begins with the text, goes on with blanks, and is no shorter than it was to be; one
/// that was long enough stays as it is.
pub proof fn padded_texts_are_wide_enough(s: &str, width: usize, r: String)
    requires
        call_ensures(pad_right, (s, width), r),
    ensures
        s@.len() >= width ==> r@ == s@,
        s@.len() < width ==> r@.len() == width,
        forall|i: int| 0 <= i < s@.len() ==> #[trigger] r@[i] == s@[i],
        forall|i: int| s@.len() <= i < r@.len() ==> #[trigger] r@[i] == ' ',
{
}

/// A repeated character is repeated so many times.
pub proof fn repeated_characters(c: char, n: usize, r: String)
    requires
        call_ensures(repeat_char, (c, n), r),
    ensures
        r@.len() == n,
        forall|i: int| 0 <= i < n ==> #[trigger] r@[i] == c,
{
}

/// Two texts put together are the one and then the other.
pub proof fn joined_texts(a: &str, b: &str, r: String)
    requires
        call_ensures(join, (a, b), r),
    ensures
        r@.len() == a@.len() + b@.len(),
        forall|i: int| 0 <= i < a@.len() ==> #[trigger] r@[i] == a@[i],
        forall|i: int| a@.len() <= i < r@.len() ==> #[trigger] r@[i] == b@[i - a@.len()],
{
}

/// Texts are the same where they have the same characters, and a list has a text where one of its
/// strings reads so.
pub proof fn texts_are_compared(
    a: &str,
    b: &str,
    same: bool,
    list: Vec<String>,
    item: &str,
    has: bool,
)
    requires
        call_ensures(same_text, (a, b), same),
        call_ensures(list_has, (&list, item), has),
    ensures
        same == (a@ == b@),
        has == named(list@, item@),
{
    named_is_among_the_texts(list@, item@);
}

/// Copies read like what was copied.
pub proof fn copies_read_the_same(
    list: Vec<String>,
    copy: Vec<String>,
    s: Option<String>,
    again: Option<String>,
)
    requires
        call_ensures(copy_list, (&list,), copy),
        call_ensures(copy_opt, (&s,), again),
    ensures
        copy@.len() == list@.len(),
        forall|i: int| 0 <= i < list@.len() ==> (#[trigger] copy@[i])@ == list@[i]@,
        (again is Some) == (s is Some),
        s matches Some(t) ==> again->0@ == t@,
{
    assert(texts(copy@).len() == copy@.len() && texts(list@).len() == list@.len());
    assert forall|i: int| 0 <= i < list@.len() implies (#[trigger] copy@[i])@ == list@[i]@ by {
        assert(texts(copy@)[i] == texts(list@)[i]);
    }
}

/// The number that decimal digits stand for.
pub open spec fn worth(digits: Seq<char>) -> int
    decreases digits.len(),
{
    if digits.len() == 0 {
        0
    } else {
        worth(digits.drop_last()) * 10 + (digits.last() as int - 48)
    }
}

/// Decimal digits stand for the number that they were made of.
proof fn digits_are_worth_their_number(n: nat)
    ensures
        worth(decimal_digits(n)) == n,
        decimal_digits(n).len() > 0,
        n > 0 ==> decimal_digits(n)[0] != '0',
        forall|i: int|
            0 <= i < decimal_digits(n).len() ==> '0' <= #[trigger] decimal_digits(n)[i] <= '9',
    decreases n,
{
    let d = n % 10;
    assert(digit_char(d) as int == 48 + d);
    if n < 10 {
        assert(decimal_digits(n).drop_last() =~= Seq::<char>::empty());
        assert(worth(decimal_digits(n).drop_last()) == 0);
    } else {
        digits_are_worth_their_number(n / 10);
        assert(decimal_digits(n).drop_last() =~= decimal_digits(n / 10));
        assert(n == (n / 10) * 10 + n % 10);
    }
}

/// A number in decimal reads as that number, without leading zeros.
pub proof fn decimals_read_as_their_number(n: usize, r: String)
    requires
        call_ensures(decimal, (n,), r),
    ensures
        worth(r@) == n,
        r@.len() > 0,
        n > 0 ==> r@[0] != '0',
        forall|i: int| 0 <= i < r@.len() ==> '0' <= #[trigger] r@[i] <= '9',
{
    digits_are_worth_their_number(n as nat);
}

/// A text is taken for a user id where a colon follows behind its first character, and is kept as it
/// is.
pub proof fn user_ids_have_a_colon(id: String, r: Option<UserId>)
    requires
        call_ensures(UserId::new, (id,), r),
    ensures
        (r is Some) == exists|i: int| 1 <= i < id@.len() && id@[i] == ':',
        r matches Some(u) ==> u@ == id@,
{
}

/// The localpart of a user id is what stands between its first character and the first colon behind
/// that; the whole id is given as it is.
pub proof fn localparts_end_at_the_colon(
    id: UserId,
    localpart: Seq<char>,
    server: Seq<char>,
    sigil: char,
    r: &str,
    whole: &str,
)
    requires
        call_ensures(UserId::localpart, (&id,), r),
        call_ensures(UserId::as_str, (&id,), whole),
        id@ == seq![sigil] + localpart + seq![':'] + server,
        !localpart.contains(':'),
    ensures
        r@ == localpart,
        whole@ == id@,
{
    let at = 1 + localpart.len() as int;
    assert(id@[at] == ':');
    assert forall|i: int| 1 <= i < at implies id@[i] != ':' by {
        assert(id@[i] == localpart[i - 1]);
    }
    assert(first_colon(id@, at));
    first_colon_is_unique(id@, at, choose|at: int| first_colon(id@, at));
    assert(id@.subrange(1, at) =~= localpart);
}

/// A clock does not go back: it shows what it is read as, or what it showed before where that is
/// later.
pub proof fn clocks_do_not_go_back(reading: u128, earlier: u128, r: u128)
    requires
        call_ensures(later_reading, (reading, earlier), r),
    ensures
        r >= reading,
        r >= earlier,
        r == reading || r == earlier,
{
}

} // verus!
