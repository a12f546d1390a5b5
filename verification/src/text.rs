//! Text building: decimal numerals and concatenation over `String`.
use vstd::prelude::*;
use vstd::string::{StrSliceExecFns, StringExecFns};

verus! {

/// The character of a decimal digit.
pub open spec fn digit_char(d: nat) -> char {
    (('0' as nat) + d) as char
}

/// The decimal numeral of `n`, without leading zeros.
pub open spec fn decimal(n: nat) -> Seq<char>
    decreases n,
{
    if n < 10 {
        seq![digit_char(n)]
    } else {
        decimal(n / 10).push(digit_char(n % 10))
    }
}

fn digit_text(d: u64) -> (s: &'static str)
    requires
        d < 10,
    ensures
        s@ == seq![digit_char(d as nat)],
{
    proof {
        reveal_strlit("0");
        reveal_strlit("1");
        reveal_strlit("2");
        reveal_strlit("3");
        reveal_strlit("4");
        reveal_strlit("5");
        reveal_strlit("6");
        reveal_strlit("7");
        reveal_strlit("8");
        reveal_strlit("9");
    }
    match d {
        0 => "0",
        1 => "1",
        2 => "2",
        3 => "3",
        4 => "4",
        5 => "5",
        6 => "6",
        7 => "7",
        8 => "8",
        _ => "9",
    }
}

/// Appends the decimal numeral of `n` to `out`.
pub fn push_decimal(out: &mut String, n: u64)
    ensures
        final(out)@ == old(out)@ + decimal(n as nat),
    decreases n,
{
    if n >= 10 {
        push_decimal(out, n / 10);
    }
    out.append(digit_text(n % 10));
    assert(out@ =~= old(out)@ + decimal(n as nat));
}

/// The decimal numeral of `n`.
pub fn decimal_text(n: u64) -> (s: String)
    ensures
        s@ == decimal(n as nat),
{
    let mut s = String::new();
    push_decimal(&mut s, n);
    assert(s@ =~= decimal(n as nat));
    s
}

/// `a` followed by `b`.
pub fn join(a: &str, b: &str) -> (s: String)
    ensures
        s@ == a@ + b@,
{
    let mut s = a.to_owned();
    s.append(b);
    s
}

/// `a` followed by `b` and `c`.
pub fn join3(a: &str, b: &str, c: &str) -> (s: String)
    ensures
        s@ == a@ + b@ + c@,
{
    let mut s = a.to_owned();
    s.append(b);
    s.append(c);
    s
}

/// Whether two texts hold the same characters.
pub fn same(a: &str, b: &str) -> (r: bool)
    ensures
        r == (a@ == b@),
{
    a.to_owned() == b.to_owned()
}

/// The characters of a text.
pub fn chars_of(s: &str) -> (v: Vec<char>)
    ensures
        v@ == s@,
{
    let mut v: Vec<char> = Vec::new();
    for c in it: s.chars()
        invariant
            it.seq() == s@,
            v@ == it.seq().take(it.index() as int),
    {
        v.push(c);
    }
    assert(v@ =~= s@);
    v
}

/// `part` stands in `whole` at `at`.
pub open spec fn stands_at(whole: Seq<char>, part: Seq<char>, at: int) -> bool {
    0 <= at && at + part.len() <= whole.len() && whole.subrange(at, at + part.len()) == part
}

/// `part` stands somewhere in `whole`.
pub open spec fn occurs(whole: Seq<char>, part: Seq<char>) -> bool {
    exists|at: int| #[trigger] stands_at(whole, part, at)
}

fn matches_at(whole: &Vec<char>, part: &Vec<char>, at: usize) -> (r: bool)
    requires
        at + part@.len() <= whole@.len(),
    ensures
        r == stands_at(whole@, part@, at as int),
{
    let len: usize = whole.len();
    let mut i: usize = 0;
    while i < part.len()
        invariant
            len == whole@.len(),
            at + part@.len() <= whole@.len(),
            i <= part@.len(),
            forall|k: int| 0 <= k < i ==> whole@[at + k] == part@[k],
        decreases part@.len() - i,
    {
        if whole[at + i] != part[i] {
            assert(whole@.subrange(at as int, at + part@.len())[i as int] != part@[i as int]);
            return false;
        }
        i = i + 1;
    }
    assert(whole@.subrange(at as int, at + part@.len()) =~= part@);
    true
}

/// Whether `part` stands somewhere in `whole`.
pub fn contains(whole: &str, part: &str) -> (r: bool)
    ensures
        r == occurs(whole@, part@),
{
    let w = chars_of(whole);
    let p = chars_of(part);
    if p.len() > w.len() {
        return false;
    }
    let last: usize = w.len() - p.len();
    let mut at: usize = 0;
    loop
        invariant
            w@ == whole@,
            p@ == part@,
            last == w@.len() - p@.len(),
            at <= last,
            forall|k: int| 0 <= k < at ==> !#[trigger] stands_at(whole@, part@, k),
        decreases last - at,
    {
        if matches_at(&w, &p, at) {
            return true;
        }
        if at == last {
            return false;
        }
        at = at + 1;
    }
}

/// The capital of an ASCII letter; other characters as they are.
pub open spec fn ascii_capital(c: char) -> char {
    if 'a' <= c && c <= 'z' {
        ((c as int) - 32) as char
    } else {
        c
    }
}

/// Every character is an ASCII character.
pub open spec fn all_ascii(s: Seq<char>) -> bool {
    forall|i: int| 0 <= i < s.len() ==> (#[trigger] s[i]) as int <= 127
}

/// What `str::to_uppercase` makes of a text that is not all ASCII.
pub uninterp spec fn unicode_capitals(s: Seq<char>) -> Seq<char>;

/// A text in capitals: letter by letter where it is all ASCII, and else by the mapping of
/// Unicode.
pub open spec fn in_capitals(s: Seq<char>) -> Seq<char> {
    if all_ascii(s) {
        s.map_values(|c: char| ascii_capital(c))
    } else {
        unicode_capitals(s)
    }
}

/// `str::to_uppercase`: the text in capitals. Each ASCII letter becomes its capital and
/// other ASCII characters stay; of other text the result is named.
#[verifier::external_body]
pub(crate) fn capitals(s: &str) -> (r: String)
    ensures
        r@ == if all_ascii(s@) {
            s@.map_values(|c: char| ascii_capital(c))
        } else {
            unicode_capitals(s@)
        },
{
    s.to_uppercase()
}

/// The first place at or after `from` where `c` stands, or the length if there is none.
pub open spec fn place_of(s: Seq<char>, c: char, from: int) -> int
    decreases s.len() - from,
{
    if from >= s.len() {
        s.len() as int
    } else if s[from] == c {
        from
    } else {
        place_of(s, c, from + 1)
    }
}

/// The first place at or after `from` where `c` stands, or the length if there is none.
pub fn find_char(s: &Vec<char>, c: char, from: usize) -> (i: usize)
    requires
        from <= s@.len(),
    ensures
        i == place_of(s@, c, from as int),
        from <= i <= s@.len(),
{
    let mut i: usize = from;
    while i < s.len()
        invariant
            from <= i <= s@.len(),
            place_of(s@, c, i as int) == place_of(s@, c, from as int),
        decreases s@.len() - i,
    {
        if s[i] == c {
            return i;
        }
        i = i + 1;
    }
    i
}

/// The characters from `from` up to `to`.
pub fn piece(s: &str, from: usize, to: usize) -> (r: String)
    requires
        from <= to <= s@.len(),
    ensures
        r@ == s@.subrange(from as int, to as int),
{
    s.substring_char(from, to).to_owned()
}

// ── Laws ──────────────────────────────────────────────────────────────────────

/// The number that digits stand for, the last of them counting ones.
pub open spec fn value_of(s: Seq<char>) -> int
    decreases s.len(),
{
    if s.len() == 0 {
        0
    } else {
        value_of(s.drop_last()) * 10 + (s.last() as int - '0' as int)
    }
}

proof fn lemma_decimal(n: nat)
    ensures
        value_of(decimal(n)) == n,
        decimal(n).len() > 0,
        n > 0 ==> decimal(n)[0] != '0',
        n < 10 ==> decimal(n).len() == 1,
        forall|i: int| 0 <= i < decimal(n).len() ==> '0' <= #[trigger] decimal(n)[i] <= '9',
    decreases n,
{
    reveal_with_fuel(value_of, 2);
    if n >= 10 {
        lemma_decimal(n / 10);
        assert(decimal(n).drop_last() =~= decimal(n / 10));
    } else {
        assert(decimal(n).drop_last() =~= Seq::<char>::empty());
    }
}

/// The numeral of a number consists of decimal digits that stand for it, and does not begin with
/// a zero unless it is one. It is appended behind what is there.
pub proof fn a_numeral_stands_for_its_number(out: &mut String, n: u64, s: String)
    requires
        call_ensures(push_decimal, (out, n), ()),
        call_ensures(decimal_text, (n,), s),
    ensures
        value_of(s@) == n,
        s@.len() > 0,
        s@[0] == '0' ==> s@.len() == 1,
        forall|i: int| 0 <= i < s@.len() ==> '0' <= #[trigger] s@[i] <= '9',
        final(out)@ == old(out)@ + s@,
{
    lemma_decimal(n as nat);
}

/// Joined texts follow each other unchanged, and of two texts that are joined each can be cut
/// out again.
pub proof fn joined_texts_follow_each_other(
    a: &str,
    b: &str,
    c: &str,
    two: String,
    three: String,
    rest: String,
)
    requires
        call_ensures(join, (a, b), two),
        call_ensures(join3, (a, b, c), three),
        call_ensures(join, (b, c), rest),
    ensures
        two@.take(a@.len() as int) == a@,
        two@.skip(a@.len() as int) == b@,
        three@ == two@ + c@,
        three@ == a@ + rest@,
{
    assert(three@ =~= a@ + rest@);
}

/// A piece holds the characters between its two places, and the pieces on both sides of a place
/// make the text.
pub proof fn pieces_make_the_text(s: &str, at: usize, a: String, b: String, len: usize, i: int)
    requires
        at <= len,
        len == s@.len(),
        call_ensures(piece, (s, 0, at), a),
        call_ensures(piece, (s, at, len), b),
    ensures
        a@ + b@ == s@,
        a@.len() == at,
        0 <= i < b@.len() ==> b@[i] == s@[at + i],
{
    assert(a@ + b@ =~= s@);
}

/// Two texts are the same exactly if each has the characters of the other, and the characters
/// of a text are those that it is made of.
pub proof fn same_texts_have_the_same_characters(
    a: &str,
    b: &str,
    r: bool,
    v: Vec<char>,
    w: Vec<char>,
)
    requires
        call_ensures(same, (a, b), r),
        call_ensures(chars_of, (a,), v),
        call_ensures(chars_of, (b,), w),
    ensures
        r <==> v@ == w@,
        v@ == a@,
{
}

/// A text holds each of its parts: what was joined around a part is found to hold it. One that is
/// longer than the whole is not found, and one that is as long only if it is the same.
pub proof fn a_text_holds_its_parts(
    a: &str,
    part: &str,
    c: &str,
    whole: &str,
    r: bool,
)
    requires
        call_ensures(contains, (whole, part), r),
    ensures
        whole@ == a@ + part@ + c@ ==> r,
        part@.len() > whole@.len() ==> !r,
        part@.len() == whole@.len() ==> (r <==> part@ == whole@),
        part@.len() == 1 ==> (r <==> whole@.contains(part@[0])),
        r ==> exists|at: int| 0 <= at <= whole@.len() - part@.len() && #[trigger] whole@.subrange(
            at,
            at + part@.len(),
        ) == part@,
{
    if whole@ == a@ + part@ + c@ {
        let at = a@.len() as int;
        assert(whole@.subrange(at, at + part@.len()) =~= part@);
        assert(stands_at(whole@, part@, at));
    }
    if part@.len() == whole@.len() {
        assert(whole@.subrange(0, whole@.len() as int) =~= whole@);
        if part@ == whole@ {
            assert(stands_at(whole@, part@, 0));
        }
        if r {
            let at = choose|at: int| #[trigger] stands_at(whole@, part@, at);
            assert(at == 0);
        }
    }
    if part@.len() == 1 {
        if whole@.contains(part@[0]) {
            let at = choose|at: int| 0 <= at < whole@.len() && whole@[at] == part@[0];
            assert(whole@.subrange(at, at + 1) =~= part@);
            assert(stands_at(whole@, part@, at));
        }
        if r {
            let at = choose|at: int| #[trigger] stands_at(whole@, part@, at);
            assert(whole@[at] == whole@.subrange(at, at + 1)[0]);
        }
    }
    if r {
        let at = choose|at: int| #[trigger] stands_at(whole@, part@, at);
        assert(whole@.subrange(at, at + part@.len()) == part@);
    }
}

proof fn lemma_place(s: Seq<char>, c: char, from: int)
    requires
        0 <= from <= s.len(),
    ensures
        from <= place_of(s, c, from) <= s.len(),
        place_of(s, c, from) < s.len() ==> s[place_of(s, c, from)] == c,
        forall|k: int| from <= k < place_of(s, c, from) ==> s[k] != c,
    decreases s.len() - from,
{
    if from < s.len() && s[from] != c {
        lemma_place(s, c, from + 1);
    }
}

/// The place that is found holds the character, and no place before it does from where the search
/// began. If none is found, the end is.
pub proof fn the_first_place_is_found(s: Vec<char>, c: char, from: usize, i: usize, k: int)
    requires
        from <= s@.len(),
        call_ensures(find_char, (&s, c, from), i),
    ensures
        from <= i <= s@.len(),
        i < s@.len() ==> s@[i as int] == c,
        from <= k < i ==> s@[k] != c,
        i == s@.len() <==> !s@.skip(from as int).contains(c),
{
    lemma_place(s@, c, from as int);
    if i < s@.len() {
        assert(s@.skip(from as int)[i - from] == c);
    } else if s@.skip(from as int).contains(c) {
        let j = choose|j: int| 0 <= j < s@.skip(from as int).len() && s@.skip(from as int)[j] == c;
        assert(s@[from + j] == c);
    }
}

}
