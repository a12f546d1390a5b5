//! Text forms of octets and URLs.
use crate::text;
use base64::Engine;
use vstd::prelude::*;
use vstd::utf8;

verus! {

/// The character of a base64 digit in the standard alphabet.
pub open spec fn base64_digit(d: int) -> char {
    if d < 26 {
        ('A' as int + d) as char
    } else if d < 52 {
        ('a' as int + (d - 26)) as char
    } else if d < 62 {
        ('0' as int + (d - 52)) as char
    } else if d == 62 {
        '+'
    } else {
        '/'
    }
}

/// Octets in base64, standard alphabet, padded: four digits for three octets.
pub open spec fn base64_of(s: Seq<u8>) -> Seq<char>
    decreases s.len(),
{
    if s.len() == 0 {
        Seq::empty()
    } else {
        let a = s[0] as int;
        let b = if s.len() > 1 { s[1] as int } else { 0 };
        let c = if s.len() > 2 { s[2] as int } else { 0 };
        seq![
            base64_digit(a / 4),
            base64_digit(a % 4 * 16 + b / 16),
            if s.len() > 1 { base64_digit(b % 16 * 4 + c / 64) } else { '=' },
            if s.len() > 2 { base64_digit(c % 64) } else { '=' },
        ] + base64_of(s.skip(if s.len() > 3 { 3 } else { s.len() as int }))
    }
}

/// The octets are few enough for their base64 form to be held in memory.
pub open spec fn fits_base64(s: Seq<u8>) -> bool {
    (s.len() + 2) / 3 * 4 <= isize::MAX
}

/// Whether the octets are few enough for their base64 form to be held in memory.
pub fn has_base64_room(s: &[u8]) -> (r: bool)
    ensures
        r == fits_base64(s@),
{
    let len: usize = s.len();
    let rest: usize = if len % 3 == 0 {
        0
    } else {
        1
    };
    len / 3 + rest <= isize::MAX as usize / 4
}

/// `base64::Engine::encode` of `base64::engine::general_purpose::STANDARD`: the
/// octets in padded standard base64. It panics where the text would be too long.
#[verifier::external_body]
pub(crate) fn base64_text(s: &[u8]) -> (t: String)
    requires
        fits_base64(s@),
    ensures
        t@ == base64_of(s@),
{
    base64::engine::general_purpose::STANDARD.encode(s)
}

/// The outside error of a text that is not base64.
#[verifier::external_type_specification]
#[verifier::external_body]
pub struct ExDecodeError(base64::DecodeError);

/// `base64::Engine::decode` of `base64::engine::general_purpose::STANDARD`, which
/// asks for canonical padding and no stray bits: the octets whose base64 form the
/// text is, or an error if there are none.
#[verifier::external_body]
pub(crate) fn base64_octets(s: &str) -> (r: Result<Vec<u8>, base64::DecodeError>)
    ensures
        match r {
            Ok(v) => base64_of(v@) == s@,
            Err(_) => forall|v: Seq<u8>| #[trigger] base64_of(v) != s@,
        },
{
    base64::engine::general_purpose::STANDARD.decode(s)
}

/// What `url::Url::parse` makes of a text: the URL's serialisation, or the error in
/// words.
pub uninterp spec fn url_of(s: Seq<char>) -> Result<Seq<char>, Seq<char>>;

/// The serialisation that `append_pair` makes of a URL, given the text that the URL was
/// parsed from.
pub uninterp spec fn url_with_pair(
    url: Seq<char>,
    name: Seq<char>,
    value: Seq<char>,
) -> Seq<char>;

/// The views of a result of texts.
pub open spec fn texts(r: Result<String, String>) -> Result<Seq<char>, Seq<char>> {
    match r {
        Ok(s) => Ok(s@),
        Err(e) => Err(e@),
    }
}

/// `url::Url::parse`: the URL's serialisation, or the error in words.
#[verifier::external_body]
pub(crate) fn parse_url(s: &str) -> (r: Result<String, String>)
    ensures
        texts(r) == url_of(s@),
{
    match url::Url::parse(s) {
        Ok(url) => Ok(String::from(url)),
        Err(e) => Err(e.to_string()),
    }
}

/// The character stands for itself in a query.
pub open spec fn is_plain(c: char) -> bool {
    ('a' <= c && c <= 'z') || ('A' <= c && c <= 'Z') || ('0' <= c && c <= '9') || c == '*' || c
        == '-' || c == '.' || c == '_'
}

/// Every character stands for itself in a query.
pub open spec fn all_plain(s: Seq<char>) -> bool {
    forall|i: int| 0 <= i < s.len() ==> is_plain(#[trigger] s[i])
}

/// How many octets an octet takes in a query: one if it stands for itself or is a space,
/// which becomes a plus sign, and three else.
pub open spec fn query_width(b: u8) -> nat {
    if is_plain(b as char) || b == 0x20 {
        1
    } else {
        3
    }
}

/// How many octets a text takes in a query, given in UTF-8.
pub open spec fn query_len(s: Seq<u8>) -> nat
    decreases s.len(),
{
    if s.len() == 0 {
        0
    } else {
        query_len(s.drop_last()) + query_width(s.last())
    }
}

/// The first place at or after `from` where `b` stands, or the length if there is none.
pub open spec fn octet_place(s: Seq<u8>, b: u8, from: int) -> int
    decreases s.len() - from,
{
    if from >= s.len() {
        s.len() as int
    } else if s[from] == b {
        from
    } else {
        octet_place(s, b, from + 1)
    }
}

/// Where the fragment of a URL begins, with its sign; the length if there is none.
pub open spec fn fragment_place(url: Seq<u8>) -> int {
    octet_place(url, 0x23, 0)
}

/// Where the query of a URL begins, with its sign; that of the fragment if there is none.
pub open spec fn query_place(url: Seq<u8>) -> int {
    octet_place(url.take(fragment_place(url)), 0x3f, 0)
}

/// How many octets the URL has before its fragment once a pair is appended: a sign goes
/// before the pair unless the query is there and empty.
pub open spec fn front_len(url: Seq<u8>, name: Seq<u8>, value: Seq<u8>) -> int {
    let end = fragment_place(url);
    let sign: int = if query_place(url) == end - 1 {
        0
    } else {
        1
    };
    end + sign + query_len(name) + 1 + query_len(value)
}

/// A pair can be appended to a URL, all given in UTF-8: the places where its query and its
/// fragment begin can be told in 32 bits, and the new URL can be held in memory.
pub open spec fn takes_pair(url: Seq<u8>, name: Seq<u8>, value: Seq<u8>) -> bool {
    let end = fragment_place(url);
    &&& query_place(url) <= u32::MAX
    &&& end < url.len() ==> front_len(url, name, value) <= u32::MAX
    &&& front_len(url, name, value) + (url.len() - end) <= isize::MAX / 2
}

/// A pair can be appended to the URL that a text is, if it is one.
pub open spec fn pair_fits(url: Seq<char>, name: Seq<char>, value: Seq<char>) -> bool {
    url_of(url) matches Ok(parsed) ==> takes_pair(
        utf8::encode_utf8(parsed),
        utf8::encode_utf8(name),
        utf8::encode_utf8(value),
    )
}

/// `append_pair` on `url::Url::query_pairs_mut`, of the URL that `url::Url::parse`
/// makes of a text. It panics where the place of the query or of the fragment cannot be
/// told in 32 bits, and where the URL cannot be held in memory. Of a pair of plain texts
/// it says that the pair stands in the new URL as it is, joined by an equals sign.
#[verifier::external_body]
pub(crate) fn append_query_pair(url: &str, name: &str, value: &str) -> (r: Result<String, String>)
    requires
        pair_fits(url@, name@, value@),
    ensures
        texts(r) == match url_of(url@) {
            Ok(_) => Ok(url_with_pair(url@, name@, value@)),
            Err(e) => Err(e),
        },
        r matches Ok(new) ==> all_plain(name@) && all_plain(value@) ==> text::occurs(
            new@,
            name@ + "="@ + value@,
        ),
{
    let mut parsed = match url::Url::parse(url) {
        Ok(parsed) => parsed,
        Err(e) => return Err(e.to_string()),
    };
    parsed.query_pairs_mut().append_pair(name, value);
    Ok(String::from(parsed))
}

/// A URL with a pair appended to its query.
pub open spec fn with_pair(
    url: Seq<char>,
    name: Seq<char>,
    value: Seq<char>,
) -> Result<Seq<char>, Seq<char>> {
    match url_of(url) {
        Ok(_) => Ok(url_with_pair(url, name, value)),
        Err(e) => Err(e),
    }
}

fn query_len_of(s: &[u8]) -> (n: u128)
    ensures
        n == query_len(s@),
        n <= 3 * usize::MAX,
{
    let mut n: u128 = 0;
    let mut i: usize = 0;
    while i < s.len()
        invariant
            i <= s@.len(),
            n == query_len(s@.take(i as int)),
            n <= 3 * i,
        decreases s@.len() - i,
    {
        assert(s@.take(i + 1).drop_last() =~= s@.take(i as int));
        let b: u8 = s[i];
        let plain = (0x61 <= b && b <= 0x7a) || (0x41 <= b && b <= 0x5a) || (0x30 <= b && b
            <= 0x39) || b == 0x2a || b == 0x2d || b == 0x2e || b == 0x5f;
        if plain || b == 0x20 {
            n = n + 1;
        } else {
            n = n + 3;
        }
        i = i + 1;
    }
    assert(s@.take(s@.len() as int) =~= s@);
    n
}

fn place_of_octet(s: &[u8], b: u8, end: usize) -> (p: usize)
    requires
        end <= s@.len(),
    ensures
        p == octet_place(s@.take(end as int), b, 0),
        p <= end,
{
    let ghost front = s@.take(end as int);
    let mut i: usize = 0;
    while i < end && s[i] != b
        invariant
            end <= s@.len(),
            front == s@.take(end as int),
            i <= end,
            octet_place(front, b, 0) == octet_place(front, b, i as int),
        decreases end - i,
    {
        i = i + 1;
    }
    i
}

fn can_take_pair(url: &str, name: &str, value: &str) -> (r: bool)
    ensures
        r == takes_pair(utf8::encode_utf8(url@), utf8::encode_utf8(name@), utf8::encode_utf8(value@)),
{
    let octets = url.as_bytes();
    let len: usize = octets.len();
    assert(octets@.take(len as int) =~= octets@);
    let end: usize = place_of_octet(octets, 0x23, len);
    let query: usize = place_of_octet(octets, 0x3f, end);
    let sign: u128 = if end > 0 && query == end - 1 {
        0
    } else {
        1
    };
    let front: u128 = end as u128 + sign + query_len_of(name.as_bytes()) + 1 + query_len_of(
        value.as_bytes(),
    );
    query as u64 <= u32::MAX as u64 && (end == len || front <= u32::MAX as u128) && front + (len
        - end) as u128 <= (isize::MAX / 2) as u128
}

/// A URL with the first `n` pairs appended to its query, one after the other.
pub open spec fn with_pairs(
    url: Seq<char>,
    pairs: Seq<(Seq<char>, Seq<char>)>,
    n: nat,
) -> Result<Seq<char>, Seq<char>>
    decreases n,
{
    if n == 0 {
        Ok(url)
    } else {
        match with_pairs(url, pairs, (n - 1) as nat) {
            Ok(url) => with_pair(url, pairs[n - 1].0, pairs[n - 1].1),
            Err(e) => Err(e),
        }
    }
}

/// The texts of a list of pairs.
pub open spec fn pair_texts(pairs: Seq<(String, String)>) -> Seq<(Seq<char>, Seq<char>)> {
    pairs.map_values(|p: (String, String)| (p.0@, p.1@))
}

/// The first `n` pairs can be appended to a URL, one after the other.
pub open spec fn pairs_fit(url: Seq<char>, pairs: Seq<(Seq<char>, Seq<char>)>, n: nat) -> bool
    decreases n,
{
    n > 0 ==> {
        &&& pairs_fit(url, pairs, (n - 1) as nat)
        &&& with_pairs(url, pairs, (n - 1) as nat) matches Ok(longer) ==> pair_fits(
            longer,
            pairs[n - 1].0,
            pairs[n - 1].1,
        )
    }
}

/// Appends pairs to the query of a URL, one after the other. With no pairs the URL
/// stays as it is. `None` says that it would grow too long for that.
pub fn append_pairs(url: &str, pairs: &Vec<(String, String)>) -> (r: Option<
    Result<String, String>,
>)
    ensures
        match r {
            Some(r) => pairs_fit(url@, pair_texts(pairs@), pairs@.len()) && texts(r) == with_pairs(
                url@,
                pair_texts(pairs@),
                pairs@.len(),
            ),
            None => !pairs_fit(url@, pair_texts(pairs@), pairs@.len()),
        },
{
    let mut current = url.to_owned();
    let mut i: usize = 0;
    let ghost all = pair_texts(pairs@);
    while i < pairs.len()
        invariant
            i <= pairs@.len(),
            all == pair_texts(pairs@),
            Ok::<Seq<char>, Seq<char>>(current@) == with_pairs(url@, all, i as nat),
            pairs_fit(url@, all, i as nat),
        decreases pairs@.len() - i,
    {
        let name = pairs[i].0.as_str();
        let value = pairs[i].1.as_str();
        let ghost next = with_pairs(url@, all, (i + 1) as nat);
        assert(next == with_pair(current@, name@, value@));
        assert(pairs_fit(url@, all, (i + 1) as nat) == pair_fits(current@, name@, value@));
        match parse_url(current.as_str()) {
            Ok(parsed) => {
                if !can_take_pair(parsed.as_str(), name, value) {
                    proof {
                        lemma_misfit_stays(url@, all, (i + 1) as nat, pairs@.len());
                    }
                    return None;
                }
            },
            Err(e) => {
                proof {
                    lemma_failure_stays(url@, all, (i + 1) as nat, pairs@.len());
                }
                return Some(Err(e));
            },
        }
        match append_query_pair(current.as_str(), name, value) {
            Ok(longer) => {
                current = longer;
            },
            Err(e) => {
                proof {
                    lemma_failure_stays(url@, all, (i + 1) as nat, pairs@.len());
                }
                return Some(Err(e));
            },
        }
        i = i + 1;
    }
    Some(Ok(current))
}

proof fn lemma_misfit_stays(url: Seq<char>, pairs: Seq<(Seq<char>, Seq<char>)>, i: nat, n: nat)
    requires
        i <= n,
        !pairs_fit(url, pairs, i),
    ensures
        !pairs_fit(url, pairs, n),
    decreases n,
{
    if i < n {
        lemma_misfit_stays(url, pairs, i, (n - 1) as nat);
    }
}

proof fn lemma_failure_stays(url: Seq<char>, pairs: Seq<(Seq<char>, Seq<char>)>, i: nat, n: nat)
    requires
        i <= n,
        with_pairs(url, pairs, i) is Err,
        pairs_fit(url, pairs, i),
    ensures
        with_pairs(url, pairs, n) == with_pairs(url, pairs, i),
        pairs_fit(url, pairs, n),
    decreases n,
{
    if i < n {
        lemma_failure_stays(url, pairs, i, (n - 1) as nat);
    }
}

/// Octets in hexadecimal: two digits each, either case.
pub open spec fn hex_value(c: char) -> Option<int> {
    if '0' <= c && c <= '9' {
        Some(c as int - '0' as int)
    } else if 'a' <= c && c <= 'f' {
        Some(c as int - 'a' as int + 10)
    } else if 'A' <= c && c <= 'F' {
        Some(c as int - 'A' as int + 10)
    } else {
        None
    }
}

/// The octets that a hexadecimal text spells, if it has an even number of digits and
/// nothing else.
pub open spec fn hex_octets(s: Seq<char>) -> Option<Seq<u8>> {
    if s.len() % 2 == 0 && forall|i: int| 0 <= i < s.len() ==> hex_value(#[trigger] s[i]) is Some {
        Some(
            Seq::new(
                s.len() / 2,
                |i: int| (hex_value(s[2 * i])->0 * 16 + hex_value(s[2 * i + 1])->0) as u8,
            ),
        )
    } else {
        None
    }
}

/// The outside error of a text that is not hexadecimal.
#[verifier::external_type_specification]
#[verifier::external_body]
pub struct ExFromHexError(hex::FromHexError);

/// `hex::decode`: the octets that the text spells, or an error if it has an odd
/// length or a character that is no hexadecimal digit.
#[verifier::external_body]
pub(crate) fn hex_decode(s: &str) -> (r: Result<Vec<u8>, hex::FromHexError>)
    ensures
        match r {
            Ok(v) => hex_octets(s@) == Some(v@),
            Err(_) => hex_octets(s@) is None,
        },
{
    hex::decode(s)
}

// ── Laws ──────────────────────────────────────────────────────────────────────

proof fn lemma_base64_len(s: Seq<u8>)
    ensures
        base64_of(s).len() == (s.len() + 2) / 3 * 4,
    decreases s.len(),
{
    if s.len() > 0 {
        lemma_base64_len(s.skip(if s.len() > 3 { 3 } else { s.len() as int }));
    }
}

/// There is room for the base64 form of octets exactly if that form is no longer than memory
/// allows.
pub proof fn room_is_for_the_whole_form(s: &[u8], r: bool)
    requires
        call_ensures(has_base64_room, (s,), r),
    ensures
        r <==> base64_of(s@).len() <= isize::MAX,
{
    lemma_base64_len(s@);
}

/// No pairs leave a URL as it is, whatever it is; one pair or more fail with the words of the
/// parser if it is no URL.
pub proof fn only_pairs_ask_for_a_url(
    url: &str,
    pairs: Vec<(String, String)>,
    r: Option<Result<String, String>>,
)
    requires
        call_ensures(append_pairs, (url, &pairs), r),
    ensures
        pairs@.len() == 0 ==> (r matches Some(Ok(same)) && same@ == url@),
        pairs@.len() > 0 && url_of(url@) is Err ==> (r matches Some(Err(e)) && e@
            == url_of(url@)->Err_0),
{
    let all = pair_texts(pairs@);
    reveal_with_fuel(with_pairs, 2);
    reveal_with_fuel(pairs_fit, 2);
    if pairs@.len() > 0 && url_of(url@) is Err {
        lemma_failure_stays(url@, all, 1, pairs@.len());
    }
}

/// Appending pairs and then another one is appending them all: the pairs are taken one after
/// the other, and the first that fails or does not fit decides.
pub proof fn pairs_are_appended_one_after_the_other(
    url: &str,
    front: Vec<(String, String)>,
    last: Vec<(String, String)>,
    all: Vec<(String, String)>,
    longer: &str,
    a: Option<Result<String, String>>,
    b: Option<Result<String, String>>,
    c: Option<Result<String, String>>,
)
    requires
        call_ensures(append_pairs, (url, &front), a),
        call_ensures(append_pairs, (longer, &last), b),
        call_ensures(append_pairs, (url, &all), c),
        last@.len() == 1,
        all@ == front@ + last@,
    ensures
        a is None ==> c is None,
        (a is Some && a->0 is Err) ==> c is Some && texts(c->0) == texts(a->0),
        (a is Some && a->0 is Ok && longer@ == a->0->Ok_0@) ==> (c is Some <==> b is Some) && (
        c is Some ==> texts(c->0) == texts(b->0)),
{
    let n = front@.len();
    let many = pair_texts(all@);
    let some = pair_texts(front@);
    lemma_same_front(url@, many, some, n);
    reveal_with_fuel(with_pairs, 2);
    reveal_with_fuel(pairs_fit, 2);
    assert(many[n as int] == pair_texts(last@)[0]);
    if a is None {
        lemma_misfit_stays(url@, many, n, n + 1);
    }
}

proof fn lemma_same_front(
    url: Seq<char>,
    a: Seq<(Seq<char>, Seq<char>)>,
    b: Seq<(Seq<char>, Seq<char>)>,
    n: nat,
)
    requires
        n <= a.len(),
        n <= b.len(),
        forall|i: int| 0 <= i < n ==> a[i] == b[i],
    ensures
        with_pairs(url, a, n) == with_pairs(url, b, n),
        pairs_fit(url, a, n) == pairs_fit(url, b, n),
    decreases n,
{
    if n > 0 {
        lemma_same_front(url, a, b, (n - 1) as nat);
    }
}

proof fn lemma_query_len(s: Seq<u8>)
    ensures
        s.len() <= query_len(s) <= 3 * s.len(),
    decreases s.len(),
{
    if s.len() > 0 {
        lemma_query_len(s.drop_last());
    }
}

proof fn lemma_octet_place(s: Seq<u8>, b: u8, from: int)
    requires
        0 <= from <= s.len(),
    ensures
        from <= octet_place(s, b, from) <= s.len(),
    decreases s.len() - from,
{
    if from < s.len() && s[from] != b {
        lemma_octet_place(s, b, from + 1);
    }
}

/// A pair is appended to a URL wherever the two together are not longer than 32 bits count and
/// half of memory holds, however each octet is written; and a pair that would take more than
/// half of memory is not.
pub proof fn a_pair_is_appended_where_it_fits(
    url: &str,
    pairs: Vec<(String, String)>,
    r: Option<Result<String, String>>,
)
    requires
        pairs@.len() == 1,
        url_of(url@) is Ok,
        call_ensures(append_pairs, (url, &pairs), r),
    ensures
        ({
            let old_len = utf8::encode_utf8(url_of(url@)->Ok_0).len();
            let name_len = utf8::encode_utf8(pairs@[0].0@).len();
            let value_len = utf8::encode_utf8(pairs@[0].1@).len();
            let most = old_len + 3 * name_len + 3 * value_len + 2;
            &&& most <= u32::MAX && most <= isize::MAX / 2 ==> r is Some
            &&& old_len + name_len + value_len + 1 > isize::MAX / 2 ==> r is None
            &&& r matches Some(done) ==> done matches Ok(new) && new@ == url_with_pair(
                url@,
                pairs@[0].0@,
                pairs@[0].1@,
            )
        }),
{
    reveal_with_fuel(with_pairs, 2);
    reveal_with_fuel(pairs_fit, 2);
    let parsed = utf8::encode_utf8(url_of(url@)->Ok_0);
    assert(pair_texts(pairs@)[0] == (pairs@[0].0@, pairs@[0].1@));
    lemma_query_len(utf8::encode_utf8(pairs@[0].0@));
    lemma_query_len(utf8::encode_utf8(pairs@[0].1@));
    lemma_octet_place(parsed, 0x23, 0);
    lemma_octet_place(parsed.take(fragment_place(parsed)), 0x3f, 0);
}

}
