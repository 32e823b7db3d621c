//! A plain model of the HTTP values that the runtime reads and writes.
//!
//! The runtime's logic only ever looks at a request's method, URI, version,
//! headers and body bytes, so those are modelled here as plain values. The
//! transport adapters outside the library translate between these values and
//! the transport's own request and response types.

use vstd::prelude::*;

verus! {

/// The HTTP protocol version of a request or response.
#[derive(Clone, Copy, Debug, PartialEq, Eq, Structural)]
pub enum HttpVersion {
    Http09,
    Http10,
    Http11,
    H2,
    H3,
}

impl Default for HttpVersion {
    /// The transport's default protocol version.
    fn default() -> (r: HttpVersion)
        ensures
            r == HttpVersion::Http11,
    {
        HttpVersion::Http11
    }
}

/// Lower-cases one ASCII letter; leaves every other character alone.
pub open spec fn ascii_lower_char(c: char) -> char {
    if 'A' <= c && c <= 'Z' {
        ((c as u8) + 32) as char
    } else {
        c
    }
}

/// A header name lowered character by character, the form in which names
/// are compared.
pub open spec fn header_name_lower(s: Seq<char>) -> Seq<char> {
    s.map_values(|c: char| ascii_lower_char(c))
}

/// Header names are equal up to ASCII case.
pub open spec fn header_name_eq(a: Seq<char>, b: Seq<char>) -> bool {
    header_name_lower(a) == header_name_lower(b)
}

/// The value of the first header whose name matches `name`, if any.
pub open spec fn header_lookup(hs: Seq<(Seq<char>, Seq<char>)>, name: Seq<char>) -> Option<
    Seq<char>,
>
    decreases hs.len(),
{
    if hs.len() == 0 {
        None
    } else if header_name_eq(hs[0].0, name) {
        Some(hs[0].1)
    } else {
        header_lookup(hs.subrange(1, hs.len() as int), name)
    }
}

/// The header sequence with every entry whose name matches `name` removed.
pub open spec fn remove_header(hs: Seq<(Seq<char>, Seq<char>)>, name: Seq<char>) -> Seq<
    (Seq<char>, Seq<char>),
>
    decreases hs.len(),
{
    if hs.len() == 0 {
        hs
    } else if header_name_eq(hs[0].0, name) {
        remove_header(hs.subrange(1, hs.len() as int), name)
    } else {
        seq![hs[0]] + remove_header(hs.subrange(1, hs.len() as int), name)
    }
}

/// Looking up a name whose whole prefix fails to match is the same as
/// looking it up in the rest of the sequence.
pub proof fn lemma_lookup_skip_prefix(hs: Seq<(Seq<char>, Seq<char>)>, name: Seq<char>, i: int)
    requires
        0 <= i <= hs.len(),
        forall|j: int| 0 <= j < i ==> !header_name_eq(hs[j].0, name),
    ensures
        header_lookup(hs, name) == header_lookup(hs.subrange(i, hs.len() as int), name),
    decreases i,
{
    if i == 0 {
        assert(hs.subrange(0, hs.len() as int) =~= hs);
    } else {
        lemma_lookup_skip_prefix(hs, name, i - 1);
        let tail = hs.subrange(i - 1, hs.len() as int);
        assert(tail[0] == hs[i - 1]);
        assert(!header_name_eq(tail[0].0, name));
        assert(header_lookup(tail, name) == header_lookup(
            tail.subrange(1, tail.len() as int),
            name,
        ));
        assert(tail.subrange(1, tail.len() as int) =~= hs.subrange(i, hs.len() as int));
    }
}

/// Removing a name from a sequence extended at the end removes it from the
/// prefix and keeps or drops the last entry by its name.
pub proof fn lemma_remove_header_push(
    hs: Seq<(Seq<char>, Seq<char>)>,
    x: (Seq<char>, Seq<char>),
    name: Seq<char>,
)
    ensures
        remove_header(hs.push(x), name) == if header_name_eq(x.0, name) {
            remove_header(hs, name)
        } else {
            remove_header(hs, name).push(x)
        },
    decreases hs.len(),
{
    let whole = hs.push(x);
    if hs.len() == 0 {
        assert(whole.subrange(1, whole.len() as int) =~= Seq::<(Seq<char>, Seq<char>)>::empty());
        if !header_name_eq(x.0, name) {
            assert(seq![whole[0]] + remove_header(whole.subrange(1, whole.len() as int), name)
                =~= remove_header(hs, name).push(x));
        }
    } else {
        lemma_remove_header_push(hs.subrange(1, hs.len() as int), x, name);
        assert(whole[0] == hs[0]);
        assert(whole.subrange(1, whole.len() as int) =~= hs.subrange(1, hs.len() as int).push(x));
        if !header_name_eq(hs[0].0, name) {
            if header_name_eq(x.0, name) {
            } else {
                assert(seq![hs[0]] + remove_header(hs.subrange(1, hs.len() as int), name).push(x)
                    =~= (seq![hs[0]] + remove_header(hs.subrange(1, hs.len() as int), name)).push(
                    x,
                ));
            }
        }
    }
}

/// After removing a name, looking that name up finds nothing, and looking
/// up any other name is unchanged.
pub proof fn lemma_lookup_remove_header(
    hs: Seq<(Seq<char>, Seq<char>)>,
    name: Seq<char>,
    q: Seq<char>,
)
    ensures
        header_name_eq(q, name) ==> header_lookup(remove_header(hs, name), q) is None,
        !header_name_eq(q, name) ==> header_lookup(remove_header(hs, name), q) == header_lookup(
            hs,
            q,
        ),
    decreases hs.len(),
{
    if hs.len() > 0 {
        let tail = hs.subrange(1, hs.len() as int);
        lemma_lookup_remove_header(tail, name, q);
        if header_name_eq(hs[0].0, name) {
        } else {
            let kept = seq![hs[0]] + remove_header(tail, name);
            assert(kept[0] == hs[0]);
            assert(kept.subrange(1, kept.len() as int) =~= remove_header(tail, name));
        }
    }
}

/// Looking a name up after appending one entry at the end: an earlier match
/// still wins; otherwise the new entry answers when its name matches.
pub proof fn lemma_lookup_push(
    hs: Seq<(Seq<char>, Seq<char>)>,
    x: (Seq<char>, Seq<char>),
    q: Seq<char>,
)
    ensures
        header_lookup(hs.push(x), q) == if header_lookup(hs, q) is Some {
            header_lookup(hs, q)
        } else if header_name_eq(x.0, q) {
            Some(x.1)
        } else {
            None::<Seq<char>>
        },
    decreases hs.len(),
{
    let whole = hs.push(x);
    if hs.len() == 0 {
        assert(whole[0] == x);
        assert(whole.subrange(1, whole.len() as int) =~= Seq::<(Seq<char>, Seq<char>)>::empty());
        assert(header_lookup(hs, q) is None);
        if header_name_eq(x.0, q) {
            assert(header_lookup(whole, q) == Some(x.1));
        } else {
            assert(header_lookup(whole, q) == header_lookup(
                whole.subrange(1, whole.len() as int),
                q,
            ));
        }
    } else {
        let tail = hs.subrange(1, hs.len() as int);
        lemma_lookup_push(tail, x, q);
        assert(whole[0] == hs[0]);
        assert(whole.subrange(1, whole.len() as int) =~= tail.push(x));
        if header_name_eq(hs[0].0, q) {
            assert(header_lookup(whole, q) == Some(hs[0].1));
            assert(header_lookup(hs, q) == Some(hs[0].1));
        } else {
            assert(header_lookup(whole, q) == header_lookup(tail.push(x), q));
            assert(header_lookup(hs, q) == header_lookup(tail, q));
        }
    }
}

/// Looking up any name after an insert: the inserted entry answers for its
/// own name, and every other name sees the original headers.
pub proof fn lemma_insert_lookup(
    hs: Seq<(Seq<char>, Seq<char>)>,
    name: Seq<char>,
    value: Seq<char>,
    q: Seq<char>,
)
    ensures
        header_lookup(remove_header(hs, name).push((name, value)), q) == if header_name_eq(
            name,
            q,
        ) {
            Some(value)
        } else {
            header_lookup(hs, q)
        },
{
    lemma_lookup_remove_header(hs, name, q);
    lemma_lookup_push(remove_header(hs, name), (name, value), q);
}

/// Lower-cases one ASCII letter; leaves every other character alone.
pub fn ascii_lower(c: char) -> (r: char)
    ensures
        r == ascii_lower_char(c),
{
    if 'A' <= c && c <= 'Z' {
        ((c as u8) + 32) as char
    } else {
        c
    }
}

/// Whether two header names are equal up to ASCII case.
pub fn header_names_match(a: &str, b: &str) -> (r: bool)
    ensures
        r == header_name_eq(a@, b@),
{
    let alen = a.unicode_len();
    let blen = b.unicode_len();
    if alen != blen {
        assert(header_name_lower(a@).len() == a@.len());
        assert(header_name_lower(b@).len() == b@.len());
        return false;
    }
    let mut i: usize = 0;
    while i < alen
        invariant
            i <= alen,
            alen == a@.len(),
            alen == b@.len(),
            forall|j: int|
                0 <= j < i ==> ascii_lower_char(a@[j]) == ascii_lower_char(b@[j]),
        decreases alen - i,
    {
        let ca = a.get_char(i);
        let cb = b.get_char(i);
        if ascii_lower(ca) != ascii_lower(cb) {
            assert(header_name_lower(a@)[i as int] == ascii_lower_char(a@[i as int]));
            assert(header_name_lower(b@)[i as int] == ascii_lower_char(b@[i as int]));
            return false;
        }
        i += 1;
    }
    assert(header_name_lower(a@) =~= header_name_lower(b@));
    true
}

/// The set of headers of a request or response.
///
/// Entries keep their insertion order; a name is looked up without regard
/// to ASCII case, and `insert` replaces every entry of the same name.
#[derive(Debug)]
pub struct Headers {
    pub entries: Vec<(String, String)>,
}

impl View for Headers {
    type V = Seq<(Seq<char>, Seq<char>)>;

    open spec fn view(&self) -> Seq<(Seq<char>, Seq<char>)> {
        self.entries@.map_values(|p: (String, String)| (p.0@, p.1@))
    }
}

impl Clone for Headers {
    fn clone(&self) -> (r: Headers)
        ensures
            r@ == self@,
    {
        let mut entries: Vec<(String, String)> = Vec::new();
        let n = self.entries.len();
        let mut i: usize = 0;
        while i < n
            invariant
                i <= n,
                n == self.entries.len(),
                entries@.len() == i,
                forall|j: int|
                    0 <= j < i ==> entries@[j].0@ == self.entries@[j].0@ && entries@[j].1@
                        == self.entries@[j].1@,
            decreases n - i,
        {
            let name = self.entries[i].0.clone();
            let value = self.entries[i].1.clone();
            entries.push((name, value));
            i += 1;
        }
        let r = Headers { entries };
        assert(r@ =~= self@);
        r
    }
}

impl Headers {
    /// An empty set of headers.
    pub fn new() -> (r: Headers)
        ensures
            r@ == Seq::<(Seq<char>, Seq<char>)>::empty(),
    {
        let r = Headers { entries: Vec::new() };
        assert(r@ =~= Seq::<(Seq<char>, Seq<char>)>::empty());
        r
    }

    /// The value of the first header whose name matches `name` up to ASCII
    /// case, if any.
    pub fn get(&self, name: &str) -> (r: Option<String>)
        ensures
            match r {
                Some(v) => header_lookup(self@, name@) == Some(v@),
                None => header_lookup(self@, name@) is None,
            },
    {
        let n = self.entries.len();
        let mut i: usize = 0;
        while i < n
            invariant
                i <= n,
                n == self.entries.len(),
                forall|j: int| 0 <= j < i ==> !header_name_eq(self@[j].0, name@),
            decreases n - i,
        {
            if header_names_match(self.entries[i].0.as_str(), name) {
                proof {
                    lemma_lookup_skip_prefix(self@, name@, i as int);
                    let tail = self@.subrange(i as int, self@.len() as int);
                    assert(tail[0] == self@[i as int]);
                }
                return Some(self.entries[i].1.clone());
            }
            i += 1;
        }
        proof {
            lemma_lookup_skip_prefix(self@, name@, n as int);
            assert(self@.subrange(n as int, self@.len() as int).len() == 0);
        }
        None
    }

    /// Replaces every header of the given name (up to ASCII case) with the
    /// single entry `(name, value)`, appended at the end.
    pub fn insert(&mut self, name: &str, value: &str)
        ensures
            final(self)@ == remove_header(old(self)@, name@).push((name@, value@)),
    {
        let n = self.entries.len();
        let mut kept: Vec<(String, String)> = Vec::new();
        let mut i: usize = 0;
        proof {
            assert(kept@.map_values(|p: (String, String)| (p.0@, p.1@)) =~= remove_header(
                self@.subrange(0, 0),
                name@,
            ));
        }
        while i < n
            invariant
                i <= n,
                n == self.entries.len(),
                kept@.map_values(|p: (String, String)| (p.0@, p.1@)) == remove_header(
                    self@.subrange(0, i as int),
                    name@,
                ),
            decreases n - i,
        {
            let ghost prefix = self@.subrange(0, i as int);
            let ghost kept_view = kept@.map_values(|p: (String, String)| (p.0@, p.1@));
            if !header_names_match(self.entries[i].0.as_str(), name) {
                let hname = self.entries[i].0.clone();
                let hvalue = self.entries[i].1.clone();
                kept.push((hname, hvalue));
                proof {
                    assert(kept@.map_values(|p: (String, String)| (p.0@, p.1@)) =~= kept_view.push(
                        self@[i as int],
                    ));
                }
            }
            proof {
                lemma_remove_header_push(prefix, self@[i as int], name@);
                assert(prefix.push(self@[i as int]) =~= self@.subrange(0, i as int + 1));
            }
            i += 1;
        }
        let ghost kept_view = kept@.map_values(|p: (String, String)| (p.0@, p.1@));
        kept.push((String::from_str(name), String::from_str(value)));
        proof {
            assert(self@.subrange(0, n as int) =~= self@);
            assert(kept@.map_values(|p: (String, String)| (p.0@, p.1@)) =~= kept_view.push(
                (name@, value@),
            ));
        }
        self.entries = kept;
    }
}

/// A whole HTTP request as the runtime sees it: metadata plus the body
/// bytes, already read from the transport.
#[derive(Debug)]
pub struct HttpRequest {
    pub method: String,
    pub uri: String,
    pub version: HttpVersion,
    pub headers: Headers,
    pub body: Vec<u8>,
}

/// A whole HTTP response as the runtime builds or receives it.
#[derive(Debug)]
pub struct HttpResponse {
    pub status: u16,
    pub version: HttpVersion,
    pub headers: Headers,
    pub body: Vec<u8>,
}

/// The character for one decimal digit.
pub open spec fn decimal_digit(d: int) -> char {
    if d == 0 {
        '0'
    } else if d == 1 {
        '1'
    } else if d == 2 {
        '2'
    } else if d == 3 {
        '3'
    } else if d == 4 {
        '4'
    } else if d == 5 {
        '5'
    } else if d == 6 {
        '6'
    } else if d == 7 {
        '7'
    } else if d == 8 {
        '8'
    } else {
        '9'
    }
}

/// The decimal digits of `n`, most significant first, with no sign and no
/// leading zero except for zero itself.
pub open spec fn decimal_chars(n: nat) -> Seq<char>
    decreases n,
{
    if n < 10 {
        seq![decimal_digit(n as int)]
    } else {
        decimal_chars(n / 10).push(decimal_digit((n % 10) as int))
    }
}

/// Appends one decimal digit character.
fn append_digit(s: &mut String, d: u64)
    requires
        d < 10,
    ensures
        final(s)@ == old(s)@ + seq![decimal_digit(d as int)],
{
    proof {
        reveal_strlit("0");
        reveal_strlit("1");
        reveal_strlit("2");
        reveal_strlit("3");
        reveal_strlit("4");
        reveal_strlit("5");
        reveal_strlit("6");
        reveal_strlit("7");
        reveal_strlit("8");
        reveal_strlit("9");
    }
    if d == 0 {
        s.append("0");
        assert(old(s)@ + "0"@ =~= old(s)@ + seq![decimal_digit(d as int)]);
    } else if d == 1 {
        s.append("1");
        assert(old(s)@ + "1"@ =~= old(s)@ + seq![decimal_digit(d as int)]);
    } else if d == 2 {
        s.append("2");
        assert(old(s)@ + "2"@ =~= old(s)@ + seq![decimal_digit(d as int)]);
    } else if d == 3 {
        s.append("3");
        assert(old(s)@ + "3"@ =~= old(s)@ + seq![decimal_digit(d as int)]);
    } else if d == 4 {
        s.append("4");
        assert(old(s)@ + "4"@ =~= old(s)@ + seq![decimal_digit(d as int)]);
    } else if d == 5 {
        s.append("5");
        assert(old(s)@ + "5"@ =~= old(s)@ + seq![decimal_digit(d as int)]);
    } else if d == 6 {
        s.append("6");
        assert(old(s)@ + "6"@ =~= old(s)@ + seq![decimal_digit(d as int)]);
    } else if d == 7 {
        s.append("7");
        assert(old(s)@ + "7"@ =~= old(s)@ + seq![decimal_digit(d as int)]);
    } else if d == 8 {
        s.append("8");
        assert(old(s)@ + "8"@ =~= old(s)@ + seq![decimal_digit(d as int)]);
    } else {
        s.append("9");
        assert(old(s)@ + "9"@ =~= old(s)@ + seq![decimal_digit(d as int)]);
    }
}

/// Appends the decimal form of `n`.
pub fn append_decimal(s: &mut String, n: u64)
    ensures
        final(s)@ == old(s)@ + decimal_chars(n as nat),
    decreases n,
{
    if n >= 10 {
        append_decimal(s, n / 10);
        append_digit(s, n % 10);
        assert(old(s)@ + decimal_chars((n / 10) as nat) + seq![
            decimal_digit((n % 10) as int),
        ] =~= old(s)@ + decimal_chars(n as nat));
    } else {
        append_digit(s, n);
    }
}

/// The decimal form of `n` as a fresh string.
pub fn decimal_string(n: u64) -> (r: String)
    ensures
        r@ == decimal_chars(n as nat),
{
    let mut s = String::new();
    append_decimal(&mut s, n);
    assert(Seq::<char>::empty() + decimal_chars(n as nat) =~= decimal_chars(n as nat));
    s
}

} // verus!
