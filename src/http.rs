//! HTTP messages as plain values: header lists, bodies and status codes.

use vstd::prelude::*;

verus! {

/// One header line: a name and a value.
#[derive(Clone, Debug)]
pub struct Header {
    /// Name, compared without regard to ASCII case
    pub name: String,
    /// Value
    pub value: String,
}

impl View for Header {
    type V = (Seq<char>, Seq<char>);

    open spec fn view(&self) -> (Seq<char>, Seq<char>) {
        (self.name@, self.value@)
    }
}

/// The headers of a message, as name/value texts.
pub open spec fn headers_view(hs: Seq<Header>) -> Seq<(Seq<char>, Seq<char>)> {
    hs.map_values(|h: Header| h@)
}

/// An HTTP request: its headers and its body.
#[derive(Clone, Debug)]
pub struct HttpRequest {
    /// Headers, in order
    pub headers: Vec<Header>,
    /// Body
    pub body: Vec<u8>,
}

/// Model of an [HttpRequest].
pub struct HttpRequestView {
    pub headers: Seq<(Seq<char>, Seq<char>)>,
    pub body: Seq<u8>,
}

impl View for HttpRequest {
    type V = HttpRequestView;

    open spec fn view(&self) -> HttpRequestView {
        HttpRequestView { headers: headers_view(self.headers@), body: self.body@ }
    }
}

/// An HTTP response: its status code, headers and body.
#[derive(Clone, Debug)]
pub struct HttpResponse {
    /// Status code
    pub status: u16,
    /// Headers, in order
    pub headers: Vec<Header>,
    /// Body
    pub body: Vec<u8>,
}

/// Model of an [HttpResponse].
pub struct HttpResponseView {
    pub status: u16,
    pub headers: Seq<(Seq<char>, Seq<char>)>,
    pub body: Seq<u8>,
}

impl View for HttpResponse {
    type V = HttpResponseView;

    open spec fn view(&self) -> HttpResponseView {
        HttpResponseView {
            status: self.status,
            headers: headers_view(self.headers@),
            body: self.body@,
        }
    }
}

/// A character that a header value may hold: visible ASCII, space or tab.
pub open spec fn is_header_char(c: char) -> bool {
    (' ' <= c && c <= '~') || c == '\t'
}

/// A text that can stand as a header value and be read back as text.
pub open spec fn is_header_text(s: Seq<char>) -> bool {
    forall|i: int| 0 <= i < s.len() ==> is_header_char(#[trigger] s[i])
}

/// Two characters equal up to ASCII case.
pub open spec fn same_letter(a: char, b: char) -> bool {
    a == b || ('A' <= a && a <= 'Z' && b as u32 == a as u32 + 32) || ('A' <= b && b <= 'Z'
        && a as u32 == b as u32 + 32)
}

/// Two header names equal up to ASCII case.
pub open spec fn same_name(a: Seq<char>, b: Seq<char>) -> bool {
    a.len() == b.len() && forall|i: int| 0 <= i < a.len() ==> same_letter(#[trigger] a[i], b[i])
}

/// Value of the first header with the given name.
pub open spec fn lookup(hs: Seq<(Seq<char>, Seq<char>)>, name: Seq<char>) -> Option<Seq<char>>
    decreases hs.len(),
{
    if hs.len() == 0 {
        None
    } else if same_name(hs[0].0, name) {
        Some(hs[0].1)
    } else {
        lookup(hs.drop_first(), name)
    }
}

/// A status in the success class (2xx).
pub open spec fn is_success(status: u16) -> bool {
    200 <= status && status <= 299
}

/// A status in the failure classes (4xx and 5xx).
pub open spec fn is_failure(status: u16) -> bool {
    400 <= status && status <= 599
}

/// Decimal digit for a value below ten.
pub open spec fn digit_char(d: nat) -> char {
    if d == 0 {
        '0'
    } else if d == 1 {
        '1'
    } else if d == 2 {
        '2'
    } else if d == 3 {
        '3'
    } else if d == 4 {
        '4'
    } else if d == 5 {
        '5'
    } else if d == 6 {
        '6'
    } else if d == 7 {
        '7'
    } else if d == 8 {
        '8'
    } else {
        '9'
    }
}

/// Decimal notation of a number, without leading zeros.
pub open spec fn decimal_text(n: nat) -> Seq<char>
    decreases n,
{
    if n < 10 {
        seq![digit_char(n)]
    } else {
        decimal_text(n / 10) + seq![digit_char(n % 10)]
    }
}

impl Header {
    /// Instantiates a new [Header].
    pub fn new(name: &str, value: &str) -> (r: Header)
        ensures
            r.name@ == name@,
            r.value@ == value@,
    {
        Header { name: name.to_owned(), value: value.to_owned() }
    }
}

/// Whether a character may stand in a header value.
pub fn header_char(c: char) -> (r: bool)
    ensures
        r == is_header_char(c),
{
    (' ' <= c && c <= '~') || c == '\t'
}

/// Whether a text can stand as a header value.
pub fn header_text(s: &str) -> (r: bool)
    ensures
        r == is_header_text(s@),
{
    let n = s.unicode_len();
    let mut i: usize = 0;
    while i < n
        invariant
            n == s@.len(),
            i <= n,
            forall|j: int| 0 <= j < i ==> is_header_char(#[trigger] s@[j]),
        decreases n - i,
    {
        if !header_char(s.get_char(i)) {
            return false;
        }
        i = i + 1;
    }
    true
}

/// Whether two characters are equal up to ASCII case.
pub fn letters_match(a: char, b: char) -> (r: bool)
    ensures
        r == same_letter(a, b),
{
    a == b || ('A' <= a && a <= 'Z' && b as u32 == a as u32 + 32) || ('A' <= b && b <= 'Z'
        && a as u32 == b as u32 + 32)
}

/// Whether two header names are equal up to ASCII case.
pub fn names_match(a: &str, b: &str) -> (r: bool)
    ensures
        r == same_name(a@, b@),
{
    let n = a.unicode_len();
    if n != b.unicode_len() {
        return false;
    }
    let mut i: usize = 0;
    while i < n
        invariant
            n == a@.len(),
            n == b@.len(),
            i <= n,
            forall|j: int| 0 <= j < i ==> same_letter(#[trigger] a@[j], b@[j]),
        decreases n - i,
    {
        if !letters_match(a.get_char(i), b.get_char(i)) {
            return false;
        }
        i = i + 1;
    }
    true
}

/// Value of the first header named `name`, if any.
pub fn header_value<'a>(headers: &'a Vec<Header>, name: &str) -> (r: Option<&'a String>)
    ensures
        match r {
            Some(v) => lookup(headers_view(headers@), name@) == Some(v@),
            None => lookup(headers_view(headers@), name@) is None,
        },
{
    let ghost hv = headers_view(headers@);
    let mut i: usize = 0;
    assert(hv.subrange(0, hv.len() as int) =~= hv);
    while i < headers.len()
        invariant
            hv == headers_view(headers@),
            i <= headers@.len(),
            lookup(hv, name@) == lookup(hv.subrange(i as int, hv.len() as int), name@),
        decreases headers@.len() - i,
    {
        let ghost rest = hv.subrange(i as int, hv.len() as int);
        assert(rest[0] == headers@[i as int]@);
        if names_match(headers[i].name.as_str(), name) {
            return Some(&headers[i].value);
        }
        assert(rest.drop_first() =~= hv.subrange(i + 1, hv.len() as int));
        i = i + 1;
    }
    None
}

/// The single-digit text for a value below ten.
fn digit_str(d: usize) -> (r: &'static str)
    requires
        d < 10,
    ensures
        r@ == seq![digit_char(d as nat)],
{
    proof {
        reveal_strlit("0");
        reveal_strlit("1");
        reveal_strlit("2");
        reveal_strlit("3");
        reveal_strlit("4");
        reveal_strlit("5");
        reveal_strlit("6");
        reveal_strlit("7");
        reveal_strlit("8");
        reveal_strlit("9");
    }
    if d == 0 {
        "0"
    } else if d == 1 {
        "1"
    } else if d == 2 {
        "2"
    } else if d == 3 {
        "3"
    } else if d == 4 {
        "4"
    } else if d == 5 {
        "5"
    } else if d == 6 {
        "6"
    } else if d == 7 {
        "7"
    } else if d == 8 {
        "8"
    } else {
        "9"
    }
}

/// Decimal notation of `n`, as a header value such as `Content-Length` holds.
pub fn decimal(n: usize) -> (r: String)
    ensures
        r@ == decimal_text(n as nat),
{
    let mut s = String::from_str(digit_str(n % 10));
    let mut m: usize = n / 10;
    while m > 0
        invariant
            m == 0 ==> s@ == decimal_text(n as nat),
            m > 0 ==> decimal_text(n as nat) == decimal_text(m as nat) + s@,
        decreases m,
    {
        let d = String::from_str(digit_str(m % 10));
        let ghost old_s = s@;
        s = d.concat(s.as_str());
        assert(decimal_text(m as nat) == decimal_text((m / 10) as nat) + seq![
            digit_char((m % 10) as nat),
        ] || m < 10);
        assert((decimal_text((m / 10) as nat) + seq![digit_char((m % 10) as nat)]) + old_s
            =~= decimal_text((m / 10) as nat) + s@);
        m = m / 10;
    }
    s
}

/// Whether a status is in the success class (2xx).
pub fn success_status(status: u16) -> (r: bool)
    ensures
        r == is_success(status),
{
    200 <= status && status <= 299
}

/// Whether a status is in a failure class (4xx or 5xx).
pub fn failure_status(status: u16) -> (r: bool)
    ensures
        r == is_failure(status),
{
    400 <= status && status <= 599
}

} // verus!
