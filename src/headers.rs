//! HTTP header mappings, modelled as a map from name to value in which a
//! later entry replaces an earlier one of the same name. Names are compared
//! without regard to ASCII case, as HTTP asks.
use vstd::prelude::*;

verus! {

/// The header that names the payload's media type.
pub const CONTENT_TYPE: &'static str = "content-type";

/// The header that gives the payload's length in bytes.
pub const CONTENT_LENGTH: &'static str = "content-length";

/// A header mapping: name and value pairs in insertion order.
#[derive(Debug)]
pub struct Headers {
    pub entries: Vec<(String, String)>,
}

/// A character in ASCII lower case: `A` to `Z` become `a` to `z`, and every
/// other character stays.
pub open spec fn lower_char(c: char) -> char {
    if 'A' <= c && c <= 'Z' {
        ((c as u32) + 32) as char
    } else {
        c
    }
}

/// A text in ASCII lower case: the form in which header names are compared.
pub open spec fn lower(s: Seq<char>) -> Seq<char> {
    s.map_values(|c: char| lower_char(c))
}

/// Relies on `str::to_ascii_lowercase`: each ASCII letter in lower case,
/// every other character unchanged.
#[verifier::external_body]
fn ascii_lowercase(s: &str) -> (r: String)
    ensures
        r@ == lower(s@),
{
    s.to_ascii_lowercase()
}

/// The two standard names are in lower case already.
pub proof fn lemma_standard_names_lower()
    ensures
        lower(CONTENT_TYPE@) == CONTENT_TYPE@,
        lower(CONTENT_LENGTH@) == CONTENT_LENGTH@,
{
    reveal_strlit("content-type");
    reveal_strlit("content-length");
    assert(lower(CONTENT_TYPE@) =~= CONTENT_TYPE@);
    assert(lower(CONTENT_LENGTH@) =~= CONTENT_LENGTH@);
}

/// The mapping that a list of entries stands for, keyed by names in lower
/// case: the last entry of a name wins.
pub open spec fn entries_map(s: Seq<(String, String)>) -> Map<Seq<char>, Seq<char>>
    decreases s.len(),
{
    if s.len() == 0 {
        Map::empty()
    } else {
        entries_map(s.drop_last()).insert(lower(s.last().0@), s.last().1@)
    }
}

/// Decimal digits of a natural number, most significant first.
pub open spec fn decimal(n: nat) -> Seq<char>
    decreases n,
{
    if n < 10 {
        seq![digit_char(n)]
    } else {
        decimal(n / 10).push(digit_char(n % 10))
    }
}

pub open spec fn digit_char(d: nat) -> char {
    (('0' as nat) + d) as char
}

/// Entries from `i` on that do not name `name` leave its value as the first `i` entries give it.
proof fn lemma_map_prefix(s: Seq<(String, String)>, i: int, name: Seq<char>)
    requires
        0 <= i <= s.len(),
        forall|j: int| i <= j < s.len() ==> lower(s[j].0@) != name,
    ensures
        entries_map(s).dom().contains(name) == entries_map(s.subrange(0, i)).dom().contains(name),
        entries_map(s)[name] == entries_map(s.subrange(0, i))[name],
    decreases s.len() - i,
{
    if i < s.len() {
        assert(s.drop_last() =~= s.subrange(0, s.len() - 1));
        lemma_map_prefix(s.drop_last(), i, name);
        assert(s.drop_last().subrange(0, i) =~= s.subrange(0, i));
    } else {
        assert(s.subrange(0, i) =~= s);
    }
}

impl View for Headers {
    type V = Map<Seq<char>, Seq<char>>;

    open spec fn view(&self) -> Map<Seq<char>, Seq<char>> {
        entries_map(self.entries@)
    }
}

impl Headers {
    /// An empty mapping.
    pub fn new() -> (r: Headers)
        ensures
            r@ == Map::<Seq<char>, Seq<char>>::empty(),
    {
        Headers { entries: Vec::new() }
    }

    /// Sets `name` to `value`, replacing any earlier value of that name in
    /// any case.
    pub fn insert(&mut self, name: String, value: String)
        ensures
            final(self)@ == old(self)@.insert(lower(name@), value@),
    {
        let ghost before = self.entries@;
        self.entries.push((name, value));
        assert(self.entries@.drop_last() =~= before);
    }

    /// The value of `name`, in any case, if the mapping has one.
    pub fn get(&self, name: &str) -> (r: Option<&String>)
        ensures
            r matches Some(v) ==> self@.dom().contains(lower(name@)) && v@ == self@[lower(name@)],
            r is None ==> !self@.dom().contains(lower(name@)),
    {
        let key = ascii_lowercase(name);
        let mut i: usize = self.entries.len();
        while i > 0
            invariant
                key@ == lower(name@),
                i <= self.entries@.len(),
                forall|j: int| i <= j < self.entries@.len() ==> lower(self.entries@[j].0@) != key@,
            decreases i,
        {
            let e = &self.entries[i - 1];
            if ascii_lowercase(e.0.as_str()) == key {
                proof {
                    let s = self.entries@;
                    lemma_map_prefix(s, i as int, key@);
                    assert(s.subrange(0, i as int).drop_last() =~= s.subrange(0, i - 1));
                }
                return Some(&e.1);
            }
            i = i - 1;
        }
        proof {
            lemma_map_prefix(self.entries@, 0, key@);
        }
        None
    }

    /// A copy of this mapping.
    pub fn copy(&self) -> (r: Headers)
        ensures
            r@ == self@,
            r.entries@.len() == self.entries@.len(),
    {
        let mut out: Vec<(String, String)> = Vec::new();
        let mut i: usize = 0;
        while i < self.entries.len()
            invariant
                i <= self.entries@.len(),
                out@.len() == i,
                forall|j: int| 0 <= j < i ==> out@[j] == self.entries@[j],
            decreases self.entries@.len() - i,
        {
            let e = &self.entries[i];
            out.push((e.0.clone(), e.1.clone()));
            i = i + 1;
        }
        assert(out@ =~= self.entries@);
        Headers { entries: out }
    }
}

/// The text of one decimal digit.
fn digit_text(d: usize) -> (r: &'static str)
    requires
        d < 10,
    ensures
        r@ == seq![digit_char(d as nat)],
{
    proof {
        reveal_strlit("0");
        reveal_strlit("1");
        reveal_strlit("2");
        reveal_strlit("3");
        reveal_strlit("4");
        reveal_strlit("5");
        reveal_strlit("6");
        reveal_strlit("7");
        reveal_strlit("8");
        reveal_strlit("9");
    }
    match d {
        0 => "0",
        1 => "1",
        2 => "2",
        3 => "3",
        4 => "4",
        5 => "5",
        6 => "6",
        7 => "7",
        8 => "8",
        _ => "9",
    }
}

/// The decimal digits of `n`, as a header value.
pub fn decimal_text(n: usize) -> (r: String)
    ensures
        r@ == decimal(n as nat),
    decreases n,
{
    if n < 10 {
        String::from_str(digit_text(n))
    } else {
        let mut s = decimal_text(n / 10);
        s.append(digit_text(n % 10));
        s
    }
}

} // verus!
