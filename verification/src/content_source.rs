//! The three content sources a query can target, and the construction of the
//! search URL for each of them.

use vstd::prelude::*;

use crate::strings::{i32_to_string, push_char, spec_int_str, str_eq};

verus! {

/// A content provider a query can be sent to. Each variant stands for one
/// fixed site; its base URL is given by `spec_base_url`.
#[derive(Clone, Copy, Debug, PartialEq, Eq, Hash, Structural)]
pub enum ContentSource {
    Docs,
    Lib,
    Crates,
}

/// The fixed base URL of a source.
pub open spec fn spec_base_url(s: ContentSource) -> Seq<char> {
    match s {
        ContentSource::Docs => "https://docs.rs/"@,
        ContentSource::Lib => "https://lib.rs/"@,
        ContentSource::Crates => "https://crates.io/"@,
    }
}

/// Which source a name picks: the three recognized names map to their own
/// variants, and every other name falls back to `Docs`.
pub open spec fn spec_resolve(name: Seq<char>) -> ContentSource {
    if name == "docs"@ {
        ContentSource::Docs
    } else if name == "lib"@ {
        ContentSource::Lib
    } else if name == "crates"@ {
        ContentSource::Crates
    } else {
        ContentSource::Docs
    }
}

/// The query text with every space replaced by `+`.
pub open spec fn spec_plus_spaces(q: Seq<char>) -> Seq<char> {
    q.map_values(|c: char| if c == ' ' { '+' } else { c })
}

/// The raw pagination payload that the docs source's custom search encodes.
pub open spec fn spec_docs_payload(q: Seq<char>, per_page: int, page: int) -> Seq<char> {
    "?q="@ + spec_plus_spaces(q) + "&per_page="@ + spec_int_str(per_page) + "&page="@
        + spec_int_str(page)
}

/// What `base64::encode` returns, read as characters, for the string with
/// these characters.
pub uninterp spec fn base64_of(s: Seq<char>) -> Seq<char>;

/// A character of the standard base64 output, the `=` padding included.
pub open spec fn is_base64_char(c: char) -> bool {
    ('A' as int <= c as int && c as int <= 'Z' as int) || ('a' as int <= c as int && c as int
        <= 'z' as int) || ('0' as int <= c as int && c as int <= '9' as int) || c == '+' || c == '/'
        || c == '='
}

/// How many `=` characters end the sequence.
pub open spec fn spec_pad_count(s: Seq<char>) -> nat
    decreases s.len(),
{
    if s.len() > 0 && s[s.len() - 1] == '=' {
        spec_pad_count(s.drop_last()) + 1
    } else {
        0
    }
}

/// The sequence with its trailing `=` padding removed.
pub open spec fn spec_strip_pad(s: Seq<char>) -> Seq<char> {
    s.take(s.len() - spec_pad_count(s))
}

/// The sequence extended with `=` characters up to a multiple of four, the
/// way a stripped base64 string is re-padded before decoding.
pub open spec fn spec_repad(s: Seq<char>) -> Seq<char> {
    s + Seq::new(((4 - s.len() % 4) % 4) as nat, |i: int| '=')
}

/// Relies on `base64::encode`: standard-alphabet base64 of the input's UTF-8
/// bytes, `=`-padded to a multiple of four with at most two pad characters.
/// Decoding inverts it, so no other input shares this output.
#[verifier::external_body]
fn b64_encode(s: &str) -> (r: String)
    requires
        s@.len() <= 0x100_0000,
    ensures
        r@ == base64_of(s@),
        r@.len() % 4 == 0,
        spec_pad_count(r@) <= 2,
        forall|i: int| 0 <= i < r@.len() ==> is_base64_char(#[trigger] r@[i]),
        forall|t: Seq<char>| base64_of(t) == r@ ==> t == s@,
{
    base64::encode(s)
}

/// The complete search URL for a source, query and optional pagination pair.
pub open spec fn spec_query_url(s: ContentSource, q: Seq<char>, custom: Option<(i32, i32)>) -> Seq<
    char,
> {
    match s {
        ContentSource::Docs => match custom {
            Some(c) => spec_base_url(s) + "releases/search?paginate="@ + spec_strip_pad(
                base64_of(spec_docs_payload(q, c.0 as int, c.1 as int)),
            ),
            None => spec_base_url(s) + "releases/search?query="@ + spec_plus_spaces(q),
        },
        ContentSource::Lib => spec_base_url(s) + "search?q="@ + spec_plus_spaces(q),
        ContentSource::Crates => spec_base_url(s) + "search?q="@ + spec_plus_spaces(q),
    }
}

/// The paginate parameter of a docs custom search URL: what stands after the
/// fixed prefix.
pub open spec fn spec_paginate_param(url: Seq<char>) -> Seq<char> {
    url.skip("https://docs.rs/releases/search?paginate="@.len() as int)
}

impl ContentSource {
    /// The source a short name picks; names other than the three recognized
    /// ones fall back to the docs source rather than failing.
    pub fn resolve(name: &str) -> (r: ContentSource)
        ensures
            r == spec_resolve(name@),
    {
        if str_eq(name, "docs") {
            ContentSource::Docs
        } else if str_eq(name, "lib") {
            ContentSource::Lib
        } else if str_eq(name, "crates") {
            ContentSource::Crates
        } else {
            ContentSource::Docs
        }
    }

    /// This source's base URL.
    pub fn base_url(&self) -> (r: String)
        ensures
            r@ == spec_base_url(*self),
    {
        match self {
            ContentSource::Docs => String::from_str("https://docs.rs/"),
            ContentSource::Lib => String::from_str("https://lib.rs/"),
            ContentSource::Crates => String::from_str("https://crates.io/"),
        }
    }

    /// Replaces the spaces with `+` for query url usage; the result holds no
    /// space character.
    pub fn parse_query(query: &str) -> (r: String)
        ensures
            r@ == spec_plus_spaces(query@),
            forall|i: int| 0 <= i < r@.len() ==> #[trigger] r@[i] != ' ',
    {
        let len = query.unicode_len();
        let mut r = String::new();
        let mut i: usize = 0;
        while i < len
            invariant
                i <= len,
                len == query@.len(),
                r@ == spec_plus_spaces(query@.take(i as int)),
            decreases len - i,
        {
            let c = query.get_char(i);
            if c == ' ' {
                push_char(&mut r, '+');
            } else {
                push_char(&mut r, c);
            }
            proof {
                assert(spec_plus_spaces(query@.take(i + 1)) =~= spec_plus_spaces(
                    query@.take(i as int),
                ).push(if query@[i as int] == ' ' { '+' } else { query@[i as int] }));
            }
            i += 1;
        }
        proof {
            assert(query@.take(len as int) =~= query@);
        }
        r
    }

    /// Joins the query parameters into the docs source's custom search
    /// payload and base64-encodes it, the trailing `=` padding stripped.
    /// Re-padding the result with `=` to a multiple of four gives back the
    /// full encoding, whose only preimage is the payload itself.
    pub fn parse_docs_custom_query(query: &str, per_page: i32, page: i32) -> (r: String)
        requires
            query@.len() <= 0xF0_0000,
        ensures
            r@ == spec_strip_pad(base64_of(spec_docs_payload(query@, per_page as int, page as int))),
            spec_repad(r@) == base64_of(spec_docs_payload(query@, per_page as int, page as int)),
            forall|t: Seq<char>|
                base64_of(t) == spec_repad(r@) ==> t == spec_docs_payload(
                    query@,
                    per_page as int,
                    page as int,
                ),
            forall|i: int| 0 <= i < r@.len() ==> is_base64_char(#[trigger] r@[i]),
    {
        let plus = ContentSource::parse_query(query);
        let mut payload = String::from_str("?q=");
        payload.append(plus.as_str());
        payload.append("&per_page=");
        let pp = i32_to_string(per_page);
        payload.append(pp.as_str());
        payload.append("&page=");
        let pg = i32_to_string(page);
        payload.append(pg.as_str());
        proof {
            assert(payload@ =~= spec_docs_payload(query@, per_page as int, page as int));
            lemma_int_str_short(per_page as int);
            lemma_int_str_short(page as int);
            reveal_strlit("?q=");
            reveal_strlit("&per_page=");
            reveal_strlit("&page=");
        }
        let encoded = b64_encode(payload.as_str());
        let elen = encoded.as_str().unicode_len();
        let mut end = elen;
        while end > 0 && encoded.as_str().get_char(end - 1) == '='
            invariant
                0 <= end <= elen,
                elen == encoded@.len(),
                forall|j: int| end <= j < elen ==> encoded@[j] == '=',
            decreases end,
        {
            end -= 1;
        }
        proof {
            lemma_pad_count_split(encoded@, end as int);
        }
        let stripped = encoded.as_str().substring_char(0, end).to_owned();
        proof {
            let full = base64_of(spec_docs_payload(query@, per_page as int, page as int));
            let t = spec_pad_count(full);
            assert(full.subrange(0, end as int) =~= full.take(end as int));
            assert(stripped@ == spec_strip_pad(full));
            assert(spec_repad(stripped@) =~= full) by {
                assert(stripped@.len() == elen - t);
                assert(elen % 4 == 0);
                assert(t <= 2);
                assert(((4 - stripped@.len() % 4) % 4) as nat == t);
                assert forall|j: int| 0 <= j < elen implies spec_repad(stripped@)[j] == full[j] by {
                    if j < elen - t {
                    } else {
                        assert(full[j] == '=');
                    }
                }
            }
        }
        stripped
    }

    /// Generates the adequate query for the question relating to a certain
    /// content source; the result never holds a literal space, and a docs
    /// custom search URL carries its pagination payload losslessly: its
    /// paginate parameter, re-padded with `=` to a multiple of four,
    /// base64-decodes to exactly the payload.
    pub fn generate_query_string(&self, query: &str, custom_q: Option<(i32, i32)>) -> (r: String)
        requires
            query@.len() <= 0xF0_0000,
        ensures
            r@ == spec_query_url(*self, query@, custom_q),
            forall|i: int| 0 <= i < r@.len() ==> #[trigger] r@[i] != ' ',
            *self is Docs ==> match custom_q {
                Some(c) => forall|t: Seq<char>|
                    base64_of(t) == spec_repad(spec_paginate_param(r@)) ==> t == spec_docs_payload(
                        query@,
                        c.0 as int,
                        c.1 as int,
                    ),
                None => true,
            },
    {
        match self {
            ContentSource::Docs => {
                match custom_q {
                    Some(c) => {
                        let mut r = self.base_url();
                        r.append("releases/search?paginate=");
                        let enc = ContentSource::parse_docs_custom_query(query, c.0, c.1);
                        r.append(enc.as_str());
                        proof {
                            reveal_strlit("https://docs.rs/");
                            reveal_strlit("releases/search?paginate=");
                            reveal_strlit("https://docs.rs/releases/search?paginate=");
                            assert("https://docs.rs/releases/search?paginate="@.len() == 41);
                            assert(spec_paginate_param(r@) =~= enc@);
                        }
                        r
                    },
                    None => {
                        let mut r = self.base_url();
                        r.append("releases/search?query=");
                        let q = ContentSource::parse_query(query);
                        r.append(q.as_str());
                        proof {
                            reveal_strlit("https://docs.rs/");
                            reveal_strlit("releases/search?query=");
                        }
                        r
                    },
                }
            },
            ContentSource::Lib => {
                let mut r = self.base_url();
                r.append("search?q=");
                let q = ContentSource::parse_query(query);
                r.append(q.as_str());
                proof {
                    reveal_strlit("https://lib.rs/");
                    reveal_strlit("search?q=");
                }
                r
            },
            ContentSource::Crates => {
                let mut r = self.base_url();
                r.append("search?q=");
                let q = ContentSource::parse_query(query);
                r.append(q.as_str());
                proof {
                    reveal_strlit("https://crates.io/");
                    reveal_strlit("search?q=");
                }
                r
            },
        }
    }

    /// To quickly get the docs variant.
    pub fn docs() -> (r: ContentSource)
        ensures
            r == ContentSource::Docs,
    {
        ContentSource::from("docs")
    }

    /// To quickly get the lib variant.
    pub fn lib() -> (r: ContentSource)
        ensures
            r == ContentSource::Lib,
    {
        proof {
            lemma_recognized_names();
        }
        ContentSource::from("lib")
    }

    /// To quickly get the crates variant.
    pub fn crates() -> (r: ContentSource)
        ensures
            r == ContentSource::Crates,
    {
        proof {
            lemma_recognized_names();
        }
        ContentSource::from("crates")
    }
}

impl From<&str> for ContentSource {
    fn from(target: &str) -> Self {
        ContentSource::resolve(target)
    }
}

impl vstd::std_specs::convert::FromSpecImpl<&str> for ContentSource {
    open spec fn obeys_from_spec() -> bool {
        true
    }

    open spec fn from_spec(v: &str) -> ContentSource {
        spec_resolve(v@)
    }
}

impl Default for ContentSource {
    /// The default source is docs.
    fn default() -> (r: Self)
        ensures
            r == ContentSource::Docs,
    {
        ContentSource::docs()
    }
}

/// Law: a name other than the three recognized ones resolves to `Docs`, and
/// resolution never fails.
pub proof fn lemma_resolve_defaults_to_docs(name: Seq<char>)
    requires
        name != "docs"@,
        name != "lib"@,
        name != "crates"@,
    ensures
        spec_resolve(name) == ContentSource::Docs,
{
}

/// Law: each recognized name picks its own variant. Resolution is a pure
/// function of the name, so repeated calls on the same name always return
/// equal values.
pub proof fn lemma_recognized_names()
    ensures
        spec_resolve("docs"@) == ContentSource::Docs,
        spec_resolve("lib"@) == ContentSource::Lib,
        spec_resolve("crates"@) == ContentSource::Crates,
{
    reveal_strlit("docs");
    reveal_strlit("lib");
    reveal_strlit("crates");
    assert("docs"@.len() == 4);
    assert("lib"@.len() == 3);
    assert("crates"@.len() == 6);
}

proof fn lemma_pad_count_split(s: Seq<char>, end: int)
    requires
        0 <= end <= s.len(),
        forall|j: int| end <= j < s.len() ==> s[j] == '=',
        end == 0 || s[end - 1] != '=',
    ensures
        spec_pad_count(s) == s.len() - end,
    decreases s.len(),
{
    if s.len() > 0 {
        if s[s.len() - 1] == '=' {
            assert(end < s.len());
            lemma_pad_count_split(s.drop_last(), end);
        } else {
            assert(end == s.len());
        }
    }
}

spec fn spec_pow10(k: nat) -> int
    decreases k,
{
    if k == 0 {
        1
    } else {
        10 * spec_pow10((k - 1) as nat)
    }
}

proof fn lemma_digits_le(n: int, k: nat)
    requires
        1 <= k,
        0 <= n < spec_pow10(k),
    ensures
        crate::strings::spec_nat_digits(n).len() <= k,
    decreases k,
{
    if n >= 10 {
        reveal_with_fuel(spec_pow10, 3);
        assert(spec_pow10(1) == 10);
        assert(k >= 2);
        assert(n / 10 < spec_pow10((k - 1) as nat)) by (nonlinear_arith)
            requires
                0 <= n,
                n < 10 * spec_pow10((k - 1) as nat),
        ;
        lemma_digits_le(n / 10, (k - 1) as nat);
    }
}

proof fn lemma_int_str_short(n: int)
    requires
        -0x8000_0000 <= n <= 0x7FFF_FFFF,
    ensures
        spec_int_str(n).len() <= 11,
{
    let m = if n < 0 { -n } else { n };
    reveal_with_fuel(spec_pow10, 12);
    assert(spec_pow10(10) == 10_000_000_000);
    lemma_digits_le(m, 10);
}

} // verus!
